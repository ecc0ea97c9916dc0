use todo_service::text::{
    char_is_whitespace, chars_of, find_cut_point, str_before_first, str_eq, str_is_blank,
};

#[test]
fn equal_texts_are_equal() {
    assert!(str_eq("", ""));
    assert!(str_eq("title", "title"));
    assert!(str_eq("héllo", "héllo"));
    assert!(!str_eq("title", "titlE"));
    assert!(!str_eq("title", "titles"));
    assert!(!str_eq("", " "));
}

#[test]
fn chars_are_handed_out_in_order() {
    assert_eq!(chars_of(""), Vec::<char>::new());
    assert_eq!(chars_of("añ b"), vec!['a', 'ñ', ' ', 'b']);
}

#[test]
fn white_space_is_what_the_standard_library_says() {
    for code in 0u32..0x11000 {
        if let Some(c) = char::from_u32(code) {
            assert_eq!(char_is_whitespace(c), c.is_whitespace(), "U+{:04X}", code);
        }
    }
}

#[test]
fn blank_texts() {
    assert!(str_is_blank(""));
    assert!(str_is_blank("   "));
    assert!(str_is_blank(" \t\r\n\u{a0}\u{3000}"));
    assert!(!str_is_blank(" a "));
    assert!(!str_is_blank("\u{200b}"));
    for s in ["", " ", "x", " x", "\t\t", "a b", "\u{2003}"] {
        assert_eq!(str_is_blank(s), s.trim().is_empty(), "{:?}", s);
    }
}

#[test]
fn cut_point_is_the_first_occurrence() {
    let s = chars_of("abcabc");
    assert_eq!(find_cut_point(&s, &chars_of("bc")), 1);
    assert_eq!(find_cut_point(&s, &chars_of("abc")), 0);
    assert_eq!(find_cut_point(&s, &chars_of("c")), 2);
    assert_eq!(find_cut_point(&s, &chars_of("cab")), 2);
    assert_eq!(find_cut_point(&s, &chars_of("x")), 6);
    assert_eq!(find_cut_point(&s, &chars_of("abcabcd")), 6);
    assert_eq!(find_cut_point(&s, &chars_of("")), 0);
    assert_eq!(find_cut_point(&chars_of(""), &chars_of("a")), 0);
}

#[test]
fn text_before_the_first_occurrence() {
    assert_eq!(str_before_first("expected value at line 1 column 2", " at line "), "expected value");
    assert_eq!(str_before_first("no position here", " at line "), "no position here");
    assert_eq!(str_before_first(" at line 3", " at line "), "");
    assert_eq!(str_before_first("", " at line "), "");
    assert_eq!(str_before_first("a at line 1 at line 2", " at line "), "a");
    assert_eq!(str_before_first("größe at line 7", " at line "), "größe");
    for s in ["x at line 1", "at line", " at line", "ab at lin at line 9", "日本 at line 3 column 4"] {
        assert_eq!(str_before_first(s, " at line "), s.split(" at line ").next().unwrap(), "{:?}", s);
    }
}
