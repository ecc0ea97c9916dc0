//! Reading JSON documents: the parser is `serde_json`; what the payload
//! decoders read of a document is held here as plain values.

use vstd::prelude::*;
use crate::text::str_eq;

verus! {

/// What a member of a JSON object holds, as far as the payload decoders
/// look: the kind of the value and, of a string, its text.
#[derive(Debug)]
pub enum JsonField {
    Null,
    Bool,
    Number,
    Text(String),
    Array,
    Object,
}

/// The mathematical content of a [`JsonField`].
pub enum JsonFieldView {
    Null,
    Bool,
    Number,
    Text(Seq<char>),
    Array,
    Object,
}

impl View for JsonField {
    type V = JsonFieldView;

    open spec fn view(&self) -> JsonFieldView {
        match self {
            JsonField::Null => JsonFieldView::Null,
            JsonField::Bool => JsonFieldView::Bool,
            JsonField::Number => JsonFieldView::Number,
            JsonField::Text(s) => JsonFieldView::Text(s@),
            JsonField::Array => JsonFieldView::Array,
            JsonField::Object => JsonFieldView::Object,
        }
    }
}

/// The members of a JSON object: name and value. The parser hands out
/// each name once; of members put together otherwise, the first of a name
/// is the one that counts.
pub type Members = Vec<(String, JsonField)>;

/// The mathematical content of [`Members`].
pub type MembersView = Seq<(Seq<char>, JsonFieldView)>;

/// The views of the members of an object.
pub open spec fn members_view(m: Seq<(String, JsonField)>) -> MembersView {
    Seq::new(m.len(), |i: int| (m[i].0@, m[i].1@))
}

/// The views of the objects of a list.
pub open spec fn member_lists_view(l: Seq<Members>) -> Seq<MembersView> {
    Seq::new(l.len(), |i: int| members_view(l[i]@))
}

/// What `serde_json` makes of a document that is to be one object: its
/// members, or the text of the parser's error.
pub uninterp spec fn json_object(bytes: Seq<u8>) -> Result<MembersView, Seq<char>>;

/// What `serde_json` makes of a document that is to be a list of objects:
/// the members of each, or the text of the parser's error.
pub uninterp spec fn json_object_list(bytes: Seq<u8>) -> Result<Seq<MembersView>, Seq<char>>;

/// A path to a text in a JSON document: into the member `list`, to its
/// element `item`, into the members `holder` and `parts`, to the element
/// `part`, and to the member `text`.
#[derive(Debug, Clone, Copy)]
pub struct TextPath<'a> {
    pub list: &'a str,
    pub item: usize,
    pub holder: &'a str,
    pub parts: &'a str,
    pub part: usize,
    pub text: &'a str,
}

/// The mathematical content of a [`TextPath`].
pub struct TextPathView {
    pub list: Seq<char>,
    pub item: nat,
    pub holder: Seq<char>,
    pub parts: Seq<char>,
    pub part: nat,
    pub text: Seq<char>,
}

impl<'a> View for TextPath<'a> {
    type V = TextPathView;

    open spec fn view(&self) -> TextPathView {
        TextPathView {
            list: self.list@,
            item: self.item as nat,
            holder: self.holder@,
            parts: self.parts@,
            part: self.part as nat,
            text: self.text@,
        }
    }
}

/// What `serde_json` finds in a document along a path: the text of the
/// string that stands there, nothing where no string stands there, or the
/// text of the parser's error. Every step of the path is an indexing of a
/// `serde_json::Value`: by name into an object, by position into an array.
pub uninterp spec fn json_text_at(bytes: Seq<u8>, path: TextPathView) -> Result<
    Option<Seq<char>>,
    Seq<char>,
>;

/// A text as `serde_json` writes it into a document: in double quotes,
/// with the characters escaped that JSON asks to escape.
pub uninterp spec fn json_quoted(text: Seq<char>) -> Seq<char>;

/// Writes `text` as a JSON string: the `Display` form of the
/// `serde_json::Value` that holds it. Trusted: the result is what
/// `serde_json` writes for this text, and for the same text always the
/// same.
#[verifier::external_body]
pub(crate) fn quote(text: &str) -> (quoted: String)
    ensures
        quoted@ == json_quoted(text@),
{
    serde_json::Value::from(text).to_string()
}

/// The view of what the parser made of a payload.
pub open spec fn parsed_view(parsed: Result<Members, String>) -> Result<MembersView, Seq<char>> {
    match parsed {
        Ok(m) => Ok(members_view(m@)),
        Err(e) => Err(e@),
    }
}

/// The view of what the parser made of a list of objects.
pub open spec fn parsed_list_view(parsed: Result<Vec<Members>, String>) -> Result<
    Seq<MembersView>,
    Seq<char>,
> {
    match parsed {
        Ok(l) => Ok(member_lists_view(l@)),
        Err(e) => Err(e@),
    }
}

/// The view of what a lookup found.
pub open spec fn lookup_view(lookup: Result<Option<String>, String>) -> Result<
    Option<Seq<char>>,
    Seq<char>,
> {
    match lookup {
        Ok(Some(t)) => Ok(Some(t@)),
        Ok(None) => Ok(None),
        Err(e) => Err(e@),
    }
}

/// Parses `bytes` with `serde_json::from_slice` as one JSON object and
/// hands out its members. Trusted: the result is what the parser makes of
/// these bytes, and of the same bytes always the same.
#[verifier::external_body]
pub(crate) fn read_object(bytes: &[u8]) -> (r: Result<Members, String>)
    ensures
        parsed_view(r) == json_object(bytes@),
{
    match serde_json::from_slice::<serde_json::Map<String, serde_json::Value>>(bytes) {
        Ok(m) => Ok(m.into_iter().map(|(k, v)| (k, match v {
            serde_json::Value::Null => JsonField::Null,
            serde_json::Value::Bool(_) => JsonField::Bool,
            serde_json::Value::Number(_) => JsonField::Number,
            serde_json::Value::String(s) => JsonField::Text(s),
            serde_json::Value::Array(_) => JsonField::Array,
            serde_json::Value::Object(_) => JsonField::Object,
        })).collect()),
        Err(e) => Err(e.to_string()),
    }
}

/// Parses `bytes` with `serde_json::from_slice` as a JSON array of objects
/// and hands out the members of each. Trusted: the result is what the
/// parser makes of these bytes, and of the same bytes always the same.
#[verifier::external_body]
pub(crate) fn read_object_list(bytes: &[u8]) -> (r: Result<Vec<Members>, String>)
    ensures
        parsed_list_view(r) == json_object_list(bytes@),
{
    match serde_json::from_slice::<Vec<serde_json::Map<String, serde_json::Value>>>(bytes) {
        Ok(l) => Ok(l.into_iter().map(|m| m.into_iter().map(|(k, v)| (k, match v {
            serde_json::Value::Null => JsonField::Null,
            serde_json::Value::Bool(_) => JsonField::Bool,
            serde_json::Value::Number(_) => JsonField::Number,
            serde_json::Value::String(s) => JsonField::Text(s),
            serde_json::Value::Array(_) => JsonField::Array,
            serde_json::Value::Object(_) => JsonField::Object,
        })).collect()).collect()),
        Err(e) => Err(e.to_string()),
    }
}

/// Parses `bytes` with `serde_json::from_slice` and goes down the document
/// by indexing the `serde_json::Value`, step by step: the member `list`,
/// its element `item`, the members `holder` and `parts`, the element
/// `part`, the member `text`. Hands out the text where `Value::as_str`
/// finds a string there. Trusted: the result is what the parser and the
/// indexing make of these arguments, and of the same arguments always the
/// same. Indexing does not panic: a step that cannot be taken gives null.
#[verifier::external_body]
pub(crate) fn read_text_at(bytes: &[u8], path: TextPath) -> (r: Result<Option<String>, String>)
    ensures
        lookup_view(r) == json_text_at(bytes@, path@),
{
    match serde_json::from_slice::<serde_json::Value>(bytes) {
        Ok(v) => Ok(
            v[path.list][path.item][path.holder][path.parts][path.part][path.text]
                .as_str()
                .map(|t| t.to_string()),
        ),
        Err(e) => Err(e.to_string()),
    }
}

/// The first member of the name `name`, if there is one.
pub fn find_member<'a>(members: &'a Members, name: &str) -> (r: Option<&'a JsonField>)
    ensures
        match r {
            Some(f) => member_of(members_view(members@), name@) == Some(f@),
            None => member_of(members_view(members@), name@) is None,
        },
{
    let n: usize = members.len();
    let mut i: usize = 0;
    while i < n
        invariant
            i <= n,
            n == members@.len(),
            forall|j: int| 0 <= j < i ==> members@[j].0@ != name@,
        decreases n - i,
    {
        if str_eq(members[i].0.as_str(), name) {
            proof {
                lemma_member_of(members_view(members@), name@, i as int);
            }
            return Some(&members[i].1);
        }
        i += 1;
    }
    proof {
        lemma_member_of(members_view(members@), name@, n as int);
    }
    None
}

/// `i` is the index of the first member of the name `name`.
pub open spec fn is_first_member(m: MembersView, name: Seq<char>, i: int) -> bool {
    &&& 0 <= i < m.len()
    &&& m[i].0 == name
    &&& forall|j: int| 0 <= j < i ==> (#[trigger] m[j]).0 != name
}

/// The value of the first member of the name `name`, if there is one.
pub open spec fn member_of(m: MembersView, name: Seq<char>) -> Option<JsonFieldView> {
    if exists|i: int| is_first_member(m, name, i) {
        Some(m[choose|i: int| is_first_member(m, name, i)].1)
    } else {
        None
    }
}

/// What [`member_of`] gives, from the index of the first member of that
/// name, or from the length where there is none.
pub proof fn lemma_member_of(m: MembersView, name: Seq<char>, i: int)
    requires
        is_first_member(m, name, i) || (i == m.len() && forall|j: int|
            0 <= j < m.len() ==> (#[trigger] m[j]).0 != name),
    ensures
        i < m.len() ==> member_of(m, name) == Some(m[i].1),
        i == m.len() ==> member_of(m, name) is None,
{
    if is_first_member(m, name, i) {
        let c = choose|c: int| is_first_member(m, name, c);
        assert(is_first_member(m, name, c));
        if c < i {
            assert(m[c].0 != name);
        }
        if i < c {
            assert(m[i].0 != name);
        }
    } else {
        if exists|c: int| is_first_member(m, name, c) {
            let c = choose|c: int| is_first_member(m, name, c);
            assert(is_first_member(m, name, c));
            assert(m[c].0 != name);
        }
    }
}

} // verus!
