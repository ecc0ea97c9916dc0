//! Reading the fields of a payload out of the members of a JSON object.
//! A field of the wrong shape is a structural failure: the reader says
//! which field and what was found.

use vstd::prelude::*;
use vstd::string::*;
use crate::json::{find_member, member_of, JsonField, JsonFieldView, Members, MembersView, members_view};
use crate::models::todo::{Priority, TodoStatus};

verus! {

/// The name of the kind of a value, as failure messages give it.
pub open spec fn kind_name(f: JsonFieldView) -> Seq<char> {
    match f {
        JsonFieldView::Null => "null"@,
        JsonFieldView::Bool => "boolean"@,
        JsonFieldView::Number => "number"@,
        JsonFieldView::Text(_) => "string"@,
        JsonFieldView::Array => "array"@,
        JsonFieldView::Object => "object"@,
    }
}

/// The message for a field that the payload lacks.
pub open spec fn missing_field(field: Seq<char>) -> Seq<char> {
    "missing field `"@ + field + "`"@
}

/// The message for a field that holds a value of the wrong kind.
pub open spec fn wrong_type(field: Seq<char>, found: JsonFieldView) -> Seq<char> {
    field + ": invalid type: "@ + kind_name(found) + ", expected a string"@
}

/// The message for a field that names no variant; `expected` lists the
/// names that it may hold.
pub open spec fn unknown_variant(field: Seq<char>, found: Seq<char>, expected: Seq<char>) -> Seq<
    char,
> {
    field + ": unknown variant `"@ + found + "`, expected one of "@ + expected
}

/// The names of the priorities, as failure messages list them.
pub open spec fn priority_names() -> Seq<char> {
    "`Low`, `Medium`, `High`"@
}

/// The names of the statuses, as failure messages list them.
pub open spec fn status_names() -> Seq<char> {
    "`Todo`, `Doing`, `Done`"@
}

/// A field that must hold a string.
pub open spec fn required_text(m: MembersView, field: Seq<char>) -> Result<Seq<char>, Seq<char>> {
    match member_of(m, field) {
        None => Err(missing_field(field)),
        Some(JsonFieldView::Text(s)) => Ok(s),
        Some(found) => Err(wrong_type(field, found)),
    }
}

/// A field that holds a string, or is null or absent.
pub open spec fn optional_text(m: MembersView, field: Seq<char>) -> Result<
    Option<Seq<char>>,
    Seq<char>,
> {
    match member_of(m, field) {
        None => Ok(None),
        Some(JsonFieldView::Null) => Ok(None),
        Some(JsonFieldView::Text(s)) => Ok(Some(s)),
        Some(found) => Err(wrong_type(field, found)),
    }
}

/// The priority that a text names; any other text is a failure.
pub open spec fn priority_of(field: Seq<char>, s: Seq<char>) -> Result<Priority, Seq<char>> {
    match Priority::from_name(s) {
        Some(priority) => Ok(priority),
        None => Err(unknown_variant(field, s, priority_names())),
    }
}

/// The status that a text names; any other text is a failure.
pub open spec fn status_of(field: Seq<char>, s: Seq<char>) -> Result<TodoStatus, Seq<char>> {
    match TodoStatus::from_name(s) {
        Some(status) => Ok(status),
        None => Err(unknown_variant(field, s, status_names())),
    }
}

/// A field that must name a priority.
pub open spec fn required_priority(m: MembersView, field: Seq<char>) -> Result<
    Priority,
    Seq<char>,
> {
    match required_text(m, field) {
        Err(e) => Err(e),
        Ok(s) => priority_of(field, s),
    }
}

/// A field that names a priority, or is null or absent.
pub open spec fn optional_priority(m: MembersView, field: Seq<char>) -> Result<
    Option<Priority>,
    Seq<char>,
> {
    match optional_text(m, field) {
        Err(e) => Err(e),
        Ok(None) => Ok(None),
        Ok(Some(s)) => match priority_of(field, s) {
            Ok(priority) => Ok(Some(priority)),
            Err(e) => Err(e),
        },
    }
}

/// A field that names a status, or is null or absent.
pub open spec fn optional_status(m: MembersView, field: Seq<char>) -> Result<
    Option<TodoStatus>,
    Seq<char>,
> {
    match optional_text(m, field) {
        Err(e) => Err(e),
        Ok(None) => Ok(None),
        Ok(Some(s)) => match status_of(field, s) {
            Ok(status) => Ok(Some(status)),
            Err(e) => Err(e),
        },
    }
}

/// The view of a text that was read, or of the failure.
pub open spec fn text_result_view(r: Result<String, String>) -> Result<Seq<char>, Seq<char>> {
    match r {
        Ok(s) => Ok(s@),
        Err(e) => Err(e@),
    }
}

/// The view of an optional text that was read, or of the failure.
pub open spec fn optional_text_result_view(r: Result<Option<String>, String>) -> Result<
    Option<Seq<char>>,
    Seq<char>,
> {
    match r {
        Ok(Some(s)) => Ok(Some(s@)),
        Ok(None) => Ok(None),
        Err(e) => Err(e@),
    }
}

/// The view of a value that was read, or of the failure.
pub open spec fn value_result_view<T>(r: Result<T, String>) -> Result<T, Seq<char>> {
    match r {
        Ok(v) => Ok(v),
        Err(e) => Err(e@),
    }
}

fn kind_of(f: &JsonField) -> (s: &'static str)
    ensures
        s@ == kind_name(f@),
{
    match f {
        JsonField::Null => "null",
        JsonField::Bool => "boolean",
        JsonField::Number => "number",
        JsonField::Text(_) => "string",
        JsonField::Array => "array",
        JsonField::Object => "object",
    }
}

fn wrong_type_message(field: &str, found: &JsonField) -> (s: String)
    ensures
        s@ == wrong_type(field@, found@),
{
    String::from_str(field).concat(": invalid type: ").concat(kind_of(found)).concat(
        ", expected a string",
    )
}

fn unknown_variant_message(field: &str, found: &str, expected: &str) -> (s: String)
    ensures
        s@ == unknown_variant(field@, found@, expected@),
{
    String::from_str(field).concat(": unknown variant `").concat(found).concat(
        "`, expected one of ",
    ).concat(expected)
}

/// Reads a field that must hold a string.
pub fn read_required_text(members: &Members, field: &str) -> (r: Result<String, String>)
    ensures
        text_result_view(r) == required_text(members_view(members@), field@),
{
    match find_member(members, field) {
        None => Err(String::from_str("missing field `").concat(field).concat("`")),
        Some(JsonField::Text(s)) => Ok(s.clone()),
        Some(found) => Err(wrong_type_message(field, found)),
    }
}

/// Reads a field that holds a string, or is null or absent.
pub fn read_optional_text(members: &Members, field: &str) -> (r: Result<Option<String>, String>)
    ensures
        optional_text_result_view(r) == optional_text(members_view(members@), field@),
{
    match find_member(members, field) {
        None => Ok(None),
        Some(JsonField::Null) => Ok(None),
        Some(JsonField::Text(s)) => Ok(Some(s.clone())),
        Some(found) => Err(wrong_type_message(field, found)),
    }
}

/// Strict decoding of the name of a priority that stands in `field`.
pub fn read_priority(field: &str, s: &str) -> (r: Result<Priority, String>)
    ensures
        value_result_view(r) == priority_of(field@, s@),
{
    match Priority::from_str(s) {
        Ok(priority) => Ok(priority),
        Err(_) => Err(unknown_variant_message(field, s, "`Low`, `Medium`, `High`")),
    }
}

/// Strict decoding of the name of a status that stands in `field`.
pub fn read_status(field: &str, s: &str) -> (r: Result<TodoStatus, String>)
    ensures
        value_result_view(r) == status_of(field@, s@),
{
    match TodoStatus::from_str(s) {
        Ok(status) => Ok(status),
        Err(_) => Err(unknown_variant_message(field, s, "`Todo`, `Doing`, `Done`")),
    }
}

/// Reads a field that must name a priority.
pub fn read_required_priority(members: &Members, field: &str) -> (r: Result<Priority, String>)
    ensures
        value_result_view(r) == required_priority(members_view(members@), field@),
{
    match read_required_text(members, field) {
        Err(e) => Err(e),
        Ok(s) => read_priority(field, s.as_str()),
    }
}

/// Reads a field that names a priority, or is null or absent.
pub fn read_optional_priority(members: &Members, field: &str) -> (r: Result<
    Option<Priority>,
    String,
>)
    ensures
        value_result_view(r) == optional_priority(members_view(members@), field@),
{
    match read_optional_text(members, field) {
        Err(e) => Err(e),
        Ok(None) => Ok(None),
        Ok(Some(s)) => match read_priority(field, s.as_str()) {
            Ok(priority) => Ok(Some(priority)),
            Err(e) => Err(e),
        },
    }
}

/// Reads a field that names a status, or is null or absent.
pub fn read_optional_status(members: &Members, field: &str) -> (r: Result<
    Option<TodoStatus>,
    String,
>)
    ensures
        value_result_view(r) == optional_status(members_view(members@), field@),
{
    match read_optional_text(members, field) {
        Err(e) => Err(e),
        Ok(None) => Ok(None),
        Ok(Some(s)) => match read_status(field, s.as_str()) {
            Ok(status) => Ok(Some(status)),
            Err(e) => Err(e),
        },
    }
}

} // verus!
