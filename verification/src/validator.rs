//! The validation pipeline: from the bytes of a request to a command that
//! was decoded and checked, or to the violations found.
//!
//! A payload that is not of the expected shape and a payload that breaks
//! a rule are reported in one form, as violations by field. A failure of
//! shape stands under the field `payload`, without the position at which
//! the parser met it.

use vstd::prelude::*;
use vstd::string::*;
use crate::error::{with_message, AppError, AppErrorView, ValidationErrors};
use crate::json::{json_object, members_view, parsed_view, read_object, Members, MembersView};
use crate::text::{before_first, str_before_first};

verus! {

/// A command of which the rules were found to hold.
#[derive(Debug)]
pub struct ValidatedJson<T>(pub T);

/// A command that can be read out of the members of a JSON object.
pub trait Decode: Sized + View {
    /// What the members decode to: the content of the command, or the
    /// message that says what is wrong with their shape.
    spec fn decoded(members: MembersView) -> Result<Self::V, Seq<char>>;

    /// Reads the command out of the members of an object.
    fn decode(members: &Members) -> (r: Result<Self, String>)
        ensures
            match r {
                Ok(command) => Self::decoded(members_view(members@)) == Ok::<Self::V, Seq<char>>(
                    command@,
                ),
                Err(e) => Self::decoded(members_view(members@)) == Err::<Self::V, Seq<char>>(e@),
            },
    ;
}

/// A command with rules on its fields.
pub trait Validate: View {
    /// Every violation in the command, by field: no rule is passed over
    /// because an earlier one was broken.
    spec fn violations(command: Self::V) -> Map<Seq<char>, Seq<Seq<char>>>;

    /// Checks every rule, and fails with all violations if there is one.
    fn validate(&self) -> (r: Result<(), ValidationErrors>)
        ensures
            match r {
                Ok(_) => Self::violations(self@) =~= Map::<Seq<char>, Seq<Seq<char>>>::empty(),
                Err(e) => e@ == Self::violations(self@) && !(e@ =~= Map::<
                    Seq<char>,
                    Seq<Seq<char>>,
                >::empty()),
            },
    ;
}

/// The field under which a failure of shape is reported.
pub open spec fn payload_field() -> Seq<char> {
    "payload"@
}

/// What introduces the position in a parser's message.
pub open spec fn position_marker() -> Seq<char> {
    " at line "@
}

/// The error for a payload that is not of the expected shape: the message
/// up to the position, under the field `payload`.
pub open spec fn payload_error(raw: Seq<char>) -> AppErrorView {
    AppErrorView::InvalidInput(
        with_message(Map::empty(), payload_field(), before_first(raw, position_marker())),
    )
}

/// The outcome of the pipeline on what the parser made of the payload.
pub open spec fn validated<T: Decode + Validate>(
    parsed: Result<MembersView, Seq<char>>,
) -> Result<T::V, AppErrorView> {
    match parsed {
        Err(raw) => Err(payload_error(raw)),
        Ok(members) => match T::decoded(members) {
            Err(message) => Err(payload_error(message)),
            Ok(command) => if T::violations(command) =~= Map::<Seq<char>, Seq<Seq<char>>>::empty() {
                Ok(command)
            } else {
                Err(AppErrorView::InvalidInput(T::violations(command)))
            },
        },
    }
}

/// The error for a payload that is not of the expected shape.
pub fn payload_rejection(raw: &str) -> (e: AppError)
    ensures
        e@ == payload_error(raw@),
{
    let message = str_before_first(raw, " at line ");
    let mut errors = ValidationErrors::new();
    errors.add("payload", message.as_str());
    AppError::InvalidInput(errors)
}

impl<T: Decode + Validate> ValidatedJson<T> {
    /// Decodes and checks a payload that the parser has read: the command
    /// where the shape is right and every rule holds, else the error.
    pub fn from_parsed(parsed: Result<Members, String>) -> (r: Result<ValidatedJson<T>, AppError>)
        ensures
            match r {
                Ok(v) => validated::<T>(parsed_view(parsed)) == Ok::<T::V, AppErrorView>(v.0@),
                Err(e) => validated::<T>(parsed_view(parsed)) == Err::<T::V, AppErrorView>(e@),
            },
    {
        match parsed {
            Err(raw) => Err(payload_rejection(raw.as_str())),
            Ok(members) => match T::decode(&members) {
                Err(message) => Err(payload_rejection(message.as_str())),
                Ok(command) => match command.validate() {
                    Err(errors) => Err(AppError::InvalidInput(errors)),
                    Ok(_) => Ok(ValidatedJson(command)),
                },
            },
        }
    }

    /// The whole pipeline on the bytes of a request.
    pub fn from_request(body: &[u8]) -> (r: Result<ValidatedJson<T>, AppError>)
        ensures
            match r {
                Ok(v) => validated::<T>(json_object(body@)) == Ok::<T::V, AppErrorView>(v.0@),
                Err(e) => validated::<T>(json_object(body@)) == Err::<T::V, AppErrorView>(e@),
            },
    {
        Self::from_parsed(read_object(body))
    }
}

} // verus!
