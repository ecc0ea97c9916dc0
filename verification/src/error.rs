//! The error taxonomy and what the boundary shows of each error.

use vstd::prelude::*;
use vstd::string::*;
use crate::text::str_eq;

verus! {

/// The status that goes with a payload that failed validation.
pub const STATUS_BAD_REQUEST: u16 = 400;

/// The status that goes with an identifier that names no record.
pub const STATUS_NOT_FOUND: u16 = 404;

/// The status that goes with an unexpected failure.
pub const STATUS_INTERNAL_SERVER_ERROR: u16 = 500;

/// The views of a list of messages.
pub open spec fn messages_view(v: Seq<String>) -> Seq<Seq<char>> {
    Seq::new(v.len(), |i: int| v[i]@)
}

/// The violations `m` with one more message against `field`, after those
/// that the field already has.
pub open spec fn with_message(
    m: Map<Seq<char>, Seq<Seq<char>>>,
    field: Seq<char>,
    message: Seq<char>,
) -> Map<Seq<char>, Seq<Seq<char>>> {
    let earlier = if m.contains_key(field) {
        m[field]
    } else {
        Seq::empty()
    };
    m.insert(field, earlier.push(message))
}

/// The violations found in a payload: for each field at fault, the
/// messages against it in the order in which they were found. The fields
/// themselves stand in no order.
#[derive(Debug)]
pub struct ValidationErrors {
    entries: Vec<(String, Vec<String>)>,
}

/// A copy of a list of messages.
fn clone_messages(v: &Vec<String>) -> (c: Vec<String>)
    ensures
        messages_view(c@) == messages_view(v@),
{
    let mut c: Vec<String> = Vec::new();
    let n: usize = v.len();
    let mut i: usize = 0;
    while i < n
        invariant
            i <= n,
            n == v@.len(),
            c@.len() == i,
            forall|j: int| 0 <= j < i ==> c@[j]@ == v@[j]@,
        decreases n - i,
    {
        c.push(v[i].clone());
        i += 1;
    }
    assert(messages_view(c@) =~= messages_view(v@));
    c
}

impl ValidationErrors {
    #[verifier::type_invariant]
    spec fn distinct_fields(self) -> bool {
        Self::distinct(self.entries@)
    }

    spec fn distinct(entries: Seq<(String, Vec<String>)>) -> bool {
        forall|i: int, j: int|
            0 <= i < entries.len() && 0 <= j < entries.len() && i != j ==> (#[trigger] entries[i]).0@
                != (#[trigger] entries[j]).0@
    }

    spec fn has_field(entries: Seq<(String, Vec<String>)>, field: Seq<char>, i: int) -> bool {
        0 <= i < entries.len() && entries[i].0@ == field
    }

    spec fn map_of(entries: Seq<(String, Vec<String>)>) -> Map<Seq<char>, Seq<Seq<char>>> {
        Map::new(
            |field: Seq<char>| exists|i: int| Self::has_field(entries, field, i),
            |field: Seq<char>|
                messages_view(
                    entries[choose|i: int| Self::has_field(entries, field, i)].1@,
                ),
        )
    }

    /// The mapping from each field at fault to the messages against it.
    pub closed spec fn view(&self) -> Map<Seq<char>, Seq<Seq<char>>> {
        Self::map_of(self.entries@)
    }

    proof fn lemma_entry(entries: Seq<(String, Vec<String>)>, i: int)
        requires
            Self::distinct(entries),
            0 <= i < entries.len(),
        ensures
            Self::map_of(entries).contains_key(entries[i].0@),
            Self::map_of(entries)[entries[i].0@] == messages_view(entries[i].1@),
    {
        let field = entries[i].0@;
        assert(Self::has_field(entries, field, i));
        let c = choose|c: int| Self::has_field(entries, field, c);
        assert(Self::has_field(entries, field, c));
        assert(c == i);
    }

    /// No violation.
    pub fn new() -> (e: ValidationErrors)
        ensures
            e@ == Map::<Seq<char>, Seq<Seq<char>>>::empty(),
    {
        let e = ValidationErrors { entries: Vec::new() };
        assert(e@ =~= Map::<Seq<char>, Seq<Seq<char>>>::empty());
        e
    }

    /// Whether no violation was recorded.
    pub fn is_empty(&self) -> (b: bool)
        ensures
            b == (self@ =~= Map::<Seq<char>, Seq<Seq<char>>>::empty()),
    {
        proof {
            use_type_invariant(self);
            if self.entries@.len() > 0 {
                Self::lemma_entry(self.entries@, 0);
            }
        }
        self.entries.len() == 0
    }

    fn position(entries: &Vec<(String, Vec<String>)>, field: &str) -> (r: Option<usize>)
        ensures
            match r {
                Some(i) => Self::has_field(entries@, field@, i as int),
                None => forall|i: int| !Self::has_field(entries@, field@, i),
            },
    {
        let n: usize = entries.len();
        let mut i: usize = 0;
        while i < n
            invariant
                i <= n,
                n == entries@.len(),
                forall|j: int| 0 <= j < i ==> entries@[j].0@ != field@,
            decreases n - i,
        {
            if str_eq(entries[i].0.as_str(), field) {
                return Some(i);
            }
            i += 1;
        }
        None
    }

    /// Records one more message against `field`, after those that the
    /// field already has.
    pub fn add(&mut self, field: &str, message: &str)
        ensures
            final(self)@ == with_message(old(self)@, field@, message@),
    {
        proof {
            use_type_invariant(&*self);
        }
        let ghost before = self.entries@;
        let mut entries: Vec<(String, Vec<String>)> = Vec::new();
        core::mem::swap(&mut self.entries, &mut entries);
        match Self::position(&entries, field) {
            Some(i) => {
                let (name, mut messages) = entries.remove(i);
                messages.push(message.to_owned());
                entries.insert(i, (name, messages));
                proof {
                    let after = entries@;
                    assert(after.len() == before.len());
                    assert forall|j: int| 0 <= j < after.len() implies (#[trigger] after[j]).0@
                        == before[j].0@ by {}
                    assert(Self::distinct(after));
                    Self::lemma_entry(before, i as int);
                    Self::lemma_entry(after, i as int);
                    assert(messages_view(after[i as int].1@) =~= messages_view(
                        before[i as int].1@,
                    ).push(message@));
                    assert forall|f: Seq<char>| #[trigger]
                        Self::map_of(after).contains_key(f) <==> Self::map_of(before).insert(
                            field@,
                            messages_view(after[i as int].1@),
                        ).contains_key(f) by {
                        if Self::map_of(after).contains_key(f) {
                            let j = choose|j: int| Self::has_field(after, f, j);
                            assert(Self::has_field(before, f, j));
                        }
                        if Self::map_of(before).contains_key(f) {
                            let j = choose|j: int| Self::has_field(before, f, j);
                            assert(Self::has_field(after, f, j));
                        }
                    }
                    assert forall|f: Seq<char>| #[trigger]
                        Self::map_of(after).contains_key(f) implies Self::map_of(after)[f]
                        == Self::map_of(before).insert(field@, messages_view(after[i as int].1@))[f] by {
                        let j = choose|j: int| Self::has_field(after, f, j);
                        Self::lemma_entry(after, j);
                        Self::lemma_entry(before, j);
                        if j != i {
                            assert(after[j] == before[j]);
                        }
                    }
                    assert(Self::map_of(after) =~= Self::map_of(before).insert(
                        field@,
                        messages_view(after[i as int].1@),
                    ));
                }
            },
            None => {
                let mut messages: Vec<String> = Vec::new();
                messages.push(message.to_owned());
                entries.push((field.to_owned(), messages));
                proof {
                    let after = entries@;
                    let last = before.len() as int;
                    assert(after.len() == last + 1);
                    assert forall|j: int| 0 <= j < last implies #[trigger] after[j] == before[j] by {}
                    assert(Self::distinct(after)) by {
                        assert forall|a: int, b: int|
                            0 <= a < after.len() && 0 <= b < after.len() && a != b implies (
                        #[trigger] after[a]).0@ != (#[trigger] after[b]).0@ by {
                            if a < last && b < last {
                                assert(after[a] == before[a] && after[b] == before[b]);
                            } else if a < last {
                                assert(!Self::has_field(before, field@, a));
                                assert(after[a] == before[a]);
                            } else {
                                assert(!Self::has_field(before, field@, b));
                                assert(after[b] == before[b]);
                            }
                        }
                    }
                    Self::lemma_entry(after, last);
                    assert(messages_view(after[last].1@) =~= Seq::<Seq<char>>::empty().push(
                        message@,
                    ));
                    assert(!Self::map_of(before).contains_key(field@));
                    assert forall|f: Seq<char>| #[trigger]
                        Self::map_of(after).contains_key(f) <==> Self::map_of(before).insert(
                            field@,
                            messages_view(after[last].1@),
                        ).contains_key(f) by {
                        if Self::map_of(after).contains_key(f) {
                            let j = choose|j: int| Self::has_field(after, f, j);
                            if j < last {
                                assert(Self::has_field(before, f, j));
                            }
                        }
                        if Self::map_of(before).contains_key(f) {
                            let j = choose|j: int| Self::has_field(before, f, j);
                            assert(Self::has_field(after, f, j));
                        }
                    }
                    assert forall|f: Seq<char>| #[trigger]
                        Self::map_of(after).contains_key(f) implies Self::map_of(after)[f]
                        == Self::map_of(before).insert(field@, messages_view(after[last].1@))[f] by {
                        let j = choose|j: int| Self::has_field(after, f, j);
                        Self::lemma_entry(after, j);
                        if j < last {
                            Self::lemma_entry(before, j);
                        }
                    }
                    assert(Self::map_of(after) =~= Self::map_of(before).insert(
                        field@,
                        messages_view(after[last].1@),
                    ));
                }
            },
        }
        core::mem::swap(&mut self.entries, &mut entries);
    }

    /// The messages against `field`, if the field is at fault.
    pub fn get(&self, field: &str) -> (r: Option<Vec<String>>)
        ensures
            match r {
                Some(m) => self@.contains_key(field@) && messages_view(m@) == self@[field@],
                None => !self@.contains_key(field@),
            },
    {
        proof {
            use_type_invariant(self);
        }
        match Self::position(&self.entries, field) {
            Some(i) => {
                proof {
                    Self::lemma_entry(self.entries@, i as int);
                }
                Some(clone_messages(&self.entries[i].1))
            },
            None => None,
        }
    }

    /// The fields at fault, each once and with its messages.
    pub fn entries(&self) -> (r: Vec<(String, Vec<String>)>)
        ensures
            forall|i: int, j: int|
                0 <= i < r@.len() && 0 <= j < r@.len() && i != j ==> (#[trigger] r@[i]).0@ != (
                #[trigger] r@[j]).0@,
            forall|i: int|
                0 <= i < r@.len() ==> self@.contains_key((#[trigger] r@[i]).0@) && self@[r@[i].0@]
                    == messages_view(r@[i].1@),
            forall|field: Seq<char>| #[trigger]
                self@.contains_key(field) ==> exists|i: int|
                    0 <= i < r@.len() && (#[trigger] r@[i]).0@ == field,
    {
        proof {
            use_type_invariant(self);
        }
        let mut r: Vec<(String, Vec<String>)> = Vec::new();
        let n: usize = self.entries.len();
        let mut i: usize = 0;
        while i < n
            invariant
                i <= n,
                n == self.entries@.len(),
                r@.len() == i,
                forall|j: int|
                    0 <= j < i ==> (#[trigger] r@[j]).0@ == self.entries@[j].0@ && messages_view(
                        r@[j].1@,
                    ) == messages_view(self.entries@[j].1@),
            decreases n - i,
        {
            let name = self.entries[i].0.clone();
            let messages = clone_messages(&self.entries[i].1);
            r.push((name, messages));
            i += 1;
        }
        proof {
            assert forall|a: int| 0 <= a < r@.len() implies self@.contains_key(
                (#[trigger] r@[a]).0@,
            ) && self@[r@[a].0@] == messages_view(r@[a].1@) by {
                Self::lemma_entry(self.entries@, a);
            }
            assert forall|field: Seq<char>| #[trigger] self@.contains_key(field) implies exists|
                a: int,
            |
                0 <= a < r@.len() && (#[trigger] r@[a]).0@ == field by {
                let a = choose|a: int| Self::has_field(self.entries@, field, a);
                assert(r@[a].0@ == field);
            }
        }
        r
    }
}

impl Clone for ValidationErrors {
    fn clone(&self) -> (c: ValidationErrors)
        ensures
            c@ == self@,
    {
        proof {
            use_type_invariant(self);
        }
        let mut entries: Vec<(String, Vec<String>)> = Vec::new();
        let n: usize = self.entries.len();
        let mut i: usize = 0;
        while i < n
            invariant
                i <= n,
                n == self.entries@.len(),
                entries@.len() == i,
                forall|j: int|
                    0 <= j < i ==> (#[trigger] entries@[j]).0@ == self.entries@[j].0@
                        && messages_view(entries@[j].1@) == messages_view(self.entries@[j].1@),
            decreases n - i,
        {
            let name = self.entries[i].0.clone();
            let messages = clone_messages(&self.entries[i].1);
            entries.push((name, messages));
            i += 1;
        }
        proof {
            let a = entries@;
            let b = self.entries@;
            assert(Self::distinct(a));
            assert forall|f: Seq<char>| #[trigger]
                Self::map_of(a).contains_key(f) <==> Self::map_of(b).contains_key(f) by {
                if Self::map_of(a).contains_key(f) {
                    let j = choose|j: int| Self::has_field(a, f, j);
                    assert(Self::has_field(b, f, j));
                }
                if Self::map_of(b).contains_key(f) {
                    let j = choose|j: int| Self::has_field(b, f, j);
                    assert(Self::has_field(a, f, j));
                }
            }
            assert forall|f: Seq<char>| #[trigger] Self::map_of(a).contains_key(f) implies Self::map_of(
                a,
            )[f] == Self::map_of(b)[f] by {
                let j = choose|j: int| Self::has_field(a, f, j);
                Self::lemma_entry(a, j);
                Self::lemma_entry(b, j);
            }
            assert(Self::map_of(a) =~= Self::map_of(b));
        }
        ValidationErrors { entries }
    }
}

/// What can go wrong in serving a request.
#[derive(Debug)]
pub enum AppError {
    /// The identifier names no record.
    NotFound,
    /// The payload is malformed or breaks a rule; the violations say where.
    InvalidInput(ValidationErrors),
    /// An unexpected failure. The text is a diagnostic for the log of the
    /// operator; the caller of the service never sees it.
    Internal(String),
}

/// The mathematical content of an [`AppError`].
pub enum AppErrorView {
    NotFound,
    InvalidInput(Map<Seq<char>, Seq<Seq<char>>>),
    Internal(Seq<char>),
}

impl View for AppError {
    type V = AppErrorView;

    open spec fn view(&self) -> AppErrorView {
        match self {
            AppError::NotFound => AppErrorView::NotFound,
            AppError::InvalidInput(errors) => AppErrorView::InvalidInput(errors@),
            AppError::Internal(text) => AppErrorView::Internal(text@),
        }
    }
}

/// What the boundary sends for an error.
#[derive(Debug)]
pub struct ErrorResponse {
    pub message: String,
    pub status: u16,
    pub errors: ValidationErrors,
}

/// The mathematical content of an [`ErrorResponse`].
pub struct ErrorResponseView {
    pub message: Seq<char>,
    pub status: u16,
    pub errors: Map<Seq<char>, Seq<Seq<char>>>,
}

impl View for ErrorResponse {
    type V = ErrorResponseView;

    open spec fn view(&self) -> ErrorResponseView {
        ErrorResponseView { message: self.message@, status: self.status, errors: self.errors@ }
    }
}

/// The message that the boundary sends for every unexpected failure.
pub open spec fn internal_message() -> Seq<char> {
    "Internal server error"@
}

impl AppErrorView {
    /// The one-line description of the error, as the log of the operator
    /// holds it: with the diagnostic of an unexpected failure.
    pub open spec fn description(self) -> Seq<char> {
        match self {
            AppErrorView::NotFound => "Resource not found"@,
            AppErrorView::InvalidInput(_) => "Validation failed"@,
            AppErrorView::Internal(text) => "Something went wrong: "@ + text,
        }
    }

    /// The response that the boundary sends for the error. Of an
    /// unexpected failure it shows the status and one fixed message, and
    /// nothing of the diagnostic.
    pub open spec fn response(self) -> ErrorResponseView {
        match self {
            AppErrorView::InvalidInput(errors) => ErrorResponseView {
                message: "Validation failed"@,
                status: STATUS_BAD_REQUEST,
                errors,
            },
            AppErrorView::NotFound => ErrorResponseView {
                message: "Resource not found"@,
                status: STATUS_NOT_FOUND,
                errors: Map::empty(),
            },
            AppErrorView::Internal(_) => ErrorResponseView {
                message: internal_message(),
                status: STATUS_INTERNAL_SERVER_ERROR,
                errors: Map::empty(),
            },
        }
    }
}

/// Whatever the diagnostics of two unexpected failures say, the boundary
/// sends one and the same response for both: the status of an unexpected
/// failure, the fixed message, and no violations.
pub proof fn lemma_internal_response_hides_diagnostic(first: Seq<char>, second: Seq<char>)
    ensures
        AppErrorView::Internal(first).response() == AppErrorView::Internal(second).response(),
        AppErrorView::Internal(first).response() == (ErrorResponseView {
            message: internal_message(),
            status: STATUS_INTERNAL_SERVER_ERROR,
            errors: Map::empty(),
        }),
{
}

impl AppError {
    /// The one-line description of the error, for the log of the
    /// operator.
    pub fn to_string(&self) -> (s: String)
        ensures
            s@ == self@.description(),
    {
        match self {
            AppError::NotFound => String::from_str("Resource not found"),
            AppError::InvalidInput(_) => String::from_str("Validation failed"),
            AppError::Internal(text) => String::from_str("Something went wrong: ").concat(
                text.as_str(),
            ),
        }
    }

    /// The response that the boundary sends for the error: its status, a
    /// message, and the violations where the input was at fault. The
    /// diagnostic of an unexpected failure is dropped here.
    pub fn into_response(self) -> (r: ErrorResponse)
        ensures
            r@ == self@.response(),
    {
        match self {
            AppError::InvalidInput(errors) => ErrorResponse {
                message: String::from_str("Validation failed"),
                status: STATUS_BAD_REQUEST,
                errors,
            },
            AppError::NotFound => ErrorResponse {
                message: String::from_str("Resource not found"),
                status: STATUS_NOT_FOUND,
                errors: ValidationErrors::new(),
            },
            AppError::Internal(_) => ErrorResponse {
                message: String::from_str("Internal server error"),
                status: STATUS_INTERNAL_SERVER_ERROR,
                errors: ValidationErrors::new(),
            },
        }
    }
}

} // verus!
