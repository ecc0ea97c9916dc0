//! Todo records and the enumerations that classify them.

use vstd::prelude::*;
use vstd::string::*;
use crate::text::str_eq;

verus! {

/// The longest description a record may carry, in characters.
pub const MAX_DESCRIPTION_CHARS: usize = 500;

/// How far the work on a todo has come.
#[derive(Debug, Clone, Copy, PartialEq, Eq, Structural)]
pub enum TodoStatus {
    Todo,
    Doing,
    Done,
}

impl TodoStatus {
    /// The canonical name of the status.
    pub open spec fn name(self) -> Seq<char> {
        match self {
            TodoStatus::Todo => "Todo"@,
            TodoStatus::Doing => "Doing"@,
            TodoStatus::Done => "Done"@,
        }
    }

    /// The status that a name stands for, if it is the name of one.
    pub open spec fn from_name(s: Seq<char>) -> Option<TodoStatus> {
        if s == "Todo"@ {
            Some(TodoStatus::Todo)
        } else if s == "Doing"@ {
            Some(TodoStatus::Doing)
        } else if s == "Done"@ {
            Some(TodoStatus::Done)
        } else {
            None
        }
    }

    /// What a stored name decodes to: the status it names, and `Todo` for
    /// any other text.
    pub open spec fn from_name_or_default(s: Seq<char>) -> TodoStatus {
        match Self::from_name(s) {
            Some(status) => status,
            None => TodoStatus::Todo,
        }
    }

    /// The canonical name, as it is stored and sent.
    pub fn to_string(&self) -> (s: String)
        ensures
            s@ == self.name(),
    {
        match self {
            TodoStatus::Todo => String::from_str("Todo"),
            TodoStatus::Doing => String::from_str("Doing"),
            TodoStatus::Done => String::from_str("Done"),
        }
    }

    /// Strict decoding: any text but one of the three names is an error.
    pub fn from_str(s: &str) -> (r: Result<TodoStatus, String>)
        ensures
            match r {
                Ok(status) => Self::from_name(s@) == Some(status),
                Err(e) => Self::from_name(s@) is None && e@ == "Invalid status: "@ + s@,
            },
    {
        if str_eq(s, "Todo") {
            Ok(TodoStatus::Todo)
        } else if str_eq(s, "Doing") {
            Ok(TodoStatus::Doing)
        } else if str_eq(s, "Done") {
            Ok(TodoStatus::Done)
        } else {
            Err(String::from_str("Invalid status: ").concat(s))
        }
    }
}

impl std::str::FromStr for TodoStatus {
    type Err = String;

    fn from_str(s: &str) -> (r: Result<TodoStatus, String>)
        ensures
            match r {
                Ok(status) => TodoStatus::from_name(s@) == Some(status),
                Err(e) => TodoStatus::from_name(s@) is None && e@ == "Invalid status: "@ + s@,
            },
    {
        TodoStatus::from_str(s)
    }
}

impl From<String> for TodoStatus {
    /// Lenient decoding of a stored name: unknown text gives `Todo`.
    fn from(s: String) -> (status: TodoStatus) {
        match TodoStatus::from_str(s.as_str()) {
            Ok(status) => status,
            Err(_) => TodoStatus::Todo,
        }
    }
}

impl vstd::std_specs::convert::FromSpecImpl<String> for TodoStatus {
    open spec fn obeys_from_spec() -> bool {
        true
    }

    open spec fn from_spec(s: String) -> TodoStatus {
        TodoStatus::from_name_or_default(s@)
    }
}

/// How urgent a todo is.
#[derive(Debug, Clone, Copy, PartialEq, Eq, Structural)]
pub enum Priority {
    Low,
    Medium,
    High,
}

impl Priority {
    /// The canonical name of the priority.
    pub open spec fn name(self) -> Seq<char> {
        match self {
            Priority::Low => "Low"@,
            Priority::Medium => "Medium"@,
            Priority::High => "High"@,
        }
    }

    /// The priority that a name stands for, if it is the name of one.
    pub open spec fn from_name(s: Seq<char>) -> Option<Priority> {
        if s == "Low"@ {
            Some(Priority::Low)
        } else if s == "Medium"@ {
            Some(Priority::Medium)
        } else if s == "High"@ {
            Some(Priority::High)
        } else {
            None
        }
    }

    /// What a stored name decodes to: the priority it names, and `Medium`
    /// for any other text.
    pub open spec fn from_name_or_default(s: Seq<char>) -> Priority {
        match Self::from_name(s) {
            Some(priority) => priority,
            None => Priority::Medium,
        }
    }

    /// The canonical name, as it is stored and sent.
    pub fn to_string(&self) -> (s: String)
        ensures
            s@ == self.name(),
    {
        match self {
            Priority::Low => String::from_str("Low"),
            Priority::Medium => String::from_str("Medium"),
            Priority::High => String::from_str("High"),
        }
    }

    /// Strict decoding: any text but one of the three names is an error.
    pub fn from_str(s: &str) -> (r: Result<Priority, String>)
        ensures
            match r {
                Ok(priority) => Self::from_name(s@) == Some(priority),
                Err(e) => Self::from_name(s@) is None && e@ == "Invalid priority: "@ + s@,
            },
    {
        if str_eq(s, "Low") {
            Ok(Priority::Low)
        } else if str_eq(s, "Medium") {
            Ok(Priority::Medium)
        } else if str_eq(s, "High") {
            Ok(Priority::High)
        } else {
            Err(String::from_str("Invalid priority: ").concat(s))
        }
    }
}

impl std::str::FromStr for Priority {
    type Err = String;

    fn from_str(s: &str) -> (r: Result<Priority, String>)
        ensures
            match r {
                Ok(priority) => Priority::from_name(s@) == Some(priority),
                Err(e) => Priority::from_name(s@) is None && e@ == "Invalid priority: "@ + s@,
            },
    {
        Priority::from_str(s)
    }
}

impl From<String> for Priority {
    /// Lenient decoding of a stored name: unknown text gives `Medium`.
    fn from(s: String) -> (priority: Priority) {
        match Priority::from_str(s.as_str()) {
            Ok(priority) => priority,
            Err(_) => Priority::Medium,
        }
    }
}

impl vstd::std_specs::convert::FromSpecImpl<String> for Priority {
    open spec fn obeys_from_spec() -> bool {
        true
    }

    open spec fn from_spec(s: String) -> Priority {
        Priority::from_name_or_default(s@)
    }
}

/// The path by which a todo entered the system.
#[derive(Debug, Clone, Copy, PartialEq, Eq, Structural)]
pub enum TodoSource {
    Manual,
    Audio,
    Ai,
}

impl TodoSource {
    /// The canonical name of the source.
    pub open spec fn name(self) -> Seq<char> {
        match self {
            TodoSource::Manual => "Manual"@,
            TodoSource::Audio => "Audio"@,
            TodoSource::Ai => "Ai"@,
        }
    }

    /// The source that a name stands for, if it is the name of one.
    pub open spec fn from_name(s: Seq<char>) -> Option<TodoSource> {
        if s == "Manual"@ {
            Some(TodoSource::Manual)
        } else if s == "Audio"@ {
            Some(TodoSource::Audio)
        } else if s == "Ai"@ {
            Some(TodoSource::Ai)
        } else {
            None
        }
    }

    /// What a stored name decodes to: the source it names, and `Manual`
    /// for any other text.
    pub open spec fn from_name_or_default(s: Seq<char>) -> TodoSource {
        match Self::from_name(s) {
            Some(source) => source,
            None => TodoSource::Manual,
        }
    }

    /// The canonical name, as it is stored and sent.
    pub fn to_string(&self) -> (s: String)
        ensures
            s@ == self.name(),
    {
        match self {
            TodoSource::Manual => String::from_str("Manual"),
            TodoSource::Audio => String::from_str("Audio"),
            TodoSource::Ai => String::from_str("Ai"),
        }
    }

    /// Strict decoding: any text but one of the three names is an error.
    pub fn from_str(s: &str) -> (r: Result<TodoSource, String>)
        ensures
            match r {
                Ok(source) => Self::from_name(s@) == Some(source),
                Err(e) => Self::from_name(s@) is None && e@ == "Invalid source: "@ + s@,
            },
    {
        if str_eq(s, "Manual") {
            Ok(TodoSource::Manual)
        } else if str_eq(s, "Audio") {
            Ok(TodoSource::Audio)
        } else if str_eq(s, "Ai") {
            Ok(TodoSource::Ai)
        } else {
            Err(String::from_str("Invalid source: ").concat(s))
        }
    }
}

impl std::str::FromStr for TodoSource {
    type Err = String;

    fn from_str(s: &str) -> (r: Result<TodoSource, String>)
        ensures
            match r {
                Ok(source) => TodoSource::from_name(s@) == Some(source),
                Err(e) => TodoSource::from_name(s@) is None && e@ == "Invalid source: "@ + s@,
            },
    {
        TodoSource::from_str(s)
    }
}

impl From<String> for TodoSource {
    /// Lenient decoding of a stored name: unknown text gives `Manual`.
    fn from(s: String) -> (source: TodoSource) {
        match TodoSource::from_str(s.as_str()) {
            Ok(source) => source,
            Err(_) => TodoSource::Manual,
        }
    }
}

impl vstd::std_specs::convert::FromSpecImpl<String> for TodoSource {
    open spec fn obeys_from_spec() -> bool {
        true
    }

    open spec fn from_spec(s: String) -> TodoSource {
        TodoSource::from_name_or_default(s@)
    }
}

/// Each status is what its own name decodes to, strictly and leniently.
pub proof fn lemma_status_name_round_trip(status: TodoStatus)
    ensures
        TodoStatus::from_name(status.name()) == Some(status),
        TodoStatus::from_name_or_default(status.name()) == status,
{
    reveal_strlit("Todo");
    reveal_strlit("Doing");
    reveal_strlit("Done");
    assert("Todo"@.len() == 4 && "Doing"@.len() == 5 && "Done"@.len() == 4);
    assert("Todo"@[0] == 'T' && "Done"@[0] == 'D');
}

/// Each priority is what its own name decodes to, strictly and leniently.
pub proof fn lemma_priority_name_round_trip(priority: Priority)
    ensures
        Priority::from_name(priority.name()) == Some(priority),
        Priority::from_name_or_default(priority.name()) == priority,
{
    reveal_strlit("Low");
    reveal_strlit("Medium");
    reveal_strlit("High");
    assert("Low"@.len() == 3 && "Medium"@.len() == 6 && "High"@.len() == 4);
}

/// Each source is what its own name decodes to, strictly and leniently.
pub proof fn lemma_source_name_round_trip(source: TodoSource)
    ensures
        TodoSource::from_name(source.name()) == Some(source),
        TodoSource::from_name_or_default(source.name()) == source,
{
    reveal_strlit("Manual");
    reveal_strlit("Audio");
    reveal_strlit("Ai");
    assert("Manual"@.len() == 6 && "Audio"@.len() == 5 && "Ai"@.len() == 2);
}

/// One todo record. Times are microseconds since the Unix epoch.
#[derive(Debug)]
pub struct Todo {
    pub id: u128,
    pub title: String,
    pub description: Option<String>,
    pub status: TodoStatus,
    pub priority: Priority,
    pub source: TodoSource,
    pub created_at: i64,
    pub updated_at: i64,
}

/// The mathematical content of a [`Todo`].
pub struct TodoView {
    pub id: u128,
    pub title: Seq<char>,
    pub description: Option<Seq<char>>,
    pub status: TodoStatus,
    pub priority: Priority,
    pub source: TodoSource,
    pub created_at: i64,
    pub updated_at: i64,
}

/// The view of an optional text.
pub open spec fn text_view(t: Option<String>) -> Option<Seq<char>> {
    match t {
        Some(s) => Some(s@),
        None => None,
    }
}

impl View for Todo {
    type V = TodoView;

    open spec fn view(&self) -> TodoView {
        TodoView {
            id: self.id,
            title: self.title@,
            description: text_view(self.description),
            status: self.status,
            priority: self.priority,
            source: self.source,
            created_at: self.created_at,
            updated_at: self.updated_at,
        }
    }
}

impl TodoView {
    /// What holds of every record that the store keeps: a title that is
    /// not empty, a description within its limit, and a last change that
    /// is not earlier than the creation.
    pub open spec fn is_valid(self) -> bool {
        &&& self.title.len() > 0
        &&& (self.description matches Some(d) ==> d.len() <= MAX_DESCRIPTION_CHARS)
        &&& self.created_at <= self.updated_at
    }
}

/// A copy of an optional text.
pub fn clone_text(t: &Option<String>) -> (c: Option<String>)
    ensures
        text_view(c) == text_view(*t),
{
    match t {
        Some(s) => Some(s.clone()),
        None => None,
    }
}

impl Clone for Todo {
    fn clone(&self) -> (c: Todo)
        ensures
            c@ == self@,
    {
        Todo {
            id: self.id,
            title: self.title.clone(),
            description: clone_text(&self.description),
            status: self.status,
            priority: self.priority,
            source: self.source,
            created_at: self.created_at,
            updated_at: self.updated_at,
        }
    }
}

/// A task that the extraction service proposes; it is not stored until it
/// is confirmed.
#[derive(Debug)]
pub struct SuggestedTodo {
    pub title: String,
    pub description: Option<String>,
    pub priority: Priority,
}

/// The mathematical content of a [`SuggestedTodo`].
pub struct SuggestedTodoView {
    pub title: Seq<char>,
    pub description: Option<Seq<char>>,
    pub priority: Priority,
}

impl View for SuggestedTodo {
    type V = SuggestedTodoView;

    open spec fn view(&self) -> SuggestedTodoView {
        SuggestedTodoView {
            title: self.title@,
            description: text_view(self.description),
            priority: self.priority,
        }
    }
}

impl Clone for SuggestedTodo {
    fn clone(&self) -> (c: SuggestedTodo)
        ensures
            c@ == self@,
    {
        SuggestedTodo {
            title: self.title.clone(),
            description: clone_text(&self.description),
            priority: self.priority,
        }
    }
}

} // verus!
