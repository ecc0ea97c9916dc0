//! The commands on todos and the operations that carry them out.

use vstd::prelude::*;
use vstd::string::*;
use crate::clock::now_micros;
use crate::decode::{
    optional_priority, optional_status, optional_text, read_optional_priority,
    read_optional_status, read_optional_text, read_required_text, required_text,
};
use crate::error::{with_message, AppError, AppErrorView, ValidationErrors};
use crate::ids::{new_id, KIND_BITS, RANDOM_KIND};
use crate::json::{Members, MembersView};
use crate::models::todo::{
    text_view, Priority, Todo, TodoSource, TodoStatus, TodoView, MAX_DESCRIPTION_CHARS,
};
use crate::state::{consistent, create_fault, is_listing, same_identity, todo_views, AppState};
use crate::text::{is_blank, str_is_blank};
use crate::validator::{Decode, Validate, ValidatedJson};

verus! {

/// The message against a title that is empty.
pub open spec fn empty_title_message() -> Seq<char> {
    "title cannot be empty"@
}

/// The message against a text that is longer than its limit.
pub open spec fn length_message() -> Seq<char> {
    "length"@
}

/// The violations `m`, with one more where the description is longer
/// than its limit.
pub open spec fn with_description_check(
    m: Map<Seq<char>, Seq<Seq<char>>>,
    description: Option<Seq<char>>,
) -> Map<Seq<char>, Seq<Seq<char>>> {
    match description {
        Some(d) if d.len() > MAX_DESCRIPTION_CHARS => with_message(
            m,
            "description"@,
            length_message(),
        ),
        _ => m,
    }
}

/// Records a violation where the description is longer than its limit.
fn check_description(errors: &mut ValidationErrors, description: &Option<String>)
    ensures
        final(errors)@ == with_description_check(old(errors)@, text_view(*description)),
{
    match description {
        Some(d) => {
            if d.as_str().unicode_len() > MAX_DESCRIPTION_CHARS {
                errors.add("description", "length");
            }
        },
        None => {},
    }
}

/// The command that creates a todo.
#[derive(Debug)]
pub struct CreateTodo {
    pub title: String,
    pub description: Option<String>,
    pub priority: Option<Priority>,
}

/// The mathematical content of a [`CreateTodo`].
pub struct CreateTodoView {
    pub title: Seq<char>,
    pub description: Option<Seq<char>>,
    pub priority: Option<Priority>,
}

impl View for CreateTodo {
    type V = CreateTodoView;

    open spec fn view(&self) -> CreateTodoView {
        CreateTodoView {
            title: self.title@,
            description: text_view(self.description),
            priority: self.priority,
        }
    }
}

impl CreateTodoView {
    /// The rules of the command: a title that is not empty, and a
    /// description within its limit.
    pub open spec fn is_valid(self) -> bool {
        &&& self.title.len() > 0
        &&& (self.description matches Some(d) ==> d.len() <= MAX_DESCRIPTION_CHARS)
    }
}

impl Decode for CreateTodo {
    /// `title` must hold a string; `description` and `priority` may be
    /// absent or null; other members are passed over.
    open spec fn decoded(members: MembersView) -> Result<CreateTodoView, Seq<char>> {
        match required_text(members, "title"@) {
            Err(e) => Err(e),
            Ok(title) => match optional_text(members, "description"@) {
                Err(e) => Err(e),
                Ok(description) => match optional_priority(members, "priority"@) {
                    Err(e) => Err(e),
                    Ok(priority) => Ok(CreateTodoView { title, description, priority }),
                },
            },
        }
    }

    fn decode(members: &Members) -> (r: Result<CreateTodo, String>) {
        let title = match read_required_text(members, "title") {
            Err(e) => { return Err(e); },
            Ok(title) => title,
        };
        let description = match read_optional_text(members, "description") {
            Err(e) => { return Err(e); },
            Ok(description) => description,
        };
        let priority = match read_optional_priority(members, "priority") {
            Err(e) => { return Err(e); },
            Ok(priority) => priority,
        };
        Ok(CreateTodo { title, description, priority })
    }
}

impl Validate for CreateTodo {
    open spec fn violations(command: CreateTodoView) -> Map<Seq<char>, Seq<Seq<char>>> {
        let title_checked = if command.title.len() == 0 {
            with_message(Map::empty(), "title"@, empty_title_message())
        } else {
            Map::empty()
        };
        with_description_check(title_checked, command.description)
    }

    fn validate(&self) -> (r: Result<(), ValidationErrors>) {
        let mut errors = ValidationErrors::new();
        if self.title.as_str().is_empty() {
            errors.add("title", "title cannot be empty");
        }
        check_description(&mut errors, &self.description);
        if errors.is_empty() {
            Ok(())
        } else {
            Err(errors)
        }
    }
}

/// The command that changes a todo: each field that is present replaces
/// the field of the record, each field that is absent leaves it as it is.
#[derive(Debug)]
pub struct UpdateTodo {
    pub title: Option<String>,
    pub description: Option<String>,
    pub status: Option<TodoStatus>,
    pub priority: Option<Priority>,
}

/// The mathematical content of an [`UpdateTodo`].
pub struct UpdateTodoView {
    pub title: Option<Seq<char>>,
    pub description: Option<Seq<char>>,
    pub status: Option<TodoStatus>,
    pub priority: Option<Priority>,
}

impl View for UpdateTodo {
    type V = UpdateTodoView;

    open spec fn view(&self) -> UpdateTodoView {
        UpdateTodoView {
            title: text_view(self.title),
            description: text_view(self.description),
            status: self.status,
            priority: self.priority,
        }
    }
}

impl UpdateTodoView {
    /// The rules of the command: a title, where there is one, of which
    /// something is left when white space is trimmed, and a description,
    /// where there is one, within its limit.
    pub open spec fn is_valid(self) -> bool {
        &&& (self.title matches Some(t) ==> !is_blank(t))
        &&& (self.description matches Some(d) ==> d.len() <= MAX_DESCRIPTION_CHARS)
    }
}

impl Decode for UpdateTodo {
    /// Every field may be absent or null; other members are passed over.
    open spec fn decoded(members: MembersView) -> Result<UpdateTodoView, Seq<char>> {
        match optional_text(members, "title"@) {
            Err(e) => Err(e),
            Ok(title) => match optional_text(members, "description"@) {
                Err(e) => Err(e),
                Ok(description) => match optional_status(members, "status"@) {
                    Err(e) => Err(e),
                    Ok(status) => match optional_priority(members, "priority"@) {
                        Err(e) => Err(e),
                        Ok(priority) => Ok(
                            UpdateTodoView { title, description, status, priority },
                        ),
                    },
                },
            },
        }
    }

    fn decode(members: &Members) -> (r: Result<UpdateTodo, String>) {
        let title = match read_optional_text(members, "title") {
            Err(e) => { return Err(e); },
            Ok(title) => title,
        };
        let description = match read_optional_text(members, "description") {
            Err(e) => { return Err(e); },
            Ok(description) => description,
        };
        let status = match read_optional_status(members, "status") {
            Err(e) => { return Err(e); },
            Ok(status) => status,
        };
        let priority = match read_optional_priority(members, "priority") {
            Err(e) => { return Err(e); },
            Ok(priority) => priority,
        };
        Ok(UpdateTodo { title, description, status, priority })
    }
}

impl Validate for UpdateTodo {
    open spec fn violations(command: UpdateTodoView) -> Map<Seq<char>, Seq<Seq<char>>> {
        let title_checked = match command.title {
            Some(t) if is_blank(t) => with_message(Map::empty(), "title"@, empty_title_message()),
            _ => Map::empty(),
        };
        with_description_check(title_checked, command.description)
    }

    fn validate(&self) -> (r: Result<(), ValidationErrors>) {
        let mut errors = ValidationErrors::new();
        match &self.title {
            Some(t) => {
                if str_is_blank(t.as_str()) {
                    errors.add("title", "title cannot be empty");
                }
            },
            None => {},
        }
        check_description(&mut errors, &self.description);
        if errors.is_empty() {
            Ok(())
        } else {
            Err(errors)
        }
    }
}

/// A create command breaks no rule exactly when it is valid, and each rule
/// that it breaks is reported, whatever else is wrong with it: an empty
/// title under `title`, a description over its limit under `description`.
pub proof fn lemma_create_violations(command: CreateTodoView)
    ensures
        CreateTodo::violations(command) =~= Map::<Seq<char>, Seq<Seq<char>>>::empty()
            <==> command.is_valid(),
        CreateTodo::violations(command).contains_key("title"@) <==> command.title.len() == 0,
        command.title.len() == 0 ==> CreateTodo::violations(command)["title"@]
            == seq![empty_title_message()],
        CreateTodo::violations(command).contains_key("description"@) <==> (
        command.description matches Some(d) && d.len() > MAX_DESCRIPTION_CHARS),
        CreateTodo::violations(command).contains_key("description"@) ==> CreateTodo::violations(
            command,
        )["description"@] == seq![length_message()],
{
    reveal_strlit("title");
    reveal_strlit("description");
    assert("title"@.len() == 5 && "description"@.len() == 11);
    let v = CreateTodo::violations(command);
    if command.title.len() == 0 {
        assert(v.contains_key("title"@));
        assert(v["title"@] =~= seq![empty_title_message()]);
    }
    if v.contains_key("description"@) {
        assert(v["description"@] =~= seq![length_message()]);
    }
}

/// An update command breaks no rule exactly when it is valid, and each
/// rule that it breaks is reported, whatever else is wrong with it.
pub proof fn lemma_update_violations(command: UpdateTodoView)
    ensures
        UpdateTodo::violations(command) =~= Map::<Seq<char>, Seq<Seq<char>>>::empty()
            <==> command.is_valid(),
        UpdateTodo::violations(command).contains_key("title"@) <==> (command.title matches Some(t)
            && is_blank(t)),
        UpdateTodo::violations(command).contains_key("title"@) ==> UpdateTodo::violations(
            command,
        )["title"@] == seq![empty_title_message()],
        UpdateTodo::violations(command).contains_key("description"@) <==> (
        command.description matches Some(d) && d.len() > MAX_DESCRIPTION_CHARS),
        UpdateTodo::violations(command).contains_key("description"@) ==> UpdateTodo::violations(
            command,
        )["description"@] == seq![length_message()],
{
    reveal_strlit("title");
    reveal_strlit("description");
    assert("title"@.len() == 5 && "description"@.len() == 11);
    let v = UpdateTodo::violations(command);
    if v.contains_key("title"@) {
        assert(v["title"@] =~= seq![empty_title_message()]);
    }
    if v.contains_key("description"@) {
        assert(v["description"@] =~= seq![length_message()]);
    }
}

/// The priority of a todo that is created without one.
pub open spec fn default_priority() -> Priority {
    Priority::Medium
}

/// The record that a create command gives, under the identifier `id` and
/// at the time `now`.
pub open spec fn created(command: CreateTodoView, source: TodoSource, id: u128, now: i64) -> TodoView {
    TodoView {
        id,
        title: command.title,
        description: command.description,
        status: TodoStatus::Todo,
        priority: match command.priority {
            Some(priority) => priority,
            None => default_priority(),
        },
        source,
        created_at: now,
        updated_at: now,
    }
}

/// What creating gives: the new record; the violations where the command
/// breaks a rule; a fault where the identifier is in use.
pub open spec fn create_outcome(
    records: Map<u128, TodoView>,
    command: CreateTodoView,
    source: TodoSource,
    id: u128,
    now: i64,
) -> Result<TodoView, AppErrorView> {
    if !command.is_valid() {
        Err(AppErrorView::InvalidInput(CreateTodo::violations(command)))
    } else if records.contains_key(id) {
        Err(AppErrorView::Internal(create_fault()))
    } else {
        Ok(created(command, source, id, now))
    }
}

/// The record `record` after an update command at the time `now`: each
/// field that the command holds replaces the field of the record.
pub open spec fn merged(record: TodoView, command: UpdateTodoView, now: i64) -> TodoView {
    TodoView {
        id: record.id,
        title: match command.title {
            Some(title) => title,
            None => record.title,
        },
        description: match command.description {
            Some(description) => Some(description),
            None => record.description,
        },
        status: match command.status {
            Some(status) => status,
            None => record.status,
        },
        priority: match command.priority {
            Some(priority) => priority,
            None => record.priority,
        },
        source: record.source,
        created_at: record.created_at,
        updated_at: now,
    }
}

/// The text of the fault that an update reports where the clock stands
/// before the creation of the record.
pub open spec fn update_fault() -> Seq<char> {
    "failed to update todo"@
}

/// What updating gives: the merged record; the violations where the
/// command breaks a rule; `NotFound` where the identifier names no
/// record; a fault where the time is earlier than the record's creation.
pub open spec fn update_outcome(
    records: Map<u128, TodoView>,
    id: u128,
    command: UpdateTodoView,
    now: i64,
) -> Result<TodoView, AppErrorView> {
    if !command.is_valid() {
        Err(AppErrorView::InvalidInput(UpdateTodo::violations(command)))
    } else if !records.contains_key(id) {
        Err(AppErrorView::NotFound)
    } else if now < records[id].created_at {
        Err(AppErrorView::Internal(update_fault()))
    } else {
        Ok(merged(records[id], command, now))
    }
}

/// The store after an operation that gave `outcome` for the record `id`:
/// the record is in it on success, and nothing has changed on failure.
pub open spec fn stored(
    records: Map<u128, TodoView>,
    outcome: Result<TodoView, AppErrorView>,
) -> Map<u128, TodoView> {
    match outcome {
        Ok(record) => records.insert(record.id, record),
        Err(_) => records,
    }
}

/// The view of what an operation hands back.
pub open spec fn outcome_view(r: Result<Todo, AppError>) -> Result<TodoView, AppErrorView> {
    match r {
        Ok(record) => Ok(record@),
        Err(e) => Err(e@),
    }
}

/// What deleting gives: nothing on success, `NotFound` where the
/// identifier names no record.
pub open spec fn delete_outcome(records: Map<u128, TodoView>, id: u128) -> Result<
    (),
    AppErrorView,
> {
    if records.contains_key(id) {
        Ok(())
    } else {
        Err(AppErrorView::NotFound)
    }
}

/// The store after deleting `id`.
pub open spec fn after_delete(records: Map<u128, TodoView>, id: u128) -> Map<u128, TodoView> {
    records.remove(id)
}

/// What reading gives: the record, or `NotFound` where the identifier
/// names no record.
pub open spec fn get_outcome(records: Map<u128, TodoView>, id: u128) -> Result<
    TodoView,
    AppErrorView,
> {
    if records.contains_key(id) {
        Ok(records[id])
    } else {
        Err(AppErrorView::NotFound)
    }
}

/// An update leaves every field that the command omits exactly as it
/// was, replaces every field that the command holds, and never touches
/// the identifier, the source or the time of creation.
pub proof fn lemma_merge_keeps_omitted_fields(record: TodoView, command: UpdateTodoView, now: i64)
    ensures
        command.title is None ==> merged(record, command, now).title == record.title,
        command.description is None ==> merged(record, command, now).description
            == record.description,
        command.status is None ==> merged(record, command, now).status == record.status,
        command.priority is None ==> merged(record, command, now).priority == record.priority,
        command.title matches Some(title) ==> merged(record, command, now).title == title,
        command.description matches Some(description) ==> merged(record, command, now).description
            == Some(description),
        command.status matches Some(status) ==> merged(record, command, now).status == status,
        command.priority matches Some(priority) ==> merged(record, command, now).priority
            == priority,
        merged(record, command, now).source == record.source,
        merged(record, command, now).id == record.id,
        merged(record, command, now).created_at == record.created_at,
        merged(record, command, now).updated_at == now,
{
}

/// An update of a valid record by a valid command, at a time that is not
/// before the creation of the record, gives a valid record.
pub proof fn lemma_merge_keeps_validity(record: TodoView, command: UpdateTodoView, now: i64)
    requires
        record.is_valid(),
        command.is_valid(),
        record.created_at <= now,
    ensures
        merged(record, command, now).is_valid(),
{
    match command.title {
        Some(title) => {
            if title.len() == 0 {
                assert(is_blank(title));
            }
        },
        None => {},
    }
}

/// No update is lost: of two updates, one after the other, the record
/// holds each field as the later command gave it, and where the later
/// command omits a field, as the earlier command left it.
pub proof fn lemma_merges_compose(
    record: TodoView,
    earlier: UpdateTodoView,
    later: UpdateTodoView,
    t1: i64,
    t2: i64,
)
    ensures
        merged(merged(record, earlier, t1), later, t2) == merged(
            record,
            UpdateTodoView {
                title: if later.title is Some { later.title } else { earlier.title },
                description: if later.description is Some {
                    later.description
                } else {
                    earlier.description
                },
                status: if later.status is Some { later.status } else { earlier.status },
                priority: if later.priority is Some { later.priority } else { earlier.priority },
            },
            t2,
        ),
{
}

/// Two updates that set different fields give the same fields in either
/// order: only the time of the last change tells which came last.
pub proof fn lemma_disjoint_merges_commute(
    record: TodoView,
    a: UpdateTodoView,
    b: UpdateTodoView,
    t1: i64,
    t2: i64,
)
    requires
        !(a.title is Some && b.title is Some),
        !(a.description is Some && b.description is Some),
        !(a.status is Some && b.status is Some),
        !(a.priority is Some && b.priority is Some),
    ensures
        merged(merged(record, a, t1), b, t2) == merged(merged(record, b, t1), a, t2),
{
}

/// The record after a run of update commands, one after the other, the
/// i-th at the time `times[i]`.
pub open spec fn merged_all(record: TodoView, commands: Seq<UpdateTodoView>, times: Seq<i64>) -> TodoView
    decreases commands.len(),
{
    if commands.len() == 0 || times.len() != commands.len() {
        record
    } else {
        merged(
            merged_all(record, commands.drop_last(), times.drop_last()),
            commands.last(),
            times.last(),
        )
    }
}

/// However many updates follow one another, none is lost: a field that
/// the k-th command sets, and that no later command sets, is in the end
/// what the k-th command made it; and the identifier, the source and the
/// time of creation are in the end what they were.
pub proof fn lemma_no_update_is_lost(
    record: TodoView,
    commands: Seq<UpdateTodoView>,
    times: Seq<i64>,
    k: int,
)
    requires
        times.len() == commands.len(),
        0 <= k < commands.len(),
    ensures
        commands[k].title is Some && (forall|j: int|
            k < j < commands.len() ==> (#[trigger] commands[j]).title is None) ==> Some(
            merged_all(record, commands, times).title,
        ) == commands[k].title,
        commands[k].description is Some && (forall|j: int|
            k < j < commands.len() ==> (#[trigger] commands[j]).description is None)
            ==> merged_all(record, commands, times).description == commands[k].description,
        commands[k].status is Some && (forall|j: int|
            k < j < commands.len() ==> (#[trigger] commands[j]).status is None) ==> Some(
            merged_all(record, commands, times).status,
        ) == commands[k].status,
        commands[k].priority is Some && (forall|j: int|
            k < j < commands.len() ==> (#[trigger] commands[j]).priority is None) ==> Some(
            merged_all(record, commands, times).priority,
        ) == commands[k].priority,
        same_identity(record, merged_all(record, commands, times)),
        merged_all(record, commands, times).updated_at == times.last(),
    decreases commands.len(),
{
    let earlier = commands.drop_last();
    let earlier_times = times.drop_last();
    let last = commands.len() - 1;
    lemma_merged_all_keeps_identity(record, earlier, earlier_times);
    if k < last {
        lemma_no_update_is_lost(record, earlier, earlier_times, k);
        assert(earlier[k] == commands[k]);
        assert forall|j: int| k < j < earlier.len() implies (#[trigger] earlier[j]) == commands[j] by {}
        if commands[k].title is Some && (forall|j: int|
            k < j < commands.len() ==> (#[trigger] commands[j]).title is None) {
            assert(commands[last].title is None);
            assert forall|j: int| k < j < earlier.len() implies (#[trigger] earlier[j]).title is None by {
                assert(earlier[j] == commands[j]);
            }
        }
        if commands[k].description is Some && (forall|j: int|
            k < j < commands.len() ==> (#[trigger] commands[j]).description is None) {
            assert(commands[last].description is None);
            assert forall|j: int| k < j < earlier.len() implies (
            #[trigger] earlier[j]).description is None by {
                assert(earlier[j] == commands[j]);
            }
        }
        if commands[k].status is Some && (forall|j: int|
            k < j < commands.len() ==> (#[trigger] commands[j]).status is None) {
            assert(commands[last].status is None);
            assert forall|j: int| k < j < earlier.len() implies (#[trigger] earlier[j]).status is None by {
                assert(earlier[j] == commands[j]);
            }
        }
        if commands[k].priority is Some && (forall|j: int|
            k < j < commands.len() ==> (#[trigger] commands[j]).priority is None) {
            assert(commands[last].priority is None);
            assert forall|j: int| k < j < earlier.len() implies (
            #[trigger] earlier[j]).priority is None by {
                assert(earlier[j] == commands[j]);
            }
        }
    }
}

/// A run of updates leaves the identifier, the source and the time of
/// creation as they were.
pub proof fn lemma_merged_all_keeps_identity(
    record: TodoView,
    commands: Seq<UpdateTodoView>,
    times: Seq<i64>,
)
    ensures
        same_identity(record, merged_all(record, commands, times)),
    decreases commands.len(),
{
    if commands.len() > 0 && times.len() == commands.len() {
        lemma_merged_all_keeps_identity(record, commands.drop_last(), times.drop_last());
    }
}

/// The store after a run of updates of the record `id`, one after the
/// other, each as [`update_todo_at`] leaves it: the i-th by the command
/// `commands[i]` at the time `times[i]`.
pub open spec fn updated_all(
    records: Map<u128, TodoView>,
    id: u128,
    commands: Seq<UpdateTodoView>,
    times: Seq<i64>,
) -> Map<u128, TodoView>
    decreases commands.len(),
{
    if commands.len() == 0 || times.len() != commands.len() {
        records
    } else {
        let earlier = updated_all(records, id, commands.drop_last(), times.drop_last());
        stored(earlier, update_outcome(earlier, id, commands.last(), times.last()))
    }
}

/// However the updates of one record are put in a row, every one of them
/// succeeds and none is lost: where the commands are valid, the record is
/// in the store and no time is before its creation, the k-th update
/// succeeds on the store that the updates before it left, and the store
/// in the end holds the record with all merges applied in that order,
/// and every other record as it was. The store hands itself out to one
/// update at a time, so updates that are asked for at once take place in
/// some such row.
pub proof fn lemma_updates_in_a_row(
    records: Map<u128, TodoView>,
    id: u128,
    commands: Seq<UpdateTodoView>,
    times: Seq<i64>,
)
    requires
        consistent(records),
        records.contains_key(id),
        times.len() == commands.len(),
        forall|i: int| 0 <= i < commands.len() ==> (#[trigger] commands[i]).is_valid(),
        forall|i: int| 0 <= i < times.len() ==> records[id].created_at <= #[trigger] times[i],
    ensures
        updated_all(records, id, commands, times) == records.insert(
            id,
            merged_all(records[id], commands, times),
        ),
        consistent(updated_all(records, id, commands, times)),
        forall|k: int|
            0 <= k < commands.len() ==> (#[trigger] update_outcome(
                updated_all(records, id, commands.take(k), times.take(k)),
                id,
                commands[k],
                times[k],
            )) is Ok,
    decreases commands.len(),
{
    if commands.len() == 0 {
        assert(records.insert(id, records[id]) =~= records);
    } else {
        let n = commands.len() - 1;
        let earlier_commands = commands.drop_last();
        let earlier_times = times.drop_last();
        assert forall|i: int| 0 <= i < earlier_commands.len() implies (
        #[trigger] earlier_commands[i]).is_valid() by {
            assert(earlier_commands[i] == commands[i]);
        }
        assert forall|i: int| 0 <= i < earlier_times.len() implies records[id].created_at
            <= #[trigger] earlier_times[i] by {
            assert(earlier_times[i] == times[i]);
        }
        lemma_updates_in_a_row(records, id, earlier_commands, earlier_times);
        lemma_merged_all_keeps_identity(records[id], earlier_commands, earlier_times);
        let earlier = updated_all(records, id, earlier_commands, earlier_times);
        let before = merged_all(records[id], earlier_commands, earlier_times);
        assert(earlier.contains_key(id) && earlier[id] == before);
        assert(commands.last().is_valid());
        assert(before.created_at <= times.last());
        lemma_merge_keeps_validity(before, commands.last(), times.last());
        assert(updated_all(records, id, commands, times) =~= records.insert(
            id,
            merged_all(records[id], commands, times),
        ));
        assert forall|k: int| 0 <= k < commands.len() implies (#[trigger] update_outcome(
            updated_all(records, id, commands.take(k), times.take(k)),
            id,
            commands[k],
            times[k],
        )) is Ok by {
            if k < n {
                assert(commands.take(k) =~= earlier_commands.take(k));
                assert(times.take(k) =~= earlier_times.take(k));
                assert(commands[k] == earlier_commands[k]);
                assert(times[k] == earlier_times[k]);
            } else {
                assert(commands.take(k) =~= earlier_commands);
                assert(times.take(k) =~= earlier_times);
            }
        }
    }
}

/// Deleting an identifier that names no record fails with `NotFound`,
/// and so does deleting a second time what was deleted: after a delete
/// the identifier names no record, whatever the store held.
pub proof fn lemma_delete_twice(records: Map<u128, TodoView>, id: u128)
    ensures
        !records.contains_key(id) ==> delete_outcome(records, id) == Err::<(), AppErrorView>(
            AppErrorView::NotFound,
        ),
        delete_outcome(after_delete(records, id), id) == Err::<(), AppErrorView>(
            AppErrorView::NotFound,
        ),
        get_outcome(after_delete(records, id), id) == Err::<TodoView, AppErrorView>(
            AppErrorView::NotFound,
        ),
{
}

/// A record that was created is a valid record of its own identifier,
/// with one time for its creation and its last change, and the store
/// stays consistent when it enters.
pub proof fn lemma_created_is_valid(
    records: Map<u128, TodoView>,
    command: CreateTodoView,
    source: TodoSource,
    id: u128,
    now: i64,
)
    requires
        consistent(records),
        create_outcome(records, command, source, id, now) is Ok,
    ensures
        created(command, source, id, now).is_valid(),
        created(command, source, id, now).created_at == created(
            command,
            source,
            id,
            now,
        ).updated_at,
        created(command, source, id, now).title.len() > 0,
        !records.contains_key(id),
        consistent(stored(records, create_outcome(records, command, source, id, now))),
{
}

/// Creates a todo from a command, under the identifier `id` and at the
/// time `now`. The rules of the command are checked once more here, so
/// that no record enters the store that breaks one.
pub fn create_todo_at(
    state: &mut AppState,
    payload: ValidatedJson<CreateTodo>,
    source: TodoSource,
    id: u128,
    now: i64,
) -> (r: Result<Todo, AppError>)
    ensures
        consistent(old(state)@),
        consistent(final(state)@),
        outcome_view(r) == create_outcome(old(state)@, payload.0@, source, id, now),
        final(state)@ == stored(old(state)@, outcome_view(r)),
{
    let command = payload.0;
    proof {
        lemma_create_violations(command@);
    }
    match command.validate() {
        Err(errors) => {
            state.consistency();
            Err(AppError::InvalidInput(errors))
        },
        Ok(_) => {
            let record = Todo {
                id,
                title: command.title,
                description: command.description,
                status: TodoStatus::Todo,
                priority: match command.priority {
                    Some(priority) => priority,
                    None => Priority::Medium,
                },
                source,
                created_at: now,
                updated_at: now,
            };
            state.create(record)
        },
    }
}

/// Creates a todo from a command that came in directly: the identifier is
/// fresh and random, both times are the current time, and the source is
/// `Manual`.
pub fn create_todo(state: &mut AppState, payload: ValidatedJson<CreateTodo>) -> (r: Result<
    Todo,
    AppError,
>)
    ensures
        consistent(old(state)@),
        consistent(final(state)@),
        exists|id: u128, now: i64|
            outcome_view(r) == create_outcome(
                old(state)@,
                payload.0@,
                TodoSource::Manual,
                id,
                now,
            ),
        final(state)@ == stored(old(state)@, outcome_view(r)),
        r matches Ok(record) ==> {
            &&& record.created_at == record.updated_at
            &&& record@.title.len() > 0
            &&& !old(state)@.contains_key(record.id)
            &&& record.id & KIND_BITS == RANDOM_KIND
        },
{
    let id = new_id();
    let now = now_micros();
    create_todo_at(state, payload, TodoSource::Manual, id, now)
}

/// All todos, the newest first.
pub fn list_todos(state: &AppState) -> (r: Result<Vec<Todo>, AppError>)
    ensures
        consistent(state@),
        r matches Ok(listing) && is_listing(state@, todo_views(listing@)),
{
    Ok(state.list())
}

/// The todo under `id`.
pub fn get_todo(state: &AppState, id: u128) -> (r: Result<Todo, AppError>)
    ensures
        consistent(state@),
        outcome_view(r) == get_outcome(state@, id),
{
    match state.get(id) {
        Some(record) => Ok(record),
        None => Err(AppError::NotFound),
    }
}

/// The record after an update command.
fn merge(record: Todo, command: &UpdateTodo, now: i64) -> (r: Todo)
    ensures
        r@ == merged(record@, command@, now),
{
    Todo {
        id: record.id,
        title: match &command.title {
            Some(title) => title.clone(),
            None => record.title,
        },
        description: match &command.description {
            Some(description) => Some(description.clone()),
            None => record.description,
        },
        status: match command.status {
            Some(status) => status,
            None => record.status,
        },
        priority: match command.priority {
            Some(priority) => priority,
            None => record.priority,
        },
        source: record.source,
        created_at: record.created_at,
        updated_at: now,
    }
}

/// Changes the todo under `id` by an update command, at the time `now`:
/// the fields that the command holds replace those of the record, the
/// others stay, and the time of the last change becomes `now`.
pub fn update_todo_at(
    state: &mut AppState,
    id: u128,
    payload: ValidatedJson<UpdateTodo>,
    now: i64,
) -> (r: Result<Todo, AppError>)
    ensures
        consistent(old(state)@),
        consistent(final(state)@),
        outcome_view(r) == update_outcome(old(state)@, id, payload.0@, now),
        final(state)@ == stored(old(state)@, outcome_view(r)),
{
    let command = payload.0;
    proof {
        lemma_update_violations(command@);
    }
    state.consistency();
    match command.validate() {
        Err(errors) => {
            return Err(AppError::InvalidInput(errors));
        },
        Ok(_) => {},
    }
    let created_at = match state.get(id) {
        None => {
            return Err(AppError::NotFound);
        },
        Some(record) => record.created_at,
    };
    if now < created_at {
        return Err(AppError::Internal(String::from_str("failed to update todo")));
    }
    let ghost before = state@;
    let patch = &command;
    let mutator = |record: Todo| -> (changed: Todo)
        requires
            record@ == before[id],
        ensures
            changed@ == merged(record@, patch@, now),
        { merge(record, patch, now) };
    proof {
        assert forall|t: Todo, u: Todo|
            before.contains_key(id) && t@ == before[id] && mutator.ensures((t,), u) implies same_identity(
            t@,
            u@,
        ) && u@.is_valid() by {
            assert(u@ == merged(t@, patch@, now));
        }
    }
    state.update(id, mutator)
}

/// Changes the todo under `id` by an update command, at the current time.
pub fn update_todo(state: &mut AppState, id: u128, payload: ValidatedJson<UpdateTodo>) -> (r:
    Result<Todo, AppError>)
    ensures
        consistent(old(state)@),
        consistent(final(state)@),
        exists|now: i64| outcome_view(r) == update_outcome(old(state)@, id, payload.0@, now),
        final(state)@ == stored(old(state)@, outcome_view(r)),
{
    let now = now_micros();
    update_todo_at(state, id, payload, now)
}

/// Removes the todo under `id`.
pub fn delete_todo(state: &mut AppState, id: u128) -> (r: Result<(), AppError>)
    ensures
        consistent(old(state)@),
        consistent(final(state)@),
        match r {
            Ok(_) => {
                &&& delete_outcome(old(state)@, id) == Ok::<(), AppErrorView>(())
                &&& final(state)@ == after_delete(old(state)@, id)
            },
            Err(e) => {
                &&& delete_outcome(old(state)@, id) == Err::<(), AppErrorView>(e@)
                &&& final(state)@ == old(state)@
            },
        },
{
    state.delete(id)
}

} // verus!
