//! From a recording to todos: asking the extraction service for
//! suggestions, and storing the suggestions that were confirmed.

use vstd::prelude::*;
use vstd::string::*;
use crate::clock::now_micros;
use crate::error::{AppError, AppErrorView};
use crate::ids::new_id;
use crate::models::todo::{SuggestedTodoView, TodoSource, TodoView};
use crate::routes::todos::{
    create_outcome, create_todo_at, outcome_view, stored, CreateTodo, CreateTodoView,
};
use crate::services::gemini::{
    fits_base64, oversize_fault, reply_outcome, suggested_views, GeminiReply, GeminiReplyView,
    GeminiRequest, GeminiRequestView, GeminiService,
};
use crate::state::{consistent, AppState};
use crate::text::str_eq;
use crate::validator::ValidatedJson;

verus! {

/// The status that goes with todos that were created.
pub const STATUS_CREATED: u16 = 201;

/// The titles of the suggestions that are to become todos.
#[derive(Debug)]
pub struct ConfirmTasksRequest {
    pub tasks: Vec<String>,
}

/// The titles of the tasks that the extraction service suggests.
#[derive(Debug)]
pub struct SuggestedTasksResponse {
    pub tasks: Vec<String>,
}

/// The views of a list of texts.
pub open spec fn texts_view(v: Seq<String>) -> Seq<Seq<char>> {
    Seq::new(v.len(), |i: int| v[i]@)
}

impl View for ConfirmTasksRequest {
    type V = Seq<Seq<char>>;

    open spec fn view(&self) -> Seq<Seq<char>> {
        texts_view(self.tasks@)
    }
}

impl View for SuggestedTasksResponse {
    type V = Seq<Seq<char>>;

    open spec fn view(&self) -> Seq<Seq<char>> {
        texts_view(self.tasks@)
    }
}

/// One part of an upload: the name of the form field (empty where the
/// part has none), the declared type of the content, and the content.
#[derive(Debug)]
pub struct UploadField {
    pub name: String,
    pub content_type: Option<String>,
    pub data: Vec<u8>,
}

/// The mathematical content of an [`UploadField`].
pub struct UploadFieldView {
    pub name: Seq<char>,
    pub content_type: Option<Seq<char>>,
    pub data: Seq<u8>,
}

impl View for UploadField {
    type V = UploadFieldView;

    open spec fn view(&self) -> UploadFieldView {
        UploadFieldView {
            name: self.name@,
            content_type: match self.content_type {
                Some(t) => Some(t@),
                None => None,
            },
            data: self.data@,
        }
    }
}

/// The views of the parts of an upload.
pub open spec fn upload_views(v: Seq<UploadField>) -> Seq<UploadFieldView> {
    Seq::new(v.len(), |i: int| v[i]@)
}

/// The name of the form field that carries the recording.
pub open spec fn audio_field() -> Seq<char> {
    "audio"@
}

/// The type that a recording is taken to have where none is declared.
pub open spec fn default_mime_type() -> Seq<char> {
    "audio/mpeg"@
}

/// The recording in an upload and its type: those of the last part named
/// `audio`; without such a part, no bytes and the default type.
pub open spec fn selected_audio(fields: Seq<UploadFieldView>) -> (Seq<u8>, Seq<char>)
    decreases fields.len(),
{
    if fields.len() == 0 {
        (Seq::empty(), default_mime_type())
    } else if fields.last().name == audio_field() {
        (
            fields.last().data,
            match fields.last().content_type {
                Some(t) => t,
                None => default_mime_type(),
            },
        )
    } else {
        selected_audio(fields.drop_last())
    }
}

/// The text of the fault for an upload without a recording.
pub open spec fn no_audio_fault() -> Seq<char> {
    "No audio data provided"@
}

/// What is to be asked of the service for an upload: the request for the
/// recording in it, or a fault where there is no recording or it is too
/// long to encode.
pub open spec fn suggest_outcome(service: GeminiService, fields: Seq<UploadFieldView>) -> Result<
    GeminiRequestView,
    AppErrorView,
> {
    let (data, mime_type) = selected_audio(fields);
    if data.len() == 0 {
        Err(AppErrorView::Internal(no_audio_fault()))
    } else if !fits_base64(data.len()) {
        Err(AppErrorView::Internal(oversize_fault()))
    } else {
        Ok(service.request_for(data, mime_type))
    }
}

/// The recording in an upload and its type.
pub fn select_audio(fields: Vec<UploadField>) -> (r: (Vec<u8>, String))
    ensures
        (r.0@, r.1@) == selected_audio(upload_views(fields@)),
{
    let mut rest = fields;
    loop
        invariant
            selected_audio(upload_views(rest@)) == selected_audio(upload_views(fields@)),
        decreases rest@.len(),
    {
        let ghost before = upload_views(rest@);
        match rest.pop() {
            None => {
                return (Vec::new(), String::from_str("audio/mpeg"));
            },
            Some(field) => {
                proof {
                    assert(before.last() == field@);
                    assert(before.drop_last() =~= upload_views(rest@));
                }
                if str_eq(field.name.as_str(), "audio") {
                    let mime_type = match field.content_type {
                        Some(t) => t,
                        None => String::from_str("audio/mpeg"),
                    };
                    return (field.data, mime_type);
                }
            },
        }
    }
}

/// The first step of suggesting tasks for an upload: what to ask of the
/// extraction service.
pub fn suggest_tasks(service: &GeminiService, fields: Vec<UploadField>) -> (r: Result<
    GeminiRequest,
    AppError,
>)
    ensures
        match r {
            Ok(request) => suggest_outcome(*service, upload_views(fields@)) == Ok::<
                GeminiRequestView,
                AppErrorView,
            >(request@),
            Err(e) => suggest_outcome(*service, upload_views(fields@)) == Err::<
                GeminiRequestView,
                AppErrorView,
            >(e@),
        },
{
    let (data, mime_type) = select_audio(fields);
    if data.len() == 0 {
        return Err(AppError::Internal(String::from_str("No audio data provided")));
    }
    service.suggest_tasks(data.as_slice(), mime_type.as_str())
}

/// The titles of a list of suggestions.
pub open spec fn titles_of(tasks: Seq<SuggestedTodoView>) -> Seq<Seq<char>> {
    Seq::new(tasks.len(), |i: int| tasks[i].title)
}

/// What the reply of the service gives to the one who asked: the titles
/// of the suggested tasks, or the fault.
pub open spec fn suggested_outcome(reply: GeminiReplyView) -> Result<Seq<Seq<char>>, AppErrorView> {
    match reply_outcome(reply) {
        Ok(tasks) => Ok(titles_of(tasks)),
        Err(e) => Err(e),
    }
}

/// The second step of suggesting tasks: the response for the reply of the
/// extraction service.
pub fn suggested_tasks(reply: GeminiReply) -> (r: Result<SuggestedTasksResponse, AppError>)
    ensures
        match r {
            Ok(response) => suggested_outcome(reply@) == Ok::<Seq<Seq<char>>, AppErrorView>(
                response@,
            ),
            Err(e) => suggested_outcome(reply@) == Err::<Seq<Seq<char>>, AppErrorView>(e@),
        },
{
    let suggestions = match GeminiService::read_reply(reply) {
        Err(e) => {
            return Err(e);
        },
        Ok(suggestions) => suggestions,
    };
    let mut tasks: Vec<String> = Vec::new();
    let n: usize = suggestions.len();
    let mut i: usize = 0;
    while i < n
        invariant
            i <= n,
            n == suggestions@.len(),
            tasks@.len() == i,
            forall|j: int| 0 <= j < i ==> (#[trigger] tasks@[j])@ == suggestions@[j].title@,
        decreases n - i,
    {
        tasks.push(suggestions[i].title.clone());
        i += 1;
    }
    let response = SuggestedTasksResponse { tasks };
    assert(response@ =~= titles_of(suggested_views(suggestions@)));
    Ok(response)
}

/// The command that a confirmed title stands for.
pub open spec fn confirm_command(title: Seq<char>) -> CreateTodoView {
    CreateTodoView { title, description: None, priority: None }
}

/// The store after confirming `titles` one by one, the i-th under the
/// identifier `ids[i]` at the time `times[i]`, and the failure at which
/// the confirming stopped, if it did. What was stored before a failure
/// stays stored.
pub open spec fn confirmed(
    records: Map<u128, TodoView>,
    titles: Seq<Seq<char>>,
    ids: Seq<u128>,
    times: Seq<i64>,
) -> (Map<u128, TodoView>, Option<AppErrorView>)
    decreases titles.len(),
{
    if titles.len() == 0 || ids.len() != titles.len() || times.len() != titles.len() {
        (records, None)
    } else {
        let (earlier, failure) = confirmed(
            records,
            titles.drop_last(),
            ids.drop_last(),
            times.drop_last(),
        );
        match failure {
            Some(e) => (earlier, Some(e)),
            None => {
                let outcome = create_outcome(
                    earlier,
                    confirm_command(titles.last()),
                    TodoSource::Audio,
                    ids.last(),
                    times.last(),
                );
                (
                    stored(earlier, outcome),
                    match outcome {
                        Ok(_) => None,
                        Err(e) => Some(e),
                    },
                )
            },
        }
    }
}

/// `after` and `failure` are what confirming `titles` gives from
/// `before`, for the identifiers `ids` and the times `times` of the
/// titles that were reached: all of them where nothing failed, and those
/// up to the one that failed otherwise.
pub open spec fn is_confirmation(
    before: Map<u128, TodoView>,
    titles: Seq<Seq<char>>,
    ids: Seq<u128>,
    times: Seq<i64>,
    after: Map<u128, TodoView>,
    failure: Option<AppErrorView>,
) -> bool {
    &&& ids.len() == times.len()
    &&& ids.len() <= titles.len()
    &&& confirmed(before, titles.take(ids.len() as int), ids, times) == (after, failure)
    &&& failure is None ==> ids.len() == titles.len()
}

/// The failure in what confirming hands back.
pub open spec fn failure_view(r: Result<u16, AppError>) -> Option<AppErrorView> {
    match r {
        Ok(_) => None,
        Err(e) => Some(e@),
    }
}

/// Stores a todo for each confirmed title, in order: with the source
/// `Audio`, the default priority, a fresh identifier and the current
/// time. The batch is no transaction: at the first title that fails the
/// confirming stops with that failure, and the todos stored before it
/// stay stored.
pub fn confirm_tasks(state: &mut AppState, req: ConfirmTasksRequest) -> (r: Result<u16, AppError>)
    ensures
        consistent(final(state)@),
        r matches Ok(status) ==> status == STATUS_CREATED,
        exists|ids: Seq<u128>, times: Seq<i64>|
            is_confirmation(old(state)@, req@, ids, times, final(state)@, failure_view(r)),
{
    let ghost before = state@;
    let ghost titles = req@;
    let ghost mut ids: Seq<u128> = Seq::empty();
    let ghost mut times: Seq<i64> = Seq::empty();
    let n: usize = req.tasks.len();
    let mut i: usize = 0;
    state.consistency();
    assert(titles.take(0) =~= Seq::<Seq<char>>::empty());
    while i < n
        invariant
            i <= n,
            n == req.tasks@.len(),
            titles == req@,
            before == old(state)@,
            ids.len() == i,
            times.len() == i,
            consistent(state@),
            confirmed(before, titles.take(i as int), ids, times) == (state@, None::<AppErrorView>),
        decreases n - i,
    {
        let id = new_id();
        let now = now_micros();
        let command = CreateTodo { title: req.tasks[i].clone(), description: None, priority: None };
        let ghost earlier = state@;
        let ghost done_ids = ids;
        let ghost done_times = times;
        let outcome = create_todo_at(state, ValidatedJson(command), TodoSource::Audio, id, now);
        proof {
            ids = ids.push(id);
            times = times.push(now);
            let reached = titles.take(i + 1);
            assert(reached.drop_last() =~= titles.take(i as int));
            assert(ids.drop_last() =~= done_ids);
            assert(times.drop_last() =~= done_times);
            assert(reached.last() == command@.title);
            assert(command@ == confirm_command(reached.last()));
            assert(confirmed(before, reached, ids, times) == (
                stored(earlier, outcome_view(outcome)),
                match outcome_view(outcome) {
                    Ok(_) => None::<AppErrorView>,
                    Err(e) => Some(e),
                },
            ));
        }
        match outcome {
            Err(e) => {
                proof {
                    assert(is_confirmation(before, titles, ids, times, state@, Some(e@)));
                }
                return Err(e);
            },
            Ok(_) => {},
        }
        i += 1;
    }
    proof {
        assert(titles.take(n as int) =~= titles);
        assert(is_confirmation(before, titles, ids, times, state@, None::<AppErrorView>));
    }
    Ok(STATUS_CREATED)
}

} // verus!
