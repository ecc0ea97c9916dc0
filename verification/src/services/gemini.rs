//! The extraction service: what is asked of it for a recording, and what
//! its reply is taken to say. Sending the request and receiving the reply
//! is left to the caller.

use vstd::prelude::*;
use vstd::string::*;
use vstd::utf8::encode_utf8;
use crate::decode::{
    optional_text, read_optional_text, read_required_priority, read_required_text,
    required_priority, required_text,
};
use crate::error::{AppError, AppErrorView};
use crate::json::{
    json_object_list, json_quoted, json_text_at, lookup_view, member_lists_view, members_view,
    parsed_list_view, quote, read_object_list, read_text_at, Members, MembersView, TextPath,
    TextPathView,
};
use crate::models::todo::{SuggestedTodo, SuggestedTodoView};
use crate::validator::Decode;

verus! {

/// The standard base64 form of `data`, with padding.
pub uninterp spec fn base64_standard(data: Seq<u8>) -> Seq<char>;

/// Whether `len` bytes are few enough for their base64 form to have a
/// length that fits the machine.
pub open spec fn fits_base64(len: nat) -> bool {
    len <= usize::MAX / 4 * 3
}

/// Encodes `data` with `base64::engine::general_purpose::STANDARD`.
/// Trusted: the result is the standard padded base64 form of these bytes,
/// of the same bytes always the same. The call panics where the length
/// of the result would not fit `usize`; `requires` keeps such data out.
#[verifier::external_body]
fn encode_base64(data: &[u8]) -> (text: String)
    requires
        fits_base64(data@.len()),
    ensures
        text@ == base64_standard(data@),
{
    base64::Engine::encode(&base64::engine::general_purpose::STANDARD, data)
}

/// Where the service is reached, up to the key.
pub open spec fn endpoint() -> Seq<char> {
    "https://generativelanguage.googleapis.com/v1beta/models/gemini-2.5-flash:generateContent?key="@
}

/// What the service is told to do with the recording.
pub open spec fn prompt() -> Seq<char> {
    "Extract a list of actionable tasks from this audio. Return ONLY a JSON array of objects. Each object MUST have 'title' (string), 'description' (string or null), and 'priority' (string: 'Low', 'Medium', or 'High'). No other text, no markdown code blocks."@
}

/// Where in the reply the extracted text stands: in the first of the
/// `candidates`, in its `content`, in the first of the `parts` of that,
/// under `text`.
pub open spec fn text_path() -> TextPathView {
    TextPathView {
        list: "candidates"@,
        item: 0,
        holder: "content"@,
        parts: "parts"@,
        part: 0,
        text: "text"@,
    }
}

/// The JSON document that asks for the tasks in a recording of the type
/// `mime_type`, given as base64 in `data`.
pub open spec fn request_body(mime_type: Seq<char>, data: Seq<char>) -> Seq<char> {
    "{\"contents\":[{\"parts\":[{\"text\":"@ + json_quoted(prompt())
        + "},{\"inline_data\":{\"mime_type\":"@ + json_quoted(mime_type) + ",\"data\":"@
        + json_quoted(data)
        + "}}]}],\"generationConfig\":{\"response_mime_type\":\"application/json\"}}"@
}

/// The text of the fault for a service without a key.
pub open spec fn missing_key_fault() -> Seq<char> {
    "GOOGLE_API_KEY not set"@
}

/// The text of the fault for a recording too long to encode.
pub open spec fn oversize_fault() -> Seq<char> {
    "Audio data too large"@
}

/// The text of the fault for tasks that cannot be read out of the
/// extracted text.
pub open spec fn tasks_fault(cause: Seq<char>, text: Seq<char>) -> Seq<char> {
    "Failed to parse tasks from Gemini: "@ + cause + ". Text was: "@ + text
}

/// One request to the service: the address to post to and the JSON
/// document to post.
#[derive(Debug)]
pub struct GeminiRequest {
    pub url: String,
    pub body: String,
}

/// The mathematical content of a [`GeminiRequest`].
pub struct GeminiRequestView {
    pub url: Seq<char>,
    pub body: Seq<char>,
}

impl View for GeminiRequest {
    type V = GeminiRequestView;

    open spec fn view(&self) -> GeminiRequestView {
        GeminiRequestView { url: self.url@, body: self.body@ }
    }
}

/// How a request to the service ended.
#[derive(Debug)]
pub enum GeminiReply {
    /// The request could not be sent or no reply came; the text says why.
    Unreachable(String),
    /// The service replied with a status that is no success; the text is
    /// the body of the reply.
    Refused(String),
    /// The service replied with success, but the body could not be read;
    /// the text says why.
    Unreadable(String),
    /// The service replied with success; the text is the body.
    Answered(String),
}

/// The mathematical content of a [`GeminiReply`].
pub enum GeminiReplyView {
    Unreachable(Seq<char>),
    Refused(Seq<char>),
    Unreadable(Seq<char>),
    Answered(Seq<char>),
}

impl View for GeminiReply {
    type V = GeminiReplyView;

    open spec fn view(&self) -> GeminiReplyView {
        match self {
            GeminiReply::Unreachable(e) => GeminiReplyView::Unreachable(e@),
            GeminiReply::Refused(body) => GeminiReplyView::Refused(body@),
            GeminiReply::Unreadable(e) => GeminiReplyView::Unreadable(e@),
            GeminiReply::Answered(body) => GeminiReplyView::Answered(body@),
        }
    }
}

impl Decode for SuggestedTodo {
    /// `title` must hold a string and `priority` must name a priority;
    /// `description` may be absent or null.
    open spec fn decoded(members: MembersView) -> Result<SuggestedTodoView, Seq<char>> {
        match required_text(members, "title"@) {
            Err(e) => Err(e),
            Ok(title) => match optional_text(members, "description"@) {
                Err(e) => Err(e),
                Ok(description) => match required_priority(members, "priority"@) {
                    Err(e) => Err(e),
                    Ok(priority) => Ok(SuggestedTodoView { title, description, priority }),
                },
            },
        }
    }

    fn decode(members: &Members) -> (r: Result<SuggestedTodo, String>) {
        let title = match read_required_text(members, "title") {
            Err(e) => { return Err(e); },
            Ok(title) => title,
        };
        let description = match read_optional_text(members, "description") {
            Err(e) => { return Err(e); },
            Ok(description) => description,
        };
        let priority = match read_required_priority(members, "priority") {
            Err(e) => { return Err(e); },
            Ok(priority) => priority,
        };
        Ok(SuggestedTodo { title, description, priority })
    }
}

/// The views of a list of suggested todos.
pub open spec fn suggested_views(v: Seq<SuggestedTodo>) -> Seq<SuggestedTodoView> {
    Seq::new(v.len(), |i: int| v[i]@)
}

/// The view of what reading a reply gives.
pub open spec fn tasks_view(r: Result<Vec<SuggestedTodo>, AppError>) -> Result<
    Seq<SuggestedTodoView>,
    AppErrorView,
> {
    match r {
        Ok(tasks) => Ok(suggested_views(tasks@)),
        Err(e) => Err(e@),
    }
}

/// The tasks that a list of objects decodes to, or the message for the
/// first object that is not a task.
pub open spec fn decoded_tasks(objects: Seq<MembersView>) -> Result<
    Seq<SuggestedTodoView>,
    Seq<char>,
>
    decreases objects.len(),
{
    if objects.len() == 0 {
        Ok(Seq::empty())
    } else {
        match decoded_tasks(objects.drop_last()) {
            Err(e) => Err(e),
            Ok(tasks) => match SuggestedTodo::decoded(objects.last()) {
                Err(e) => Err(e),
                Ok(task) => Ok(tasks.push(task)),
            },
        }
    }
}

/// What the extracted text gives, from what the parser made of it: the
/// tasks, or a fault where the text is no list of tasks.
pub open spec fn tasks_outcome(parsed: Result<Seq<MembersView>, Seq<char>>, text: Seq<char>) -> Result<
    Seq<SuggestedTodoView>,
    AppErrorView,
> {
    match parsed {
        Err(e) => Err(AppErrorView::Internal(tasks_fault(e, text))),
        Ok(objects) => match decoded_tasks(objects) {
            Err(e) => Err(AppErrorView::Internal(tasks_fault(e, text))),
            Ok(tasks) => Ok(tasks),
        },
    }
}

/// What a body gives, from what was found in it where the extracted text
/// is to stand: that text, or a fault where the body is no JSON or holds
/// no text there.
pub open spec fn text_outcome(lookup: Result<Option<Seq<char>>, Seq<char>>) -> Result<
    Seq<char>,
    AppErrorView,
> {
    match lookup {
        Err(e) => Err(AppErrorView::Internal("Failed to parse Gemini response: "@ + e)),
        Ok(None) => Err(AppErrorView::Internal("Unexpected Gemini response structure"@)),
        Ok(Some(text)) => Ok(text),
    }
}

/// What a reply gives: the tasks, or a fault for each way in which the
/// exchange can fail. No failure gives an empty list.
pub open spec fn reply_outcome(reply: GeminiReplyView) -> Result<
    Seq<SuggestedTodoView>,
    AppErrorView,
> {
    match reply {
        GeminiReplyView::Unreachable(e) => Err(
            AppErrorView::Internal("Failed to call Gemini API: "@ + e),
        ),
        GeminiReplyView::Refused(body) => Err(AppErrorView::Internal("Gemini API error: "@ + body)),
        GeminiReplyView::Unreadable(e) => Err(
            AppErrorView::Internal("Failed to parse Gemini response: "@ + e),
        ),
        GeminiReplyView::Answered(body) => match text_outcome(
            json_text_at(encode_utf8(body), text_path()),
        ) {
            Err(e) => Err(e),
            Ok(text) => tasks_outcome(json_object_list(encode_utf8(text)), text),
        },
    }
}

/// The extracted text, from what was found in the body of a reply.
pub fn text_from_lookup(lookup: Result<Option<String>, String>) -> (r: Result<String, AppError>)
    ensures
        match r {
            Ok(text) => text_outcome(lookup_view(lookup)) == Ok::<Seq<char>, AppErrorView>(text@),
            Err(e) => text_outcome(lookup_view(lookup)) == Err::<Seq<char>, AppErrorView>(e@),
        },
{
    match lookup {
        Err(e) => Err(
            AppError::Internal(String::from_str("Failed to parse Gemini response: ").concat(e.as_str())),
        ),
        Ok(None) => Err(AppError::Internal(String::from_str("Unexpected Gemini response structure"))),
        Ok(Some(text)) => Ok(text),
    }
}

fn tasks_fault_error(cause: &str, text: &str) -> (e: AppError)
    ensures
        e@ == AppErrorView::Internal(tasks_fault(cause@, text@)),
{
    AppError::Internal(
        String::from_str("Failed to parse tasks from Gemini: ").concat(cause).concat(
            ". Text was: ",
        ).concat(text),
    )
}

/// The tasks in the extracted text `text`, from what the parser made of
/// that text.
pub fn tasks_from_parsed(parsed: Result<Vec<Members>, String>, text: &str) -> (r: Result<
    Vec<SuggestedTodo>,
    AppError,
>)
    ensures
        tasks_view(r) == tasks_outcome(parsed_list_view(parsed), text@),
{
    let ghost whole = parsed_list_view(parsed);
    let objects = match parsed {
        Err(e) => {
            return Err(tasks_fault_error(e.as_str(), text));
        },
        Ok(objects) => objects,
    };
    let ghost all = member_lists_view(objects@);
    let mut tasks: Vec<SuggestedTodo> = Vec::new();
    let n: usize = objects.len();
    let mut i: usize = 0;
    assert(all.take(0) =~= Seq::<MembersView>::empty());
    assert(suggested_views(tasks@) =~= Seq::<SuggestedTodoView>::empty());
    while i < n
        invariant
            i <= n,
            n == objects@.len(),
            all == member_lists_view(objects@),
            whole == parsed_list_view(parsed),
            whole == Ok::<Seq<MembersView>, Seq<char>>(all),
            decoded_tasks(all.take(i as int)) == Ok::<Seq<SuggestedTodoView>, Seq<char>>(
                suggested_views(tasks@),
            ),
        decreases n - i,
    {
        proof {
            let next = all.take(i + 1);
            assert(next.drop_last() =~= all.take(i as int));
            assert(next.last() == members_view(objects@[i as int]@));
        }
        match SuggestedTodo::decode(&objects[i]) {
            Err(e) => {
                proof {
                    assert(decoded_tasks(all.take(i + 1)) == Err::<
                        Seq<SuggestedTodoView>,
                        Seq<char>,
                    >(e@));
                    lemma_decoded_tasks_fails(all, i + 1);
                }
                return Err(tasks_fault_error(e.as_str(), text));
            },
            Ok(task) => {
                let ghost before = suggested_views(tasks@);
                tasks.push(task);
                assert(suggested_views(tasks@) =~= before.push(task@));
            },
        }
        i += 1;
    }
    assert(all.take(n as int) =~= all);
    Ok(tasks)
}

/// Once a prefix of a list fails to decode, the whole list fails, and
/// with the same message.
proof fn lemma_decoded_tasks_fails(objects: Seq<MembersView>, k: int)
    requires
        0 <= k <= objects.len(),
        decoded_tasks(objects.take(k)) is Err,
    ensures
        decoded_tasks(objects) == decoded_tasks(objects.take(k)),
    decreases objects.len() - k,
{
    if k == objects.len() {
        assert(objects.take(k) =~= objects);
    } else {
        let next = objects.take(k + 1);
        assert(next.drop_last() =~= objects.take(k));
        lemma_decoded_tasks_fails(objects, k + 1);
    }
}

/// The client of the extraction service: it holds the key.
#[derive(Debug)]
pub struct GeminiService {
    api_key: String,
}

impl Clone for GeminiService {
    fn clone(&self) -> (c: GeminiService)
        ensures
            c@ == self@,
    {
        GeminiService { api_key: self.api_key.clone() }
    }
}

impl GeminiService {
    /// The key that the service is asked with.
    pub closed spec fn view(&self) -> Seq<char> {
        self.api_key@
    }

    /// The request that asks for the tasks in a recording.
    pub open spec fn request_for(self, audio_data: Seq<u8>, mime_type: Seq<char>) -> GeminiRequestView {
        GeminiRequestView {
            url: endpoint() + self@,
            body: request_body(mime_type, base64_standard(audio_data)),
        }
    }

    /// A client with the key `api_key`; without a key there is no client.
    pub fn new(api_key: Option<String>) -> (r: Result<GeminiService, AppError>)
        ensures
            match r {
                Ok(service) => api_key matches Some(key) && service@ == key@,
                Err(e) => api_key is None && e@ == AppErrorView::Internal(missing_key_fault()),
            },
    {
        match api_key {
            Some(api_key) => Ok(GeminiService { api_key }),
            None => Err(AppError::Internal(String::from_str("GOOGLE_API_KEY not set"))),
        }
    }

    /// What to send to the service for a recording: the request, or a
    /// fault where the recording is too long to encode.
    pub fn suggest_tasks(&self, audio_data: &[u8], mime_type: &str) -> (r: Result<
        GeminiRequest,
        AppError,
    >)
        ensures
            match r {
                Ok(request) => fits_base64(audio_data@.len()) && request@ == self.request_for(
                    audio_data@,
                    mime_type@,
                ),
                Err(e) => !fits_base64(audio_data@.len()) && e@ == AppErrorView::Internal(
                    oversize_fault(),
                ),
            },
    {
        if audio_data.len() > usize::MAX / 4 * 3 {
            return Err(AppError::Internal(String::from_str("Audio data too large")));
        }
        let url = String::from_str(
            "https://generativelanguage.googleapis.com/v1beta/models/gemini-2.5-flash:generateContent?key=",
        ).concat(self.api_key.as_str());
        let data = encode_base64(audio_data);
        let text = quote(
            "Extract a list of actionable tasks from this audio. Return ONLY a JSON array of objects. Each object MUST have 'title' (string), 'description' (string or null), and 'priority' (string: 'Low', 'Medium', or 'High'). No other text, no markdown code blocks.",
        );
        let body = String::from_str("{\"contents\":[{\"parts\":[{\"text\":").concat(
            text.as_str(),
        ).concat("},{\"inline_data\":{\"mime_type\":").concat(quote(mime_type).as_str()).concat(
            ",\"data\":",
        ).concat(quote(data.as_str()).as_str()).concat(
            "}}]}],\"generationConfig\":{\"response_mime_type\":\"application/json\"}}",
        );
        Ok(GeminiRequest { url, body })
    }

    /// What the reply of the service says: the tasks, or the fault.
    pub fn read_reply(reply: GeminiReply) -> (r: Result<Vec<SuggestedTodo>, AppError>)
        ensures
            tasks_view(r) == reply_outcome(reply@),
    {
        match reply {
            GeminiReply::Unreachable(e) => Err(
                AppError::Internal(String::from_str("Failed to call Gemini API: ").concat(e.as_str())),
            ),
            GeminiReply::Refused(body) => Err(
                AppError::Internal(String::from_str("Gemini API error: ").concat(body.as_str())),
            ),
            GeminiReply::Unreadable(e) => Err(
                AppError::Internal(
                    String::from_str("Failed to parse Gemini response: ").concat(e.as_str()),
                ),
            ),
            GeminiReply::Answered(body) => {
                let path = TextPath {
                    list: "candidates",
                    item: 0,
                    holder: "content",
                    parts: "parts",
                    part: 0,
                    text: "text",
                };
                let lookup = read_text_at(body.as_str().as_bytes(), path);
                match text_from_lookup(lookup) {
                    Err(e) => Err(e),
                    Ok(text) => {
                        let parsed = read_object_list(text.as_str().as_bytes());
                        tasks_from_parsed(parsed, text.as_str())
                    },
                }
            },
        }
    }
}

} // verus!
