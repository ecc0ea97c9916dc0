use todo_service::error::AppError;
use todo_service::models::todo::{Priority, TodoSource, TodoStatus};
use todo_service::routes::audio::{
    confirm_tasks, select_audio, suggest_tasks, suggested_tasks, ConfirmTasksRequest, UploadField,
};
use todo_service::routes::todos::{create_todo_at, list_todos, CreateTodo};
use todo_service::services::gemini::{GeminiReply, GeminiService};
use todo_service::state::AppState;
use todo_service::validator::ValidatedJson;

fn field(name: &str, content_type: Option<&str>, data: &[u8]) -> UploadField {
    UploadField {
        name: name.to_string(),
        content_type: content_type.map(|t| t.to_string()),
        data: data.to_vec(),
    }
}

fn service() -> GeminiService {
    GeminiService::new(Some("k".to_string())).unwrap()
}

#[test]
fn upload_without_a_part_has_no_recording() {
    assert_eq!(select_audio(Vec::new()), (Vec::new(), "audio/mpeg".to_string()));
}

#[test]
fn recording_is_the_part_named_audio() {
    let fields = vec![
        field("note", Some("text/plain"), b"hi"),
        field("audio", Some("audio/wav"), b"RIFF"),
        field("", None, b"zz"),
    ];
    assert_eq!(select_audio(fields), (b"RIFF".to_vec(), "audio/wav".to_string()));
}

#[test]
fn recording_without_a_type_has_the_default_type() {
    let fields = vec![field("audio", None, b"abc")];
    assert_eq!(select_audio(fields), (b"abc".to_vec(), "audio/mpeg".to_string()));
}

#[test]
fn last_part_named_audio_wins() {
    let fields = vec![
        field("audio", Some("audio/wav"), b"first"),
        field("audio", None, b"second"),
        field("Audio", Some("audio/ogg"), b"third"),
    ];
    assert_eq!(select_audio(fields), (b"second".to_vec(), "audio/mpeg".to_string()));
}

#[test]
fn upload_with_other_parts_only_has_no_recording() {
    let fields = vec![field("file", Some("audio/wav"), b"data")];
    assert_eq!(select_audio(fields), (Vec::new(), "audio/mpeg".to_string()));
}

#[test]
fn suggesting_asks_for_the_recording() {
    let fields = vec![field("audio", Some("audio/ogg"), b"hello")];
    let request = suggest_tasks(&service(), fields).unwrap();
    assert!(request.url.ends_with(":generateContent?key=k"));
    let body: serde_json::Value = serde_json::from_str(&request.body).unwrap();
    let inline = &body["contents"][0]["parts"][1]["inline_data"];
    assert_eq!(inline["mime_type"].as_str().unwrap(), "audio/ogg");
    assert_eq!(inline["data"].as_str().unwrap(), "aGVsbG8=");
}

#[test]
fn suggesting_without_a_recording_is_a_fault() {
    for fields in [
        Vec::new(),
        vec![field("audio", Some("audio/wav"), b"")],
        vec![field("file", Some("audio/wav"), b"data")],
        vec![field("audio", None, b"data"), field("audio", None, b"")],
    ] {
        match suggest_tasks(&service(), fields) {
            Err(AppError::Internal(text)) => assert_eq!(text, "No audio data provided"),
            other => panic!("expected Internal, got {:?}", other),
        }
    }
}

#[test]
fn suggested_titles_come_back_in_order() {
    let text = r#"[{"title": "Call Ann", "priority": "High"}, {"title": "Buy milk", "priority": "Low"}]"#;
    let body = format!(
        r#"{{"candidates": [{{"content": {{"parts": [{{"text": {}}}]}}}}]}}"#,
        serde_json::Value::from(text)
    );
    let response = suggested_tasks(GeminiReply::Answered(body)).unwrap();
    assert_eq!(response.tasks, vec!["Call Ann".to_string(), "Buy milk".to_string()]);
}

#[test]
fn suggested_tasks_pass_the_fault_on() {
    match suggested_tasks(GeminiReply::Refused("no".to_string())) {
        Err(AppError::Internal(text)) => assert_eq!(text, "Gemini API error: no"),
        other => panic!("expected Internal, got {:?}", other),
    }
}

#[test]
fn confirming_stores_a_todo_for_each_title() {
    let mut state = AppState::new();
    let req = ConfirmTasksRequest {
        tasks: vec!["Call Ann".to_string(), "Buy milk".to_string(), "Call Ann".to_string()],
    };
    assert_eq!(confirm_tasks(&mut state, req).unwrap(), 201);
    let listing = list_todos(&state).unwrap();
    assert_eq!(listing.len(), 3);
    let mut titles: Vec<String> = listing.iter().map(|t| t.title.clone()).collect();
    titles.sort();
    assert_eq!(titles, vec!["Buy milk", "Call Ann", "Call Ann"]);
    for todo in &listing {
        assert_eq!(todo.source, TodoSource::Audio);
        assert_eq!(todo.status, TodoStatus::Todo);
        assert_eq!(todo.priority, Priority::Medium);
        assert_eq!(todo.description, None);
        assert_eq!(todo.created_at, todo.updated_at);
        assert_eq!(todo.id >> 76 & 0xf, 4);
    }
}

#[test]
fn confirming_nothing_stores_nothing() {
    let mut state = AppState::new();
    assert_eq!(confirm_tasks(&mut state, ConfirmTasksRequest { tasks: Vec::new() }).unwrap(), 201);
    assert!(list_todos(&state).unwrap().is_empty());
}

#[test]
fn confirming_keeps_what_was_stored_before() {
    let mut state = AppState::new();
    let command = CreateTodo { title: "old".to_string(), description: None, priority: None };
    create_todo_at(&mut state, ValidatedJson(command), TodoSource::Manual, 1, 0).unwrap();
    let req = ConfirmTasksRequest { tasks: vec!["new".to_string()] };
    confirm_tasks(&mut state, req).unwrap();
    let listing = list_todos(&state).unwrap();
    assert_eq!(listing.len(), 2);
    assert_eq!(listing[0].title, "new");
    assert_eq!(listing[1].title, "old");
    assert_eq!(listing[1].source, TodoSource::Manual);
}

#[test]
fn confirming_stops_at_the_first_failure_and_keeps_the_rest() {
    let mut state = AppState::new();
    let req = ConfirmTasksRequest {
        tasks: vec!["one".to_string(), "two".to_string(), String::new(), "four".to_string()],
    };
    match confirm_tasks(&mut state, req) {
        Err(AppError::InvalidInput(errors)) => {
            assert_eq!(
                errors.entries(),
                vec![("title".to_string(), vec!["title cannot be empty".to_string()])]
            );
        },
        other => panic!("expected InvalidInput, got {:?}", other),
    }
    let mut titles: Vec<String> =
        list_todos(&state).unwrap().iter().map(|t| t.title.clone()).collect();
    titles.sort();
    assert_eq!(titles, vec!["one", "two"]);
}
