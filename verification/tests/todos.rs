use std::sync::{Arc, Mutex};
use todo_service::error::AppError;
use todo_service::models::todo::{Priority, Todo, TodoSource, TodoStatus};
use todo_service::routes::todos::{
    create_todo, create_todo_at, delete_todo, get_todo, list_todos, update_todo, update_todo_at,
    CreateTodo, UpdateTodo,
};
use todo_service::state::AppState;
use todo_service::validator::ValidatedJson;

fn titled(title: &str) -> ValidatedJson<CreateTodo> {
    ValidatedJson(CreateTodo { title: title.to_string(), description: None, priority: None })
}

fn no_change() -> UpdateTodo {
    UpdateTodo { title: None, description: None, status: None, priority: None }
}

fn titles(listing: &[Todo]) -> Vec<String> {
    listing.iter().map(|t| t.title.clone()).collect()
}

#[test]
fn created_record_has_the_defaults() {
    let mut state = AppState::new();
    let todo = create_todo_at(&mut state, titled("Buy milk"), TodoSource::Manual, 1, 1_000).unwrap();
    assert_eq!(todo.id, 1);
    assert_eq!(todo.title, "Buy milk");
    assert_eq!(todo.description, None);
    assert_eq!(todo.status, TodoStatus::Todo);
    assert_eq!(todo.priority, Priority::Medium);
    assert_eq!(todo.source, TodoSource::Manual);
    assert_eq!(todo.created_at, 1_000);
    assert_eq!(todo.updated_at, 1_000);
    let stored = get_todo(&state, 1).unwrap();
    assert_eq!(stored.title, "Buy milk");
    assert_eq!(stored.created_at, 1_000);
}

#[test]
fn created_record_keeps_what_the_command_gives() {
    let mut state = AppState::new();
    let command = CreateTodo {
        title: "Plan".to_string(),
        description: Some("the trip".to_string()),
        priority: Some(Priority::High),
    };
    let todo = create_todo_at(&mut state, ValidatedJson(command), TodoSource::Ai, 9, -5).unwrap();
    assert_eq!(todo.description, Some("the trip".to_string()));
    assert_eq!(todo.priority, Priority::High);
    assert_eq!(todo.source, TodoSource::Ai);
    assert_eq!(todo.created_at, -5);
    assert_eq!(todo.updated_at, -5);
}

#[test]
fn create_with_the_clock_and_a_fresh_identifier() {
    let mut state = AppState::new();
    let first = create_todo(&mut state, titled("one")).unwrap();
    let second = create_todo(&mut state, titled("two")).unwrap();
    assert_eq!(first.created_at, first.updated_at);
    assert_eq!(second.created_at, second.updated_at);
    assert!(first.created_at > 1_600_000_000_000_000);
    assert!(second.created_at >= first.created_at);
    assert_ne!(first.id, second.id);
    assert_eq!(first.id >> 76 & 0xf, 4);
    assert_eq!(first.id >> 62 & 0x3, 2);
    assert_eq!(first.source, TodoSource::Manual);
    assert_eq!(first.status, TodoStatus::Todo);
    assert_eq!(first.priority, Priority::Medium);
    assert_eq!(list_todos(&state).unwrap().len(), 2);
}

#[test]
fn create_rechecks_the_command() {
    let mut state = AppState::new();
    let command = CreateTodo {
        title: String::new(),
        description: Some("d".repeat(600)),
        priority: None,
    };
    match create_todo_at(&mut state, ValidatedJson(command), TodoSource::Manual, 1, 0) {
        Err(AppError::InvalidInput(errors)) => {
            assert_eq!(errors.get("title"), Some(vec!["title cannot be empty".to_string()]));
            assert_eq!(errors.get("description"), Some(vec!["length".to_string()]));
        },
        other => panic!("expected InvalidInput, got {:?}", other),
    }
    assert!(list_todos(&state).unwrap().is_empty());
    assert!(matches!(create_todo(&mut state, titled("")), Err(AppError::InvalidInput(_))));
    assert!(list_todos(&state).unwrap().is_empty());
}

#[test]
fn identifier_in_use_is_a_fault() {
    let mut state = AppState::new();
    create_todo_at(&mut state, titled("first"), TodoSource::Manual, 5, 10).unwrap();
    match create_todo_at(&mut state, titled("second"), TodoSource::Manual, 5, 20) {
        Err(AppError::Internal(text)) => assert_eq!(text, "failed to create todo"),
        other => panic!("expected Internal, got {:?}", other),
    }
    assert_eq!(get_todo(&state, 5).unwrap().title, "first");
    assert_eq!(list_todos(&state).unwrap().len(), 1);
}

#[test]
fn get_of_an_unknown_identifier_is_not_found() {
    let mut state = AppState::new();
    assert!(matches!(get_todo(&state, 1), Err(AppError::NotFound)));
    create_todo_at(&mut state, titled("t"), TodoSource::Manual, 1, 0).unwrap();
    assert!(matches!(get_todo(&state, 2), Err(AppError::NotFound)));
    assert!(get_todo(&state, 1).is_ok());
}

#[test]
fn update_replaces_only_what_the_command_holds() {
    let mut state = AppState::new();
    let command = CreateTodo {
        title: "Buy milk".to_string(),
        description: Some("2 litres".to_string()),
        priority: Some(Priority::Low),
    };
    create_todo_at(&mut state, ValidatedJson(command), TodoSource::Audio, 3, 100).unwrap();
    let patch = UpdateTodo { status: Some(TodoStatus::Doing), ..no_change() };
    let todo = update_todo_at(&mut state, 3, ValidatedJson(patch), 200).unwrap();
    assert_eq!(todo.id, 3);
    assert_eq!(todo.title, "Buy milk");
    assert_eq!(todo.description, Some("2 litres".to_string()));
    assert_eq!(todo.status, TodoStatus::Doing);
    assert_eq!(todo.priority, Priority::Low);
    assert_eq!(todo.source, TodoSource::Audio);
    assert_eq!(todo.created_at, 100);
    assert_eq!(todo.updated_at, 200);
    let stored = get_todo(&state, 3).unwrap();
    assert_eq!(stored.status, TodoStatus::Doing);
    assert_eq!(stored.updated_at, 200);
}

#[test]
fn update_of_every_field() {
    let mut state = AppState::new();
    create_todo_at(&mut state, titled("old"), TodoSource::Manual, 3, 100).unwrap();
    let patch = UpdateTodo {
        title: Some("new".to_string()),
        description: Some("text".to_string()),
        status: Some(TodoStatus::Done),
        priority: Some(Priority::High),
    };
    let todo = update_todo_at(&mut state, 3, ValidatedJson(patch), 100).unwrap();
    assert_eq!(todo.title, "new");
    assert_eq!(todo.description, Some("text".to_string()));
    assert_eq!(todo.status, TodoStatus::Done);
    assert_eq!(todo.priority, Priority::High);
    assert_eq!(todo.source, TodoSource::Manual);
    assert_eq!(todo.created_at, 100);
    assert_eq!(todo.updated_at, 100);
}

#[test]
fn update_with_no_field_changes_the_time_only() {
    let mut state = AppState::new();
    create_todo_at(&mut state, titled("t"), TodoSource::Manual, 3, 100).unwrap();
    let todo = update_todo_at(&mut state, 3, ValidatedJson(no_change()), 150).unwrap();
    assert_eq!(todo.title, "t");
    assert_eq!(todo.status, TodoStatus::Todo);
    assert_eq!(todo.updated_at, 150);
    assert_eq!(todo.created_at, 100);
}

#[test]
fn update_of_an_unknown_identifier_is_not_found() {
    let mut state = AppState::new();
    create_todo_at(&mut state, titled("t"), TodoSource::Manual, 3, 100).unwrap();
    assert!(matches!(
        update_todo_at(&mut state, 4, ValidatedJson(no_change()), 200),
        Err(AppError::NotFound)
    ));
    assert!(matches!(update_todo(&mut state, 4, ValidatedJson(no_change())), Err(AppError::NotFound)));
    assert_eq!(get_todo(&state, 3).unwrap().updated_at, 100);
}

#[test]
fn update_rechecks_the_command() {
    let mut state = AppState::new();
    create_todo_at(&mut state, titled("t"), TodoSource::Manual, 3, 100).unwrap();
    let patch = UpdateTodo { title: Some("  ".to_string()), ..no_change() };
    match update_todo_at(&mut state, 3, ValidatedJson(patch), 200) {
        Err(AppError::InvalidInput(errors)) => {
            assert_eq!(errors.get("title"), Some(vec!["title cannot be empty".to_string()]));
        },
        other => panic!("expected InvalidInput, got {:?}", other),
    }
    let patch = UpdateTodo { title: Some(String::new()), ..no_change() };
    assert!(matches!(
        update_todo_at(&mut state, 99, ValidatedJson(patch), 200),
        Err(AppError::InvalidInput(_))
    ));
    assert_eq!(get_todo(&state, 3).unwrap().title, "t");
    assert_eq!(get_todo(&state, 3).unwrap().updated_at, 100);
}

#[test]
fn update_before_the_creation_is_a_fault() {
    let mut state = AppState::new();
    create_todo_at(&mut state, titled("t"), TodoSource::Manual, 3, 100).unwrap();
    let patch = UpdateTodo { status: Some(TodoStatus::Done), ..no_change() };
    match update_todo_at(&mut state, 3, ValidatedJson(patch), 99) {
        Err(AppError::Internal(text)) => assert_eq!(text, "failed to update todo"),
        other => panic!("expected Internal, got {:?}", other),
    }
    let stored = get_todo(&state, 3).unwrap();
    assert_eq!(stored.status, TodoStatus::Todo);
    assert_eq!(stored.updated_at, 100);
}

#[test]
fn update_with_the_clock() {
    let mut state = AppState::new();
    let created = create_todo(&mut state, titled("Buy milk")).unwrap();
    let patch = UpdateTodo { status: Some(TodoStatus::Doing), ..no_change() };
    let updated = update_todo(&mut state, created.id, ValidatedJson(patch)).unwrap();
    assert_eq!(updated.title, "Buy milk");
    assert_eq!(updated.status, TodoStatus::Doing);
    assert_eq!(updated.created_at, created.created_at);
    assert!(updated.updated_at >= created.updated_at);
}

#[test]
fn delete_removes_the_record() {
    let mut state = AppState::new();
    create_todo_at(&mut state, titled("a"), TodoSource::Manual, 1, 10).unwrap();
    create_todo_at(&mut state, titled("b"), TodoSource::Manual, 2, 20).unwrap();
    assert!(delete_todo(&mut state, 1).is_ok());
    assert!(matches!(get_todo(&state, 1), Err(AppError::NotFound)));
    assert_eq!(titles(&list_todos(&state).unwrap()), vec!["b"]);
}

#[test]
fn delete_of_an_unknown_identifier_is_not_found() {
    let mut state = AppState::new();
    assert!(matches!(delete_todo(&mut state, 1), Err(AppError::NotFound)));
    create_todo_at(&mut state, titled("a"), TodoSource::Manual, 1, 10).unwrap();
    assert!(matches!(delete_todo(&mut state, 2), Err(AppError::NotFound)));
    assert_eq!(list_todos(&state).unwrap().len(), 1);
}

#[test]
fn second_delete_is_not_found() {
    let mut state = AppState::new();
    create_todo_at(&mut state, titled("a"), TodoSource::Manual, 1, 10).unwrap();
    assert!(delete_todo(&mut state, 1).is_ok());
    assert!(matches!(delete_todo(&mut state, 1), Err(AppError::NotFound)));
    assert!(list_todos(&state).unwrap().is_empty());
}

#[test]
fn deleted_identifier_can_be_used_again() {
    let mut state = AppState::new();
    create_todo_at(&mut state, titled("a"), TodoSource::Manual, 1, 10).unwrap();
    delete_todo(&mut state, 1).unwrap();
    let again = create_todo_at(&mut state, titled("b"), TodoSource::Manual, 1, 30).unwrap();
    assert_eq!(again.title, "b");
    assert_eq!(get_todo(&state, 1).unwrap().created_at, 30);
}

#[test]
fn list_of_an_empty_store_is_empty() {
    let state = AppState::new();
    assert!(list_todos(&state).unwrap().is_empty());
}

#[test]
fn list_is_newest_first() {
    let mut state = AppState::new();
    create_todo_at(&mut state, titled("t1"), TodoSource::Manual, 30, 1_000).unwrap();
    create_todo_at(&mut state, titled("t2"), TodoSource::Manual, 10, 2_000).unwrap();
    create_todo_at(&mut state, titled("t3"), TodoSource::Manual, 20, 3_000).unwrap();
    assert_eq!(titles(&list_todos(&state).unwrap()), vec!["t3", "t2", "t1"]);
}

#[test]
fn list_does_not_depend_on_the_order_of_insertion() {
    let mut state = AppState::new();
    create_todo_at(&mut state, titled("t3"), TodoSource::Manual, 1, 3_000).unwrap();
    create_todo_at(&mut state, titled("t1"), TodoSource::Manual, 2, 1_000).unwrap();
    create_todo_at(&mut state, titled("t2"), TodoSource::Manual, 3, 2_000).unwrap();
    assert_eq!(titles(&list_todos(&state).unwrap()), vec!["t3", "t2", "t1"]);
}

#[test]
fn list_orders_equal_times_by_identifier() {
    let mut state = AppState::new();
    create_todo_at(&mut state, titled("c"), TodoSource::Manual, 3, 500).unwrap();
    create_todo_at(&mut state, titled("a"), TodoSource::Manual, 1, 500).unwrap();
    create_todo_at(&mut state, titled("old"), TodoSource::Manual, 0, 100).unwrap();
    create_todo_at(&mut state, titled("b"), TodoSource::Manual, 2, 500).unwrap();
    create_todo_at(&mut state, titled("new"), TodoSource::Manual, 9, 900).unwrap();
    assert_eq!(titles(&list_todos(&state).unwrap()), vec!["new", "a", "b", "c", "old"]);
}

#[test]
fn list_of_many_records() {
    let mut state = AppState::new();
    for i in 0..200u128 {
        let at = ((i * 37) % 50) as i64;
        create_todo_at(&mut state, titled("t"), TodoSource::Manual, i, at).unwrap();
    }
    let listing = list_todos(&state).unwrap();
    assert_eq!(listing.len(), 200);
    for pair in listing.windows(2) {
        assert!(
            pair[0].created_at > pair[1].created_at
                || (pair[0].created_at == pair[1].created_at && pair[0].id < pair[1].id)
        );
    }
}

#[test]
fn list_is_not_changed_by_an_update() {
    let mut state = AppState::new();
    create_todo_at(&mut state, titled("t1"), TodoSource::Manual, 1, 1_000).unwrap();
    create_todo_at(&mut state, titled("t2"), TodoSource::Manual, 2, 2_000).unwrap();
    update_todo_at(&mut state, 1, ValidatedJson(no_change()), 9_000).unwrap();
    assert_eq!(titles(&list_todos(&state).unwrap()), vec!["t2", "t1"]);
}

#[test]
fn store_update_applies_the_mutator_to_the_current_record() {
    let mut state = AppState::new();
    create_todo_at(&mut state, titled("x"), TodoSource::Manual, 1, 0).unwrap();
    for _ in 0..10 {
        let changed = state.update(1, |mut t: Todo| {
            t.title.push('x');
            t
        });
        assert!(changed.is_ok());
    }
    assert_eq!(get_todo(&state, 1).unwrap().title, "x".repeat(11));
    assert!(matches!(state.update(2, |t: Todo| t), Err(AppError::NotFound)));
}

#[test]
fn updates_through_a_shared_store_are_not_lost() {
    let mut state = AppState::new();
    create_todo_at(&mut state, titled("x"), TodoSource::Manual, 1, 0).unwrap();
    let shared = Arc::new(Mutex::new(state));
    let handles: Vec<Arc<Mutex<AppState>>> = (0..8).map(|_| Arc::clone(&shared)).collect();
    for _ in 0..50 {
        for handle in &handles {
            let mut state = handle.lock().unwrap();
            state
                .update(1, |mut t: Todo| {
                    t.title.push('x');
                    t
                })
                .unwrap();
        }
    }
    let state = shared.lock().unwrap();
    assert_eq!(get_todo(&state, 1).unwrap().title.chars().count(), 1 + 8 * 50);
}

fn single_field_patches() -> Vec<UpdateTodo> {
    vec![
        UpdateTodo { title: Some("new title".to_string()), ..no_change() },
        UpdateTodo { description: Some("new description".to_string()), ..no_change() },
        UpdateTodo { status: Some(TodoStatus::Done), ..no_change() },
        UpdateTodo { priority: Some(Priority::High), ..no_change() },
    ]
}

#[test]
fn updates_of_distinct_fields_all_show_in_any_order() {
    let orders: [[usize; 4]; 4] = [[0, 1, 2, 3], [3, 2, 1, 0], [1, 3, 0, 2], [2, 0, 3, 1]];
    for order in orders {
        let mut state = AppState::new();
        create_todo_at(&mut state, titled("t"), TodoSource::Manual, 1, 0).unwrap();
        let shared = Arc::new(Mutex::new(state));
        let mut patches: Vec<Option<UpdateTodo>> =
            single_field_patches().into_iter().map(Some).collect();
        for index in order {
            let patch = patches[index].take().unwrap();
            let mut state = shared.lock().unwrap();
            update_todo_at(&mut state, 1, ValidatedJson(patch), 5).unwrap();
        }
        let state = shared.lock().unwrap();
        let todo = get_todo(&state, 1).unwrap();
        assert_eq!(todo.title, "new title");
        assert_eq!(todo.description, Some("new description".to_string()));
        assert_eq!(todo.status, TodoStatus::Done);
        assert_eq!(todo.priority, Priority::High);
        assert_eq!(todo.source, TodoSource::Manual);
        assert_eq!(todo.created_at, 0);
        assert_eq!(todo.updated_at, 5);
    }
}

#[test]
fn a_row_of_updates_applies_every_merge() {
    let mut state = AppState::new();
    create_todo_at(&mut state, titled("t"), TodoSource::Manual, 1, 0).unwrap();
    for i in 0..60i64 {
        let patch = match i % 3 {
            0 => UpdateTodo { title: Some(format!("title {}", i)), ..no_change() },
            1 => UpdateTodo { description: Some(format!("description {}", i)), ..no_change() },
            _ => UpdateTodo { status: Some(TodoStatus::Doing), ..no_change() },
        };
        assert!(update_todo_at(&mut state, 1, ValidatedJson(patch), i).is_ok());
    }
    let todo = get_todo(&state, 1).unwrap();
    assert_eq!(todo.title, "title 57");
    assert_eq!(todo.description, Some("description 58".to_string()));
    assert_eq!(todo.status, TodoStatus::Doing);
    assert_eq!(todo.priority, Priority::Medium);
    assert_eq!(todo.updated_at, 59);
    assert_eq!(todo.created_at, 0);
    assert_eq!(list_todos(&state).unwrap().len(), 1);
}

#[test]
fn end_to_end() {
    let mut state = AppState::new();
    let payload =
        ValidatedJson::<CreateTodo>::from_request(br#"{"title": "Buy milk"}"#).unwrap();
    let created = create_todo(&mut state, payload).unwrap();
    assert_eq!(created.status, TodoStatus::Todo);
    assert_eq!(created.priority, Priority::Medium);
    assert_eq!(created.source, TodoSource::Manual);

    let payload = ValidatedJson::<UpdateTodo>::from_request(br#"{"status": "Doing"}"#).unwrap();
    let updated =
        update_todo_at(&mut state, created.id, payload, created.updated_at + 1).unwrap();
    assert_eq!(updated.title, "Buy milk");
    assert_eq!(updated.status, TodoStatus::Doing);
    assert!(updated.updated_at > created.updated_at);

    let unknown = created.id ^ 1;
    assert!(matches!(get_todo(&state, unknown), Err(AppError::NotFound)));

    match ValidatedJson::<CreateTodo>::from_request(br#"{"title": ""}"#) {
        Err(AppError::InvalidInput(errors)) => {
            assert_eq!(
                errors.entries(),
                vec![("title".to_string(), vec!["title cannot be empty".to_string()])]
            );
        },
        other => panic!("expected InvalidInput, got {:?}", other.map(|v| v.0)),
    }
}
