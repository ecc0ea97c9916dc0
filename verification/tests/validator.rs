use todo_service::error::AppError;
use todo_service::models::todo::{Priority, TodoStatus};
use todo_service::routes::todos::{CreateTodo, UpdateTodo};
use todo_service::validator::{payload_rejection, Validate, ValidatedJson};

fn violations(e: AppError) -> Vec<(String, Vec<String>)> {
    match e {
        AppError::InvalidInput(errors) => {
            let mut entries = errors.entries();
            entries.sort();
            entries
        },
        other => panic!("expected InvalidInput, got {:?}", other),
    }
}

fn one(field: &str, message: &str) -> Vec<(String, Vec<String>)> {
    vec![(field.to_string(), vec![message.to_string()])]
}

fn create(body: &str) -> Result<CreateTodo, Vec<(String, Vec<String>)>> {
    match ValidatedJson::<CreateTodo>::from_request(body.as_bytes()) {
        Ok(ValidatedJson(command)) => Ok(command),
        Err(e) => Err(violations(e)),
    }
}

fn update(body: &str) -> Result<UpdateTodo, Vec<(String, Vec<String>)>> {
    match ValidatedJson::<UpdateTodo>::from_request(body.as_bytes()) {
        Ok(ValidatedJson(command)) => Ok(command),
        Err(e) => Err(violations(e)),
    }
}

#[test]
fn create_with_title_only() {
    let command = create(r#"{"title": "Buy milk"}"#).unwrap();
    assert_eq!(command.title, "Buy milk");
    assert_eq!(command.description, None);
    assert_eq!(command.priority, None);
}

#[test]
fn create_with_every_field() {
    let command =
        create(r#"{"priority": "High", "description": "2 litres", "title": "Buy milk"}"#).unwrap();
    assert_eq!(command.title, "Buy milk");
    assert_eq!(command.description, Some("2 litres".to_string()));
    assert_eq!(command.priority, Some(Priority::High));
}

#[test]
fn create_takes_null_for_absent() {
    let command = create(r#"{"title": "t", "description": null, "priority": null}"#).unwrap();
    assert_eq!(command.description, None);
    assert_eq!(command.priority, None);
}

#[test]
fn create_passes_over_unknown_members() {
    let command = create(r#"{"title": "t", "colour": [1, 2], "id": 7}"#).unwrap();
    assert_eq!(command.title, "t");
}

#[test]
fn create_keeps_escapes_and_unicode() {
    let command = create(r#"{"title": "a\"bé\n"}"#).unwrap();
    assert_eq!(command.title, "a\"bé\n");
}

#[test]
fn create_with_empty_title_is_invalid() {
    assert_eq!(create(r#"{"title": ""}"#).unwrap_err(), one("title", "title cannot be empty"));
}

#[test]
fn create_with_blank_title_is_accepted() {
    assert_eq!(create(r#"{"title": " "}"#).unwrap().title, " ");
}

#[test]
fn create_with_long_description_is_invalid() {
    let body = format!(r#"{{"title": "t", "description": "{}"}}"#, "d".repeat(501));
    assert_eq!(create(&body).unwrap_err(), one("description", "length"));
}

#[test]
fn description_limit_counts_characters() {
    let body = format!(r#"{{"title": "t", "description": "{}"}}"#, "é".repeat(500));
    assert_eq!(create(&body).unwrap().description, Some("é".repeat(500)));
    let body = format!(r#"{{"title": "t", "description": "{}"}}"#, "d".repeat(500));
    assert!(create(&body).is_ok());
    let body = format!(r#"{{"title": "t", "description": "{}"}}"#, "é".repeat(501));
    assert_eq!(create(&body).unwrap_err(), one("description", "length"));
}

#[test]
fn validation_accumulates_over_fields() {
    let body = format!(r#"{{"title": "", "description": "{}"}}"#, "d".repeat(600));
    assert_eq!(
        create(&body).unwrap_err(),
        vec![
            ("description".to_string(), vec!["length".to_string()]),
            ("title".to_string(), vec!["title cannot be empty".to_string()]),
        ]
    );
}

#[test]
fn create_without_title_is_malformed() {
    assert_eq!(create(r#"{"description": "d"}"#).unwrap_err(), one("payload", "missing field `title`"));
    assert_eq!(create("{}").unwrap_err(), one("payload", "missing field `title`"));
}

#[test]
fn create_with_title_of_wrong_kind_is_malformed() {
    assert_eq!(
        create(r#"{"title": 5}"#).unwrap_err(),
        one("payload", "title: invalid type: number, expected a string")
    );
    assert_eq!(
        create(r#"{"title": null}"#).unwrap_err(),
        one("payload", "title: invalid type: null, expected a string")
    );
    assert_eq!(
        create(r#"{"title": true}"#).unwrap_err(),
        one("payload", "title: invalid type: boolean, expected a string")
    );
    assert_eq!(
        create(r#"{"title": ["a"]}"#).unwrap_err(),
        one("payload", "title: invalid type: array, expected a string")
    );
    assert_eq!(
        create(r#"{"title": {"a": 1}}"#).unwrap_err(),
        one("payload", "title: invalid type: object, expected a string")
    );
}

#[test]
fn create_with_unknown_priority_is_malformed() {
    assert_eq!(
        create(r#"{"title": "t", "priority": "Urgent"}"#).unwrap_err(),
        one("payload", "priority: unknown variant `Urgent`, expected one of `Low`, `Medium`, `High`")
    );
    assert_eq!(
        create(r#"{"title": "t", "priority": 3}"#).unwrap_err(),
        one("payload", "priority: invalid type: number, expected a string")
    );
}

#[test]
fn first_malformed_field_is_reported() {
    assert_eq!(
        create(r#"{"priority": "Urgent", "description": 1}"#).unwrap_err(),
        one("payload", "missing field `title`")
    );
    assert_eq!(
        create(r#"{"title": "t", "priority": "Urgent", "description": 1}"#).unwrap_err(),
        one("payload", "description: invalid type: number, expected a string")
    );
}

#[test]
fn malformed_comes_before_invalid() {
    assert_eq!(
        create(r#"{"title": "", "priority": "Urgent"}"#).unwrap_err(),
        one("payload", "priority: unknown variant `Urgent`, expected one of `Low`, `Medium`, `High`")
    );
}

#[test]
fn position_is_stripped_from_parser_messages() {
    assert_eq!(create(r#"{"title": "#).unwrap_err(), one("payload", "EOF while parsing a value"));
    assert_eq!(create(r#"{"title": "t",}"#).unwrap_err(), one("payload", "trailing comma"));
    assert_eq!(create(r#"{"title" "t"}"#).unwrap_err(), one("payload", "expected `:`"));
    assert_eq!(create("").unwrap_err(), one("payload", "EOF while parsing a value"));
}

#[test]
fn payload_that_is_no_object_is_malformed() {
    assert_eq!(
        create("[1, 2]").unwrap_err(),
        one("payload", "invalid type: sequence, expected a map")
    );
    assert_eq!(
        create(r#""title""#).unwrap_err(),
        one("payload", "invalid type: string \"title\", expected a map")
    );
}

#[test]
fn variant_text_is_cut_at_a_position_marker() {
    assert_eq!(
        create(r#"{"title": "t", "priority": "x at line 1"}"#).unwrap_err(),
        one("payload", "priority: unknown variant `x")
    );
}

#[test]
fn rejection_strips_the_position() {
    let entries = violations(payload_rejection("expected value at line 3 column 9"));
    assert_eq!(entries, one("payload", "expected value"));
    let entries = violations(payload_rejection("Failed to buffer the request body"));
    assert_eq!(entries, one("payload", "Failed to buffer the request body"));
}

#[test]
fn update_with_no_field() {
    let command = update("{}").unwrap();
    assert_eq!(command.title, None);
    assert_eq!(command.description, None);
    assert_eq!(command.status, None);
    assert_eq!(command.priority, None);
}

#[test]
fn update_with_every_field() {
    let command = update(
        r#"{"title": "New", "description": "d", "status": "Doing", "priority": "Low"}"#,
    )
    .unwrap();
    assert_eq!(command.title, Some("New".to_string()));
    assert_eq!(command.description, Some("d".to_string()));
    assert_eq!(command.status, Some(TodoStatus::Doing));
    assert_eq!(command.priority, Some(Priority::Low));
}

#[test]
fn update_with_blank_title_is_invalid() {
    assert_eq!(update(r#"{"title": ""}"#).unwrap_err(), one("title", "title cannot be empty"));
    assert_eq!(update(r#"{"title": "  \t "}"#).unwrap_err(), one("title", "title cannot be empty"));
    assert_eq!(update(r#"{"title": " a "}"#).unwrap().title, Some(" a ".to_string()));
}

#[test]
fn update_accumulates_over_fields() {
    let body = format!(r#"{{"title": " ", "description": "{}"}}"#, "d".repeat(501));
    assert_eq!(
        update(&body).unwrap_err(),
        vec![
            ("description".to_string(), vec!["length".to_string()]),
            ("title".to_string(), vec!["title cannot be empty".to_string()]),
        ]
    );
}

#[test]
fn update_with_unknown_status_is_malformed() {
    assert_eq!(
        update(r#"{"status": "Started"}"#).unwrap_err(),
        one("payload", "status: unknown variant `Started`, expected one of `Todo`, `Doing`, `Done`")
    );
    assert_eq!(
        update(r#"{"status": "doing"}"#).unwrap_err(),
        one("payload", "status: unknown variant `doing`, expected one of `Todo`, `Doing`, `Done`")
    );
}

#[test]
fn enumerations_parse_from_text() {
    assert_eq!("Done".parse::<TodoStatus>(), Ok(TodoStatus::Done));
    assert_eq!("High".parse::<Priority>(), Ok(Priority::High));
    assert_eq!("high".parse::<Priority>(), Err("Invalid priority: high".to_string()));
}

#[test]
fn validate_on_commands_built_by_hand() {
    let command = CreateTodo { title: "t".to_string(), description: None, priority: None };
    assert!(command.validate().is_ok());
    let command = CreateTodo { title: String::new(), description: None, priority: None };
    assert_eq!(command.validate().unwrap_err().entries(), one("title", "title cannot be empty"));
    let command = UpdateTodo { title: None, description: None, status: None, priority: None };
    assert!(command.validate().is_ok());
    let command = UpdateTodo {
        title: Some("\u{a0}".to_string()),
        description: None,
        status: None,
        priority: None,
    };
    assert_eq!(command.validate().unwrap_err().entries(), one("title", "title cannot be empty"));
}
