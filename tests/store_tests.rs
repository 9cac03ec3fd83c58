use todo_store::error::StorageError;
use todo_store::json::JsonValue;
use todo_store::store::{
    load, next_stage, resolve, save_document, save_result, temp_name_for, FileRead, SaveStage,
    TODOS_FILE_NAME,
};
use todo_store::todo::Todo;

fn s(t: &str) -> String {
    t.to_string()
}

// Text to tree and back, the way the application does it around the library.
fn to_tree(v: &serde_json::Value) -> JsonValue {
    match v {
        serde_json::Value::Null => JsonValue::Null,
        serde_json::Value::Bool(b) => JsonValue::Bool(*b),
        serde_json::Value::Number(n) => match (n.as_u64(), n.as_i64()) {
            (Some(u), _) => JsonValue::Int(u as i128),
            (None, Some(i)) => JsonValue::Int(i as i128),
            _ => JsonValue::Fraction,
        },
        serde_json::Value::String(t) => JsonValue::Str(t.clone()),
        serde_json::Value::Array(a) => JsonValue::Array(a.iter().map(to_tree).collect()),
        serde_json::Value::Object(o) => {
            JsonValue::Object(o.iter().map(|(k, v)| (k.clone(), to_tree(v))).collect())
        }
    }
}

fn from_tree(v: &JsonValue) -> serde_json::Value {
    match v {
        JsonValue::Null => serde_json::Value::Null,
        JsonValue::Bool(b) => serde_json::Value::Bool(*b),
        JsonValue::Int(n) => serde_json::Value::Number(serde_json::Number::from(*n as i64)),
        JsonValue::Fraction => serde_json::Value::Null,
        JsonValue::Str(t) => serde_json::Value::String(t.clone()),
        JsonValue::Array(a) => serde_json::Value::Array(a.iter().map(from_tree).collect()),
        JsonValue::Object(o) => {
            let mut m = serde_json::Map::new();
            for (k, v) in o {
                m.insert(k.clone(), from_tree(v));
            }
            serde_json::Value::Object(m)
        }
    }
}

fn load_text(text: &str) -> Result<Vec<Todo>, StorageError> {
    match serde_json::from_str::<serde_json::Value>(text) {
        Ok(v) => load(FileRead::Parsed(to_tree(&v))),
        Err(e) => load(FileRead::Malformed(e.to_string())),
    }
}

fn save_text(todos: &Vec<Todo>) -> String {
    serde_json::to_string_pretty(&from_tree(&save_document(todos))).unwrap()
}

#[test]
fn missing_file_loads_as_empty_list() {
    let l = load(FileRead::Missing).unwrap();
    assert!(l.is_empty());
}

#[test]
fn unreadable_file_is_io_failure() {
    match load(FileRead::Unreadable(s("permission denied"))) {
        Err(StorageError::IoFailure(d)) => assert_eq!(d, "permission denied"),
        other => panic!("unexpected {:?}", other),
    }
}

#[test]
fn malformed_text_is_corrupt_data() {
    let text = "[{\"id\": 1, \"title\": \"Buy";
    match load_text(text) {
        Err(StorageError::CorruptData(d)) => assert!(!d.is_empty()),
        other => panic!("unexpected {:?}", other),
    }
    assert_eq!(text, "[{\"id\": 1, \"title\": \"Buy");
}

#[test]
fn save_then_load_buy_milk() {
    let l = vec![Todo::new(1, s("Buy milk"), false)];
    let text = save_text(&l);
    let expected = "[\n  {\n    \"id\": 1,\n    \"title\": \"Buy milk\",\n    \"completed\": false,\n    \"dueDate\": null,\n    \"workedAt\": null,\n    \"doneAt\": null\n  }\n]";
    assert_eq!(text, expected);
    let back = load_text(&text).unwrap();
    assert_eq!(back.len(), 1);
    assert_eq!(back[0].id, 1);
    assert_eq!(back[0].title, "Buy milk");
    assert!(!back[0].completed);
    assert_eq!(back[0].due_date, None);
    assert_eq!(back[0].worked_at, None);
    assert_eq!(back[0].done_at, None);
}

#[test]
fn save_then_load_through_text_round_trips() {
    let l = vec![
        Todo {
            id: 2,
            title: s("Tab\tand \"quotes\""),
            completed: true,
            due_date: Some(s("2024-06-01")),
            worked_at: None,
            done_at: Some(s("2024-06-02")),
        },
        Todo::new(0, s(""), false),
    ];
    assert_eq!(load_text(&save_text(&l)).unwrap(), l);
    let empty: Vec<Todo> = Vec::new();
    assert_eq!(save_text(&empty), "[]");
    assert_eq!(load_text("[]").unwrap(), empty);
}

#[test]
fn newer_file_with_extra_field_loads() {
    let text = r#"[{"id": 5, "title": "New", "completed": false, "priority": "high", "doneAt": null}]"#;
    assert_eq!(load_text(text).unwrap(), vec![Todo::new(5, s("New"), false)]);
}

#[test]
fn older_file_without_dates_loads() {
    let text = r#"[{"id": 6, "title": "Old", "completed": true}]"#;
    assert_eq!(load_text(text).unwrap(), vec![Todo::new(6, s("Old"), true)]);
}

#[test]
fn float_id_is_corrupt_data() {
    let text = r#"[{"id": 1.5, "title": "x", "completed": true}]"#;
    assert!(matches!(load_text(text), Err(StorageError::CorruptData(_))));
}

#[test]
fn directory_failure_is_directory_unavailable() {
    assert!(resolve(Ok(())).is_ok());
    match resolve(Err(s("read-only file system"))) {
        Err(StorageError::DirectoryUnavailable(d)) => assert_eq!(d, "read-only file system"),
        other => panic!("unexpected {:?}", other),
    }
}

#[test]
fn temp_name_is_a_sibling_name() {
    assert_eq!(TODOS_FILE_NAME, "todos.json");
    assert_eq!(temp_name_for(TODOS_FILE_NAME), "todos.json.tmp");
    assert_eq!(temp_name_for(""), ".tmp");
}

#[test]
fn save_replaces_only_after_full_write() {
    let st = next_stage(SaveStage::WritingTemp, Ok(()));
    assert!(matches!(st, SaveStage::Replacing));
    let st = next_stage(st, Ok(()));
    assert!(matches!(st, SaveStage::Saved));
    assert!(save_result(st).is_ok());
}

#[test]
fn interrupted_write_never_replaces() {
    let st = next_stage(SaveStage::WritingTemp, Err(s("disk full")));
    assert!(matches!(&st, SaveStage::Failed(StorageError::IoFailure(d)) if d == "disk full"));
    let st = next_stage(st, Ok(()));
    assert!(matches!(st, SaveStage::Failed(_)));
    match save_result(st) {
        Err(StorageError::IoFailure(d)) => assert_eq!(d, "disk full"),
        other => panic!("unexpected {:?}", other),
    }
}

#[test]
fn failed_rename_is_io_failure() {
    let st = next_stage(SaveStage::Replacing, Err(s("rename failed")));
    assert!(matches!(save_result(st), Err(StorageError::IoFailure(_))));
}

#[test]
fn error_messages_name_the_kind() {
    assert_eq!(StorageError::DirectoryUnavailable(s("d")).message(), "directory unavailable: d");
    assert_eq!(StorageError::IoFailure(s("e")).message(), "i/o failure: e");
    assert_eq!(StorageError::CorruptData(s("f")).message(), "corrupt data: f");
    assert_eq!(StorageError::EncodeFailure(s("")).message(), "encode failure: ");
}
