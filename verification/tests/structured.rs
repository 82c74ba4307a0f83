use ffrenc::snapshot::{Row, TaskInfo};
use ffrenc::ui::{UiMessage, UiMessagePayload, UiState};
use serde_json::Value;

const SECOND: u64 = 1_000_000_000;

fn text(value: &Option<String>) -> Value {
    match value {
        Some(text) => Value::from(text.as_str()),
        None => Value::Null,
    }
}

fn task_value(task: &TaskInfo) -> Value {
    let mut fields = serde_json::Map::new();
    fields.insert("id".to_string(), Value::from(task.id));
    fields.insert("input".to_string(), Value::from(task.input.as_str()));
    fields.insert("output".to_string(), Value::from(task.output.as_str()));
    fields.insert("active".to_string(), Value::from(task.active));
    fields.insert("started_at".to_string(), text(&task.started_at));
    fields.insert("elapsed".to_string(), text(&task.elapsed));
    fields.insert("eta".to_string(), text(&task.eta));
    fields.insert("exited_at".to_string(), text(&task.exited_at));
    fields.insert(
        "success".to_string(),
        match task.success {
            Some(success) => Value::from(success),
            None => Value::Null,
        },
    );
    fields.insert("error_description".to_string(), text(&task.error_description));
    fields.insert("total".to_string(), Value::from(task.total.as_str()));
    fields.insert("current".to_string(), Value::from(task.current.as_str()));
    fields.insert("percent".to_string(), Value::from(task.percent.as_str()));
    Value::Object(fields)
}

fn row_value(row: &Row) -> Value {
    let mut fields = serde_json::Map::new();
    fields.insert("total_tasks".to_string(), Value::from(row.total_tasks));
    fields.insert("active_tasks".to_string(), Value::from(row.active_tasks));
    fields.insert("completed_tasks".to_string(), Value::from(row.completed_tasks));
    fields.insert("successful_tasks".to_string(), Value::from(row.successful_tasks));
    fields.insert("failed_tasks".to_string(), Value::from(row.failed_tasks));
    fields.insert(
        "tasks".to_string(),
        Value::Array(row.tasks.iter().map(task_value).collect()),
    );
    Value::Object(fields)
}

fn sample() -> Row {
    let mut state = UiState::new();
    for id in 0..3usize {
        let created = UiMessagePayload::Created {
            input: format!("/in/\"odd\" {id}\n.mkv"),
            output: format!("/out/{id}.mp4"),
            total: 100 * SECOND,
        };
        assert!(state.apply(UiMessage::new(id, created), 0).is_ok());
    }
    assert!(state.apply(UiMessage::new(0, UiMessagePayload::Started), SECOND).is_ok());
    assert!(state.apply(UiMessage::new(1, UiMessagePayload::Started), SECOND).is_ok());
    let progress = UiMessagePayload::Progress { total: 100 * SECOND, current: 40 * SECOND };
    assert!(state.apply(UiMessage::new(0, progress), 2 * SECOND).is_ok());
    let failed = UiMessagePayload::Failed { error: "no \\ codec".to_string() };
    assert!(state.apply(UiMessage::new(1, failed), 3 * SECOND).is_ok());
    state.snapshot(11 * SECOND)
}

fn check_decoded(decoded: &Value, row: &Row) {
    assert_eq!(decoded["total_tasks"].as_u64(), Some(row.total_tasks as u64));
    assert_eq!(decoded["active_tasks"].as_u64(), Some(row.active_tasks as u64));
    assert_eq!(decoded["completed_tasks"].as_u64(), Some(row.completed_tasks as u64));
    assert_eq!(decoded["successful_tasks"].as_u64(), Some(row.successful_tasks as u64));
    assert_eq!(decoded["failed_tasks"].as_u64(), Some(row.failed_tasks as u64));
    let tasks = decoded["tasks"].as_array().expect("the jobs are a list");
    assert_eq!(tasks.len(), row.tasks.len());
    for (decoded, task) in tasks.iter().zip(&row.tasks) {
        assert_eq!(decoded["id"].as_u64(), Some(task.id as u64));
        assert_eq!(decoded["input"].as_str(), Some(task.input.as_str()));
        assert_eq!(decoded["output"].as_str(), Some(task.output.as_str()));
        assert_eq!(decoded["active"].as_bool(), Some(task.active));
        assert_eq!(decoded["started_at"].as_str(), task.started_at.as_deref());
        assert_eq!(decoded["elapsed"].as_str(), task.elapsed.as_deref());
        assert_eq!(decoded["eta"].as_str(), task.eta.as_deref());
        assert_eq!(decoded["exited_at"].as_str(), task.exited_at.as_deref());
        assert_eq!(decoded["success"].as_bool(), task.success);
        assert_eq!(decoded["error_description"].as_str(), task.error_description.as_deref());
        assert_eq!(decoded["total"].as_str(), Some(task.total.as_str()));
        assert_eq!(decoded["current"].as_str(), Some(task.current.as_str()));
        assert_eq!(decoded["percent"].as_str(), Some(task.percent.as_str()));
    }
}

#[test]
fn compact_encoding_round_trips() {
    let row = sample();
    let encoded = serde_json::to_string(&row_value(&row)).expect("a row can be encoded");
    assert!(!encoded.contains('\n'));
    let decoded: Value = serde_json::from_str(&encoded).expect("the encoding can be decoded");
    check_decoded(&decoded, &row);
    assert_eq!(decoded, row_value(&row));
}

#[test]
fn indented_encoding_round_trips() {
    let row = sample();
    let encoded = serde_json::to_string_pretty(&row_value(&row)).expect("a row can be encoded");
    assert!(encoded.contains("\n  "));
    let decoded: Value = serde_json::from_str(&encoded).expect("the encoding can be decoded");
    check_decoded(&decoded, &row);
    assert_eq!(decoded, row_value(&row));
}

#[test]
fn both_encodings_hold_the_same_snapshot() {
    let row = sample();
    let compact: Value =
        serde_json::from_str(&serde_json::to_string(&row_value(&row)).unwrap()).unwrap();
    let indented: Value =
        serde_json::from_str(&serde_json::to_string_pretty(&row_value(&row)).unwrap()).unwrap();
    assert_eq!(compact, indented);
    assert_eq!(compact["tasks"][0]["percent"].as_str(), Some("40.0%"));
    assert_eq!(compact["tasks"][0]["eta"].as_str(), Some("0m 15s"));
    assert_eq!(compact["tasks"][1]["error_description"].as_str(), Some("no \\ codec"));
    assert_eq!(compact["tasks"][2]["started_at"], Value::Null);
}
