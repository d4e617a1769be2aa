use std::collections::HashMap;
use todoscope::codec::{
    decode_store, decode_todo, encode_store, encode_todo, field, store_stamps_writable,
    todo_stamps_in_range, Json,
};
use todoscope::input::AddTodoInput;
use todoscope::priority::Priority;
use todoscope::recurrence::Recurrence;
use todoscope::status::Status;
use todoscope::todo::Todo;

fn format_id(id: u128) -> String {
    uuid::Uuid::from_u128(id).to_string()
}

fn bare(id: u128) -> Todo {
    Todo::from_parts(
        AddTodoInput {
            title: "Bare".to_string(),
            description: None,
            priority: Priority::Medium,
            status: Status::Pending,
            due_date: None,
            tags: None,
            recurrence: None,
            parent_id: None,
            subtasks: None,
        },
        id,
        1_700_000_000_123,
    )
}

fn full(id: u128) -> Todo {
    Todo::from_parts(
        AddTodoInput {
            title: "Full".to_string(),
            description: Some("every field set".to_string()),
            priority: Priority::High,
            status: Status::InProgress,
            due_date: Some(1_800_000_000_000),
            tags: Some(vec!["a".to_string(), "b c".to_string()]),
            recurrence: Some(Recurrence::Custom("every other day".to_string())),
            parent_id: Some(7),
            subtasks: Some(vec![8, 9]),
        },
        id,
        -86_400_000,
    )
}

fn text_of(j: &Json) -> String {
    match j {
        Json::Text(s) => s.clone(),
        _ => panic!("not a text"),
    }
}

#[test]
fn store_round_trip_keeps_every_field() {
    let mut m: HashMap<u128, Todo> = HashMap::new();
    m.insert(1, bare(1));
    m.insert(2, full(2));
    let mut weekly = bare(3);
    weekly.recurrence = Some(Recurrence::Weekly);
    weekly.status = Status::Done;
    weekly.priority = Priority::Low;
    m.insert(3, weekly);
    assert!(store_stamps_writable(&m));
    let doc = encode_store(&m);
    assert_eq!(decode_store(&doc), Some(m));
}

#[test]
fn empty_store_round_trip() {
    let m: HashMap<u128, Todo> = HashMap::new();
    assert_eq!(decode_store(&encode_store(&m)), Some(m));
}

#[test]
fn stored_fields_have_expected_texts() {
    let t = full(2);
    let doc = encode_todo(&t);
    let Json::Object(es) = &doc else { panic!("not an object") };
    assert_eq!(text_of(field(es, "id").unwrap()), format_id(2));
    assert_eq!(text_of(field(es, "priority").unwrap()), "High");
    assert_eq!(text_of(field(es, "status").unwrap()), "InProgress");
    assert_eq!(text_of(field(es, "created_at").unwrap()), "1969-12-31T00:00:00");
    assert_eq!(text_of(field(es, "due_date").unwrap()), "2027-01-15T08:00:00Z");
    assert!(field(es, "missing").is_none());
    let Json::Object(rec) = field(es, "recurrence").unwrap() else { panic!("not an object") };
    assert_eq!(rec[0].0, "Custom");
    assert_eq!(decode_todo(&doc), Some(t));
}

#[test]
fn misfiled_or_duplicate_entries_are_refused() {
    let doc = Json::Object(vec![(format_id(5), encode_todo(&bare(6)))]);
    assert_eq!(decode_store(&doc), None);
    let doc = Json::Object(vec![
        (format_id(5), encode_todo(&bare(5))),
        (format_id(5), encode_todo(&bare(5))),
    ]);
    assert_eq!(decode_store(&doc), None);
    let doc = Json::Object(vec![("five".to_string(), encode_todo(&bare(5)))]);
    assert_eq!(decode_store(&doc), None);
    assert_eq!(decode_store(&Json::Null), None);
}

#[test]
fn malformed_task_is_refused() {
    let Json::Object(mut es) = encode_todo(&bare(5)) else { panic!("not an object") };
    for e in es.iter_mut() {
        if e.0 == "priority" {
            e.1 = Json::Text("Urgent".to_string());
        }
    }
    assert_eq!(decode_todo(&Json::Object(es)), None);
    let Json::Object(mut es) = encode_todo(&bare(5)) else { panic!("not an object") };
    es.retain(|e| e.0 != "title");
    assert_eq!(decode_todo(&Json::Object(es)), None);
    assert_eq!(decode_todo(&Json::Text("x".to_string())), None);
}

#[test]
fn out_of_range_times_are_reported() {
    let mut t = bare(1);
    assert!(todo_stamps_in_range(&t));
    t.due_date = Some(i64::MAX);
    assert!(!todo_stamps_in_range(&t));
    t.due_date = Some(-8_334_601_228_800_001);
    assert!(!todo_stamps_in_range(&t));
    t.due_date = Some(8_210_266_876_800_000);
    assert!(!todo_stamps_in_range(&t));
    let mut m = HashMap::new();
    m.insert(1, t);
    assert!(!store_stamps_writable(&m));
}

#[test]
fn keys_are_identifier_texts() {
    let mut m: HashMap<u128, Todo> = HashMap::new();
    m.insert(1, bare(1));
    m.insert(2, full(2));
    let Json::Object(es) = encode_store(&m) else { panic!("not an object") };
    let mut keys: Vec<String> = es.iter().map(|e| e.0.clone()).collect();
    keys.sort();
    assert_eq!(keys, vec![format_id(1), format_id(2)]);
    for (k, v) in &es {
        let Json::Object(fs) = v else { panic!("not an object") };
        assert_eq!(&text_of(field(fs, "id").unwrap()), k);
    }
}

#[test]
fn far_years_round_trip() {
    let mut t = full(4);
    t.created_at = 8_210_266_876_799_999;
    t.due_date = Some(-8_334_601_228_800_000);
    assert!(todo_stamps_in_range(&t));
    let mut m: HashMap<u128, Todo> = HashMap::new();
    m.insert(4, t);
    assert!(store_stamps_writable(&m));
    assert_eq!(decode_store(&encode_store(&m)), Some(m));
}
