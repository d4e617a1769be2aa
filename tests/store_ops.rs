use std::collections::HashMap;
use todoscope::input::{AddTodoInput, UpdateTodoInput};
use todoscope::priority::Priority;
use todoscope::recurrence::Recurrence;
use todoscope::status::Status;
use todoscope::store::{create_todo, insert_new, store_is_well_formed, update_todo};
use todoscope::todo::Todo;
use todoscope::{add_todo_to_map, delete_todo_by_id, update_todo_in_map};
use uuid::Uuid;

#[test]
fn lib_add_todo_inserts_item() {
    let mut todos = HashMap::new();
    let id = add_todo_to_map(
        &mut todos,
        "Learn Rust".into(),
        "Finish the Rust book".into(),
        Priority::High,
        Status::Pending,
    )
    .expect("a fresh identifier");

    assert!(todos.contains_key(&id));
    assert_eq!(todos[&id].title, "Learn Rust");
}

#[test]
fn lib_update_todo_changes_fields() {
    let mut todos = HashMap::new();

    let id = add_todo_to_map(
        &mut todos,
        "Old Title".into(),
        "Old description".into(),
        Priority::Low,
        Status::Pending,
    )
    .expect("a fresh identifier");

    let updated = update_todo_in_map(
        &mut todos,
        id,
        Some("New Title".into()),
        Some("New Desc".into()),
        Some(Priority::Medium),
        Some(Status::Done),
    );

    assert!(updated);
    let todo = &todos[&id];
    assert_eq!(todo.title, "New Title");
    assert_eq!(todo.description.as_deref(), Some("New Desc"));
    assert_eq!(todo.priority, Priority::Medium);
    assert_eq!(todo.status, Status::Done);
}

#[test]
fn lib_delete_todo_removes_item() {
    let mut todos = HashMap::new();
    let id = add_todo_to_map(
        &mut todos,
        "Temporary".into(),
        "To be deleted".into(),
        Priority::Medium,
        Status::Pending,
    )
    .expect("a fresh identifier");

    let deleted = delete_todo_by_id(&mut todos, id);

    assert!(deleted);
    assert!(!todos.contains_key(&id));
}

#[test]
fn lib_update_todo_nonexistent_returns_false() {
    let mut todos = HashMap::new();
    let random_id = Uuid::new_v4().as_u128();

    let updated = update_todo_in_map(
        &mut todos,
        random_id,
        Some("Doesn't matter".into()),
        None,
        None,
        None,
    );

    assert!(!updated);
}

#[test]
fn integration_test_add_todo_inserts_item() {
    let mut todos = HashMap::new();
    let id = add_todo_to_map(
        &mut todos,
        "Learn Rust".into(),
        "Finish the Rust book".into(),
        Priority::High,
        Status::Pending,
    )
    .expect("a fresh identifier");
    assert!(todos.contains_key(&id));
    assert_eq!(todos[&id].title, "Learn Rust");
}

#[test]
fn integration_test_update_todo_changes_fields() {
    let mut todos = HashMap::new();
    let id = add_todo_to_map(
        &mut todos,
        "Old Title".into(),
        "Old Desc".into(),
        Priority::Low,
        Status::Pending,
    )
    .expect("a fresh identifier");

    let updated = update_todo_in_map(
        &mut todos,
        id,
        Some("New Title".into()),
        Some("New Desc".into()),
        Some(Priority::High),
        Some(Status::Done),
    );

    assert!(updated);
    let todo = &todos[&id];
    assert_eq!(todo.title, "New Title");
    assert_eq!(todo.description.as_deref(), Some("New Desc"));
    assert_eq!(todo.priority, Priority::High);
    assert_eq!(todo.status, Status::Done);
}

#[test]
fn integration_test_delete_todo_removes_item() {
    let mut todos = HashMap::new();
    let id = add_todo_to_map(
        &mut todos,
        "Temporary".into(),
        "To be deleted".into(),
        Priority::Medium,
        Status::Pending,
    )
    .expect("a fresh identifier");

    let deleted = delete_todo_by_id(&mut todos, id);

    assert!(deleted);
    assert!(!todos.contains_key(&id));
}

#[test]
fn integration_test_update_todo_nonexistent_returns_false() {
    let mut todos = HashMap::new();
    let random_id = Uuid::new_v4().as_u128();

    let updated = update_todo_in_map(
        &mut todos,
        random_id,
        Some("Doesn't matter".into()),
        None,
        None,
        None,
    );

    assert!(!updated);
}

fn full_input() -> AddTodoInput {
    AddTodoInput {
        title: "Write report".to_string(),
        description: Some("Quarterly numbers".to_string()),
        priority: Priority::Low,
        status: Status::InProgress,
        due_date: Some(1_700_000_000_000),
        tags: Some(vec!["work".to_string(), "urgent".to_string()]),
        recurrence: Some(Recurrence::Custom("every monday".to_string())),
        parent_id: Some(42),
        subtasks: Some(vec![7, 8]),
    }
}

#[test]
fn create_stores_new_task_within_time_window() {
    let mut todos: HashMap<u128, Todo> = HashMap::new();
    let before = chrono::Utc::now().timestamp_millis();
    let id = create_todo(&mut todos, full_input()).expect("a fresh identifier");
    let after = chrono::Utc::now().timestamp_millis();
    assert_eq!(todos.len(), 1);
    let t = &todos[&id];
    assert_eq!(t.id, id);
    assert!(before <= t.created_at && t.created_at <= after);
    assert_eq!(t.title, "Write report");
    assert_eq!(t.tags, Some(vec!["work".to_string(), "urgent".to_string()]));
    assert_eq!(t.subtasks, Some(vec![7, 8]));
    assert_eq!(t.parent_id, Some(42));
    assert!(store_is_well_formed(&todos));
}

#[test]
fn insert_new_refuses_taken_identifier() {
    let mut todos: HashMap<u128, Todo> = HashMap::new();
    let first = Todo::from_parts(full_input(), 5, 100);
    let mut second_input = full_input();
    second_input.title = "Other".to_string();
    let second = Todo::from_parts(second_input, 5, 200);
    assert!(insert_new(&mut todos, first.clone()));
    assert!(!insert_new(&mut todos, second));
    assert_eq!(todos.len(), 1);
    assert_eq!(todos[&5], first);
}

#[test]
fn empty_update_leaves_task_unchanged() {
    let mut todos: HashMap<u128, Todo> = HashMap::new();
    let t = Todo::from_parts(full_input(), 9, 123);
    todos.insert(9, t.clone());
    assert!(update_todo(&mut todos, UpdateTodoInput::unchanged(9)));
    assert_eq!(todos.len(), 1);
    assert_eq!(todos[&9], t);
}

#[test]
fn update_of_missing_task_leaves_store_unchanged() {
    let mut todos: HashMap<u128, Todo> = HashMap::new();
    let t = Todo::from_parts(full_input(), 9, 123);
    todos.insert(9, t.clone());
    let snapshot = todos.clone();
    let mut u = UpdateTodoInput::unchanged(10);
    u.new_title = Some("x".to_string());
    assert!(!update_todo(&mut todos, u));
    assert_eq!(todos, snapshot);
}

#[test]
fn update_replaces_only_given_fields() {
    let mut todos: HashMap<u128, Todo> = HashMap::new();
    todos.insert(9, Todo::from_parts(full_input(), 9, 123));
    let mut u = UpdateTodoInput::unchanged(9);
    u.new_due_date = Some(5);
    u.new_tags = Some(vec!["home".to_string()]);
    u.new_recurrence = Some(Recurrence::Weekly);
    u.new_parent_id = Some(1);
    u.new_subtasks = Some(vec![3]);
    assert!(update_todo(&mut todos, u));
    let t = &todos[&9];
    assert_eq!(t.id, 9);
    assert_eq!(t.created_at, 123);
    assert_eq!(t.title, "Write report");
    assert_eq!(t.status, Status::InProgress);
    assert_eq!(t.due_date, Some(5));
    assert_eq!(t.tags, Some(vec!["home".to_string()]));
    assert_eq!(t.recurrence, Some(Recurrence::Weekly));
    assert_eq!(t.parent_id, Some(1));
    assert_eq!(t.subtasks, Some(vec![3]));
}

#[test]
fn delete_removes_only_its_entry() {
    let mut todos: HashMap<u128, Todo> = HashMap::new();
    todos.insert(1, Todo::from_parts(full_input(), 1, 10));
    todos.insert(2, Todo::from_parts(full_input(), 2, 20));
    todos.insert(3, Todo::from_parts(full_input(), 3, 30));
    assert!(delete_todo_by_id(&mut todos, 2));
    assert_eq!(todos.len(), 2);
    assert!(todos.contains_key(&1) && todos.contains_key(&3));
    assert!(!delete_todo_by_id(&mut todos, 2));
    assert_eq!(todos.len(), 2);
}

#[test]
fn scenario_create_update_delete() {
    let mut todos: HashMap<u128, Todo> = HashMap::new();
    let mut input = full_input();
    input.title = "Learn Rust".to_string();
    input.priority = Priority::High;
    input.status = Status::Pending;
    let a = create_todo(&mut todos, input).expect("a fresh identifier");
    assert_eq!(todos.len(), 1);
    assert!(update_todo_in_map(&mut todos, a, None, None, None, Some(Status::Done)));
    assert_eq!(todos[&a].status, Status::Done);
    assert_eq!(todos[&a].title, "Learn Rust");
    assert!(delete_todo_by_id(&mut todos, a));
    assert_eq!(todos.len(), 0);
    assert!(!delete_todo_by_id(&mut todos, a));
}

#[test]
fn well_formedness_detects_misfiled_task() {
    let mut todos: HashMap<u128, Todo> = HashMap::new();
    todos.insert(1, Todo::from_parts(full_input(), 2, 10));
    assert!(!store_is_well_formed(&todos));
    let empty: HashMap<u128, Todo> = HashMap::new();
    assert!(store_is_well_formed(&empty));
}

#[test]
fn create_in_empty_store_succeeds() {
    for _ in 0..20 {
        let mut todos: HashMap<u128, Todo> = HashMap::new();
        let id = add_todo_to_map(&mut todos, "Learn Rust".into(), String::new(), Priority::High, Status::Pending);
        let id = id.expect("an empty store has no identifier to collide with");
        assert_eq!(todos.len(), 1);
        assert_eq!(todos[&id].priority, Priority::High);
    }
}
