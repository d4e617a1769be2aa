use std::collections::HashMap;
use todoscope::input::{AddTodoInput, SearchTodoInput};
use todoscope::listing::{key_of, retrieve_todos_sorted};
use todoscope::priority::Priority;
use todoscope::recurrence::Recurrence;
use todoscope::search::{
    meets_criteria, search_todo_by_id, search_todo_by_priority, search_todo_by_status,
    search_todo_by_title, search_todos, title_matches_folded, SearchError,
};
use todoscope::sortby::SortBy;
use todoscope::status::Status;
use todoscope::todo::Todo;

fn task(id: u128, title: &str, priority: Priority, status: Status, created: i64, due: Option<i64>) -> Todo {
    Todo::from_parts(
        AddTodoInput {
            title: title.to_string(),
            description: None,
            priority,
            status,
            due_date: due,
            tags: None,
            recurrence: None,
            parent_id: None,
            subtasks: None,
        },
        id,
        created,
    )
}

fn store(ts: Vec<Todo>) -> HashMap<u128, Todo> {
    let mut m = HashMap::new();
    for t in ts {
        m.insert(t.id, t);
    }
    m
}

fn ids(v: &[&Todo]) -> Vec<u128> {
    v.iter().map(|t| t.id).collect()
}

#[test]
fn sort_by_priority_high_medium_low() {
    let m = store(vec![
        task(1, "a", Priority::Low, Status::Pending, 0, None),
        task(2, "a", Priority::High, Status::Pending, 0, None),
        task(3, "a", Priority::Medium, Status::Pending, 0, None),
    ]);
    let v = retrieve_todos_sorted(&m, SortBy::Priority, 0);
    let ps: Vec<Priority> = v.iter().map(|t| t.priority).collect();
    assert_eq!(ps, vec![Priority::High, Priority::Medium, Priority::Low]);
}

#[test]
fn sort_by_status_and_creation() {
    let m = store(vec![
        task(1, "a", Priority::Low, Status::Done, 30, None),
        task(2, "b", Priority::Low, Status::Pending, 10, None),
        task(3, "c", Priority::Low, Status::InProgress, 20, None),
    ]);
    assert_eq!(ids(&retrieve_todos_sorted(&m, SortBy::Status, 0)), vec![2, 3, 1]);
    assert_eq!(ids(&retrieve_todos_sorted(&m, SortBy::Created, 0)), vec![2, 3, 1]);
}

#[test]
fn sort_by_due_date_puts_undated_last() {
    let m = store(vec![
        task(1, "a", Priority::Low, Status::Pending, 0, None),
        task(2, "b", Priority::Low, Status::Pending, 0, Some(500)),
        task(3, "c", Priority::Low, Status::Pending, 0, Some(100)),
        task(4, "d", Priority::Low, Status::Pending, 0, Some(i64::MAX)),
    ]);
    let v = retrieve_todos_sorted(&m, SortBy::DueDate, 0);
    assert_eq!(ids(&v), vec![3, 2, 4, 1]);
}

#[test]
fn sort_overdue_first() {
    let m = store(vec![
        task(1, "a", Priority::Low, Status::Pending, 0, None),
        task(2, "b", Priority::Low, Status::Pending, 0, Some(2000)),
        task(3, "c", Priority::Low, Status::Pending, 0, Some(100)),
    ]);
    let v = retrieve_todos_sorted(&m, SortBy::Overdue, 1000);
    assert_eq!(v.len(), 3);
    assert_eq!(v[0].id, 3);
    assert!(m[&3].is_overdue_at(1000));
    assert!(!m[&2].is_overdue_at(1000));
    assert!(!m[&3].is_overdue_at(100));
}

#[test]
fn sort_of_empty_store_is_empty() {
    let m: HashMap<u128, Todo> = HashMap::new();
    assert!(retrieve_todos_sorted(&m, SortBy::Created, 0).is_empty());
}

#[test]
fn sort_keys_exact_values() {
    let t = task(1, "a", Priority::Medium, Status::Done, 77, None);
    assert_eq!(key_of(&t, SortBy::Priority, 0), 1);
    assert_eq!(key_of(&t, SortBy::Status, 0), 2);
    assert_eq!(key_of(&t, SortBy::Created, 0), 77);
    assert_eq!(key_of(&t, SortBy::DueDate, 0), i64::MAX as i128 + 1);
    assert_eq!(key_of(&t, SortBy::Overdue, 0), 1);
}

#[test]
fn search_title_ignores_case() {
    let m = store(vec![
        task(1, "Learn Rust", Priority::High, Status::Pending, 0, None),
        task(2, "Buy milk", Priority::Low, Status::Pending, 0, None),
    ]);
    let v = search_todo_by_title(&m, "learn".to_string());
    assert_eq!(ids(&v), vec![1]);
    let v = search_todo_by_title(&m, "RUST".to_string());
    assert_eq!(ids(&v), vec![1]);
    assert!(title_matches_folded("learn", "learn rust"));
    assert!(!title_matches_folded("learn", "buy milk"));
    assert!(title_matches_folded("", "buy milk"));
}

#[test]
fn search_combines_criteria() {
    let mut a = task(1, "Learn Rust", Priority::High, Status::Pending, 0, Some(10));
    a.tags = Some(vec!["dev".to_string(), "book".to_string()]);
    a.recurrence = Some(Recurrence::Daily);
    a.parent_id = Some(99);
    let b = task(2, "Learn Go", Priority::Low, Status::Pending, 0, Some(10));
    let m = store(vec![a, b]);

    let mut c = SearchTodoInput::any();
    c.title = Some("learn".to_string());
    let mut v = ids(&search_todos(&m, &c).unwrap());
    v.sort();
    assert_eq!(v, vec![1, 2]);

    c.priority = Some(Priority::High);
    assert_eq!(ids(&search_todos(&m, &c).unwrap()), vec![1]);

    let mut c = SearchTodoInput::any();
    c.tags = Some(vec!["book".to_string()]);
    assert_eq!(ids(&search_todos(&m, &c).unwrap()), vec![1]);
    c.tags = Some(vec!["book".to_string(), "cooking".to_string()]);
    assert!(search_todos(&m, &c).unwrap().is_empty());

    let mut c = SearchTodoInput::any();
    c.recurrence = Some(Recurrence::Daily);
    c.parent_id = Some(99);
    c.due_date = Some(10);
    assert_eq!(ids(&search_todos(&m, &c).unwrap()), vec![1]);
    c.recurrence = Some(Recurrence::Weekly);
    assert!(search_todos(&m, &c).unwrap().is_empty());
}

#[test]
fn search_by_identifier_text() {
    let id: u128 = 0xa1a2a3a4b1b2c1c2d1d2d3d4d5d6d7d8;
    let m = store(vec![
        task(id, "x", Priority::High, Status::Pending, 0, None),
        task(5, "y", Priority::High, Status::Pending, 0, None),
    ]);
    let mut c = SearchTodoInput::any();
    c.id = Some("a1a2a3a4-b1b2-c1c2-d1d2-d3d4d5d6d7d8".to_string());
    assert_eq!(ids(&search_todos(&m, &c).unwrap()), vec![id]);
    c.id = Some("not-an-id".to_string());
    assert_eq!(search_todos(&m, &c).unwrap_err(), SearchError::InvalidId);
    assert_eq!(ids(&search_todo_by_id(&m, 5)), vec![5]);
    assert!(search_todo_by_id(&m, 6).is_empty());
}

#[test]
fn search_by_priority_and_status() {
    let m = store(vec![
        task(1, "x", Priority::High, Status::Done, 0, None),
        task(2, "y", Priority::Low, Status::Pending, 0, None),
    ]);
    assert_eq!(ids(&search_todo_by_priority(&m, Priority::Low)), vec![2]);
    assert_eq!(ids(&search_todo_by_status(&m, Status::Done)), vec![1]);
    assert!(search_todo_by_status(&m, Status::InProgress).is_empty());
}

#[test]
fn meets_criteria_uses_given_folded_texts() {
    let t = task(1, "Learn Rust", Priority::High, Status::Pending, 0, None);
    let c = SearchTodoInput::any();
    assert!(meets_criteria(&t, &c, None, Some("rust"), "learn rust"));
    assert!(!meets_criteria(&t, &c, None, Some("milk"), "learn rust"));
    assert!(!meets_criteria(&t, &c, Some(2), None, "learn rust"));
}

#[test]
fn equal_keys_keep_map_order() {
    let m = store(vec![
        task(1, "a", Priority::Low, Status::Pending, 0, Some(10)),
        task(2, "b", Priority::Low, Status::Pending, 0, None),
        task(3, "c", Priority::Low, Status::Pending, 0, Some(20)),
        task(4, "d", Priority::Low, Status::Pending, 0, Some(5000)),
        task(5, "e", Priority::Low, Status::Pending, 0, Some(30)),
        task(6, "f", Priority::Low, Status::Pending, 0, None),
    ]);
    let now = 1000;
    let v = retrieve_todos_sorted(&m, SortBy::Overdue, now);
    let in_map: Vec<u128> = m.values().map(|t| t.id).collect();
    let overdue: Vec<u128> = in_map.iter().copied().filter(|id| m[id].is_overdue_at(now)).collect();
    let rest: Vec<u128> = in_map.iter().copied().filter(|id| !m[id].is_overdue_at(now)).collect();
    let mut expected = overdue.clone();
    expected.extend(rest);
    assert_eq!(ids(&v), expected);
    assert_eq!(overdue.len(), 3);
}

#[test]
fn sort_menu_entries() {
    assert_eq!(SortBy::from_menu(1), Some((SortBy::Priority, false)));
    assert_eq!(SortBy::from_menu(5), Some((SortBy::Overdue, false)));
    assert_eq!(SortBy::from_menu(6), None);
    assert_eq!(SortBy::from_menu(9), Some((SortBy::Created, true)));
}
