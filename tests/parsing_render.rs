use todoscope::args::{
    due_from_arg, due_from_input, id_from_arg, ids_from_args, ids_from_input, keep_valid_ids,
    tags_from_input, InputError,
};
use todoscope::input::AddTodoInput;
use todoscope::menu::{MenuChoice, SearchField};
use todoscope::notify::{notice_body, notice_for, notice_title, DueNotice};
use todoscope::priority::Priority;
use todoscope::recurrence::Recurrence;
use todoscope::render::join_texts;
use todoscope::sortby::SortBy;
use todoscope::status::Status;
use todoscope::task::Task;
use todoscope::text::{contains_text, same_text, split_text};
use todoscope::todo::Todo;

const ID_TEXT: &str = "a1a2a3a4-b1b2-c1c2-d1d2-d3d4d5d6d7d8";
const ID: u128 = 0xa1a2a3a4b1b2c1c2d1d2d3d4d5d6d7d8;

fn format_id(id: u128) -> String {
    uuid::Uuid::from_u128(id).to_string()
}

#[test]
fn identifiers_format_and_parse() {
    let mut t = sample();
    t.parent_id = Some(ID);
    assert_eq!(t.parent_text(), ID_TEXT);
    assert_eq!(id_from_arg(Some(ID_TEXT.to_string())), Ok(Some(ID)));
    assert_eq!(id_from_arg(Some("xyz".to_string())), Err(InputError::InvalidId));
    assert_eq!(id_from_arg(Some(String::new())), Err(InputError::InvalidId));
}

#[test]
fn day_arguments() {
    assert_eq!(due_from_arg(Some("1970-01-02".to_string())), Ok(Some(86_400_000)));
    assert_eq!(due_from_arg(Some("2024-01-01".to_string())), Ok(Some(1_704_067_200_000)));
    assert_eq!(due_from_arg(None), Ok(None));
    assert_eq!(due_from_arg(Some("01/01/2024".to_string())), Err(InputError::InvalidDate));
}

#[test]
fn identifier_arguments() {
    assert_eq!(id_from_arg(Some(ID_TEXT.to_string())), Ok(Some(ID)));
    assert_eq!(id_from_arg(None), Ok(None));
    assert_eq!(id_from_arg(Some("nope".to_string())), Err(InputError::InvalidId));
    assert_eq!(
        ids_from_args(Some(vec![ID_TEXT.to_string(), format_id(7)])),
        Ok(Some(vec![ID, 7]))
    );
    assert_eq!(
        ids_from_args(Some(vec![ID_TEXT.to_string(), "bad".to_string()])),
        Err(InputError::InvalidId)
    );
    assert_eq!(ids_from_args(None), Ok(None));
    assert_eq!(keep_valid_ids(&vec!["bad".to_string(), ID_TEXT.to_string()]), vec![ID]);
}

#[test]
fn typed_lines() {
    assert_eq!(due_from_input("   "), None);
    assert_eq!(due_from_input(" 1970-01-01 00:01 "), Some(60_000));
    assert_eq!(due_from_input("tomorrow"), None);
    assert_eq!(tags_from_input("  "), None);
    assert_eq!(
        tags_from_input(" work , home,,x "),
        Some(vec!["work".to_string(), "home".to_string(), "".to_string(), "x".to_string()])
    );
    let line = format!(" {} , junk, {}", ID_TEXT, format_id(3));
    assert_eq!(ids_from_input(&line), Some(vec![ID, 3]));
    assert_eq!(ids_from_input("junk, more"), None);
    assert_eq!(ids_from_input(""), None);
}

#[test]
fn text_helpers() {
    assert_eq!(split_text("a,b,,c", ','), vec!["a", "b", "", "c"]);
    assert_eq!(split_text("", ','), vec![""]);
    assert_eq!(split_text(",", ','), vec!["", ""]);
    assert!(contains_text("Learn Rust", "n R"));
    assert!(!contains_text("Learn", "Learning"));
    assert!(same_text("abc", "abc"));
    assert!(!same_text("abc", "abd"));
    assert_eq!(join_texts(&vec!["a".to_string(), "b".to_string()], ", "), "a, b");
    assert_eq!(join_texts(&vec![], ", "), "");
}

#[test]
fn labels_and_choices() {
    assert_eq!(Priority::High.label(), "High");
    assert_eq!(Status::InProgress.label(), "In Progress");
    assert_eq!(Status::InProgress.name(), "InProgress");
    assert_eq!(SortBy::Created.label(), "Created Date");
    assert_eq!(Priority::from_choice(2), Some(Priority::Medium));
    assert_eq!(Priority::from_choice(4), None);
    assert_eq!(Status::from_choice(3), Some(Status::Done));
    assert_eq!(Status::from_choice(0), None);
    assert_eq!(SortBy::from_choice(4), Some(SortBy::DueDate));
    assert_eq!(SortBy::from_name("PRIORITY"), Some(SortBy::Priority));
    assert_eq!(SortBy::from_name_or_created("Due-Date"), (SortBy::DueDate, false));
    assert_eq!(SortBy::from_name_or_created("size"), (SortBy::Created, true));
    assert_eq!(MenuChoice::from_choice(6), Some(MenuChoice::Exit));
    assert_eq!(MenuChoice::from_choice(7), None);
    assert_eq!(SearchField::from_choice(8), Some(SearchField::Parent));
}

#[test]
fn recurrence_reading_and_labels() {
    assert_eq!(Recurrence::from_text("DAILY"), Recurrence::Daily);
    assert_eq!(Recurrence::from_text("Weekly"), Recurrence::Weekly);
    assert_eq!(Recurrence::from_text("Every Monday"), Recurrence::Custom("every monday".to_string()));
    assert_eq!("daily".parse::<Recurrence>(), Ok(Recurrence::Daily));
    assert_eq!(Recurrence::Custom("x".to_string()).label(), "Custom(x)");
    assert_eq!(Recurrence::Weekly.label(), "Weekly");
    assert!(Recurrence::Custom("x".to_string()).same_as(&Recurrence::Custom("x".to_string())));
    assert!(!Recurrence::Daily.same_as(&Recurrence::Weekly));
}

fn sample() -> Todo {
    Todo::from_parts(
        AddTodoInput {
            title: "Pay rent".to_string(),
            description: None,
            priority: Priority::High,
            status: Status::Pending,
            due_date: Some(1000),
            tags: Some(vec!["home".to_string(), "money".to_string()]),
            recurrence: Some(Recurrence::Custom("monthly".to_string())),
            parent_id: Some(ID),
            subtasks: Some(vec![ID, 1]),
        },
        2,
        0,
    )
}

#[test]
fn task_field_texts() {
    let t = sample();
    assert_eq!(t.description_text(), "None");
    assert_eq!(t.tags_text(), "home, money");
    assert_eq!(
        t.subtasks_text(),
        format!("{}, 00000000-0000-0000-0000-000000000001", ID_TEXT)
    );
    assert_eq!(t.parent_text(), ID_TEXT);
    assert_eq!(t.recurrence_text(), "Custom(monthly)");
    let mut u = sample();
    u.subtasks = Some(vec![]);
    u.tags = None;
    u.recurrence = None;
    u.parent_id = None;
    u.description = Some("d".to_string());
    assert_eq!(u.subtasks_text(), "None");
    assert_eq!(u.tags_text(), "None");
    assert_eq!(u.recurrence_text(), "None");
    assert_eq!(u.parent_text(), "None");
    assert_eq!(u.description_text(), "d");
}

#[test]
fn due_notices() {
    let t = sample();
    assert_eq!(notice_for(&t, 999), None);
    assert_eq!(notice_for(&t, 1000), Some(DueNotice::Due));
    assert_eq!(notice_for(&t, 1001), Some(DueNotice::Overdue));
    assert_eq!(notice_title(&t, DueNotice::Overdue), "Overdue: Pay rent");
    assert_eq!(
        notice_body(&t, "then"),
        "No description provided\nPriority: High\nStatus: Pending\nDue: then"
    );
    let mut u = sample();
    u.due_date = None;
    assert_eq!(notice_for(&u, 5000), None);
    assert!(!u.is_overdue());
    assert!(t.is_overdue());
}

#[test]
fn plain_task_record() {
    let t = Task::new("T".to_string(), "D".to_string(), Priority::Low, Status::InProgress);
    assert_eq!(t.title(), "T");
    assert_eq!(t.description(), "D");
    assert_eq!(t.priority(), Priority::Low);
    assert_eq!(t.status(), Status::InProgress);
    let expected = format!(
        "ID: {}\nTitle: T\nDescription: D\nPriority: Low\nStatus: InProgress\n",
        format_id(t.id())
    );
    assert_eq!(t.render(), expected);
}

#[test]
fn recurrence_menu_entries() {
    assert!(Recurrence::asks_custom_text(3));
    assert!(!Recurrence::asks_custom_text(1));
    assert_eq!(Recurrence::from_choice(1, None), Some(Some(Recurrence::Daily)));
    assert_eq!(Recurrence::from_choice(2, None), Some(Some(Recurrence::Weekly)));
    assert_eq!(
        Recurrence::from_choice(3, Some("monthly".to_string())),
        Some(Some(Recurrence::Custom("monthly".to_string())))
    );
    assert_eq!(Recurrence::from_choice(3, None), Some(None));
    assert_eq!(Recurrence::from_choice(4, None), None);
}

#[test]
fn due_date_typed_as_prompted() {
    assert_eq!(due_from_input("1970-01-01 00:01"), Some(60_000));
    assert_eq!(due_from_input("2024-01-01 10:30\n"), Some(1_704_105_000_000));
}
