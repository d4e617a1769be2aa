//! A personal task tracker: a store of to-do records keyed by identifier,
//! with creation, update, deletion, sorted listing, filtered search, and a
//! stored form that reads back as the store it was written from.
pub mod args;
pub mod clock;
pub mod codec;
pub mod ids;
pub mod input;
pub mod listing;
pub mod menu;
pub mod notify;
pub mod priority;
pub mod recurrence;
pub mod render;
pub mod search;
pub mod sortby;
pub mod status;
pub mod store;
pub mod task;
pub mod text;
pub mod todo;

pub use store::{add_todo_to_map, delete_todo_by_id, update_todo_in_map};
