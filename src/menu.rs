//! The entries of the interactive menus.
use vstd::prelude::*;

verus! {

/// An entry of the main menu.
#[derive(Debug, Clone, Copy, PartialEq, Eq, Structural)]
pub enum MenuChoice {
    Add,
    View,
    Search,
    Update,
    Delete,
    Exit,
}

/// A field to search by, or going back, in the search menu.
#[derive(Debug, Clone, Copy, PartialEq, Eq, Structural)]
pub enum SearchField {
    Id,
    Title,
    Priority,
    Status,
    DueDate,
    Recurrence,
    Tags,
    Parent,
    Back,
}

impl MenuChoice {
    /// The entry numbered `n`, counting from 1 in declaration order.
    pub fn from_choice(n: u32) -> (r: Option<MenuChoice>)
        ensures
            r == (if n == 1 {
                Some(MenuChoice::Add)
            } else if n == 2 {
                Some(MenuChoice::View)
            } else if n == 3 {
                Some(MenuChoice::Search)
            } else if n == 4 {
                Some(MenuChoice::Update)
            } else if n == 5 {
                Some(MenuChoice::Delete)
            } else if n == 6 {
                Some(MenuChoice::Exit)
            } else {
                None
            }),
    {
        match n {
            1 => Some(MenuChoice::Add),
            2 => Some(MenuChoice::View),
            3 => Some(MenuChoice::Search),
            4 => Some(MenuChoice::Update),
            5 => Some(MenuChoice::Delete),
            6 => Some(MenuChoice::Exit),
            _ => None,
        }
    }
}

impl SearchField {
    /// The entry numbered `n`, counting from 1 in declaration order.
    pub fn from_choice(n: u32) -> (r: Option<SearchField>)
        ensures
            r == (if n == 1 {
                Some(SearchField::Id)
            } else if n == 2 {
                Some(SearchField::Title)
            } else if n == 3 {
                Some(SearchField::Priority)
            } else if n == 4 {
                Some(SearchField::Status)
            } else if n == 5 {
                Some(SearchField::DueDate)
            } else if n == 6 {
                Some(SearchField::Recurrence)
            } else if n == 7 {
                Some(SearchField::Tags)
            } else if n == 8 {
                Some(SearchField::Parent)
            } else if n == 9 {
                Some(SearchField::Back)
            } else {
                None
            }),
    {
        match n {
            1 => Some(SearchField::Id),
            2 => Some(SearchField::Title),
            3 => Some(SearchField::Priority),
            4 => Some(SearchField::Status),
            5 => Some(SearchField::DueDate),
            6 => Some(SearchField::Recurrence),
            7 => Some(SearchField::Tags),
            8 => Some(SearchField::Parent),
            9 => Some(SearchField::Back),
            _ => None,
        }
    }
}

} // verus!
