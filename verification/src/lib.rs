//! A checklist manager for the terminal: named lists of checkbox items, their
//! text format, and the state machine that turns key presses into changes.

pub mod cursor;
pub mod editor;
pub mod event;
pub mod parser;
pub mod roundtrip;
pub mod selection;
pub mod todo;
pub mod tui;
pub mod text;
pub mod viewport;
pub mod writer;

pub use crate::todo::{Todo, TodoList, TodoListCollection, TodoStatus};
