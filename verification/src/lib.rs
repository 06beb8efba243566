//! A to-do list for one user: tasks, and the list state that selects, filters
//! and walks them.
//!
//! - [`time`]: instants and spans as plain integers.
//! - [`todo`]: one task, and the flat record that stores it.
//! - [`visibility`]: which tasks a completion filter shows, and which shown
//!   task lies nearest to a position.
//! - [`program_data`]: the list with its filter and its selection.

pub mod program_data;
pub mod time;
pub mod todo;
pub mod visibility;
