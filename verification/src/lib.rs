//! An in-memory task list: tasks carry a description, a priority and an
//! optional due time; the manager keeps them sorted by priority and renders
//! one colored display line per task.

mod clock;
pub mod digits;
pub mod manager;
pub mod priority;
pub mod render;
pub mod task;
