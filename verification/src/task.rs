use crate::priority::Priority;
use vstd::prelude::*;

verus! {

/// One unit of work. Immutable after creation except for `completed`.
pub struct Task {
    /// What there is to do; set at creation and never changed.
    pub description: String,
    /// Whether the task has been marked done.
    pub completed: bool,
    /// Sort key and display color of the task; fixed at creation.
    pub priority: Priority,
    /// Optional due time, as seconds on the local wall clock, on the same
    /// scale as the `now` handed to rendering.
    pub due_time: Option<i64>,
}

impl Task {
    /// A freshly created task: not yet completed.
    pub fn new(description: String, priority: Priority, due_time: Option<i64>) -> (t: Task)
        ensures
            t == (Task { description, completed: false, priority, due_time }),
    {
        Task { description, completed: false, priority, due_time }
    }

    /// The same task with its completion flag set.
    pub open spec fn marked_done(self) -> Task {
        Task { completed: true, ..self }
    }
}

} // verus!
