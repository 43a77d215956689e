//! The task record and its mathematical model.

use vstd::prelude::*;

verus! {

/// What a task is, as plain mathematical values.
pub struct TaskView {
    pub id: int,
    pub description: Seq<char>,
    pub completed: bool,
}

/// One row of a task list.
///
/// The identifier is assigned by the database when the row is inserted; the
/// completion flag starts out `false` and only ever moves to `true`.
#[derive(Clone, Debug, PartialEq, Eq)]
pub struct Task {
    pub id: i32,
    pub description: String,
    pub completed: bool,
}

impl View for Task {
    type V = TaskView;

    open spec fn view(&self) -> TaskView {
        TaskView { id: self.id as int, description: self.description@, completed: self.completed }
    }
}

/// The meaning of the integer stored in the `completed` column: zero is
/// "open", anything else is "done".
pub open spec fn flag_is_set(flag: int) -> bool {
    flag != 0
}

/// The models of a sequence of tasks, in the same order.
pub open spec fn task_views(tasks: Seq<Task>) -> Seq<TaskView> {
    Seq::new(tasks.len(), |i: int| tasks[i]@)
}

impl Task {
    /// Builds a task from the three column values of a stored row.
    pub fn from_columns(id: i32, description: String, flag: i64) -> (task: Task)
        ensures
            task@ == (TaskView {
                id: id as int,
                description: description@,
                completed: flag_is_set(flag as int),
            }),
    {
        Task { id, description, completed: flag != 0 }
    }
}

} // verus!
