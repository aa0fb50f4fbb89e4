use vstd::prelude::*;

verus! {

/// One row of the `tasks` table.
pub struct TaskRow {
    pub task_id: i32,
    pub name: String,
    pub priority: Option<i32>,
}

/// The body of a create request.
pub struct CreateTaskReq {
    pub name: String,
    pub priority: Option<i32>,
}

/// The body of an update request: only the fields present change.
pub struct UpdateTaskReq {
    pub name: Option<String>,
    pub priority: Option<i32>,
}

/// A task as the contracts see it.
pub struct TaskModel {
    pub task_id: i32,
    pub name: Seq<char>,
    pub priority: Option<i32>,
}

impl View for TaskRow {
    type V = TaskModel;

    open spec fn view(&self) -> TaskModel {
        TaskModel { task_id: self.task_id, name: self.name@, priority: self.priority }
    }
}

impl TaskRow {
    /// A row with the same id, name and priority.
    pub fn duplicate(&self) -> (r: TaskRow)
        ensures
            r@ == self@,
    {
        TaskRow { task_id: self.task_id, name: self.name.clone(), priority: self.priority }
    }
}

} // verus!
