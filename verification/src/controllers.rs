use vstd::prelude::*;
use crate::task::{AffectedRows, Task};

verus! {

/// A change of the list of tasks that a view shows.
#[derive(Debug)]
pub enum TaskAction {
    /// The list becomes the one given.
    SetAll(Vec<Task>),
    /// The given task joins the list.
    Add(Task),
    /// Turn over the completion flag of the task with this identifier.
    Toggle(String),
    /// The task with this identifier leaves the list.
    Delete(String),
}

/// Decides, from what the service answered, how the list of tasks that a
/// view shows changes.
#[derive(Debug)]
pub struct TaskController {}

impl TaskController {
    /// A controller.
    pub fn new() -> (c: TaskController) {
        TaskController {  }
    }

    /// After the tasks were asked for: show what came; after a failure the
    /// list stays as it is.
    pub fn init_tasks(&self, fetched: Result<Vec<Task>, String>) -> (action: Option<TaskAction>)
        ensures
            match fetched {
                Ok(tasks) => action matches Some(TaskAction::SetAll(shown)) && shown == tasks,
                Err(_) => action is None,
            },
    {
        match fetched {
            Ok(tasks) => Some(TaskAction::SetAll(tasks)),
            Err(_) => None,
        }
    }

    /// After a task was created: show it too.
    pub fn create_task(&self, response: Task) -> (action: TaskAction)
        ensures
            action matches TaskAction::Add(shown) && shown == response,
    {
        TaskAction::Add(response)
    }

    /// After the flag of the task `id` was to be turned over: turn it over
    /// in the list where one row is reported, else leave the list.
    pub fn toggle_task(&self, id: String, response: AffectedRows) -> (action: Option<TaskAction>)
        ensures
            response.rows_affected == 1 ==> (action matches Some(TaskAction::Toggle(shown))
                && shown == id),
            response.rows_affected != 1 ==> action is None,
    {
        if response.rows_affected == 1 {
            Some(TaskAction::Toggle(id))
        } else {
            None
        }
    }

    /// After the task `id` was to be deleted: take it from the list where
    /// one row is reported, else leave the list.
    pub fn delete_task(&self, id: String, response: AffectedRows) -> (action: Option<TaskAction>)
        ensures
            response.rows_affected == 1 ==> (action matches Some(TaskAction::Delete(shown))
                && shown == id),
            response.rows_affected != 1 ==> action is None,
    {
        if response.rows_affected == 1 {
            Some(TaskAction::Delete(id))
        } else {
            None
        }
    }
}

} // verus!
