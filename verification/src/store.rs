//! The list of tasks of a store that keeps it in one piece: what creating,
//! editing, removing and moving a task does to the list.

use vstd::prelude::*;
use crate::error::{AppError, AppErrorView};
use crate::grid::{find_by_id, position_of};
use crate::text::chain3;
use crate::types::{tasks_view, Task, TaskId};

verus! {

/// The message for a task that the store does not hold.
pub open spec fn not_found(id: Seq<char>) -> AppErrorView {
    AppErrorView::ServiceError("Task with ID: "@ + id + " not found"@)
}

fn missing(id: &TaskId) -> (e: AppError)
    ensures
        e@ == not_found(id@),
{
    AppError::ServiceError(chain3("Task with ID: ", id.0.as_str(), " not found"))
}

/// Where a task moved to `index` lands in a list of `len` other tasks: at
/// `index`, or behind the last one.
pub open spec fn landing(index: int, len: int) -> int {
    if index > len {
        len
    } else {
        index
    }
}

/// Puts a new task in front of the list.
pub fn post_created_task(tasks: &mut Vec<Task>, task: Task)
    ensures
        tasks_view(final(tasks)@) == seq![task@] + tasks_view(old(tasks)@),
{
    tasks.insert(0, task);
}

/// Puts `task` in the place of the first task with its id, or in front of
/// the list where there is none.
pub fn edit_task(tasks: &mut Vec<Task>, task: Task)
    ensures
        tasks_view(final(tasks)@) == match position_of(tasks_view(old(tasks)@), task@.id) {
            Some(i) => tasks_view(old(tasks)@).update(i, task@),
            None => seq![task@] + tasks_view(old(tasks)@),
        },
{
    match find_by_id(tasks, &task.id) {
        Some(i) => {
            tasks.set(i, task);
        },
        None => {
            tasks.insert(0, task);
        },
    }
}

/// Takes the first task with this id out of the list and hands it back;
/// refused where there is none.
pub fn remove_task(tasks: &mut Vec<Task>, id: &TaskId) -> (r: Result<Task, AppError>)
    ensures
        match position_of(tasks_view(old(tasks)@), id@) {
            Some(i) => {
                &&& r matches Ok(removed) && removed@ == tasks_view(old(tasks)@)[i]
                &&& tasks_view(final(tasks)@) == tasks_view(old(tasks)@).remove(i)
            },
            None => {
                &&& r matches Err(e) && e@ == not_found(id@)
                &&& final(tasks)@ == old(tasks)@
            },
        },
{
    match find_by_id(tasks, id) {
        Some(i) => {
            let removed = tasks.remove(i);
            Ok(removed)
        },
        None => Err(missing(id)),
    }
}

/// Moves the first task with this id to `index`, or behind the last task
/// where the list is shorter; refused where there is no such task.
pub fn reorder_task(tasks: &mut Vec<Task>, id: &TaskId, index: usize) -> (r: Result<(), AppError>)
    ensures
        match position_of(tasks_view(old(tasks)@), id@) {
            Some(i) => {
                &&& r is Ok
                &&& tasks_view(final(tasks)@) == tasks_view(old(tasks)@).remove(i).insert(
                    landing(index as int, old(tasks)@.len() - 1),
                    tasks_view(old(tasks)@)[i],
                )
            },
            None => {
                &&& r matches Err(e) && e@ == not_found(id@)
                &&& final(tasks)@ == old(tasks)@
            },
        },
{
    match find_by_id(tasks, id) {
        Some(i) => {
            let task = tasks.remove(i);
            let to = if index > tasks.len() {
                tasks.len()
            } else {
                index
            };
            tasks.insert(to, task);
            Ok(())
        },
        None => Err(missing(id)),
    }
}

} // verus!
