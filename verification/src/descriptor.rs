//! Tasks written on the command line as
//! `<name>,<difficulty>,<notes>,<due>,<entry>;<entry>;...`.

use vstd::prelude::*;
use crate::dates::{iso8601_parsed, parse_iso8601};
use crate::error::{AppError, AppErrorView};
use crate::text::{chain, lines_view, same_text, split_at, split_on};
use crate::types::{
    checklist_view, Difficulty, DueDate, SubTask, SubTaskView, Task, TaskId, TaskView,
};

verus! {

/// The difficulty of this name.
pub open spec fn difficulty_named(name: Seq<char>) -> Option<Difficulty> {
    if name == "Trivial"@ {
        Some(Difficulty::TRIVIAL)
    } else if name == "Easy"@ {
        Some(Difficulty::EASY)
    } else if name == "Medium"@ {
        Some(Difficulty::MEDIUM)
    } else if name == "Hard"@ {
        Some(Difficulty::HARD)
    } else {
        None
    }
}

/// The result of reading a difficulty by its views.
pub open spec fn difficulty_result(r: Result<Difficulty, AppError>) -> Result<
    Difficulty,
    AppErrorView,
> {
    match r {
        Ok(d) => Ok(d),
        Err(e) => Err(e@),
    }
}

/// The result of reading a task by its views.
pub open spec fn task_result(r: Result<Task, AppError>) -> Result<TaskView, AppErrorView> {
    match r {
        Ok(t) => Ok(t@),
        Err(e) => Err(e@),
    }
}

/// The difficulty of this name; refused where the name is none of the four.
pub fn parse_difficulty(selected: &str) -> (r: Result<Difficulty, AppError>)
    ensures
        difficulty_result(r) == match difficulty_named(selected@) {
            Some(d) => Ok::<Difficulty, AppErrorView>(d),
            None => Err::<Difficulty, AppErrorView>(
                AppErrorView::CmdError("Incorrect difficulty value"@),
            ),
        },
{
    if same_text(selected, "Trivial") {
        Ok(Difficulty::TRIVIAL)
    } else if same_text(selected, "Easy") {
        Ok(Difficulty::EASY)
    } else if same_text(selected, "Medium") {
        Ok(Difficulty::MEDIUM)
    } else if same_text(selected, "Hard") {
        Ok(Difficulty::HARD)
    } else {
        Err(AppError::CmdError("Incorrect difficulty value".to_owned()))
    }
}

/// A checklist of entries that are not ticked, one for each text.
pub open spec fn unticked(texts: Seq<Seq<char>>) -> Seq<SubTaskView> {
    texts.map_values(|t: Seq<char>| SubTaskView { text: t, completed: false })
}

/// The task that the parts of a descriptor give. `due` is the date that the
/// fourth part was read as, where there is a fourth part and it reads as a
/// date. Refused where the difficulty is missing or wrong, or where the
/// fourth part is no date.
pub open spec fn described(parts: Seq<Seq<char>>, due: Option<DueDate>) -> Result<
    TaskView,
    AppErrorView,
> {
    if parts.len() < 2 {
        Err(AppErrorView::CmdError("Incorrect input: <difficulty> required"@))
    } else {
        match difficulty_named(parts[1]) {
            None => Err(AppErrorView::CmdError("Incorrect difficulty value"@)),
            Some(difficulty) => if parts.len() > 3 && due is None {
                Err(AppErrorView::CmdError("Incorrect input: <due> must be an ISO 8601 date"@))
            } else {
                Ok(
                    TaskView {
                        id: Seq::<char>::empty(),
                        text: parts[0],
                        task_type: "todo"@,
                        difficulty,
                        notes: if parts.len() > 2 {
                            Some(parts[2])
                        } else {
                            None
                        },
                        date: if parts.len() > 3 {
                            due
                        } else {
                            None
                        },
                        checklist: if parts.len() > 4 {
                            Some(unticked(split_on(parts[4], ';')))
                        } else {
                            None
                        },
                    },
                )
            },
        }
    }
}

/// The task that the parts of a descriptor give, with `due` as what the
/// fourth part was read as.
pub fn task_from_parts(parts: &Vec<String>, due: Option<DueDate>) -> (r: Result<Task, AppError>)
    ensures
        task_result(r) == described(lines_view(parts@), due),
{
    if parts.len() < 2 {
        return Err(AppError::CmdError("Incorrect input: <difficulty> required".to_owned()));
    }
    let difficulty = match parse_difficulty(parts[1].as_str()) {
        Ok(d) => d,
        Err(e) => {
            return Err(e);
        },
    };
    if parts.len() > 3 && due.is_none() {
        return Err(
            AppError::CmdError("Incorrect input: <due> must be an ISO 8601 date".to_owned()),
        );
    }
    let notes = if parts.len() > 2 {
        Some(parts[2].clone())
    } else {
        None
    };
    let date = if parts.len() > 3 {
        due
    } else {
        None
    };
    let checklist = if parts.len() > 4 {
        let texts = split_at(parts[4].as_str(), ';');
        let ghost wanted = unticked(split_on(parts@[4]@, ';'));
        let mut list: Vec<SubTask> = Vec::new();
        let mut i: usize = 0;
        while i < texts.len()
            invariant
                i <= texts@.len(),
                lines_view(texts@) == split_on(parts@[4]@, ';'),
                wanted == unticked(split_on(parts@[4]@, ';')),
                list@.len() == i,
                forall|k: int| 0 <= k < i ==> (#[trigger] list@[k])@ == wanted[k],
            decreases texts@.len() - i,
        {
            list.push(SubTask { text: texts[i].clone(), completed: false });
            i += 1;
        }
        assert(checklist_view(list@) =~= wanted);
        Some(list)
    } else {
        None
    };
    Ok(
        Task {
            id: TaskId::empty(),
            text: parts[0].clone(),
            task_type: "todo".to_owned(),
            difficulty,
            notes,
            date,
            checklist,
        },
    )
}

/// The date that the fourth part of a descriptor gives, where there is one
/// and it reads as a date in ISO 8601.
pub open spec fn due_of(parts: Seq<Seq<char>>) -> Option<DueDate> {
    if parts.len() > 3 {
        iso8601_parsed(parts[3])
    } else {
        None
    }
}

/// The task that a descriptor gives: the name, the difficulty, and as far
/// as given the notes, the due date in ISO 8601 and the checklist entries,
/// separated by semicolons. Parts behind the fifth are ignored.
pub fn parse_task_descriptor(descriptor: String) -> (r: Result<Task, AppError>)
    ensures
        task_result(r) == described(
            split_on(descriptor@, ','),
            due_of(split_on(descriptor@, ',')),
        ),
{
    let parts = split_at(descriptor.as_str(), ',');
    let due = if parts.len() > 3 {
        parse_iso8601(parts[3].as_str())
    } else {
        None
    };
    task_from_parts(&parts, due)
}

/// How a checklist entry is shown while the checklist is entered.
pub fn checklist_item_formatter(i: &str) -> (r: String)
    ensures
        r@ == "[] "@ + i@,
{
    chain("[] ", i)
}

} // verus!
