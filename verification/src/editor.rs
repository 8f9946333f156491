//! The editor of one task: a working copy of the task, the input fields for
//! its name, its notes and its checklist entries, and the mode the editor
//! is in.

use vstd::prelude::*;
use crate::dates::{date_checked_add, now_utc, shifted, SECONDS_PER_DAY, SECONDS_PER_WEEK};
use crate::fields::{
    cursor_moved, field_cursor, field_lines, field_selection, key_typed, line_cut, word_cut,
    Field,
};
use crate::keys::{CursorMove, KeyEvent, MOD_KEY_TTL};
use crate::text::{join_lines, joined, split_at_line_breaks, split_lines};
use crate::types::{DueDate, SubTask, SubTaskView, Task, TaskView};

verus! {

/// What the keys do in the editor: move between fields, enter text, or pick
/// a due date.
#[derive(Debug, PartialEq, Eq, Structural, Clone, Copy)]
pub enum EditorMode {
    Normal,
    Insert,
    Calendar,
}

/// The text of a field: its lines with a line break between each two.
pub open spec fn field_text(field: Field) -> Seq<char> {
    joined(field_lines(field))
}

/// The checklist of a task; empty where it has none.
pub open spec fn checklist_of(task: TaskView) -> Seq<SubTaskView> {
    match task.checklist {
        Some(list) => list,
        None => Seq::<SubTaskView>::empty(),
    }
}

/// Whether field `n` has been marked as changed.
pub open spec fn is_dirty(dirty: Seq<usize>, n: int) -> bool {
    exists|k: int| 0 <= k < dirty.len() && #[trigger] dirty[k] == n
}

/// The task and the fields after field `n` was written back into the task.
/// Field 0 is the name and field 1 the notes, where no text means no notes.
/// A later field is the checklist entry two places before it: its text
/// becomes the entry's text, and a field without text takes its entry and
/// itself away.
pub open spec fn synced_field(task: TaskView, fields: Seq<Field>, n: int) -> (
    TaskView,
    Seq<Field>,
) {
    if n < 0 || n >= fields.len() {
        (task, fields)
    } else if n == 0 {
        (TaskView { text: field_text(fields[0]), ..task }, fields)
    } else if n == 1 {
        (
            TaskView {
                notes: if field_text(fields[1]).len() > 0 {
                    Some(field_text(fields[1]))
                } else {
                    None
                },
                ..task
            },
            fields,
        )
    } else {
        let list = checklist_of(task);
        let content = field_text(fields[n]);
        if content.len() > 0 {
            (
                TaskView {
                    checklist: Some(
                        list.update(
                            n - 2,
                            SubTaskView { text: content, completed: list[n - 2].completed },
                        ),
                    ),
                    ..task
                },
                fields,
            )
        } else {
            (TaskView { checklist: Some(list.remove(n - 2)), ..task }, fields.remove(n))
        }
    }
}

/// The task and the fields after the changed fields below `n` were written
/// back, the highest first.
pub open spec fn synced_below(task: TaskView, fields: Seq<Field>, dirty: Seq<usize>, n: int) -> (
    TaskView,
    Seq<Field>,
)
    decreases n,
{
    if n <= 0 {
        (task, fields)
    } else {
        let step = if is_dirty(dirty, n - 1) {
            synced_field(task, fields, n - 1)
        } else {
            (task, fields)
        };
        synced_below(step.0, step.1, dirty, n - 1)
    }
}

/// The task and the fields after every changed field was written back.
pub open spec fn synced(task: TaskView, fields: Seq<Field>, dirty: Seq<usize>) -> (
    TaskView,
    Seq<Field>,
) {
    synced_below(task, fields, dirty, fields.len() as int)
}

/// Writing back changes nothing where no field below `n` is marked as
/// changed.
pub proof fn lemma_sync_without_marks(
    task: TaskView,
    fields: Seq<Field>,
    dirty: Seq<usize>,
    n: int,
)
    requires
        forall|k: int| 0 <= k < n ==> !is_dirty(dirty, k),
    ensures
        synced_below(task, fields, dirty, n) == (task, fields),
    decreases n,
{
    if n > 0 {
        lemma_sync_without_marks(task, fields, dirty, n - 1);
    }
}

/// What typing `key` does to a field, behind the key `first` where one is
/// given: each key does to the field what `key_typed` says of it, the first
/// before the other.
pub open spec fn typed_in_turn(
    before: Field,
    after: Field,
    first: Option<KeyEvent>,
    key: KeyEvent,
) -> bool {
    match first {
        Some(first) => exists|between: Field| #[trigger]
            key_typed(before, between, first) && key_typed(between, after, key),
        None => key_typed(before, after, key),
    }
}

/// `after` holds the fields of `before`, but for field `f`.
pub open spec fn same_except(before: Seq<Field>, after: Seq<Field>, f: int) -> bool {
    &&& after.len() == before.len()
    &&& forall|i: int| 0 <= i < before.len() && i != f ==> after[i] == before[i]
}

/// Where a new checklist field goes: behind the focused field, not before
/// the first checklist field and not behind the last field.
pub open spec fn insertion_index(focus: Option<usize>, fields: int) -> int {
    let wanted = match focus {
        Some(f) => if f + 1 < 2 {
            2
        } else {
            f + 1
        },
        None => 2,
    };
    if wanted > fields {
        fields
    } else {
        wanted
    }
}

/// `i` brought into the indices of `fields` fields; 0 where there is at most
/// one.
pub open spec fn clamp_focus(i: int, fields: int) -> int {
    if i < 0 || fields <= 1 {
        0
    } else if i > fields - 1 {
        fields - 1
    } else {
        i
    }
}

/// `i` brought into the indices of `fields` fields.
pub fn clamp_to_fields(i: usize, fields: usize) -> (r: usize)
    ensures
        r == clamp_focus(i as int, fields as int),
{
    if fields <= 1 {
        0
    } else if i > fields - 1 {
        fields - 1
    } else {
        i
    }
}

/// By how many seconds a motion moves the date cursor: a day sideways, a
/// week up or down.
pub open spec fn date_step(motion: CursorMove) -> int {
    match motion {
        CursorMove::Up => -SECONDS_PER_WEEK,
        CursorMove::Down => SECONDS_PER_WEEK as int,
        CursorMove::Forward => SECONDS_PER_DAY as int,
        CursorMove::Back => -SECONDS_PER_DAY,
        _ => 0,
    }
}

/// The state of the editor.
pub struct EditorState {
    pub task: Task,
    pub mode: EditorMode,
    pub focus: Option<usize>,
    pub date_focus: Option<DueDate>,
    pub fields: Vec<Field>,
    pub dirty_fields: Vec<usize>,
    pub mod_key: Option<(KeyEvent, u32)>,
    pub is_modified: bool,
}

impl EditorState {
    /// There is a field for the name, one for the notes, and one for each
    /// entry of the checklist.
    pub open spec fn wf(&self) -> bool {
        self.fields@.len() == 2 + checklist_of(self.task@).len()
    }

    /// The focused field, where there is one.
    pub open spec fn focused(&self) -> Option<int> {
        match self.focus {
            Some(f) => if f < self.fields@.len() {
                Some(f as int)
            } else {
                None
            },
            None => None,
        }
    }

    /// `other` differs from this state in its fields at most.
    pub open spec fn same_but_fields(&self, other: &EditorState) -> bool {
        &&& other.task == self.task
        &&& other.mode == self.mode
        &&& other.focus == self.focus
        &&& other.date_focus == self.date_focus
        &&& other.dirty_fields == self.dirty_fields
        &&& other.mod_key == self.mod_key
        &&& other.is_modified == self.is_modified
    }

    /// `other` holds the fields and the marks of changed fields of this
    /// state.
    pub open spec fn same_fields(&self, other: &EditorState) -> bool {
        &&& other.fields == self.fields
        &&& other.dirty_fields == self.dirty_fields
    }

    /// Whether there is a field for the name, one for the notes, and one for
    /// each entry of the checklist.
    pub fn is_well_formed(&self) -> (r: bool)
        ensures
            r == self.wf(),
    {
        let entries = match &self.task.checklist {
            Some(list) => list.len(),
            None => 0,
        };
        self.fields.len() >= 2 && self.fields.len() - 2 == entries
    }

    /// What a freshly opened editor for `task` looks like: Normal mode for a
    /// task, Insert mode and a blank task for none; the name in the first
    /// field, the notes line by line in the second, each checklist entry in
    /// a field of its own; nothing changed and nothing waiting.
    pub open spec fn opened(task: Option<TaskView>, r: &EditorState) -> bool {
        &&& r.wf()
        &&& r.focus == Some(0usize)
        &&& r.date_focus is None
        &&& r.dirty_fields@.len() == 0
        &&& r.mod_key is None
        &&& !r.is_modified
        &&& match task {
            Some(task) => {
                &&& r.mode == EditorMode::Normal
                &&& r.task@ == task
                &&& field_lines(r.fields@[0]) == seq![task.text]
                &&& field_lines(r.fields@[1]) == match task.notes {
                    Some(notes) => split_lines(notes),
                    None => seq![Seq::<char>::empty()],
                }
            },
            None => {
                &&& r.mode == EditorMode::Insert
                &&& r.task@ == crate::types::blank_task()
                &&& field_lines(r.fields@[0]) == seq![Seq::<char>::empty()]
                &&& field_lines(r.fields@[1]) == seq![Seq::<char>::empty()]
            },
        }
        &&& forall|k: int|
            0 <= k < checklist_of(r.task@).len() ==> field_lines(#[trigger] r.fields@[k + 2])
                == seq![checklist_of(r.task@)[k].text]
        &&& forall|i: int|
            0 <= i < r.fields@.len() ==> field_cursor(#[trigger] r.fields@[i]) == (0usize, 0usize)
                && field_selection(r.fields@[i]) is None
    }

    /// A freshly opened editor shows the task: the text of its first field is
    /// the name, that of its second the notes, and those of the fields behind
    /// are the checklist entries.
    pub proof fn lemma_opened_shows_task(task: TaskView, r: &EditorState)
        requires
            Self::opened(Some(task), r),
        ensures
            field_text(r.fields@[0]) == task.text,
            field_text(r.fields@[1]) == match task.notes {
                Some(notes) => notes,
                None => Seq::<char>::empty(),
            },
            forall|k: int|
                0 <= k < checklist_of(task).len() ==> field_text(#[trigger] r.fields@[k + 2])
                    == checklist_of(task)[k].text,
    {
        if task.notes is Some {
            crate::text::lemma_join_split(task.notes->0);
        }
    }

    /// An editor for `task_option`, in Normal mode, or for a new task, in
    /// Insert mode.
    pub fn new(task_option: Option<&Task>) -> (r: EditorState)
        ensures
            Self::opened(
                match task_option {
                    Some(task) => Some(task@),
                    None => None,
                },
                &r,
            ),
    {
        let mut fields: Vec<Field> = Vec::new();
        let (task, mode) = match task_option {
            Some(task) => {
                let mut name_lines: Vec<String> = Vec::new();
                name_lines.push(task.text.clone());
                fields.push(Field::new(name_lines));
                let notes_lines = match &task.notes {
                    Some(notes) => split_at_line_breaks(notes.as_str()),
                    None => Vec::new(),
                };
                fields.push(Field::new(notes_lines));
                match &task.checklist {
                    Some(list) => {
                        let mut k: usize = 0;
                        while k < list.len()
                            invariant
                                k <= list@.len(),
                                fields@.len() == k + 2,
                                task.checklist == Some(*list),
                                field_lines(fields@[0]) == seq![task@.text],
                                field_lines(fields@[1]) == match task@.notes {
                                    Some(notes) => split_lines(notes),
                                    None => seq![Seq::<char>::empty()],
                                },
                                forall|j: int|
                                    0 <= j < k ==> field_lines(#[trigger] fields@[j + 2])
                                        == seq![list@[j]@.text],
                                forall|i: int|
                                    0 <= i < fields@.len() ==> field_cursor(
                                        #[trigger] fields@[i],
                                    ) == (0usize, 0usize) && field_selection(fields@[i]) is None,
                            decreases list@.len() - k,
                        {
                            let mut entry_lines: Vec<String> = Vec::new();
                            entry_lines.push(list[k].text.clone());
                            fields.push(Field::new(entry_lines));
                            k += 1;
                        }
                    },
                    None => {},
                }
                (task.clone(), EditorMode::Normal)
            },
            None => {
                fields.push(Field::new(Vec::new()));
                fields.push(Field::new(Vec::new()));
                (Task::default(), EditorMode::Insert)
            },
        };
        let r = EditorState {
            task,
            mode,
            focus: Some(0),
            date_focus: None,
            fields,
            dirty_fields: Vec::new(),
            mod_key: None,
            is_modified: false,
        };
        assert(task_option matches Some(task) ==> field_lines(r.fields@[0]) == seq![task@.text]);
        r
    }

    /// A copy of the task as it stands in the editor.
    pub fn clone_task(&self) -> (r: Task)
        ensures
            r@ == self.task@,
    {
        self.task.clone()
    }

    /// The index of the focused field, where there is one. The field itself
    /// is edited through the editor.
    pub fn get_focused_mut(&self) -> (r: Option<usize>)
        ensures
            r is Some == self.focused() is Some,
            r matches Some(f) ==> self.focused() == Some(f as int),
    {
        match self.focus {
            Some(f) => if f < self.fields.len() {
                Some(f)
            } else {
                None
            },
            None => None,
        }
    }

    /// The text of field `n`.
    pub fn field_text_at(&self, n: usize) -> (r: Option<String>)
        ensures
            r is Some == (n < self.fields@.len()),
            r matches Some(text) ==> text@ == field_text(self.fields@[n as int]),
    {
        if n < self.fields.len() {
            let lines = self.fields[n].lines();
            Some(join_lines(&lines))
        } else {
            None
        }
    }

    /// The lines of field `n`.
    pub fn field_lines_at(&self, n: usize) -> (r: Option<Vec<String>>)
        ensures
            r is Some == (n < self.fields@.len()),
            r matches Some(lines) ==> crate::text::lines_view(lines@) == field_lines(
                self.fields@[n as int],
            ),
    {
        if n < self.fields.len() {
            Some(self.fields[n].lines())
        } else {
            None
        }
    }

    /// The row and column of the text cursor in field `n`.
    pub fn field_cursor_at(&self, n: usize) -> (r: Option<(usize, usize)>)
        ensures
            r == if n < self.fields@.len() {
                Some(field_cursor(self.fields@[n as int]))
            } else {
                None
            },
    {
        if n < self.fields.len() {
            Some(self.fields[n].cursor())
        } else {
            None
        }
    }

    /// What `move_cursor` does to the editor.
    pub open spec fn move_cursor_post(pre: &Self, post: &Self, m: CursorMove) -> bool {
        &&& pre.same_but_fields(post)
        &&& post.fields@.len() == pre.fields@.len()
        &&& match pre.focused() {
            Some(f) => same_except(pre.fields@, post.fields@, f) && cursor_moved(
                pre.fields@[f],
                post.fields@[f],
                m,
            ),
            None => post.fields == pre.fields,
        }
    }

    /// Moves the text cursor of the focused field: by a character forward or
    /// back across the ends of lines, by a line up or down, to the head or
    /// the end of the line, or by a word. The texts stay as they are. Without
    /// a focused field nothing happens.
    pub fn move_cursor(&mut self, m: CursorMove)
        ensures
            Self::move_cursor_post(&*old(self), &*final(self), m),
    {
        match self.get_focused_mut() {
            Some(f) => {
                self.fields[f].move_cursor(m);
            },
            None => {},
        }
    }

    /// What `delete_word` does to the editor.
    pub open spec fn delete_word_post(pre: &Self, post: &Self) -> bool {
        &&& pre.same_but_fields(post)
        &&& match pre.focused() {
            Some(f) => same_except(pre.fields@, post.fields@, f) && word_cut(
                pre.fields@[f],
                post.fields@[f],
            ),
            None => post.fields == pre.fields,
        }
    }

    /// Deletes the word before the text cursor of the focused field, at the
    /// head of a line the line break before it, and where text is selected
    /// the selected text. Without a focused field nothing happens.
    pub fn delete_word(&mut self)
        ensures
            Self::delete_word_post(&*old(self), &*final(self)),
    {
        match self.get_focused_mut() {
            Some(f) => {
                self.fields[f].delete_word();
            },
            None => {},
        }
    }

    /// What `delete_line_by_end` does to the editor.
    pub open spec fn delete_line_by_end_post(pre: &Self, post: &Self) -> bool {
        &&& pre.same_but_fields(post)
        &&& match pre.focused() {
            Some(f) => same_except(pre.fields@, post.fields@, f) && line_cut(
                pre.fields@[f],
                post.fields@[f],
            ),
            None => post.fields == pre.fields,
        }
    }

    /// Deletes the line of the focused field from its text cursor on, at the
    /// end of a line the line break behind it, and where text is selected
    /// the selected text. Without a focused field nothing happens.
    pub fn delete_line_by_end(&mut self)
        ensures
            Self::delete_line_by_end_post(&*old(self), &*final(self)),
    {
        match self.get_focused_mut() {
            Some(f) => {
                self.fields[f].delete_line_by_end();
            },
            None => {},
        }
    }

    /// What `place_date_cursor` does to the editor.
    pub open spec fn place_date_cursor_post(
        pre: &Self,
        post: &Self,
        start: DueDate,
        moved: Option<DueDate>,
    ) -> bool {
        &&& pre.same_fields(post)
        &&& post.task == pre.task
        &&& post.mode == pre.mode
        &&& post.focus == pre.focus
        &&& post.mod_key == pre.mod_key
        &&& post.is_modified == pre.is_modified
        &&& post.date_focus == Some(
            match moved {
                Some(d) => d,
                None => start,
            },
        )
    }

    /// Puts the date cursor on `moved`, or on `start` where the calendar
    /// does not reach as far as the motion asked.
    pub fn place_date_cursor(&mut self, start: DueDate, moved: Option<DueDate>)
        ensures
            Self::place_date_cursor_post(&*old(self), &*final(self), start, moved),
    {
        self.date_focus = Some(
            match moved {
                Some(d) => d,
                None => start,
            },
        );
    }

    /// Where the date cursor stands before a motion: where it was put last,
    /// else on the due date of the task, else on `now`.
    pub open spec fn date_cursor_start(&self, now: DueDate) -> DueDate {
        match self.date_focus {
            Some(d) => d,
            None => match self.task.date {
                Some(d) => d,
                None => now,
            },
        }
    }

    /// Where the date cursor stands: where it was put last, else on the due
    /// date of the task, else on `now`.
    pub fn date_cursor_at(&self, now: DueDate) -> (r: DueDate)
        ensures
            r == self.date_cursor_start(now),
    {
        match self.date_focus {
            Some(d) => d,
            None => match self.task.date {
                Some(d) => d,
                None => now,
            },
        }
    }

    /// What `move_date_cursor_from` does to the editor.
    pub open spec fn move_date_cursor_from_post(
        pre: &Self,
        post: &Self,
        m: CursorMove,
        now: DueDate,
    ) -> bool {
        &&& pre.same_fields(post)
        &&& post.task == pre.task
        &&& post.mode == pre.mode
        &&& post.focus == pre.focus
        &&& post.mod_key == pre.mod_key
        &&& post.is_modified == pre.is_modified
        &&& post.date_focus == Some(
            if date_step(m) == 0 {
                pre.date_cursor_start(now)
            } else {
                match shifted(pre.date_cursor_start(now), date_step(m)) {
                    Some(d) => d,
                    None => pre.date_cursor_start(now),
                }
            },
        )
    }

    /// Moves the date cursor by a day or a week, from where it stands; it
    /// stays there where the calendar ends. `now` is where it starts in a
    /// task without due date.
    pub fn move_date_cursor_from(&mut self, m: CursorMove, now: DueDate)
        ensures
            Self::move_date_cursor_from_post(&*old(self), &*final(self), m, now),
    {
        let start = self.date_cursor_at(now);
        let moved = match m {
            CursorMove::Up => date_checked_add(start, -SECONDS_PER_WEEK),
            CursorMove::Down => date_checked_add(start, SECONDS_PER_WEEK),
            CursorMove::Forward => date_checked_add(start, SECONDS_PER_DAY),
            CursorMove::Back => date_checked_add(start, -SECONDS_PER_DAY),
            _ => None,
        };
        self.place_date_cursor(start, moved);
    }

    /// What `move_date_cursor` does to the editor.
    pub open spec fn move_date_cursor_post(pre: &Self, post: &Self, m: CursorMove) -> bool {
        &&& pre.same_fields(post)
        &&& post.task == pre.task
        &&& post.mode == pre.mode
        &&& post.focus == pre.focus
        &&& post.mod_key == pre.mod_key
        &&& post.is_modified == pre.is_modified
        &&& exists|now: DueDate|
            post.date_focus == Some(
                if date_step(m) == 0 {
                    pre.date_cursor_start(now)
                } else {
                    match shifted(#[trigger] pre.date_cursor_start(now), date_step(m)) {
                        Some(d) => d,
                        None => pre.date_cursor_start(now),
                    }
                },
            )
    }

    /// Moves the date cursor by a day or a week. In a task without due date
    /// it starts at the current time.
    pub fn move_date_cursor(&mut self, m: CursorMove)
        ensures
            Self::move_date_cursor_post(&*old(self), &*final(self), m),
    {
        let now = now_utc();
        self.move_date_cursor_from(m, now);
    }

    /// What `next_task_difficulty` does to the editor.
    pub open spec fn next_task_difficulty_post(pre: &Self, post: &Self) -> bool {
        &&& pre.same_fields(post)
        &&& post.task@ == (TaskView {
            difficulty: match pre.task.difficulty {
                crate::types::Difficulty::TRIVIAL => crate::types::Difficulty::EASY,
                crate::types::Difficulty::EASY => crate::types::Difficulty::MEDIUM,
                crate::types::Difficulty::MEDIUM => crate::types::Difficulty::HARD,
                crate::types::Difficulty::HARD => crate::types::Difficulty::TRIVIAL,
            },
            ..pre.task@
        })
        &&& post.is_modified
        &&& post.mode == pre.mode
        &&& post.focus == pre.focus
        &&& post.date_focus == pre.date_focus
        &&& post.mod_key == pre.mod_key
    }

    /// Makes the task one level harder.
    pub fn next_task_difficulty(&mut self)
        ensures
            Self::next_task_difficulty_post(&*old(self), &*final(self)),
    {
        self.task.difficulty = self.task.difficulty.next();
        self.is_modified = true;
    }

    /// What `prev_task_difficulty` does to the editor.
    pub open spec fn prev_task_difficulty_post(pre: &Self, post: &Self) -> bool {
        &&& pre.same_fields(post)
        &&& post.task@ == (TaskView {
            difficulty: match pre.task.difficulty {
                crate::types::Difficulty::TRIVIAL => crate::types::Difficulty::HARD,
                crate::types::Difficulty::EASY => crate::types::Difficulty::TRIVIAL,
                crate::types::Difficulty::MEDIUM => crate::types::Difficulty::EASY,
                crate::types::Difficulty::HARD => crate::types::Difficulty::MEDIUM,
            },
            ..pre.task@
        })
        &&& post.is_modified
        &&& post.mode == pre.mode
        &&& post.focus == pre.focus
        &&& post.date_focus == pre.date_focus
        &&& post.mod_key == pre.mod_key
    }

    /// Makes the task one level easier.
    pub fn prev_task_difficulty(&mut self)
        ensures
            Self::prev_task_difficulty_post(&*old(self), &*final(self)),
    {
        self.task.difficulty = self.task.difficulty.prev();
        self.is_modified = true;
    }

    /// What `remove_due_date` does to the editor.
    pub open spec fn remove_due_date_post(pre: &Self, post: &Self) -> bool {
        &&& pre.same_fields(post)
        &&& post.task@ == (TaskView { date: None, ..pre.task@ })
        &&& post.is_modified == (pre.is_modified || pre.task.date is Some)
        &&& post.mode == pre.mode
        &&& post.focus == pre.focus
        &&& post.date_focus == pre.date_focus
        &&& post.mod_key == pre.mod_key
    }

    /// Takes the due date off the task.
    pub fn remove_due_date(&mut self)
        ensures
            Self::remove_due_date_post(&*old(self), &*final(self)),
    {
        if self.task.date.is_some() {
            self.is_modified = true;
        }
        self.task.date = None;
    }

    /// What `confirm_due_date` does to the editor.
    pub open spec fn confirm_due_date_post(pre: &Self, post: &Self) -> bool {
        &&& pre.same_fields(post)
        &&& post.task@ == (TaskView { date: pre.date_focus, ..pre.task@ })
        &&& post.is_modified
        &&& post.mode == pre.mode
        &&& post.focus == pre.focus
        &&& post.date_focus == pre.date_focus
        &&& post.mod_key == pre.mod_key
    }

    /// Makes the date under the date cursor the due date of the task.
    pub fn confirm_due_date(&mut self)
        ensures
            Self::confirm_due_date_post(&*old(self), &*final(self)),
    {
        self.task.date = self.date_focus;
        self.is_modified = true;
    }

    /// What `enter_insert_mode` does to the editor.
    pub open spec fn enter_insert_mode_post(pre: &Self, post: &Self) -> bool {
        &&& pre.same_fields(post)
        &&& post.task == pre.task
        &&& post.mode == EditorMode::Insert
        &&& post.focus == Some(
            match pre.focus {
                Some(f) => f,
                None => 0usize,
            },
        )
        &&& post.date_focus == pre.date_focus
        &&& post.mod_key == pre.mod_key
        &&& post.is_modified == pre.is_modified
    }

    /// Enters Insert mode, on the first field where none is focused.
    pub fn enter_insert_mode(&mut self)
        ensures
            Self::enter_insert_mode_post(&*old(self), &*final(self)),
    {
        if self.focus.is_none() {
            self.focus = Some(0);
        }
        self.mode = EditorMode::Insert;
    }

    /// What `exit_insert_mode` does to the editor.
    pub open spec fn exit_insert_mode_post(pre: &Self, post: &Self) -> bool {
        &&& post.wf()
        &&& (post.task@, post.fields@) == synced(
            pre.task@,
            pre.fields@,
            pre.dirty_fields@,
        )
        &&& post.mode == EditorMode::Normal
        &&& post.dirty_fields == pre.dirty_fields
        &&& post.focus == pre.focus
        &&& post.date_focus == pre.date_focus
        &&& post.mod_key == pre.mod_key
        &&& post.is_modified == pre.is_modified
    }

    /// Leaves Insert mode for Normal mode and writes the changed fields back
    /// into the task.
    pub fn exit_insert_mode(&mut self)
        requires
            old(self).wf(),
        ensures
            Self::exit_insert_mode_post(&*old(self), &*final(self)),
    {
        self.sync_changes();
        self.mode = EditorMode::Normal;
    }

    /// What `add_mod_key` does to the editor.
    pub open spec fn add_mod_key_post(pre: &Self, post: &Self, key: KeyEvent) -> bool {
        &&& pre.same_fields(post)
        &&& post.task == pre.task
        &&& post.mode == pre.mode
        &&& post.focus == pre.focus
        &&& post.date_focus == pre.date_focus
        &&& post.is_modified == pre.is_modified
        &&& post.mod_key == Some((key, MOD_KEY_TTL))
    }

    /// Keeps `key` as the first key of a two-key sequence.
    pub fn add_mod_key(&mut self, key: KeyEvent)
        ensures
            Self::add_mod_key_post(&*old(self), &*final(self), key),
    {
        self.mod_key = Some((key, MOD_KEY_TTL));
    }

    /// What `pop_mod_key` does to the editor.
    pub open spec fn pop_mod_key_post(pre: &Self, post: &Self, r: Option<KeyEvent>) -> bool {
        &&& pre.same_fields(post)
        &&& post.task == pre.task
        &&& post.mode == pre.mode
        &&& post.focus == pre.focus
        &&& post.date_focus == pre.date_focus
        &&& post.is_modified == pre.is_modified
        &&& post.mod_key is None
        &&& r == match pre.mod_key {
            Some(waiting) => Some(waiting.0),
            None => None,
        }
    }

    /// Hands out the waiting key, which waits no more.
    pub fn pop_mod_key(&mut self) -> (r: Option<KeyEvent>)
        ensures
            Self::pop_mod_key_post(&*old(self), &*final(self), r),
    {
        let r = match self.mod_key {
            Some(waiting) => Some(waiting.0),
            None => None,
        };
        self.mod_key = None;
        r
    }

    /// What `decay_mod_key` does to the editor.
    pub open spec fn decay_mod_key_post(pre: &Self, post: &Self) -> bool {
        &&& post.task == pre.task
        &&& post.mode == pre.mode
        &&& post.focus == pre.focus
        &&& post.date_focus == pre.date_focus
        &&& post.dirty_fields == pre.dirty_fields
        &&& post.is_modified == pre.is_modified
        &&& post.fields@.len() == pre.fields@.len()
        &&& match pre.mod_key {
            Some(waiting) => if waiting.1 <= 1 {
                &&& post.mod_key is None
                &&& match pre.focused() {
                    Some(f) => same_except(pre.fields@, post.fields@, f) && key_typed(
                        pre.fields@[f],
                        post.fields@[f],
                        waiting.0,
                    ),
                    None => post.fields == pre.fields,
                }
            } else {
                &&& post.mod_key == Some((waiting.0, (waiting.1 - 1) as u32))
                &&& post.fields == pre.fields
            },
            None => post.mod_key is None && post.fields == pre.fields,
        }
    }

    /// Lets one tick pass for the waiting key. When its time is up it is
    /// typed into the focused field as a key of its own, at the text cursor.
    pub fn decay_mod_key(&mut self)
        ensures
            Self::decay_mod_key_post(&*old(self), &*final(self)),
    {
        match self.mod_key {
            Some(waiting) => {
                if waiting.1 <= 1 {
                    match self.get_focused_mut() {
                        Some(f) => {
                            self.fields[f].input(waiting.0);
                        },
                        None => {},
                    }
                    self.mod_key = None;
                } else {
                    self.mod_key = Some((waiting.0, waiting.1 - 1));
                }
            },
            None => {},
        }
    }

    /// What `mark_modified` does to the editor.
    pub open spec fn mark_modified_post(pre: &Self, post: &Self, i: usize) -> bool {
        &&& post.fields == pre.fields
        &&& post.dirty_fields@ == pre.dirty_fields@.push(i)
        &&& post.is_modified
        &&& post.task == pre.task
        &&& post.mode == pre.mode
        &&& post.focus == pre.focus
        &&& post.date_focus == pre.date_focus
        &&& post.mod_key == pre.mod_key
    }

    /// Marks field `i` as changed, and with it the task.
    pub fn mark_modified(&mut self, i: usize)
        ensures
            Self::mark_modified_post(&*old(self), &*final(self), i),
    {
        self.dirty_fields.push(i);
        self.is_modified = true;
    }

    /// What `type_key` does to the editor.
    pub open spec fn type_key_post(pre: &Self, post: &Self, key: KeyEvent) -> bool {
        &&& post.task == pre.task
        &&& post.mode == pre.mode
        &&& post.focus == pre.focus
        &&& post.date_focus == pre.date_focus
        &&& post.mod_key is None
        &&& match pre.focused() {
            Some(f) => {
                &&& same_except(pre.fields@, post.fields@, f)
                &&& post.dirty_fields@ == pre.dirty_fields@.push(f as usize)
                &&& post.is_modified
                &&& typed_in_turn(
                    pre.fields@[f],
                    post.fields@[f],
                    match pre.mod_key {
                        Some(waiting) => Some(waiting.0),
                        None => None,
                    },
                    key,
                )
            },
            None => {
                &&& post.fields == pre.fields
                &&& post.dirty_fields == pre.dirty_fields
                &&& post.is_modified == pre.is_modified
            },
        }
    }

    /// Types `key` into the focused field, behind the waiting key where one
    /// waits, and marks the field as changed. A plain character goes in at
    /// the text cursor, which moves on behind it.
    pub fn type_key(&mut self, key: KeyEvent)
        ensures
            Self::type_key_post(&*old(self), &*final(self), key),
    {
        let waiting = self.pop_mod_key();
        match self.get_focused_mut() {
            Some(f) => {
                match waiting {
                    Some(first) => {
                        self.fields[f].input(first);
                    },
                    None => {},
                }
                let ghost between = self.fields@[f as int];
                self.fields[f].input(key);
                self.dirty_fields.push(f);
                self.is_modified = true;
                proof {
                    let before = old(self).fields@[f as int];
                    let after = self.fields@[f as int];
                    if waiting is Some {
                        assert(key_typed(before, between, waiting->0) && key_typed(
                            between,
                            after,
                            key,
                        ));
                    }
                    assert(typed_in_turn(before, after, waiting, key));
                }
            },
            None => {},
        }
    }

    /// What `focus_next` does to the editor.
    pub open spec fn focus_next_post(pre: &Self, post: &Self) -> bool {
        &&& pre.same_fields(post)
        &&& post.task == pre.task
        &&& post.mode == pre.mode
        &&& post.date_focus == pre.date_focus
        &&& post.mod_key == pre.mod_key
        &&& post.is_modified == pre.is_modified
        &&& post.focus == Some(
            match pre.focus {
                Some(i) => clamp_focus(i + 1, pre.fields@.len() as int) as usize,
                None => 0usize,
            },
        )
    }

    /// Moves the focus to the next field, not past the last one; to the
    /// first field where none is focused.
    pub fn focus_next(&mut self)
        ensures
            Self::focus_next_post(&*old(self), &*final(self)),
    {
        let len = self.fields.len();
        self.focus = Some(
            match self.focus {
                Some(i) => clamp_to_fields(i.saturating_add(1), len),
                None => 0,
            },
        );
    }

    /// What `focus_prev` does to the editor.
    pub open spec fn focus_prev_post(pre: &Self, post: &Self) -> bool {
        &&& pre.same_fields(post)
        &&& post.task == pre.task
        &&& post.mode == pre.mode
        &&& post.date_focus == pre.date_focus
        &&& post.mod_key == pre.mod_key
        &&& post.is_modified == pre.is_modified
        &&& post.focus == Some(
            match pre.focus {
                Some(i) => clamp_focus(i - 1, pre.fields@.len() as int) as usize,
                None => 0usize,
            },
        )
    }

    /// Moves the focus to the field before, not before the first one; to
    /// the first field where none is focused.
    pub fn focus_prev(&mut self)
        ensures
            Self::focus_prev_post(&*old(self), &*final(self)),
    {
        let len = self.fields.len();
        self.focus = Some(
            match self.focus {
                Some(i) => clamp_to_fields(i.saturating_sub(1), len),
                None => 0,
            },
        );
    }

    /// What `focus_step` does to the editor.
    pub open spec fn focus_step_post(pre: &Self, post: &Self, backwards: bool) -> bool {
        &&& pre.same_fields(post)
        &&& post.task == pre.task
        &&& post.mode == pre.mode
        &&& post.date_focus == pre.date_focus
        &&& post.mod_key == pre.mod_key
        &&& post.is_modified == pre.is_modified
        &&& post.focus == Some(
            clamp_focus(
                (match pre.focus {
                    Some(i) => i as int,
                    None => 0int,
                }) + (if backwards {
                    -1int
                } else {
                    1int
                }),
                pre.fields@.len() as int,
            ) as usize,
        )
    }

    /// Moves the focus one field on, or one field back, within the fields,
    /// counting from the first field where none is focused.
    pub fn focus_step(&mut self, backwards: bool)
        ensures
            Self::focus_step_post(&*old(self), &*final(self), backwards),
    {
        let len = self.fields.len();
        let from = match self.focus {
            Some(i) => i,
            None => 0,
        };
        let to = if backwards {
            from.saturating_sub(1)
        } else {
            from.saturating_add(1)
        };
        self.focus = Some(clamp_to_fields(to, len));
    }

    fn is_marked(&self, n: usize) -> (r: bool)
        ensures
            r == is_dirty(self.dirty_fields@, n as int),
    {
        let mut k: usize = 0;
        while k < self.dirty_fields.len()
            invariant
                k <= self.dirty_fields@.len(),
                forall|j: int| 0 <= j < k ==> self.dirty_fields@[j] != n,
            decreases self.dirty_fields@.len() - k,
        {
            if self.dirty_fields[k] == n {
                return true;
            }
            k += 1;
        }
        false
    }

    fn sync_field(&mut self, n: usize)
        requires
            old(self).wf(),
            n < old(self).fields@.len(),
        ensures
            final(self).wf(),
            (final(self).task@, final(self).fields@) == synced_field(
                old(self).task@,
                old(self).fields@,
                n as int,
            ),
            final(self).fields@.len() <= old(self).fields@.len(),
            final(self).mode == old(self).mode,
            final(self).dirty_fields == old(self).dirty_fields,
            final(self).focus == old(self).focus,
            final(self).date_focus == old(self).date_focus,
            final(self).mod_key == old(self).mod_key,
            final(self).is_modified == old(self).is_modified,
    {
        let lines = self.fields[n].lines();
        let content = join_lines(&lines);
        let blank = content.as_str().unicode_len() == 0;
        if n == 0 {
            self.task.text = content;
        } else if n == 1 {
            if blank {
                self.task.notes = None;
            } else {
                self.task.notes = Some(content);
            }
        } else {
            let ghost before = checklist_of(self.task@);
            let mut list = match self.task.checklist.take() {
                Some(list) => list,
                None => Vec::new(),
            };
            if blank {
                list.remove(n - 2);
                self.fields.remove(n);
                assert(crate::types::checklist_view(list@) =~= before.remove(n - 2));
            } else {
                let entry = SubTask { text: content, completed: list[n - 2].completed };
                list.set(n - 2, entry);
                assert(crate::types::checklist_view(list@) =~= before.update(
                    n - 2,
                    SubTaskView {
                        text: field_text(old(self).fields@[n as int]),
                        completed: before[n - 2].completed,
                    },
                ));
            }
            self.task.checklist = Some(list);
        }
    }

    /// What `sync_changes` does to the editor.
    pub open spec fn sync_changes_post(pre: &Self, post: &Self) -> bool {
        &&& post.wf()
        &&& (post.task@, post.fields@) == synced(
            pre.task@,
            pre.fields@,
            pre.dirty_fields@,
        )
        &&& post.mode == pre.mode
        &&& post.dirty_fields == pre.dirty_fields
        &&& post.focus == pre.focus
        &&& post.date_focus == pre.date_focus
        &&& post.mod_key == pre.mod_key
        &&& post.is_modified == pre.is_modified
    }

    /// Writes the changed fields back into the task, the highest field
    /// first: the name, the notes, where no text means no notes, and the
    /// checklist entries, where a field without text takes its entry and
    /// itself away.
    pub fn sync_changes(&mut self)
        requires
            old(self).wf(),
        ensures
            Self::sync_changes_post(&*old(self), &*final(self)),
    {
        let mut n: usize = self.fields.len();
        while n > 0
            invariant
                self.wf(),
                n <= self.fields@.len(),
                synced_below(self.task@, self.fields@, self.dirty_fields@, n as int) == synced(
                    old(self).task@,
                    old(self).fields@,
                    old(self).dirty_fields@,
                ),
                self.mode == old(self).mode,
                self.dirty_fields == old(self).dirty_fields,
                self.focus == old(self).focus,
                self.date_focus == old(self).date_focus,
                self.mod_key == old(self).mod_key,
                self.is_modified == old(self).is_modified,
            decreases n,
        {
            n -= 1;
            if self.is_marked(n) {
                self.sync_field(n);
            }
        }
    }

    /// What `insert_subtask` does to the editor.
    pub open spec fn insert_subtask_post(pre: &Self, post: &Self) -> bool {
        &&& post.wf()
        &&& ({
            let index = insertion_index(pre.focus, pre.fields@.len() as int);
            &&& post.focus == Some(index as usize)
            &&& post.fields@ == pre.fields@.insert(index, post.fields@[index])
            &&& field_lines(post.fields@[index]) == seq![Seq::<char>::empty()]
            &&& field_cursor(post.fields@[index]) == (0usize, 0usize)
            &&& field_selection(post.fields@[index]) is None
            &&& post.dirty_fields@ == pre.dirty_fields@.push(index as usize)
            &&& post.task@ == (TaskView {
                checklist: Some(
                    checklist_of(pre.task@).insert(
                        index - 2,
                        SubTaskView { text: Seq::<char>::empty(), completed: false },
                    ),
                ),
                ..pre.task@
            })
        })
        &&& post.mode == EditorMode::Insert
        &&& post.date_focus == pre.date_focus
        &&& post.mod_key == pre.mod_key
        &&& post.is_modified == pre.is_modified
    }

    /// Opens a field for a new checklist entry behind the focused field,
    /// among the checklist fields, gives the task an empty entry at that
    /// place, and enters Insert mode on the new field.
    pub fn insert_subtask(&mut self)
        requires
            old(self).wf(),
        ensures
            Self::insert_subtask_post(&*old(self), &*final(self)),
    {
        let wanted = match self.focus {
            Some(f) => if f < 1 {
                2
            } else {
                f.saturating_add(1)
            },
            None => 2,
        };
        let index = if wanted > self.fields.len() {
            self.fields.len()
        } else {
            wanted
        };
        let ghost before = checklist_of(self.task@);
        self.focus = Some(index);
        self.fields.insert(index, Field::new(Vec::new()));
        self.dirty_fields.push(index);
        let mut list = match self.task.checklist.take() {
            Some(list) => list,
            None => Vec::new(),
        };
        list.insert(index - 2, SubTask { text: String::new(), completed: false });
        assert(crate::types::checklist_view(list@) =~= before.insert(
            index - 2,
            SubTaskView { text: Seq::<char>::empty(), completed: false },
        ));
        self.mode = EditorMode::Insert;
        self.task.checklist = Some(list);
    }
}

} // verus!
