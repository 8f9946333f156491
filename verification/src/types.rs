//! Tasks, their checklist items, and the actions that can be pending on them.

use vstd::prelude::*;
use vstd::std_specs::cmp::PartialEqSpecImpl;
use crate::dates::{
    date_checked_add, format_iso8601_day, iso8601_day, now_utc, shifted, SECONDS_PER_WEEK,
};
use crate::text::contains_char;

verus! {

/// How hard a task is. The four levels form a cycle under `next` and `prev`.
#[allow(non_camel_case_types)]
#[derive(Debug, PartialEq, Eq, Structural, Clone, Copy)]
pub enum Difficulty {
    TRIVIAL,
    EASY,
    MEDIUM,
    HARD,
}

/// How urgently a task asks for attention.
#[derive(Debug, PartialEq, Eq, Structural, Clone, Copy)]
pub enum Priority {
    LOW,
    MID,
    HIGH,
}

impl Difficulty {
    /// Position in the order Trivial < Easy < Medium < Hard.
    pub open spec fn rank(self) -> int {
        match self {
            Difficulty::TRIVIAL => 0,
            Difficulty::EASY => 1,
            Difficulty::MEDIUM => 2,
            Difficulty::HARD => 3,
        }
    }

    /// The name shown to the user.
    pub open spec fn label(self) -> Seq<char> {
        match self {
            Difficulty::TRIVIAL => "Trivial"@,
            Difficulty::EASY => "Easy"@,
            Difficulty::MEDIUM => "Medium"@,
            Difficulty::HARD => "Hard"@,
        }
    }

    /// The next harder level; Hard wraps to Trivial.
    pub fn next(self) -> (r: Difficulty)
        ensures
            r.rank() == (self.rank() + 1) % 4,
    {
        match self {
            Difficulty::TRIVIAL => Difficulty::EASY,
            Difficulty::EASY => Difficulty::MEDIUM,
            Difficulty::MEDIUM => Difficulty::HARD,
            Difficulty::HARD => Difficulty::TRIVIAL,
        }
    }

    /// The next easier level; Trivial wraps to Hard.
    pub fn prev(self) -> (r: Difficulty)
        ensures
            r.rank() == (self.rank() + 3) % 4,
    {
        match self {
            Difficulty::TRIVIAL => Difficulty::HARD,
            Difficulty::EASY => Difficulty::TRIVIAL,
            Difficulty::MEDIUM => Difficulty::EASY,
            Difficulty::HARD => Difficulty::MEDIUM,
        }
    }

    /// The level's name as text.
    pub fn to_text(&self) -> (r: String)
        ensures
            r@ == self.label(),
    {
        match self {
            Difficulty::TRIVIAL => "Trivial".to_owned(),
            Difficulty::EASY => "Easy".to_owned(),
            Difficulty::MEDIUM => "Medium".to_owned(),
            Difficulty::HARD => "Hard".to_owned(),
        }
    }
}

/// A point in time with the offset from UTC it is shown in.
///
/// `unix_nanos` counts nanoseconds since 1970-01-01T00:00:00 UTC and
/// `offset_secs` is the offset of the local clock in seconds east of UTC.
#[derive(Debug, PartialEq, Eq, Structural, Clone, Copy)]
pub struct DueDate {
    pub unix_nanos: i128,
    pub offset_secs: i32,
}

/// Identity of a task. The empty id marks a task that the store has not
/// created yet.
#[derive(Debug)]
pub struct TaskId(pub String);

impl View for TaskId {
    type V = Seq<char>;

    open spec fn view(&self) -> Seq<char> {
        self.0@
    }
}

impl Clone for TaskId {
    fn clone(&self) -> (r: TaskId)
        ensures
            r@ == self@,
    {
        TaskId(self.0.clone())
    }
}

impl PartialEq for TaskId {
    fn eq(&self, other: &TaskId) -> (r: bool) {
        self.0 == other.0
    }
}

impl Eq for TaskId {

}

impl PartialEqSpecImpl for TaskId {
    open spec fn obeys_eq_spec() -> bool {
        true
    }

    open spec fn eq_spec(&self, other: &TaskId) -> bool {
        self@ == other@
    }
}

impl Default for TaskId {
    fn default() -> (r: TaskId)
        ensures
            r@ == Seq::<char>::empty(),
    {
        TaskId(String::new())
    }
}

impl TaskId {
    /// The id of a task that does not exist in the store yet.
    pub fn empty() -> (r: TaskId)
        ensures
            r@ == Seq::<char>::empty(),
    {
        TaskId(String::new())
    }

    /// Whether this is the id of a task that does not exist in the store yet.
    pub fn is_empty(&self) -> (r: bool)
        ensures
            r == (self@.len() == 0),
    {
        self.0.as_str().unicode_len() == 0
    }

    /// The id as text.
    pub fn to_text(&self) -> (r: String)
        ensures
            r@ == self@,
    {
        self.0.clone()
    }
}

/// One entry of a task's checklist.
#[derive(Debug)]
pub struct SubTask {
    pub text: String,
    pub completed: bool,
}

pub struct SubTaskView {
    pub text: Seq<char>,
    pub completed: bool,
}

impl View for SubTask {
    type V = SubTaskView;

    open spec fn view(&self) -> SubTaskView {
        SubTaskView { text: self.text@, completed: self.completed }
    }
}

impl Clone for SubTask {
    fn clone(&self) -> (r: SubTask)
        ensures
            r@ == self@,
    {
        SubTask { text: self.text.clone(), completed: self.completed }
    }
}

impl PartialEq for SubTask {
    fn eq(&self, other: &SubTask) -> (r: bool) {
        self.text == other.text && self.completed == other.completed
    }
}

impl PartialEqSpecImpl for SubTask {
    open spec fn obeys_eq_spec() -> bool {
        true
    }

    open spec fn eq_spec(&self, other: &SubTask) -> bool {
        self@ == other@
    }
}

impl Default for SubTask {
    fn default() -> (r: SubTask)
        ensures
            r@ == (SubTaskView { text: Seq::<char>::empty(), completed: false }),
    {
        SubTask { text: String::new(), completed: false }
    }
}

/// The checklist entries of `items`, each by its view.
pub open spec fn checklist_view(items: Seq<SubTask>) -> Seq<SubTaskView> {
    items.map_values(|s: SubTask| s@)
}

/// An independent copy of a checklist.
pub fn clone_checklist(items: &Vec<SubTask>) -> (r: Vec<SubTask>)
    ensures
        checklist_view(r@) == checklist_view(items@),
{
    let mut out: Vec<SubTask> = Vec::new();
    let mut i: usize = 0;
    while i < items.len()
        invariant
            i <= items.len(),
            out@.len() == i,
            forall|k: int| 0 <= k < i ==> out@[k]@ == items@[k]@,
        decreases items.len() - i,
    {
        out.push(items[i].clone());
        i += 1;
    }
    out
}

/// Whether two checklists hold the same entries in the same order.
pub fn checklist_eq(a: &Vec<SubTask>, b: &Vec<SubTask>) -> (r: bool)
    ensures
        r == (checklist_view(a@) == checklist_view(b@)),
{
    if a.len() != b.len() {
        return false;
    }
    let mut i: usize = 0;
    while i < a.len()
        invariant
            i <= a.len(),
            a.len() == b.len(),
            forall|k: int| 0 <= k < i ==> a@[k]@ == b@[k]@,
        decreases a.len() - i,
    {
        if !(a[i] == b[i]) {
            assert(checklist_view(a@)[i as int] != checklist_view(b@)[i as int]);
            return false;
        }
        i += 1;
    }
    assert(checklist_view(a@) =~= checklist_view(b@));
    true
}

/// One item of the todo list.
#[derive(Debug)]
pub struct Task {
    pub id: TaskId,
    pub text: String,
    pub task_type: String,
    pub difficulty: Difficulty,
    pub notes: Option<String>,
    pub date: Option<DueDate>,
    pub checklist: Option<Vec<SubTask>>,
}

pub struct TaskView {
    pub id: Seq<char>,
    pub text: Seq<char>,
    pub task_type: Seq<char>,
    pub difficulty: Difficulty,
    pub notes: Option<Seq<char>>,
    pub date: Option<DueDate>,
    pub checklist: Option<Seq<SubTaskView>>,
}

impl View for Task {
    type V = TaskView;

    open spec fn view(&self) -> TaskView {
        TaskView {
            id: self.id@,
            text: self.text@,
            task_type: self.task_type@,
            difficulty: self.difficulty,
            notes: match self.notes {
                Some(n) => Some(n@),
                None => None,
            },
            date: self.date,
            checklist: match self.checklist {
                Some(c) => Some(checklist_view(c@)),
                None => None,
            },
        }
    }
}

impl Clone for Task {
    fn clone(&self) -> (r: Task)
        ensures
            r@ == self@,
    {
        Task {
            id: self.id.clone(),
            text: self.text.clone(),
            task_type: self.task_type.clone(),
            difficulty: self.difficulty,
            notes: match &self.notes {
                Some(n) => Some(n.clone()),
                None => None,
            },
            date: self.date,
            checklist: match &self.checklist {
                Some(c) => Some(clone_checklist(c)),
                None => None,
            },
        }
    }
}

impl PartialEq for Task {
    fn eq(&self, other: &Task) -> (r: bool) {
        let notes_eq = match (&self.notes, &other.notes) {
            (Some(a), Some(b)) => *a == *b,
            (None, None) => true,
            _ => false,
        };
        let date_eq = match (&self.date, &other.date) {
            (Some(a), Some(b)) => a.unix_nanos == b.unix_nanos && a.offset_secs == b.offset_secs,
            (None, None) => true,
            _ => false,
        };
        let checklist_eq = match (&self.checklist, &other.checklist) {
            (Some(a), Some(b)) => checklist_eq(a, b),
            (None, None) => true,
            _ => false,
        };
        self.id == other.id && self.text == other.text && self.task_type == other.task_type
            && self.difficulty == other.difficulty && notes_eq && date_eq && checklist_eq
    }
}

impl PartialEqSpecImpl for Task {
    open spec fn obeys_eq_spec() -> bool {
        true
    }

    open spec fn eq_spec(&self, other: &Task) -> bool {
        self@ == other@
    }
}

/// An empty todo of Easy difficulty that the store does not know yet.
pub open spec fn blank_task() -> TaskView {
    TaskView {
        id: Seq::<char>::empty(),
        text: Seq::<char>::empty(),
        task_type: "todo"@,
        difficulty: Difficulty::EASY,
        notes: None,
        date: None,
        checklist: None,
    }
}

impl Default for Task {
    /// An empty todo of Easy difficulty that the store does not know yet.
    fn default() -> (r: Task)
        ensures
            r@ == blank_task(),
    {
        Task {
            id: TaskId::empty(),
            text: String::new(),
            task_type: "todo".to_owned(),
            difficulty: Difficulty::EASY,
            notes: None,
            date: None,
            checklist: None,
        }
    }
}

/// The mark in the notes of a task that is about learning.
pub const LEARNING_MARK: char = '\u{1F393}';

/// The mark in the notes of a task that is urgent.
pub const URGENT_MARK: char = '\u{1F525}';

/// The box in front of a checklist entry, ticked or not.
pub open spec fn checkbox(ticked: bool) -> Seq<char> {
    if ticked {
        "\u{2705}"@
    } else {
        "\u{2B1C}"@
    }
}

/// The width that the name of a task is filled up to.
pub const NAME_WIDTH: usize = 48;

/// Whether the notes hold the mark `c`.
pub open spec fn notes_hold(task: TaskView, c: char) -> bool {
    task.notes matches Some(notes) && notes.contains(c)
}

/// Whether the task is due within a week from `now`.
pub open spec fn is_expiring(task: TaskView, now: DueDate) -> bool {
    task.date matches Some(due) && (shifted(now, SECONDS_PER_WEEK as int) matches Some(limit)
        && due.unix_nanos < limit.unix_nanos)
}

/// How urgently the task asks for attention at the time `now`: a task about
/// learning is of middle priority, a task due within a week or marked as
/// urgent of high priority, any other of low priority.
pub open spec fn priority_of(task: TaskView, now: DueDate) -> Priority {
    if notes_hold(task, LEARNING_MARK) {
        Priority::MID
    } else if is_expiring(task, now) || notes_hold(task, URGENT_MARK) {
        Priority::HIGH
    } else {
        Priority::LOW
    }
}

/// `text` filled up with blanks to `width` characters; a longer text stays
/// as it is.
pub open spec fn padded(text: Seq<char>, width: nat) -> Seq<char> {
    if text.len() >= width {
        text
    } else {
        text + Seq::new((width - text.len()) as nat, |i: int| ' ')
    }
}

/// The lines of a checklist: for each entry a line break, its box, a blank
/// and its text.
pub open spec fn checklist_text(list: Seq<SubTaskView>) -> Seq<char>
    decreases list.len(),
{
    if list.len() == 0 {
        Seq::<char>::empty()
    } else {
        checklist_text(list.drop_last()) + seq!['\n'] + checkbox(list.last().completed) + seq![
            ' ',
        ] + list.last().text
    }
}

/// The task as text: the name filled up to 48 characters and the
/// difficulty, then on lines of their own the notes, the day it is due,
/// given as `day`, and the checklist entries; a line break ends it.
pub open spec fn task_text(task: TaskView, day: Option<Seq<char>>) -> Seq<char> {
    padded(task.text, NAME_WIDTH as nat) + task.difficulty.label() + (match task.notes {
        Some(notes) => seq!['\n'] + notes,
        None => Seq::<char>::empty(),
    }) + (match day {
        Some(day) => seq!['\n'] + day,
        None => Seq::<char>::empty(),
    }) + (match task.checklist {
        Some(list) => checklist_text(list),
        None => Seq::<char>::empty(),
    }) + seq!['\n']
}

/// The day that the task is due, in ISO 8601; none for a task without due
/// date or with one outside the calendar.
pub open spec fn due_day(task: TaskView) -> Option<Seq<char>> {
    match task.date {
        Some(due) => iso8601_day(due),
        None => None,
    }
}

fn pad(text: &str, width: usize) -> (r: String)
    ensures
        r@ == padded(text@, width as nat),
{
    let n = text.unicode_len();
    let mut out = text.to_owned();
    let mut k: usize = n;
    proof {
        reveal_strlit(" ");
    }
    while k < width
        invariant
            n == text@.len(),
            n <= k,
            k <= width || k == n,
            out@ == text@ + Seq::new((k - n) as nat, |i: int| ' '),
            " "@ == seq![' '],
        decreases width - k,
    {
        out.append(" ");
        k += 1;
    }
    out
}

impl Task {
    /// How urgently the task asks for attention at the time `now`.
    pub fn priority_at(&self, now: DueDate) -> (r: Priority)
        ensures
            r == priority_of(self@, now),
    {
        let learning = match &self.notes {
            Some(notes) => contains_char(notes.as_str(), LEARNING_MARK),
            None => false,
        };
        if learning {
            return Priority::MID;
        }
        let expiring = match self.date {
            Some(due) => match date_checked_add(now, SECONDS_PER_WEEK) {
                Some(limit) => due.unix_nanos < limit.unix_nanos,
                None => false,
            },
            None => false,
        };
        let urgent = match &self.notes {
            Some(notes) => contains_char(notes.as_str(), URGENT_MARK),
            None => false,
        };
        if expiring || urgent {
            Priority::HIGH
        } else {
            Priority::LOW
        }
    }

    /// The task as text, as it is shown in a cell of the grid and printed on
    /// the command line.
    pub fn to_text(&self) -> (r: String)
        ensures
            r@ == task_text(self@, due_day(self@)),
    {
        proof {
            reveal_strlit("\n");
            reveal_strlit(" ");
        }
        let mut out = pad(self.text.as_str(), NAME_WIDTH);
        let label = self.difficulty.to_text();
        out.append(label.as_str());
        match &self.notes {
            Some(notes) => {
                out.append("\n");
                out.append(notes.as_str());
            },
            None => {},
        }
        match self.date {
            Some(due) => match format_iso8601_day(due) {
                Some(day) => {
                    out.append("\n");
                    out.append(day.as_str());
                },
                None => {},
            },
            None => {},
        }
        let ghost head = out@;
        match &self.checklist {
            Some(list) => {
                let ghost all = checklist_view(list@);
                let mut i: usize = 0;
                while i < list.len()
                    invariant
                        i <= list@.len(),
                        all == checklist_view(list@),
                        out@ == head + checklist_text(all.subrange(0, i as int)),
                        "\n"@ == seq!['\n'],
                        " "@ == seq![' '],
                    decreases list@.len() - i,
                {
                    let ghost done = all.subrange(0, i as int);
                    let ghost next = all.subrange(0, i + 1);
                    proof {
                        assert(next.drop_last() =~= done);
                    }
                    out.append("\n");
                    if list[i].completed {
                        out.append("\u{2705}");
                    } else {
                        out.append("\u{2B1C}");
                    }
                    out.append(" ");
                    out.append(list[i].text.as_str());
                    i += 1;
                }
                assert(all.subrange(0, i as int) =~= all);
            },
            None => {},
        }
        out.append("\n");
        out
    }

    /// How urgently the task asks for attention now.
    pub fn get_priority(&self) -> (r: Priority)
        ensures
            exists|now: DueDate| r == #[trigger] priority_of(self@, now),
            notes_hold(self@, LEARNING_MARK) ==> r == Priority::MID,
            !notes_hold(self@, LEARNING_MARK) && notes_hold(self@, URGENT_MARK) ==> r
                == Priority::HIGH,
            !notes_hold(self@, LEARNING_MARK) && self.date is None && !notes_hold(
                self@,
                URGENT_MARK,
            ) ==> r == Priority::LOW,
    {
        let now = now_utc();
        self.priority_at(now)
    }
}

/// The tasks of `items`, each by its view.
pub open spec fn tasks_view(items: Seq<Task>) -> Seq<TaskView> {
    items.map_values(|t: Task| t@)
}

/// The indices below `n` of the tasks of priority `p` at the time `now`, in
/// rising order.
pub open spec fn with_priority(tasks: Seq<TaskView>, now: DueDate, p: Priority, n: int) -> Seq<
    usize,
>
    decreases n,
{
    if n <= 0 {
        Seq::<usize>::empty()
    } else {
        let before = with_priority(tasks, now, p, n - 1);
        if priority_of(tasks[n - 1], now) == p {
            before.push((n - 1) as usize)
        } else {
            before
        }
    }
}

/// The tasks by falling priority at the time `now`, each by its index: the
/// tasks of high priority first, then those of middle and those of low
/// priority, each group in the order of the list.
pub open spec fn priority_order(tasks: Seq<TaskView>, now: DueDate) -> Seq<usize> {
    with_priority(tasks, now, Priority::HIGH, tasks.len() as int) + with_priority(
        tasks,
        now,
        Priority::MID,
        tasks.len() as int,
    ) + with_priority(tasks, now, Priority::LOW, tasks.len() as int)
}

/// Ordering by priority leaves no task out and names none twice: the three
/// groups together hold as many indices as there are tasks.
pub proof fn lemma_priority_order_is_complete(tasks: Seq<TaskView>, now: DueDate, n: int)
    requires
        0 <= n,
    ensures
        with_priority(tasks, now, Priority::HIGH, n).len() + with_priority(
            tasks,
            now,
            Priority::MID,
            n,
        ).len() + with_priority(tasks, now, Priority::LOW, n).len() == n,
    decreases n,
{
    if n > 0 {
        lemma_priority_order_is_complete(tasks, now, n - 1);
    }
}

fn push_with_priority(tasks: &Vec<Task>, now: DueDate, p: Priority, out: &mut Vec<usize>)
    ensures
        final(out)@ == old(out)@ + with_priority(tasks_view(tasks@), now, p, tasks@.len() as int),
{
    let ghost all = tasks_view(tasks@);
    let ghost start = out@;
    let mut i: usize = 0;
    while i < tasks.len()
        invariant
            i <= tasks@.len(),
            all == tasks_view(tasks@),
            out@ == start + with_priority(all, now, p, i as int),
        decreases tasks@.len() - i,
    {
        if tasks[i].priority_at(now) == p {
            out.push(i);
            assert(out@ =~= start + with_priority(all, now, p, i + 1));
        }
        i += 1;
    }
}

/// The tasks by falling priority at the time `now`, each by its index in
/// `tasks`.
pub fn order_by_priority(tasks: &Vec<Task>, now: DueDate) -> (r: Vec<usize>)
    ensures
        r@ == priority_order(tasks_view(tasks@), now),
        r@.len() == tasks@.len(),
{
    let mut out: Vec<usize> = Vec::new();
    push_with_priority(tasks, now, Priority::HIGH, &mut out);
    push_with_priority(tasks, now, Priority::MID, &mut out);
    push_with_priority(tasks, now, Priority::LOW, &mut out);
    proof {
        lemma_priority_order_is_complete(tasks_view(tasks@), now, tasks@.len() as int);
    }
    out
}

/// The concern that a pending action speaks of. A task holds at most one
/// pending action of each kind.
#[derive(Debug, PartialEq, Eq, Structural, Clone, Copy)]
pub enum ActionKind {
    Create,
    ToggleComplete,
    Edit,
    Reorder,
    Remove,
}

/// A change to one task that has been made locally and not yet confirmed by
/// the store.
#[derive(Debug)]
pub enum Action {
    Create,
    ToggleComplete,
    Edit(Task),
    Reorder((usize, usize)),
    Remove,
}

pub enum ActionView {
    Create,
    ToggleComplete,
    Edit(TaskView),
    Reorder((usize, usize)),
    Remove,
}

impl ActionView {
    pub open spec fn kind(self) -> ActionKind {
        match self {
            ActionView::Create => ActionKind::Create,
            ActionView::ToggleComplete => ActionKind::ToggleComplete,
            ActionView::Edit(_) => ActionKind::Edit,
            ActionView::Reorder(_) => ActionKind::Reorder,
            ActionView::Remove => ActionKind::Remove,
        }
    }

    pub open spec fn is_destructive(self) -> bool {
        self is ToggleComplete || self is Remove
    }
}

impl View for Action {
    type V = ActionView;

    open spec fn view(&self) -> ActionView {
        match self {
            Action::Create => ActionView::Create,
            Action::ToggleComplete => ActionView::ToggleComplete,
            Action::Edit(t) => ActionView::Edit(t@),
            Action::Reorder(r) => ActionView::Reorder(*r),
            Action::Remove => ActionView::Remove,
        }
    }
}

impl Clone for Action {
    fn clone(&self) -> (r: Action)
        ensures
            r@ == self@,
    {
        match self {
            Action::Create => Action::Create,
            Action::ToggleComplete => Action::ToggleComplete,
            Action::Edit(t) => Action::Edit(t.clone()),
            Action::Reorder(r) => Action::Reorder(*r),
            Action::Remove => Action::Remove,
        }
    }
}

impl PartialEq for Action {
    /// Two actions are equal when they are of the same kind, whatever they
    /// carry.
    fn eq(&self, other: &Action) -> (r: bool) {
        self.kind() == other.kind()
    }
}

impl Eq for Action {

}

impl PartialEqSpecImpl for Action {
    open spec fn obeys_eq_spec() -> bool {
        true
    }

    open spec fn eq_spec(&self, other: &Action) -> bool {
        self@.kind() == other@.kind()
    }
}

impl Action {
    /// The concern this action speaks of.
    pub fn kind(&self) -> (r: ActionKind)
        ensures
            r == self@.kind(),
    {
        match self {
            Action::Create => ActionKind::Create,
            Action::ToggleComplete => ActionKind::ToggleComplete,
            Action::Edit(_) => ActionKind::Edit,
            Action::Reorder(_) => ActionKind::Reorder,
            Action::Remove => ActionKind::Remove,
        }
    }

    /// Whether the action takes the task off the list once confirmed:
    /// completing it or removing it.
    pub fn is_destructive(&self) -> (r: bool)
        ensures
            r == self@.is_destructive(),
    {
        match self {
            Action::ToggleComplete => true,
            Action::Remove => true,
            _ => false,
        }
    }
}

} // verus!
