//! The paged grid of tasks: the list as last fetched, the selection cursor,
//! and the changes that are pending on the tasks.

use vstd::prelude::*;
use crate::diff::{discard_map, pending, upsert_map, Destructive, DiffView, Modifications};
use crate::keys::{KeyEvent, MOD_KEY_TTL};
use crate::layout::{Direction, GridShape, Palette};
use crate::types::{
    checklist_view, tasks_view, Action, ActionView, SubTask, SubTaskView, Task, TaskId, TaskView,
};

verus! {

/// Where the selection stands: the page shown and the selected task, by
/// its index in the whole list.
pub struct Cursor {
    pub page: int,
    pub selected: Option<int>,
}

/// `i` brought into the indices of a list of `len` tasks; 0 for a list
/// without tasks.
pub open spec fn clamp_index(i: int, len: int) -> int {
    if i < 0 || len <= 1 {
        0
    } else if i > len - 1 {
        len - 1
    } else {
        i
    }
}

/// By how many tasks a move in `direction` shifts the selection on a grid of
/// `width` columns.
pub open spec fn offset(direction: Direction, width: int) -> int {
    match direction {
        Direction::UP => -width,
        Direction::DOWN => width,
        Direction::LEFT => -1,
        Direction::RIGHT => 1,
    }
}

/// The page shown after the selection moved to `selection`: the page before
/// where it lies before the first task of `page`, the page after where it
/// lies behind the last one.
pub open spec fn flipped_page(page: int, selection: int, size: int) -> int {
    if selection < page * size {
        page - 1
    } else if selection >= (page + 1) * size {
        page + 1
    } else {
        page
    }
}

/// The cursor after one move in `direction` over a list of `len` tasks.
/// Without a selection, the first task of the page shown gets selected.
pub open spec fn cursor_step(
    c: Cursor,
    direction: Direction,
    width: int,
    size: int,
    len: int,
) -> Cursor {
    match c.selected {
        None => Cursor { page: c.page, selected: Some(clamp_index(c.page * size, len)) },
        Some(s) => {
            let n = clamp_index(s + offset(direction, width), len);
            Cursor { page: flipped_page(c.page, n, size), selected: Some(n) }
        },
    }
}

/// The cursor after the moves of `directions`, first to last.
pub open spec fn cursor_walk(
    c: Cursor,
    directions: Seq<Direction>,
    width: int,
    size: int,
    len: int,
) -> Cursor
    decreases directions.len(),
{
    if directions.len() == 0 {
        c
    } else {
        cursor_step(
            cursor_walk(c, directions.drop_last(), width, size, len),
            directions.last(),
            width,
            size,
            len,
        )
    }
}

/// Whatever the cursor was and however the selection is moved, after at
/// least one move over a list that is not empty a task is selected and its
/// index lies within the list.
pub proof fn lemma_selection_in_range(
    c: Cursor,
    directions: Seq<Direction>,
    width: int,
    size: int,
    len: int,
)
    requires
        directions.len() >= 1,
        len >= 1,
    ensures
        cursor_walk(c, directions, width, size, len).selected matches Some(s) && 0 <= s < len,
{
}

/// Whether the selection lies on the page shown.
pub open spec fn on_page(c: Cursor, size: int) -> bool {
    c.selected matches Some(s) && c.page * size <= s < (c.page + 1) * size
}

/// A move keeps the selection on the page shown: where the selected task
/// was on the page shown before the move, the page is turned so that it is
/// again. A page holds at least one row of `width` tasks.
pub proof fn lemma_page_follows_selection(
    c: Cursor,
    direction: Direction,
    width: int,
    size: int,
    len: int,
)
    requires
        1 <= width <= size,
        on_page(c, size),
        0 <= c.selected->0 < len,
    ensures
        on_page(cursor_step(c, direction, width, size, len), size),
{
    let p = c.page;
    assert((p - 1) * size == p * size - size) by (nonlinear_arith);
    assert((p + 1) * size == p * size + size) by (nonlinear_arith);
    assert((p + 2) * size == p * size + 2 * size) by (nonlinear_arith);
}

/// The task as the user sees it: a pending edit stands in for the task as
/// last fetched.
pub open spec fn effective(task: TaskView, m: Map<Seq<char>, DiffView>) -> TaskView {
    match pending(m, task.id).edit {
        Some(edited) => edited,
        None => task,
    }
}

/// Whether the list as last fetched holds `snapshot` under `id`.
pub open spec fn stored_as(items: Seq<TaskView>, id: Seq<char>, snapshot: TaskView) -> bool {
    exists|i: int| 0 <= i < items.len() && (#[trigger] items[i]).id == id && items[i] == snapshot
}

/// Whether `action` is an edit that changes nothing: it carries the task as
/// the list holds it under `id`.
pub open spec fn is_noop(items: Seq<TaskView>, id: Seq<char>, action: ActionView) -> bool {
    match action {
        ActionView::Edit(snapshot) => stored_as(items, id, snapshot),
        _ => false,
    }
}

/// An edit that carries a task as the list holds it under its id leaves no
/// edit pending on that id.
pub proof fn lemma_unchanged_edit_cancels(
    items: Seq<TaskView>,
    m: Map<Seq<char>, DiffView>,
    id: Seq<char>,
    snapshot: TaskView,
)
    requires
        stored_as(items, id, snapshot),
    ensures
        pending(
            upsert_map(
                m,
                id,
                ActionView::Edit(snapshot),
                is_noop(items, id, ActionView::Edit(snapshot)),
            ),
            id,
        ).edit is None,
{
}

/// `task` with entry `k` of its checklist ticked or unticked.
pub open spec fn toggled_at(task: TaskView, k: int) -> TaskView
    recommends
        task.checklist is Some,
        0 <= k < task.checklist->0.len(),
{
    let list = task.checklist->0;
    TaskView {
        checklist: Some(
            list.update(k, SubTaskView { text: list[k].text, completed: !list[k].completed }),
        ),
        ..task
    }
}

/// The ids of `items`, in their order.
pub open spec fn ids_of(items: Seq<TaskView>) -> Seq<Seq<char>> {
    items.map_values(|t: TaskView| t.id)
}

/// The index of the first task of `items` that has this id.
pub open spec fn position_of(items: Seq<TaskView>, id: Seq<char>) -> Option<int> {
    ids_of(items).index_of_first(id)
}

/// The list after one fetched task was merged into it. A task that the list
/// has not seen is put in front. A task that it knows takes the place of the
/// one with its id, unless changes are pending on that id: then the list
/// stays as it is.
pub open spec fn merge_one(
    items: Seq<TaskView>,
    m: Map<Seq<char>, DiffView>,
    fetched: TaskView,
) -> Seq<TaskView> {
    match position_of(items, fetched.id) {
        Some(i) => if m.contains_key(fetched.id) {
            items
        } else {
            items.update(i, fetched)
        },
        None => seq![fetched] + items,
    }
}

/// The list after the tasks of `fetched` were merged into it, first to last.
pub open spec fn merge_all(
    items: Seq<TaskView>,
    m: Map<Seq<char>, DiffView>,
    fetched: Seq<TaskView>,
) -> Seq<TaskView>
    decreases fetched.len(),
{
    if fetched.len() == 0 {
        items
    } else {
        merge_all(merge_one(items, m, fetched[0]), m, fetched.drop_first())
    }
}

/// The list after a fetch: an empty list takes what was fetched as it comes,
/// any other list has it merged in task by task.
pub open spec fn merge_fetched(
    items: Seq<TaskView>,
    m: Map<Seq<char>, DiffView>,
    fetched: Seq<TaskView>,
) -> Seq<TaskView> {
    if items.len() == 0 {
        fetched
    } else {
        merge_all(items, m, fetched)
    }
}

/// A fetch never touches a task that has changes pending: the task stays in
/// the list as it was, moved back only by the tasks that the fetch put in
/// front of the list.
pub proof fn lemma_merge_keeps_pending(
    items: Seq<TaskView>,
    m: Map<Seq<char>, DiffView>,
    fetched: Seq<TaskView>,
    i: int,
)
    requires
        0 <= i < items.len(),
        m.contains_key(items[i].id),
    ensures
        merge_fetched(items, m, fetched).len() >= items.len(),
        merge_fetched(items, m, fetched)[i + (merge_fetched(items, m, fetched).len()
            - items.len())] == items[i],
    decreases fetched.len(),
{
    if fetched.len() > 0 {
        let next = merge_one(items, m, fetched[0]);
        ids_of(items).index_of_first_ensures(fetched[0].id);
        match position_of(items, fetched[0].id) {
            Some(_) => {
                lemma_merge_keeps_pending(next, m, fetched.drop_first(), i);
            },
            None => {
                lemma_merge_keeps_pending(next, m, fetched.drop_first(), i + 1);
            },
        }
    }
}

/// The list after the store confirmed `action` for `task`: a created task is
/// put in front, a completed or removed one leaves the list, an edited one
/// is replaced by what the store answered, a moved one stays where the user
/// put it.
pub open spec fn confirmed_items(items: Seq<TaskView>, task: TaskView, action: ActionView) -> Seq<
    TaskView,
> {
    match action {
        ActionView::Create => seq![task] + items,
        ActionView::ToggleComplete | ActionView::Remove => match position_of(items, task.id) {
            Some(i) => items.remove(i),
            None => items,
        },
        ActionView::Edit(_) => match position_of(items, task.id) {
            Some(i) => items.update(i, task),
            None => items,
        },
        ActionView::Reorder(_) => items,
    }
}

/// The list after the store confirmed the actions of `updates`, first to
/// last.
pub open spec fn confirmed_all_items(
    items: Seq<TaskView>,
    updates: Seq<(TaskView, ActionView)>,
) -> Seq<TaskView>
    decreases updates.len(),
{
    if updates.len() == 0 {
        items
    } else {
        confirmed_all_items(
            confirmed_items(items, updates[0].0, updates[0].1),
            updates.drop_first(),
        )
    }
}

/// The pending changes after the store confirmed the actions of `updates`:
/// each confirmed action is pending no more.
pub open spec fn confirmed_all_pending(
    m: Map<Seq<char>, DiffView>,
    updates: Seq<(TaskView, ActionView)>,
) -> Map<Seq<char>, DiffView>
    decreases updates.len(),
{
    if updates.len() == 0 {
        m
    } else {
        confirmed_all_pending(
            discard_map(m, updates[0].0.id, updates[0].1.kind()),
            updates.drop_first(),
        )
    }
}

/// The confirmations of `updates`, each by its views.
pub open spec fn updates_view(updates: Seq<(Task, Action)>) -> Seq<(TaskView, ActionView)> {
    updates.map_values(|u: (Task, Action)| (u.0@, u.1@))
}

/// The index in the whole list of the cell in `row` and `column` of `page`.
pub open spec fn cell_position(page: int, row: int, column: int, width: int, size: int) -> int {
    page * size + row * width + column
}

/// The index of the first task of `tasks` that has this id.
pub fn find_by_id(tasks: &Vec<Task>, id: &TaskId) -> (r: Option<usize>)
    ensures
        r is Some == position_of(tasks_view(tasks@), id@) is Some,
        r matches Some(i) ==> position_of(tasks_view(tasks@), id@) == Some(i as int) && i
            < tasks@.len() && tasks@[i as int]@.id == id@,
{
    let ghost ids = ids_of(tasks_view(tasks@));
    let mut i: usize = 0;
    while i < tasks.len()
        invariant
            i <= tasks@.len(),
            ids == ids_of(tasks_view(tasks@)),
            forall|k: int| 0 <= k < i ==> (#[trigger] ids[k]) != id@,
        decreases tasks@.len() - i,
    {
        if tasks[i].id == *id {
            proof {
                assert(ids[i as int] == id@);
                ids.index_of_first_ensures(id@);
            }
            return Some(i);
        }
        i += 1;
    }
    proof {
        ids.index_of_first_ensures(id@);
    }
    None
}

/// The state of the task grid.
#[derive(Debug)]
pub struct TaskGridState {
    pub page: usize,
    pub selected: Option<usize>,
    pub selected_sub: Option<usize>,
    pub task_items: Vec<Task>,
    pub loading: bool,
    pub modifications: Modifications,
    pub mod_key: Option<(KeyEvent, u32)>,
    pub shape: GridShape,
}

impl Default for TaskGridState {
    /// An empty list on a grid of three by three, nothing selected.
    fn default() -> (r: TaskGridState)
        ensures
            r.page == 0,
            r.selected is None,
            r.selected_sub is None,
            r.task_items@.len() == 0,
            !r.loading,
            r.modifications@ == Map::<Seq<char>, DiffView>::empty(),
            r.mod_key is None,
            r.shape.width() == 3,
            r.shape.height() == 3,
    {
        TaskGridState {
            page: 0,
            selected: None,
            selected_sub: None,
            task_items: Vec::new(),
            loading: false,
            modifications: Modifications::new(),
            mod_key: None,
            shape: GridShape::default(),
        }
    }
}

impl TaskGridState {
    /// The page shown and the selected task.
    pub open spec fn cursor(&self) -> Cursor {
        Cursor {
            page: self.page as int,
            selected: match self.selected {
                Some(s) => Some(s as int),
                None => None,
            },
        }
    }

    /// `other` holds the same tasks, pending changes, waiting key and grid
    /// shape as this state.
    pub open spec fn same_content(&self, other: &TaskGridState) -> bool {
        &&& other.task_items == self.task_items
        &&& other.modifications == self.modifications
        &&& other.mod_key == self.mod_key
        &&& other.loading == self.loading
        &&& other.shape == self.shape
    }

    /// An empty list on a grid of the given shape, nothing selected.
    pub fn with_shape(shape: GridShape) -> (r: TaskGridState)
        ensures
            r.page == 0,
            r.selected is None,
            r.selected_sub is None,
            r.task_items@.len() == 0,
            !r.loading,
            r.modifications@ == Map::<Seq<char>, DiffView>::empty(),
            r.mod_key is None,
            r.shape == shape,
    {
        TaskGridState {
            page: 0,
            selected: None,
            selected_sub: None,
            task_items: Vec::new(),
            loading: false,
            modifications: Modifications::new(),
            mod_key: None,
            shape,
        }
    }

    fn clamped(&self, i: usize) -> (r: usize)
        ensures
            r == clamp_index(i as int, self.task_items@.len() as int),
    {
        let len = self.task_items.len();
        if len <= 1 {
            0
        } else if i > len - 1 {
            len - 1
        } else {
            i
        }
    }

    /// What `select_first` does to the grid.
    pub open spec fn select_first_post(pre: &Self, post: &Self) -> bool {
        &&& post.cursor() == (Cursor { page: 0, selected: Some(0) })
        &&& post.selected_sub is None
        &&& pre.same_content(post)
    }

    /// Selects the first task and shows the first page.
    pub fn select_first(&mut self)
        ensures
            Self::select_first_post(&*old(self), &*final(self)),
    {
        self.selected_sub = None;
        self.selected = Some(0);
        self.page = 0;
    }

    /// What `select_last` does to the grid.
    pub open spec fn select_last_post(pre: &Self, post: &Self) -> bool {
        &&& post.selected == Some(
            clamp_index(pre.task_items@.len() - 1, pre.task_items@.len() as int) as usize,
        )
        &&& post.page == clamp_index(
            pre.task_items@.len() - 1,
            pre.task_items@.len() as int,
        ) / pre.shape.size()
        &&& post.selected_sub is None
        &&& pre.same_content(post)
    }

    /// Selects the last task and shows the page it is on.
    pub fn select_last(&mut self)
        ensures
            Self::select_last_post(&*old(self), &*final(self)),
    {
        self.selected_sub = None;
        let len = self.task_items.len();
        let last = if len == 0 {
            0
        } else {
            len - 1
        };
        self.selected = Some(last);
        self.page = last / self.shape.page_size();
    }

    /// What `select_next` does to the grid.
    pub open spec fn select_next_post(pre: &Self, post: &Self, direction: Direction) -> bool {
        &&& post.cursor() == cursor_step(
            pre.cursor(),
            direction,
            pre.shape.width(),
            pre.shape.size(),
            pre.task_items@.len() as int,
        )
        &&& post.selected_sub is None
        &&& pre.same_content(post)
        &&& pre.task_items@.len() >= 1 ==> (post.selected matches Some(s) && s
            < pre.task_items@.len())
    }

    /// Moves the selection by one row or one column, keeps it within the
    /// list, and turns the page where the selection left the page shown.
    pub fn select_next(&mut self, direction: Direction)
        ensures
            Self::select_next_post(&*old(self), &*final(self), direction),
    {
        self.selected_sub = None;
        let len = self.task_items.len();
        let size = self.shape.page_size();
        let width = self.shape.columns();
        let top = if len == 0 {
            0
        } else {
            len - 1
        };
        match self.selected {
            None => {
                let first = match self.page.checked_mul(size) {
                    Some(f) => self.clamped(f),
                    None => top,
                };
                self.selected = Some(first);
            },
            Some(s) => {
                let moved = match direction {
                    Direction::UP => s.saturating_sub(width),
                    Direction::LEFT => s.saturating_sub(1),
                    Direction::DOWN => match s.checked_add(width) {
                        Some(m) => m,
                        None => usize::MAX,
                    },
                    Direction::RIGHT => match s.checked_add(1) {
                        Some(m) => m,
                        None => usize::MAX,
                    },
                };
                let n = self.clamped(moved);
                let page = self.page;
                let before_page = match page.checked_mul(size) {
                    Some(start) => n < start,
                    None => true,
                };
                if before_page {
                    assert(page >= 1) by (nonlinear_arith)
                        requires
                            n < page * size,
                            n >= 0,
                    ;
                    self.page = page - 1;
                } else {
                    let behind_page = match page.checked_add(1) {
                        Some(next) => match next.checked_mul(size) {
                            Some(end) => n >= end,
                            None => false,
                        },
                        None => {
                            assert((page + 1) * size > usize::MAX) by (nonlinear_arith)
                                requires
                                    page == usize::MAX,
                                    size >= 1,
                            ;
                            false
                        },
                    };
                    if behind_page {
                        self.page = page + 1;
                    }
                }
                self.selected = Some(n);
            },
        }
    }

    /// What `next_page` does to the grid.
    pub open spec fn next_page_post(pre: &Self, post: &Self) -> bool {
        &&& pre.same_content(post)
        &&& pre.task_items@.len() > (pre.page + 1) * pre.shape.size() ==> {
            &&& post.page == pre.page + 1
            &&& post.selected_sub is None
            &&& post.selected == match pre.selected {
                Some(s) => Some(
                    clamp_index(
                        s + pre.shape.size(),
                        pre.task_items@.len() as int,
                    ) as usize,
                ),
                None => None,
            }
        }
        &&& pre.task_items@.len() <= (pre.page + 1) * pre.shape.size() ==> {
            &&& post.page == pre.page
            &&& post.selected_sub == pre.selected_sub
            &&& post.selected == pre.selected
        }
    }

    /// Shows the next page, where the list goes on behind the page shown,
    /// and moves the selection down by one page, not past the last task.
    pub fn next_page(&mut self)
        ensures
            Self::next_page_post(&*old(self), &*final(self)),
    {
        let len = self.task_items.len();
        let size = self.shape.page_size();
        let page = self.page;
        let further = match page.checked_add(1) {
            Some(next) => match next.checked_mul(size) {
                Some(end) => len > end,
                None => false,
            },
            None => {
                assert((page + 1) * size > usize::MAX) by (nonlinear_arith)
                    requires
                        page == usize::MAX,
                        size >= 1,
                ;
                false
            },
        };
        if further {
            self.selected_sub = None;
            self.selected = match self.selected {
                Some(s) => match s.checked_add(size) {
                    Some(m) => Some(self.clamped(m)),
                    None => Some(len - 1),
                },
                None => None,
            };
            self.page = page + 1;
        }
    }

    /// What `prev_page` does to the grid.
    pub open spec fn prev_page_post(pre: &Self, post: &Self) -> bool {
        &&& pre.same_content(post)
        &&& pre.page != 0 ==> {
            &&& post.page == pre.page - 1
            &&& post.selected_sub is None
            &&& post.selected == match pre.selected {
                Some(s) => Some(
                    if s >= pre.shape.size() {
                        (s - pre.shape.size()) as usize
                    } else {
                        0usize
                    },
                ),
                None => None,
            }
        }
        &&& pre.page == 0 ==> {
            &&& post.page == pre.page
            &&& post.selected_sub == pre.selected_sub
            &&& post.selected == pre.selected
        }
    }

    /// Shows the page before, unless the first page is shown, and moves the
    /// selection up by one page, not before the first task.
    pub fn prev_page(&mut self)
        ensures
            Self::prev_page_post(&*old(self), &*final(self)),
    {
        if self.page != 0 {
            let size = self.shape.page_size();
            self.selected_sub = None;
            self.selected = match self.selected {
                Some(s) => Some(s.saturating_sub(size)),
                None => None,
            };
            self.page = self.page - 1;
        }
    }

    /// The tasks as last fetched, by their views.
    pub open spec fn items(&self) -> Seq<TaskView> {
        tasks_view(self.task_items@)
    }

    /// `other` differs from this state in its pending changes at most.
    pub open spec fn same_but_modifications(&self, other: &TaskGridState) -> bool {
        &&& other.task_items == self.task_items
        &&& other.page == self.page
        &&& other.selected == self.selected
        &&& other.selected_sub == self.selected_sub
        &&& other.mod_key == self.mod_key
        &&& other.loading == self.loading
        &&& other.shape == self.shape
    }

    /// The selected task as the user sees it; none without a selection or
    /// with a selection outside the list.
    pub open spec fn selected_task(&self) -> Option<TaskView> {
        match self.selected {
            Some(s) => if s < self.task_items@.len() {
                Some(effective(self.task_items@[s as int]@, self.modifications@))
            } else {
                None
            },
            None => None,
        }
    }

    /// The checklist of the selected task, where it has entries.
    pub open spec fn selected_checklist(&self) -> Option<Seq<SubTaskView>> {
        match self.selected_task() {
            Some(t) => match t.checklist {
                Some(list) => if list.len() > 0 {
                    Some(list)
                } else {
                    None
                },
                None => None,
            },
            None => None,
        }
    }

    /// Task `i` of the list as the user sees it.
    pub fn effective_at(&self, i: usize) -> (r: Option<&Task>)
        ensures
            r is Some == (i < self.task_items@.len()),
            r matches Some(t) ==> t@ == effective(self.task_items@[i as int]@, self.modifications@),
    {
        if i >= self.task_items.len() {
            return None;
        }
        let stored = &self.task_items[i];
        match self.modifications.get(&stored.id) {
            Some(diff) => match &diff.edit {
                Some(edited) => Some(edited),
                None => Some(stored),
            },
            None => Some(stored),
        }
    }

    /// The whole list as the user sees it.
    pub fn get_all_items(&self) -> (r: Vec<&Task>)
        ensures
            r@.len() == self.task_items@.len(),
            forall|i: int|
                0 <= i < r@.len() ==> (#[trigger] r@[i])@ == effective(
                    self.task_items@[i]@,
                    self.modifications@,
                ),
    {
        let mut out: Vec<&Task> = Vec::new();
        let mut i: usize = 0;
        while i < self.task_items.len()
            invariant
                i <= self.task_items@.len(),
                out@.len() == i,
                forall|k: int|
                    0 <= k < i ==> (#[trigger] out@[k])@ == effective(
                        self.task_items@[k]@,
                        self.modifications@,
                    ),
            decreases self.task_items@.len() - i,
        {
            match self.effective_at(i) {
                Some(t) => {
                    out.push(t);
                },
                None => {},
            }
            i += 1;
        }
        out
    }

    /// The selected task as the user sees it.
    pub fn get_selected(&self) -> (r: Option<&Task>)
        ensures
            r is Some == self.selected_task() is Some,
            r matches Some(t) ==> self.selected_task() == Some(t@),
    {
        match self.selected {
            Some(s) => self.effective_at(s),
            None => None,
        }
    }

    /// The checklist of the selected task, where it has entries.
    pub fn get_selected_checklist(&self) -> (r: Option<&Vec<SubTask>>)
        ensures
            r is Some == self.selected_checklist() is Some,
            r matches Some(list) ==> self.selected_checklist() == Some(checklist_view(list@)),
    {
        match self.get_selected() {
            Some(task) => match &task.checklist {
                Some(list) => if list.len() > 0 {
                    Some(list)
                } else {
                    None
                },
                None => None,
            },
            None => None,
        }
    }

    /// What `select_next_sub` does to the grid.
    pub open spec fn select_next_sub_post(pre: &Self, post: &Self) -> bool {
        &&& pre.same_content(post)
        &&& post.page == pre.page
        &&& post.selected == pre.selected
        &&& post.selected_sub == match pre.selected_checklist() {
            Some(list) => match pre.selected_sub {
                Some(k) => Some(((k + 1) % (list.len() as int)) as usize),
                None => Some(0usize),
            },
            None => pre.selected_sub,
        }
    }

    /// Selects the next entry of the selected task's checklist, the first
    /// one after the last. Does nothing where there is no entry to select.
    pub fn select_next_sub(&mut self)
        ensures
            Self::select_next_sub_post(&*old(self), &*final(self)),
    {
        let n = match self.get_selected_checklist() {
            Some(list) => list.len(),
            None => {
                return ;
            },
        };
        match self.selected_sub {
            Some(k) => {
                let r = k % n;
                let next = if r + 1 == n {
                    0
                } else {
                    r + 1
                };
                assert(next == (k + 1) % (n as int)) by (nonlinear_arith)
                    requires
                        r == k % n,
                        n > 0,
                        next == if r + 1 == n {
                            0int
                        } else {
                            r + 1
                        },
                ;
                self.selected_sub = Some(next);
            },
            None => {
                self.selected_sub = Some(0);
            },
        }
    }

    /// What `select_prev_sub` does to the grid.
    pub open spec fn select_prev_sub_post(pre: &Self, post: &Self) -> bool {
        &&& pre.same_content(post)
        &&& post.page == pre.page
        &&& post.selected == pre.selected
        &&& post.selected_sub == match pre.selected_checklist() {
            Some(list) => match pre.selected_sub {
                Some(k) => if k >= 1 {
                    Some((k - 1) as usize)
                } else {
                    Some((list.len() - 1) as usize)
                },
                None => Some(0usize),
            },
            None => pre.selected_sub,
        }
    }

    /// Selects the entry before in the selected task's checklist, the last
    /// one before the first. Does nothing where there is no entry to select.
    pub fn select_prev_sub(&mut self)
        ensures
            Self::select_prev_sub_post(&*old(self), &*final(self)),
    {
        let n = match self.get_selected_checklist() {
            Some(list) => list.len(),
            None => {
                return ;
            },
        };
        match self.selected_sub {
            Some(k) => {
                if k >= 1 {
                    self.selected_sub = Some(k - 1);
                } else {
                    self.selected_sub = Some(n - 1);
                }
            },
            None => {
                self.selected_sub = Some(0);
            },
        }
    }

    fn holds(&self, id: &TaskId, snapshot: &Task) -> (r: bool)
        ensures
            r == stored_as(self.items(), id@, snapshot@),
    {
        let mut i: usize = 0;
        while i < self.task_items.len()
            invariant
                i <= self.task_items@.len(),
                forall|k: int|
                    0 <= k < i ==> !((#[trigger] self.items()[k]).id == id@ && self.items()[k]
                        == snapshot@),
            decreases self.task_items@.len() - i,
        {
            if self.task_items[i].id == *id && self.task_items[i] == *snapshot {
                assert(self.items()[i as int].id == id@ && self.items()[i as int] == snapshot@);
                return true;
            }
            i += 1;
        }
        false
    }

    /// What `upsert_modified` does to the grid.
    pub open spec fn upsert_modified_post(
        pre: &Self,
        post: &Self,
        id: TaskId,
        modification: Action,
    ) -> bool {
        &&& pre.same_but_modifications(post)
        &&& post.modifications@ == upsert_map(
            pre.modifications@,
            id@,
            modification@,
            is_noop(pre.items(), id@, modification@),
        )
        &&& is_noop(pre.items(), id@, modification@) ==> pending(
            post.modifications@,
            id@,
        ).edit is None
    }

    /// Adds `modification` to the pending changes of `id`: a second request
    /// of the same destructive kind cancels the first and one of the other
    /// kind replaces it, moves compose, an edit replaces the pending edit,
    /// and an edit that carries the task as the list holds it cancels the
    /// pending edit.
    pub fn upsert_modified(&mut self, id: TaskId, modification: Action)
        ensures
            Self::upsert_modified_post(&*old(self), &*final(self), id, modification),
    {
        let noop = match &modification {
            Action::Edit(snapshot) => self.holds(&id, snapshot),
            _ => false,
        };
        self.modifications.upsert(id, modification, noop);
    }

    /// What `move_task` does to the grid.
    pub open spec fn move_task_post(pre: &Self, post: &Self, direction: Direction) -> bool {
        &&& match pre.selected {
            Some(s) => if s < pre.task_items@.len() {
                let c = cursor_step(
                    pre.cursor(),
                    direction,
                    pre.shape.width(),
                    pre.shape.size(),
                    pre.task_items@.len() as int,
                );
                let n = c.selected->0;
                &&& post.cursor() == c
                &&& post.selected_sub is None
                &&& post.items() == pre.items().remove(s as int).insert(
                    n,
                    pre.items()[s as int],
                )
                &&& post.modifications@ == upsert_map(
                    pre.modifications@,
                    pre.items()[s as int].id,
                    ActionView::Reorder((s, n as usize)),
                    false,
                )
                &&& post.mod_key == pre.mod_key
                &&& post.loading == pre.loading
                &&& post.shape == pre.shape
            } else {
                *post == *pre
            },
            None => *post == *pre,
        }
    }

    /// Moves the selected task one step in `direction`: the selection moves
    /// as by `select_next`, the task takes the selected place in the list at
    /// once, and the move is recorded as pending. Does nothing without a
    /// selected task.
    pub fn move_task(&mut self, direction: Direction)
        ensures
            Self::move_task_post(&*old(self), &*final(self), direction),
    {
        let s = match self.selected {
            Some(s) => s,
            None => {
                return ;
            },
        };
        if s >= self.task_items.len() {
            return ;
        }
        let ghost before = self.items();
        self.select_next(direction);
        let n = match self.selected {
            Some(n) => n,
            None => {
                return ;
            },
        };
        let task = self.task_items.remove(s);
        self.upsert_modified(task.id.clone(), Action::Reorder((s, n)));
        self.task_items.insert(n, task);
        assert(self.items() =~= before.remove(s as int).insert(n as int, before[s as int]));
    }

    /// What `mark_item_completed` does to the grid.
    pub open spec fn mark_item_completed_post(pre: &Self, post: &Self) -> bool {
        &&& pre.same_but_modifications(post)
        &&& post.modifications@ == match pre.selected_task() {
            Some(t) => match pre.selected_sub {
                Some(k) => match t.checklist {
                    Some(list) => if k < list.len() {
                        upsert_map(
                            pre.modifications@,
                            t.id,
                            ActionView::Edit(toggled_at(t, k as int)),
                            stored_as(pre.items(), t.id, toggled_at(t, k as int)),
                        )
                    } else {
                        pre.modifications@
                    },
                    None => pre.modifications@,
                },
                None => upsert_map(
                    pre.modifications@,
                    t.id,
                    ActionView::ToggleComplete,
                    false,
                ),
            },
            None => pre.modifications@,
        }
    }

    /// Ticks or unticks what is selected. With a checklist entry selected,
    /// the task with that entry toggled becomes its pending edit; without
    /// one, the completion of the whole task is requested, or cancelled
    /// where it was requested before. Does nothing without a selected task
    /// or where the selected entry does not exist.
    pub fn mark_item_completed(&mut self)
        ensures
            Self::mark_item_completed_post(&*old(self), &*final(self)),
    {
        let task = match self.get_selected() {
            Some(t) => t.clone(),
            None => {
                return ;
            },
        };
        let id = task.id.clone();
        match self.selected_sub {
            Some(k) => {
                let ghost seen = task@;
                let Task { id: task_id, text, task_type, difficulty, notes, date, checklist } =
                    task;
                match checklist {
                    Some(list) => {
                        if k < list.len() {
                            let mut list = list;
                            let entry = SubTask {
                                text: list[k].text.clone(),
                                completed: !list[k].completed,
                            };
                            list.set(k, entry);
                            let snapshot = Task {
                                id: task_id,
                                text,
                                task_type,
                                difficulty,
                                notes,
                                date,
                                checklist: Some(list),
                            };
                            assert(snapshot@.checklist->0 =~= toggled_at(
                                seen,
                                k as int,
                            ).checklist->0);
                            self.upsert_modified(id, Action::Edit(snapshot));
                        }
                    },
                    None => {},
                }
            },
            None => {
                self.upsert_modified(id, Action::ToggleComplete);
            },
        }
    }

    /// What `mark_item_removed` does to the grid.
    pub open spec fn mark_item_removed_post(pre: &Self, post: &Self) -> bool {
        &&& pre.same_but_modifications(post)
        &&& post.modifications@ == match pre.selected_task() {
            Some(t) => upsert_map(pre.modifications@, t.id, ActionView::Remove, false),
            None => pre.modifications@,
        }
    }

    /// Requests the removal of the selected task, or cancels the request
    /// where it was made before. Does nothing without a selected task.
    pub fn mark_item_removed(&mut self)
        ensures
            Self::mark_item_removed_post(&*old(self), &*final(self)),
    {
        let id = match self.get_selected() {
            Some(t) => t.id.clone(),
            None => {
                return ;
            },
        };
        self.upsert_modified(id, Action::Remove);
    }

    /// `other` holds the same tasks, pending changes and grid shape as this
    /// state.
    pub open spec fn same_tasks(&self, other: &TaskGridState) -> bool {
        &&& other.task_items == self.task_items
        &&& other.modifications == self.modifications
        &&& other.loading == self.loading
        &&& other.shape == self.shape
    }

    /// `other` differs from this state in its waiting key at most.
    pub open spec fn same_but_mod_key(&self, other: &TaskGridState) -> bool {
        &&& other.task_items == self.task_items
        &&& other.modifications == self.modifications
        &&& other.page == self.page
        &&& other.selected == self.selected
        &&& other.selected_sub == self.selected_sub
        &&& other.loading == self.loading
        &&& other.shape == self.shape
    }

    /// `other` has the cursor, waiting key and grid shape of this state.
    pub open spec fn same_frame(&self, other: &TaskGridState) -> bool {
        &&& other.page == self.page
        &&& other.selected == self.selected
        &&& other.selected_sub == self.selected_sub
        &&& other.mod_key == self.mod_key
        &&& other.loading == self.loading
        &&& other.shape == self.shape
    }

    /// The index of the first task that has this id.
    pub fn find_task(&self, id: &TaskId) -> (r: Option<usize>)
        ensures
            r is Some == position_of(self.items(), id@) is Some,
            r matches Some(i) ==> position_of(self.items(), id@) == Some(i as int) && i
                < self.task_items@.len() && self.task_items@[i as int]@.id == id@,
    {
        find_by_id(&self.task_items, id)
    }

    fn merge_task(&mut self, fetched: Task)
        ensures
            old(self).same_frame(final(self)),
            final(self).modifications == old(self).modifications,
            final(self).items() == merge_one(old(self).items(), old(self).modifications@, fetched@),
    {
        match self.find_task(&fetched.id) {
            Some(i) => {
                if !self.modifications.contains_key(&fetched.id) {
                    self.task_items.set(i, fetched);
                }
            },
            None => {
                self.task_items.insert(0, fetched);
            },
        }
    }

    /// What `merge_fetch` does to the grid.
    pub open spec fn merge_fetch_post(pre: &Self, post: &Self, fetched: Vec<Task>) -> bool {
        &&& pre.same_frame(post)
        &&& post.modifications == pre.modifications
        &&& post.items() == merge_fetched(
            pre.items(),
            pre.modifications@,
            tasks_view(fetched@),
        )
    }

    /// Takes a freshly fetched list into the grid. An empty grid adopts it
    /// as it is. Otherwise each fetched task replaces the task with its id,
    /// unless changes are pending on it, and a task that the grid has not
    /// seen is put in front. The pending changes stay as they are.
    pub fn merge_fetch(&mut self, fetched: Vec<Task>)
        ensures
            Self::merge_fetch_post(&*old(self), &*final(self), fetched),
    {
        if self.task_items.len() == 0 {
            self.task_items = fetched;
            return ;
        }
        let ghost before = self.items();
        let ghost m = self.modifications@;
        let ghost all = tasks_view(fetched@);
        assert(all.subrange(0, all.len() as int) =~= all);
        let mut i: usize = 0;
        while i < fetched.len()
            invariant
                i <= fetched@.len(),
                all == tasks_view(fetched@),
                old(self).same_frame(self),
                self.modifications == old(self).modifications,
                m == self.modifications@,
                merge_all(self.items(), m, all.subrange(i as int, all.len() as int)) == merge_all(
                    before,
                    m,
                    all,
                ),
            decreases fetched@.len() - i,
        {
            let ghost rest = all.subrange(i as int, all.len() as int);
            let task = fetched[i].clone();
            assert(rest.drop_first() =~= all.subrange(i + 1, all.len() as int));
            self.merge_task(task);
            i += 1;
        }
    }

    fn confirm(&mut self, task: Task, action: Action)
        ensures
            old(self).same_frame(final(self)),
            final(self).items() == confirmed_items(old(self).items(), task@, action@),
            final(self).modifications@ == discard_map(
                old(self).modifications@,
                task@.id,
                action@.kind(),
            ),
    {
        self.modifications.discard(&task.id, action.kind());
        match action {
            Action::Create => {
                self.task_items.insert(0, task);
            },
            Action::ToggleComplete | Action::Remove => {
                match self.find_task(&task.id) {
                    Some(i) => {
                        self.task_items.remove(i);
                    },
                    None => {},
                }
            },
            Action::Edit(_) => {
                match self.find_task(&task.id) {
                    Some(i) => {
                        self.task_items.set(i, task);
                    },
                    None => {},
                }
            },
            Action::Reorder(_) => {},
        }
    }

    /// What `apply_confirmed` does to the grid.
    pub open spec fn apply_confirmed_post(
        pre: &Self,
        post: &Self,
        updates: Vec<(Task, Action)>,
    ) -> bool {
        &&& pre.same_frame(post)
        &&& post.items() == confirmed_all_items(pre.items(), updates_view(updates@))
        &&& post.modifications@ == confirmed_all_pending(
            pre.modifications@,
            updates_view(updates@),
        )
    }

    /// Takes what the store confirmed into the grid, first to last: the
    /// list follows each confirmed action, and the action is pending no
    /// more. What was not confirmed stays pending.
    pub fn apply_confirmed(&mut self, updates: Vec<(Task, Action)>)
        ensures
            Self::apply_confirmed_post(&*old(self), &*final(self), updates),
    {
        let ghost before = self.items();
        let ghost pending_before = self.modifications@;
        let ghost all = updates_view(updates@);
        assert(all.subrange(0, all.len() as int) =~= all);
        let mut i: usize = 0;
        while i < updates.len()
            invariant
                i <= updates@.len(),
                all == updates_view(updates@),
                old(self).same_frame(self),
                confirmed_all_items(self.items(), all.subrange(i as int, all.len() as int))
                    == confirmed_all_items(before, all),
                confirmed_all_pending(
                    self.modifications@,
                    all.subrange(i as int, all.len() as int),
                ) == confirmed_all_pending(pending_before, all),
            decreases updates@.len() - i,
        {
            let ghost rest = all.subrange(i as int, all.len() as int);
            let task = updates[i].0.clone();
            let action = updates[i].1.clone();
            assert(rest.drop_first() =~= all.subrange(i + 1, all.len() as int));
            self.confirm(task, action);
            i += 1;
        }
    }

    /// The line of the selected task's text on which the selected checklist
    /// entry stands: behind the title, the notes and the due date.
    pub fn get_line_offset_selected_sub(&self) -> (r: Option<usize>)
        ensures
            r is Some == self.selected_sub is Some,
            r matches Some(line) ==> {
                let lead = match self.selected_task() {
                    Some(t) => (if t.notes is Some {
                        1int
                    } else {
                        0int
                    }) + (if t.date is Some {
                        1int
                    } else {
                        0int
                    }),
                    None => 0int,
                };
                line == if self.selected_sub->0 + 1 + lead > usize::MAX {
                    usize::MAX as int
                } else {
                    self.selected_sub->0 + 1 + lead
                }
            },
    {
        match self.selected_sub {
            Some(index) => {
                let mut line = index.saturating_add(1);
                match self.get_selected() {
                    Some(t) => {
                        if t.notes.is_some() {
                            line = line.saturating_add(1);
                        }
                        if t.date.is_some() {
                            line = line.saturating_add(1);
                        }
                    },
                    None => {},
                }
                Some(line)
            },
            None => None,
        }
    }

    /// What `add_mod_key` does to the grid.
    pub open spec fn add_mod_key_post(pre: &Self, post: &Self, key: KeyEvent) -> bool {
        &&& pre.same_but_mod_key(post)
        &&& post.mod_key == Some((key, MOD_KEY_TTL))
    }

    /// Keeps `key` as the first key of a two-key sequence.
    pub fn add_mod_key(&mut self, key: KeyEvent)
        ensures
            Self::add_mod_key_post(&*old(self), &*final(self), key),
    {
        self.mod_key = Some((key, MOD_KEY_TTL));
    }

    /// What `pop_mod_key` does to the grid.
    pub open spec fn pop_mod_key_post(pre: &Self, post: &Self, r: Option<KeyEvent>) -> bool {
        &&& pre.same_but_mod_key(post)
        &&& post.mod_key is None
        &&& r == match pre.mod_key {
            Some(waiting) => Some(waiting.0),
            None => None,
        }
    }

    /// Hands out the waiting key, which waits no more.
    pub fn pop_mod_key(&mut self) -> (r: Option<KeyEvent>)
        ensures
            Self::pop_mod_key_post(&*old(self), &*final(self), r),
    {
        let r = match self.mod_key {
            Some(waiting) => Some(waiting.0),
            None => None,
        };
        self.mod_key = None;
        r
    }

    /// What `decay_mod_key` does to the grid.
    pub open spec fn decay_mod_key_post(pre: &Self, post: &Self) -> bool {
        &&& pre.same_but_mod_key(post)
        &&& post.mod_key == match pre.mod_key {
            Some(waiting) => if waiting.1 <= 1 {
                None
            } else {
                Some((waiting.0, (waiting.1 - 1) as u32))
            },
            None => None,
        }
    }

    /// Lets one tick pass for the waiting key, which is dropped when its
    /// time is up.
    pub fn decay_mod_key(&mut self)
        ensures
            Self::decay_mod_key_post(&*old(self), &*final(self)),
    {
        match self.mod_key {
            Some(waiting) => {
                if waiting.1 <= 1 {
                    self.mod_key = None;
                } else {
                    self.mod_key = Some((waiting.0, waiting.1 - 1));
                }
            },
            None => {},
        }
    }

    /// The colour behind task `index`: the selected task is green, a task
    /// waiting to be removed red, a task with another pending change yellow.
    pub open spec fn colour_of(&self, index: int) -> Palette {
        let diff = pending(self.modifications@, self.items()[index].id);
        if self.selected == Some(index as usize) {
            Palette::GREEN
        } else if diff.destructive == Some(Destructive::Remove) {
            Palette::RED
        } else if !diff.is_empty() {
            Palette::YELLOW
        } else {
            Palette::BG2
        }
    }

    /// The index of the task shown in `row` and `column` of the page shown;
    /// none where the cell lies outside the grid or shows no task.
    pub fn cell_task(&self, row: usize, column: usize) -> (r: Option<usize>)
        ensures
            r == if row < self.shape.height() && column < self.shape.width() && cell_position(
                self.page as int,
                row as int,
                column as int,
                self.shape.width(),
                self.shape.size(),
            ) < self.task_items@.len() {
                Some(
                    cell_position(
                        self.page as int,
                        row as int,
                        column as int,
                        self.shape.width(),
                        self.shape.size(),
                    ) as usize,
                )
            } else {
                None
            },
    {
        let width = self.shape.columns();
        let height = self.shape.rows();
        let size = self.shape.page_size();
        let len = self.task_items.len();
        if row >= height || column >= width {
            return None;
        }
        assert(row * width + column < width * height) by (nonlinear_arith)
            requires
                row < height,
                column < width,
        ;
        let within = row * width + column;
        let index = match self.page.checked_mul(size) {
            Some(start) => match start.checked_add(within) {
                Some(index) => index,
                None => {
                    return None;
                },
            },
            None => {
                return None;
            },
        };
        if index < len {
            Some(index)
        } else {
            None
        }
    }

    /// The colour behind task `index`.
    pub fn cell_colour(&self, index: usize) -> (r: Palette)
        requires
            index < self.task_items@.len(),
        ensures
            r == self.colour_of(index as int),
    {
        let is_selected = match self.selected {
            Some(s) => s == index,
            None => false,
        };
        if is_selected {
            return Palette::GREEN;
        }
        match self.modifications.get(&self.task_items[index].id) {
            Some(diff) => match diff.destructive {
                Some(Destructive::Remove) => Palette::RED,
                _ => Palette::YELLOW,
            },
            None => Palette::BG2,
        }
    }

    /// Whether the completion of task `index` is pending.
    pub fn is_marked_completed(&self, index: usize) -> (r: bool)
        requires
            index < self.task_items@.len(),
        ensures
            r == (pending(self.modifications@, self.items()[index as int].id).destructive == Some(
                Destructive::ToggleComplete,
            )),
    {
        match self.modifications.get(&self.task_items[index].id) {
            Some(diff) => match diff.destructive {
                Some(Destructive::ToggleComplete) => true,
                _ => false,
            },
            None => false,
        }
    }
}

} // verus!
