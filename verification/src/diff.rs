//! The changes that are pending on each task.
//!
//! A task has at most one pending action of each kind, and at most one of
//! the two destructive kinds. `Diff` holds them as slots; `Modifications`
//! maps task ids to their non-empty diffs.

use vstd::prelude::*;
use crate::types::{Action, ActionKind, ActionView, Task, TaskId, TaskView};

verus! {

/// The two pending actions that exclude each other: a task is waiting to be
/// completed or to be removed, never both.
#[derive(Debug, PartialEq, Eq, Structural, Clone, Copy)]
pub enum Destructive {
    ToggleComplete,
    Remove,
}

/// The pending changes of one task, one slot per concern.
#[derive(Debug)]
pub struct Diff {
    pub create: bool,
    pub edit: Option<Task>,
    pub reorder: Option<(usize, usize)>,
    pub destructive: Option<Destructive>,
}

pub struct DiffView {
    pub create: bool,
    pub edit: Option<TaskView>,
    pub reorder: Option<(usize, usize)>,
    pub destructive: Option<Destructive>,
}

impl DiffView {
    /// The diff with nothing pending.
    pub open spec fn empty() -> DiffView {
        DiffView { create: false, edit: None, reorder: None, destructive: None }
    }

    pub open spec fn is_empty(self) -> bool {
        !self.create && self.edit is None && self.reorder is None && self.destructive is None
    }

    /// Whether an action of this kind is pending.
    pub open spec fn contains(self, kind: ActionKind) -> bool {
        match kind {
            ActionKind::Create => self.create,
            ActionKind::ToggleComplete => self.destructive == Some(Destructive::ToggleComplete),
            ActionKind::Edit => self.edit is Some,
            ActionKind::Reorder => self.reorder is Some,
            ActionKind::Remove => self.destructive == Some(Destructive::Remove),
        }
    }

    /// The destructive slot after the user asked for `wanted`: asking twice
    /// for the same thing cancels it, asking for the other one replaces it.
    pub open spec fn toggled(self, wanted: Destructive) -> Option<Destructive> {
        if self.destructive == Some(wanted) {
            None
        } else {
            Some(wanted)
        }
    }

    /// The reorder slot after a further move from `from` to `to`: moves
    /// compose, keeping the first origin, and a move back to the origin
    /// cancels the reorder.
    pub open spec fn moved(self, from: usize, to: usize) -> Option<(usize, usize)> {
        match self.reorder {
            Some((origin, _)) => if origin == to {
                None
            } else {
                Some((origin, to))
            },
            None => Some((from, to)),
        }
    }

    /// The diff after `action` was added. `noop_edit` says that an `Edit`
    /// carries the task as the store has it, which cancels a pending edit.
    pub open spec fn merge(self, action: ActionView, noop_edit: bool) -> DiffView {
        match action {
            ActionView::Create => DiffView { create: true, ..self },
            ActionView::ToggleComplete => DiffView {
                destructive: self.toggled(Destructive::ToggleComplete),
                ..self
            },
            ActionView::Remove => DiffView {
                destructive: self.toggled(Destructive::Remove),
                ..self
            },
            ActionView::Edit(snapshot) => DiffView {
                edit: if noop_edit {
                    None
                } else {
                    Some(snapshot)
                },
                ..self
            },
            ActionView::Reorder((from, to)) => DiffView { reorder: self.moved(from, to), ..self },
        }
    }

    /// The diff without its action of this kind.
    pub open spec fn without(self, kind: ActionKind) -> DiffView {
        match kind {
            ActionKind::Create => DiffView { create: false, ..self },
            ActionKind::ToggleComplete => if self.destructive == Some(Destructive::ToggleComplete) {
                DiffView { destructive: None, ..self }
            } else {
                self
            },
            ActionKind::Edit => DiffView { edit: None, ..self },
            ActionKind::Reorder => DiffView { reorder: None, ..self },
            ActionKind::Remove => if self.destructive == Some(Destructive::Remove) {
                DiffView { destructive: None, ..self }
            } else {
                self
            },
        }
    }

    /// The pending actions that are sent to the store, in the order in which
    /// they are sent: the edit and the reorder first, the destructive action
    /// last. A pending creation is not among them.
    pub open spec fn to_send(self) -> Seq<ActionView> {
        (match self.edit {
            Some(t) => seq![ActionView::Edit(t)],
            None => Seq::<ActionView>::empty(),
        }) + (match self.reorder {
            Some(r) => seq![ActionView::Reorder(r)],
            None => Seq::<ActionView>::empty(),
        }) + (match self.destructive {
            Some(Destructive::ToggleComplete) => seq![ActionView::ToggleComplete],
            Some(Destructive::Remove) => seq![ActionView::Remove],
            None => Seq::<ActionView>::empty(),
        })
    }
}

impl View for Diff {
    type V = DiffView;

    open spec fn view(&self) -> DiffView {
        DiffView {
            create: self.create,
            edit: match self.edit {
                Some(t) => Some(t@),
                None => None,
            },
            reorder: self.reorder,
            destructive: self.destructive,
        }
    }
}

/// The actions of `items`, each by its view.
pub open spec fn actions_view(items: Seq<Action>) -> Seq<ActionView> {
    items.map_values(|a: Action| a@)
}

impl Clone for Diff {
    fn clone(&self) -> (r: Diff)
        ensures
            r@ == self@,
    {
        Diff {
            create: self.create,
            edit: match &self.edit {
                Some(t) => Some(t.clone()),
                None => None,
            },
            reorder: self.reorder,
            destructive: self.destructive,
        }
    }
}

impl Diff {
    /// A diff with nothing pending.
    pub fn new() -> (r: Diff)
        ensures
            r@ == DiffView::empty(),
    {
        Diff { create: false, edit: None, reorder: None, destructive: None }
    }

    /// Whether nothing is pending.
    pub fn is_empty(&self) -> (r: bool)
        ensures
            r == self@.is_empty(),
    {
        !self.create && self.edit.is_none() && self.reorder.is_none()
            && self.destructive.is_none()
    }

    /// Whether an action of this kind is pending.
    pub fn contains(&self, kind: ActionKind) -> (r: bool)
        ensures
            r == self@.contains(kind),
    {
        match kind {
            ActionKind::Create => self.create,
            ActionKind::ToggleComplete => match self.destructive {
                Some(Destructive::ToggleComplete) => true,
                _ => false,
            },
            ActionKind::Edit => self.edit.is_some(),
            ActionKind::Reorder => self.reorder.is_some(),
            ActionKind::Remove => match self.destructive {
                Some(Destructive::Remove) => true,
                _ => false,
            },
        }
    }

    fn toggled(&self, wanted: Destructive) -> (r: Option<Destructive>)
        ensures
            r == self@.toggled(wanted),
    {
        match self.destructive {
            Some(d) => if d == wanted {
                None
            } else {
                Some(wanted)
            },
            None => Some(wanted),
        }
    }

    fn cloned_edit(&self) -> (r: Option<Task>)
        ensures
            r is Some == self@.edit is Some,
            r matches Some(t) ==> self@.edit == Some(t@),
    {
        match &self.edit {
            Some(t) => Some(t.clone()),
            None => None,
        }
    }

    /// This diff with `action` added to it. `noop_edit` says that an `Edit`
    /// carries the task as the store has it.
    pub fn merged(&self, action: Action, noop_edit: bool) -> (r: Diff)
        ensures
            r@ == self@.merge(action@, noop_edit),
    {
        match action {
            Action::Create => Diff {
                create: true,
                edit: self.cloned_edit(),
                reorder: self.reorder,
                destructive: self.destructive,
            },
            Action::ToggleComplete => Diff {
                create: self.create,
                edit: self.cloned_edit(),
                reorder: self.reorder,
                destructive: self.toggled(Destructive::ToggleComplete),
            },
            Action::Remove => Diff {
                create: self.create,
                edit: self.cloned_edit(),
                reorder: self.reorder,
                destructive: self.toggled(Destructive::Remove),
            },
            Action::Edit(snapshot) => Diff {
                create: self.create,
                edit: if noop_edit {
                    None
                } else {
                    Some(snapshot)
                },
                reorder: self.reorder,
                destructive: self.destructive,
            },
            Action::Reorder((from, to)) => Diff {
                create: self.create,
                edit: self.cloned_edit(),
                reorder: match self.reorder {
                    Some((origin, _)) => if origin == to {
                        None
                    } else {
                        Some((origin, to))
                    },
                    None => Some((from, to)),
                },
                destructive: self.destructive,
            },
        }
    }

    /// This diff without its action of this kind.
    pub fn without(&self, kind: ActionKind) -> (r: Diff)
        ensures
            r@ == self@.without(kind),
    {
        let keep_destructive = match (kind, self.destructive) {
            (ActionKind::ToggleComplete, Some(Destructive::ToggleComplete)) => false,
            (ActionKind::Remove, Some(Destructive::Remove)) => false,
            _ => true,
        };
        Diff {
            create: match kind {
                ActionKind::Create => false,
                _ => self.create,
            },
            edit: match kind {
                ActionKind::Edit => None,
                _ => self.cloned_edit(),
            },
            reorder: match kind {
                ActionKind::Reorder => None,
                _ => self.reorder,
            },
            destructive: if keep_destructive {
                self.destructive
            } else {
                None
            },
        }
    }

    /// The pending actions that are sent to the store, in the order in which
    /// they are sent.
    pub fn to_send(&self) -> (r: Vec<Action>)
        ensures
            actions_view(r@) == self@.to_send(),
    {
        let mut out: Vec<Action> = Vec::new();
        match &self.edit {
            Some(t) => {
                out.push(Action::Edit(t.clone()));
            },
            None => {},
        }
        match self.reorder {
            Some(r) => {
                out.push(Action::Reorder(r));
            },
            None => {},
        }
        match self.destructive {
            Some(Destructive::ToggleComplete) => {
                out.push(Action::ToggleComplete);
            },
            Some(Destructive::Remove) => {
                out.push(Action::Remove);
            },
            None => {},
        }
        out
    }
}

/// The diff that `m` holds for `id`; the empty diff where it holds none.
pub open spec fn pending(m: Map<Seq<char>, DiffView>, id: Seq<char>) -> DiffView {
    if m.contains_key(id) {
        m[id]
    } else {
        DiffView::empty()
    }
}

/// `m` with `d` as the diff of `id`. An empty diff is not kept: its id leaves
/// the map.
pub open spec fn put(m: Map<Seq<char>, DiffView>, id: Seq<char>, d: DiffView) -> Map<
    Seq<char>,
    DiffView,
> {
    if d.is_empty() {
        m.remove(id)
    } else {
        m.insert(id, d)
    }
}

/// `m` after `action` was added to the diff of `id`.
pub open spec fn upsert_map(
    m: Map<Seq<char>, DiffView>,
    id: Seq<char>,
    action: ActionView,
    noop_edit: bool,
) -> Map<Seq<char>, DiffView> {
    put(m, id, pending(m, id).merge(action, noop_edit))
}

/// `m` after the action of this kind left the diff of `id`.
pub open spec fn discard_map(m: Map<Seq<char>, DiffView>, id: Seq<char>, kind: ActionKind) -> Map<
    Seq<char>,
    DiffView,
> {
    put(m, id, pending(m, id).without(kind))
}

/// No id is mapped to an empty diff.
pub open spec fn no_empty_diff(m: Map<Seq<char>, DiffView>) -> bool {
    forall|id: Seq<char>| m.contains_key(id) ==> !(#[trigger] m[id]).is_empty()
}

spec fn has_id(entries: Seq<(TaskId, Diff)>, id: Seq<char>) -> bool {
    exists|i: int| 0 <= i < entries.len() && (#[trigger] entries[i]).0@ == id
}

spec fn slot_of(entries: Seq<(TaskId, Diff)>, id: Seq<char>) -> int {
    choose|i: int| 0 <= i < entries.len() && (#[trigger] entries[i]).0@ == id
}

spec fn entries_map(entries: Seq<(TaskId, Diff)>) -> Map<Seq<char>, DiffView> {
    Map::new(|id: Seq<char>| has_id(entries, id), |id: Seq<char>| entries[slot_of(entries, id)].1@)
}

spec fn entries_keys(entries: Seq<(TaskId, Diff)>) -> Seq<Seq<char>> {
    entries.map_values(|e: (TaskId, Diff)| e.0@)
}

spec fn distinct_ids(entries: Seq<(TaskId, Diff)>) -> bool {
    forall|i: int, j: int|
        0 <= i < j < entries.len() ==> (#[trigger] entries[i]).0@ != (#[trigger] entries[j]).0@
}

spec fn all_nonempty(entries: Seq<(TaskId, Diff)>) -> bool {
    forall|i: int| 0 <= i < entries.len() ==> !(#[trigger] entries[i]).1@.is_empty()
}

proof fn lemma_entries_map(entries: Seq<(TaskId, Diff)>)
    requires
        distinct_ids(entries),
    ensures
        forall|i: int|
            0 <= i < entries.len() ==> entries_map(entries).contains_key(
                (#[trigger] entries[i]).0@,
            ) && entries_map(entries)[entries[i].0@] == entries[i].1@,
        forall|id: Seq<char>| #[trigger]
            entries_map(entries).contains_key(id) ==> 0 <= slot_of(entries, id) < entries.len()
                && entries[slot_of(entries, id)].0@ == id,
{
}

/// The pending changes of all tasks, by task id. A task with nothing pending
/// has no entry.
#[derive(Debug)]
pub struct Modifications {
    entries: Vec<(TaskId, Diff)>,
}

impl View for Modifications {
    type V = Map<Seq<char>, DiffView>;

    closed spec fn view(&self) -> Map<Seq<char>, DiffView> {
        entries_map(self.entries@)
    }
}

impl Modifications {
    #[verifier::type_invariant]
    closed spec fn inv(&self) -> bool {
        distinct_ids(self.entries@) && all_nonempty(self.entries@)
    }

    /// The ids that have an entry, in the order in which they got it.
    pub closed spec fn keys(&self) -> Seq<Seq<char>> {
        entries_keys(self.entries@)
    }

    /// No changes pending on any task.
    pub fn new() -> (r: Modifications)
        ensures
            r@ == Map::<Seq<char>, DiffView>::empty(),
            r.keys() == Seq::<Seq<char>>::empty(),
    {
        let r = Modifications { entries: Vec::new() };
        r
    }

    /// Whether no task has a pending change.
    pub fn is_empty(&self) -> (r: bool)
        ensures
            r == (self@ == Map::<Seq<char>, DiffView>::empty()),
            r == (self.keys().len() == 0),
    {
        proof {
            use_type_invariant(self);
            lemma_entries_map(self.entries@);
            if self.entries@.len() > 0 {
                assert(self@.contains_key(self.entries@[0].0@));
            } else {
                assert(self@ =~= Map::<Seq<char>, DiffView>::empty());
            }
        }
        self.entries.len() == 0
    }

    /// The number of tasks with a pending change.
    pub fn len(&self) -> (r: usize)
        ensures
            r == self.keys().len(),
    {
        self.entries.len()
    }

    fn position(&self, id: &TaskId) -> (r: Option<usize>)
        ensures
            match r {
                Some(i) => i < self.entries@.len() && self.entries@[i as int].0@ == id@,
                None => !has_id(self.entries@, id@),
            },
    {
        let mut i: usize = 0;
        while i < self.entries.len()
            invariant
                i <= self.entries@.len(),
                forall|k: int| 0 <= k < i ==> (#[trigger] self.entries@[k]).0@ != id@,
            decreases self.entries@.len() - i,
        {
            if self.entries[i].0 == *id {
                return Some(i);
            }
            i += 1;
        }
        None
    }

    /// Whether `id` has a pending change.
    pub fn contains_key(&self, id: &TaskId) -> (r: bool)
        ensures
            r == self@.contains_key(id@),
    {
        proof {
            use_type_invariant(self);
            lemma_entries_map(self.entries@);
        }
        self.position(id).is_some()
    }

    /// The pending changes of `id`, if it has any.
    pub fn get(&self, id: &TaskId) -> (r: Option<&Diff>)
        ensures
            r is Some == self@.contains_key(id@),
            r matches Some(d) ==> d@ == self@[id@] && !d@.is_empty(),
            no_empty_diff(self@),
    {
        proof {
            use_type_invariant(self);
            lemma_entries_map(self.entries@);
        }
        match self.position(id) {
            Some(i) => Some(&self.entries[i].1),
            None => None,
        }
    }

    /// The id at position `i` of `keys()`, with its pending changes.
    pub fn entry(&self, i: usize) -> (r: (&TaskId, &Diff))
        requires
            i < self.keys().len(),
        ensures
            r.0@ == self.keys()[i as int],
            self@.contains_key(r.0@),
            r.1@ == self@[r.0@],
    {
        proof {
            use_type_invariant(self);
            lemma_entries_map(self.entries@);
        }
        (&self.entries[i].0, &self.entries[i].1)
    }

    fn store(&mut self, id: TaskId, slot: Option<usize>, d: Diff)
        requires
            match slot {
                Some(i) => i < old(self).entries@.len() && old(self).entries@[i as int].0@ == id@,
                None => !has_id(old(self).entries@, id@),
            },
        ensures
            final(self)@ == put(old(self)@, id@, d@),
            no_empty_diff(final(self)@),
    {
        proof {
            use_type_invariant(&*self);
            lemma_entries_map(self.entries@);
        }
        let ghost before = self.entries@;
        let ghost key = id@;
        let ghost value = d@;
        let mut entries: Vec<(TaskId, Diff)> = Vec::new();
        std::mem::swap(&mut self.entries, &mut entries);
        match slot {
            Some(i) => {
                if d.is_empty() {
                    entries.remove(i);
                    proof {
                        let after = entries@;
                        lemma_entries_map(after);
                        assert forall|k: Seq<char>|
                            entries_map(after).contains_key(k) == put(
                                entries_map(before),
                                key,
                                value,
                            ).contains_key(k) by {
                            if has_id(after, k) {
                                let a = slot_of(after, k);
                            }
                            if has_id(before, k) && k != key {
                                let b = slot_of(before, k);
                                let b1 = if b < i { b } else { b - 1 };
                                assert(after[b1] == before[b]);
                            }
                        }
                    }
                } else {
                    entries.set(i, (id, d));
                    proof {
                        let after = entries@;
                        lemma_entries_map(after);
                        assert forall|k: Seq<char>|
                            entries_map(after).contains_key(k) == put(
                                entries_map(before),
                                key,
                                value,
                            ).contains_key(k) by {
                            if has_id(after, k) {
                                let a = slot_of(after, k);
                            }
                            if has_id(before, k) {
                                let b = slot_of(before, k);
                                assert(after[b].0@ == before[b].0@);
                            }
                        }
                    }
                }
            },
            None => {
                if !d.is_empty() {
                    entries.push((id, d));
                    proof {
                        let after = entries@;
                        let n = before.len() as int;
                        lemma_entries_map(after);
                        assert forall|k: Seq<char>|
                            entries_map(after).contains_key(k) == put(
                                entries_map(before),
                                key,
                                value,
                            ).contains_key(k) by {
                            if has_id(before, k) {
                                let b = slot_of(before, k);
                                assert(after[b] == before[b]);
                            }
                            assert(after[n].0@ == key);
                        }
                    }
                }
            },
        }
        proof {
            lemma_entries_map(entries@);
        }
        self.entries = entries;
    }

    /// Adds `action` to the pending changes of `id`. `noop_edit` says that
    /// an `Edit` carries the task as the store has it.
    pub fn upsert(&mut self, id: TaskId, action: Action, noop_edit: bool)
        ensures
            final(self)@ == upsert_map(old(self)@, id@, action@, noop_edit),
            no_empty_diff(final(self)@),
    {
        proof {
            use_type_invariant(&*self);
            lemma_entries_map(self.entries@);
        }
        let slot = self.position(&id);
        let merged = match slot {
            Some(i) => self.entries[i].1.merged(action, noop_edit),
            None => Diff::new().merged(action, noop_edit),
        };
        self.store(id, slot, merged);
    }

    /// Takes the action of this kind out of the pending changes of `id`.
    pub fn discard(&mut self, id: &TaskId, kind: ActionKind)
        ensures
            final(self)@ == discard_map(old(self)@, id@, kind),
            no_empty_diff(final(self)@),
    {
        proof {
            use_type_invariant(&*self);
            lemma_entries_map(self.entries@);
        }
        let slot = self.position(id);
        let rest = match slot {
            Some(i) => self.entries[i].1.without(kind),
            None => Diff::new(),
        };
        self.store(id.clone(), slot, rest);
    }

    /// Forgets every pending change.
    pub fn clear(&mut self)
        ensures
            final(self)@ == Map::<Seq<char>, DiffView>::empty(),
    {
        self.entries = Vec::new();
    }
}

impl Clone for Modifications {
    fn clone(&self) -> (r: Modifications)
        ensures
            r@ == self@,
            r.keys() == self.keys(),
    {
        proof {
            use_type_invariant(self);
        }
        let mut entries: Vec<(TaskId, Diff)> = Vec::new();
        let mut i: usize = 0;
        while i < self.entries.len()
            invariant
                i <= self.entries@.len(),
                entries@.len() == i,
                forall|k: int|
                    0 <= k < i ==> (#[trigger] entries@[k]).0@ == self.entries@[k].0@
                        && entries@[k].1@ == self.entries@[k].1@,
            decreases self.entries@.len() - i,
        {
            entries.push((self.entries[i].0.clone(), self.entries[i].1.clone()));
            i += 1;
        }
        proof {
            lemma_entries_map(self.entries@);
            lemma_entries_map(entries@);
            assert forall|k: Seq<char>| has_id(entries@, k) == has_id(self.entries@, k) by {
                if has_id(entries@, k) {
                    let a = slot_of(entries@, k);
                }
                if has_id(self.entries@, k) {
                    let a = slot_of(self.entries@, k);
                    assert(entries@[a].0@ == k);
                }
            }
        }
        Modifications { entries }
    }
}

/// Asking twice in a row to complete a task leaves the pending changes as
/// they were, unless the task was waiting to be removed: the first request
/// then replaces the removal and the second cancels the completion.
pub proof fn lemma_toggle_complete_twice(
    m: Map<Seq<char>, DiffView>,
    id: Seq<char>,
    first_noop: bool,
    second_noop: bool,
)
    requires
        no_empty_diff(m),
        pending(m, id).destructive != Some(Destructive::Remove),
    ensures
        upsert_map(
            upsert_map(m, id, ActionView::ToggleComplete, first_noop),
            id,
            ActionView::ToggleComplete,
            second_noop,
        ) == m,
{
    let d0 = pending(m, id);
    assert(d0.destructive is None || d0.destructive == Some(Destructive::ToggleComplete));
}

/// A move from `a` to `b` followed by the move from `b` back to `a` leaves
/// no reorder pending, where none was pending before or the pending one
/// started at `a` and `a` differs from `b`.
pub proof fn lemma_reorder_there_and_back(
    m: Map<Seq<char>, DiffView>,
    id: Seq<char>,
    a: usize,
    b: usize,
    first_noop: bool,
    second_noop: bool,
)
    requires
        match pending(m, id).reorder {
            Some((origin, _)) => origin == a && a != b,
            None => true,
        },
    ensures
        pending(
            upsert_map(
                upsert_map(m, id, ActionView::Reorder((a, b)), first_noop),
                id,
                ActionView::Reorder((b, a)),
                second_noop,
            ),
            id,
        ).reorder is None,
{
}

/// After a request to complete a task and then a request to remove it, the
/// removal is what is pending, whatever was pending before.
pub proof fn lemma_remove_replaces_complete(
    m: Map<Seq<char>, DiffView>,
    id: Seq<char>,
    first_noop: bool,
    second_noop: bool,
)
    ensures
        pending(
            upsert_map(
                upsert_map(m, id, ActionView::ToggleComplete, first_noop),
                id,
                ActionView::Remove,
                second_noop,
            ),
            id,
        ).destructive == Some(Destructive::Remove),
{
}

/// Adding an action touches the pending changes of no other task.
pub proof fn lemma_upsert_is_local(
    m: Map<Seq<char>, DiffView>,
    id: Seq<char>,
    action: ActionView,
    noop_edit: bool,
    other: Seq<char>,
)
    requires
        other != id,
    ensures
        upsert_map(m, id, action, noop_edit).contains_key(other) == m.contains_key(other),
        pending(upsert_map(m, id, action, noop_edit), other) == pending(m, other),
{
}

} // verus!
