//! The application around the grid and the editor, and the decisions of its
//! tick: when to fetch, what to send to the store, and how to take in what
//! came back.

use vstd::prelude::*;
use crate::diff::{actions_view, pending, DiffView};
use crate::editor::EditorState;
use crate::grid::{
    confirmed_all_items, confirmed_all_pending, merge_fetched, position_of, updates_view,
    TaskGridState,
};
use crate::types::{tasks_view, Action, ActionView, Task, TaskView};

verus! {

/// What the application shows.
#[derive(Debug, PartialEq, Eq, Structural, Clone, Copy)]
pub enum AppState {
    List,
    Exit,
    Editor,
}

/// What the application asks the store for. The caller carries the request
/// out in the background and hands the result to the next tick.
#[derive(Debug)]
pub enum Command {
    /// The list of tasks is to be fetched.
    Fetch,
    /// The task is new to the store.
    Create(Task),
    /// The task takes the place of the one that the store has under its id.
    Edit(Task),
    /// The pending changes are to be sent, plan by plan.
    Submit(Vec<TaskPlan>),
}

/// What came back from the store.
#[derive(Debug)]
pub enum Completion {
    /// The fetched list of tasks.
    Fetched(Vec<Task>),
    /// The fetch did not complete.
    FetchFailed,
    /// The actions that the store confirmed, each with the task it is about.
    Submitted(Vec<(Task, Action)>),
}

/// The answer of the store to one action.
#[derive(Debug)]
pub enum Outcome {
    /// The action did not complete.
    Failed,
    /// The store carried the action out.
    Confirmed,
    /// The store carried the action out and answered with the task as it
    /// has it now.
    ConfirmedWith(Task),
}

pub enum OutcomeView {
    Failed,
    Confirmed,
    ConfirmedWith(TaskView),
}

impl View for Outcome {
    type V = OutcomeView;

    open spec fn view(&self) -> OutcomeView {
        match self {
            Outcome::Failed => OutcomeView::Failed,
            Outcome::Confirmed => OutcomeView::Confirmed,
            Outcome::ConfirmedWith(t) => OutcomeView::ConfirmedWith(t@),
        }
    }
}

/// The outcomes of `items`, each by its view.
pub open spec fn outcomes_view(items: Seq<Outcome>) -> Seq<OutcomeView> {
    items.map_values(|o: Outcome| o@)
}

/// The pending changes of one task as they are sent to the store: the task
/// as the list holds it, and the actions in the order in which they are
/// sent.
#[derive(Debug)]
pub struct TaskPlan {
    pub task: Task,
    pub actions: Vec<Action>,
}

pub struct TaskPlanView {
    pub task: TaskView,
    pub actions: Seq<ActionView>,
}

impl View for TaskPlan {
    type V = TaskPlanView;

    open spec fn view(&self) -> TaskPlanView {
        TaskPlanView { task: self.task@, actions: actions_view(self.actions@) }
    }
}

/// The plans of `items`, each by its view.
pub open spec fn plans_view(items: Seq<TaskPlan>) -> Seq<TaskPlanView> {
    items.map_values(|p: TaskPlan| p@)
}

/// The plans for the ids of `keys`, in their order. An id that the list
/// does not hold gets no plan: its changes stay pending.
pub open spec fn planned(
    keys: Seq<Seq<char>>,
    m: Map<Seq<char>, DiffView>,
    items: Seq<TaskView>,
) -> Seq<TaskPlanView>
    decreases keys.len(),
{
    if keys.len() == 0 {
        Seq::<TaskPlanView>::empty()
    } else {
        let before = planned(keys.drop_last(), m, items);
        match position_of(items, keys.last()) {
            Some(i) => before.push(
                TaskPlanView { task: items[i], actions: pending(m, keys.last()).to_send() },
            ),
            None => before,
        }
    }
}

/// The confirmed action for `action` with the store's answer `outcome`, if
/// the store confirmed it. A confirmed edit carries the task that the store
/// answered with.
pub open spec fn confirmed_action(action: ActionView, outcome: OutcomeView) -> Option<ActionView> {
    match outcome {
        OutcomeView::Failed => None,
        OutcomeView::Confirmed => Some(action),
        OutcomeView::ConfirmedWith(answer) => match action {
            ActionView::Edit(_) => Some(ActionView::Edit(answer)),
            _ => Some(action),
        },
    }
}

/// The task that the confirmed actions are about: the answer to the last
/// confirmed edit, or `task` where the store answered none.
pub open spec fn answered_task(
    task: TaskView,
    actions: Seq<ActionView>,
    outcomes: Seq<OutcomeView>,
) -> TaskView
    decreases actions.len(),
{
    if actions.len() == 0 {
        task
    } else {
        let n = actions.len() - 1;
        if n < outcomes.len() && actions[n] is Edit && outcomes[n] is ConfirmedWith {
            outcomes[n]->ConfirmedWith_0
        } else {
            answered_task(task, actions.drop_last(), outcomes)
        }
    }
}

/// The actions that the store confirmed, in the order of the plan. An
/// action without an outcome counts as not confirmed.
pub open spec fn confirmed_actions(actions: Seq<ActionView>, outcomes: Seq<OutcomeView>) -> Seq<
    ActionView,
>
    decreases actions.len(),
{
    if actions.len() == 0 {
        Seq::<ActionView>::empty()
    } else {
        let n = actions.len() - 1;
        let before = confirmed_actions(actions.drop_last(), outcomes);
        if n < outcomes.len() {
            match confirmed_action(actions[n], outcomes[n]) {
                Some(a) => before.push(a),
                None => before,
            }
        } else {
            before
        }
    }
}

/// Each of `actions` with `task` as the task it is about.
pub open spec fn about(task: TaskView, actions: Seq<ActionView>) -> Seq<(TaskView, ActionView)> {
    actions.map_values(|a: ActionView| (task, a))
}

/// Actions without an outcome add nothing to what was confirmed.
pub proof fn lemma_confirmed_prefix(
    task: TaskView,
    actions: Seq<ActionView>,
    outcomes: Seq<OutcomeView>,
)
    ensures
        outcomes.len() < actions.len() ==> confirmed_actions(actions, outcomes)
            == confirmed_actions(actions.subrange(0, outcomes.len() as int), outcomes)
            && answered_task(task, actions, outcomes) == answered_task(
            task,
            actions.subrange(0, outcomes.len() as int),
            outcomes,
        ),
    decreases actions.len(),
{
    if outcomes.len() < actions.len() {
        let n = actions.len() - 1;
        if outcomes.len() < n {
            lemma_confirmed_prefix(task, actions.drop_last(), outcomes);
            assert(actions.drop_last().subrange(0, outcomes.len() as int) =~= actions.subrange(
                0,
                outcomes.len() as int,
            ));
        }
    }
}

impl TaskPlan {
    /// What the store confirmed of this plan: each confirmed action with
    /// the task as the store has it after the plan. `outcomes` holds the
    /// store's answers to the actions, in their order.
    pub fn confirmed(&self, outcomes: &Vec<Outcome>) -> (r: Vec<(Task, Action)>)
        ensures
            updates_view(r@) == about(
                answered_task(self@.task, self@.actions, outcomes_view(outcomes@)),
                confirmed_actions(self@.actions, outcomes_view(outcomes@)),
            ),
    {
        let ghost acts = self@.actions;
        let ghost outs = outcomes_view(outcomes@);
        let n = if outcomes.len() < self.actions.len() {
            outcomes.len()
        } else {
            self.actions.len()
        };
        let mut task = self.task.clone();
        let mut kept: Vec<Action> = Vec::new();
        let mut i: usize = 0;
        while i < n
            invariant
                i <= n,
                n <= self.actions@.len(),
                n <= outcomes@.len(),
                acts == self@.actions,
                outs == outcomes_view(outcomes@),
                task@ == answered_task(self@.task, acts.subrange(0, i as int), outs),
                actions_view(kept@) == confirmed_actions(acts.subrange(0, i as int), outs),
            decreases n - i,
        {
            let ghost done = acts.subrange(0, i as int);
            let ghost next = acts.subrange(0, i + 1);
            proof {
                assert(next.drop_last() =~= done);
            }
            match &outcomes[i] {
                Outcome::Failed => {},
                Outcome::Confirmed => {
                    kept.push(self.actions[i].clone());
                },
                Outcome::ConfirmedWith(answer) => {
                    match &self.actions[i] {
                        Action::Edit(_) => {
                            task = answer.clone();
                            kept.push(Action::Edit(answer.clone()));
                        },
                        other => {
                            kept.push(other.clone());
                        },
                    }
                },
            }
            i += 1;
        }
        proof {
            lemma_confirmed_prefix(self@.task, acts, outs);
            if outcomes@.len() >= self.actions@.len() {
                assert(acts.subrange(0, n as int) =~= acts);
            }
        }
        let mut out: Vec<(Task, Action)> = Vec::new();
        let mut k: usize = 0;
        while k < kept.len()
            invariant
                k <= kept@.len(),
                out@.len() == k,
                forall|j: int|
                    0 <= j < k ==> (#[trigger] out@[j]).0@ == task@ && out@[j].1@ == kept@[j]@,
            decreases kept@.len() - k,
        {
            out.push((task.clone(), kept[k].clone()));
            k += 1;
        }
        out
    }
}

/// What the store's answer to a submitted task confirms: the creation of a
/// task that had no id, else the edit that was sent.
pub fn task_update(sent: Task, answer: Task) -> (r: Vec<(Task, Action)>)
    ensures
        updates_view(r@) == seq![
            (
                answer@,
                if sent@.id.len() == 0 {
                    ActionView::Create
                } else {
                    ActionView::Edit(sent@)
                },
            ),
        ],
{
    let action = if sent.id.is_empty() {
        Action::Create
    } else {
        Action::Edit(sent)
    };
    let mut out: Vec<(Task, Action)> = Vec::new();
    out.push((answer, action));
    out
}

/// The application: what it shows, the grid, the editor while one is open,
/// whether a fetch is due, and what waits to be sent to the store.
pub struct Habitui {
    pub state: AppState,
    pub grid_state: TaskGridState,
    pub editor_state: Option<EditorState>,
    pub should_refresh_tasks: bool,
    pub queued: Vec<Command>,
    pub log_debug: Option<(String, u32)>,
}

/// Whether `command` hands `task` in: as a new task where it has no id,
/// else in place of the task of its id.
pub open spec fn submits_task(command: Command, task: TaskView) -> bool {
    match command {
        Command::Create(t) => task.id.len() == 0 && t@ == task,
        Command::Edit(t) => task.id.len() > 0 && t@ == task,
        _ => false,
    }
}

/// Whether `command` sends the pending changes of `grid`: one plan for each
/// task of the list that has changes pending.
pub open spec fn submits_changes(command: Command, grid: &TaskGridState) -> bool {
    command matches Command::Submit(plans) && plans_view(plans@) == planned(
        grid.modifications.keys(),
        grid.modifications@,
        grid.items(),
    )
}

impl Default for Habitui {
    /// The application at its start: the list is shown, it is empty, and a
    /// fetch is due.
    fn default() -> (r: Habitui)
        ensures
            r.wf(),
            r.state == AppState::List,
            r.editor_state is None,
            r.should_refresh_tasks,
            r.queued@.len() == 0,
            r.log_debug is None,
            r.grid_state.task_items@.len() == 0,
            r.grid_state.selected is None,
            r.grid_state.modifications@ == Map::<Seq<char>, DiffView>::empty(),
    {
        Habitui {
            state: AppState::List,
            grid_state: TaskGridState::default(),
            editor_state: None,
            should_refresh_tasks: true,
            queued: Vec::new(),
            log_debug: None,
        }
    }
}

impl Habitui {
    /// While the editor is shown there is one, and an editor that is there
    /// has a field for the name, the notes and each checklist entry of its
    /// task.
    pub open spec fn wf(&self) -> bool {
        &&& self.state == AppState::Editor ==> self.editor_state is Some
        &&& self.editor_state matches Some(editor) ==> editor.wf()
    }

    /// Whether the state is well formed.
    pub fn is_well_formed(&self) -> (r: bool)
        ensures
            r == self.wf(),
    {
        match &self.editor_state {
            Some(editor) => editor.is_well_formed(),
            None => match self.state {
                AppState::Editor => false,
                _ => true,
            },
        }
    }

    /// Whether the application has not been asked to exit.
    pub fn is_running(&self) -> (r: bool)
        ensures
            r == (self.state != AppState::Exit),
    {
        match self.state {
            AppState::Exit => false,
            _ => true,
        }
    }

    /// `other` differs from this state in what waits to be sent at most.
    pub open spec fn same_but_queued(&self, other: &Habitui) -> bool {
        &&& other.state == self.state
        &&& other.grid_state == self.grid_state
        &&& other.editor_state == self.editor_state
        &&& other.should_refresh_tasks == self.should_refresh_tasks
        &&& other.log_debug == self.log_debug
    }

    /// `after` is `before` with one more command at its end.
    pub open spec fn one_more(before: Seq<Command>, after: Seq<Command>) -> bool {
        after.len() == before.len() + 1 && after.drop_last() == before
    }

    /// What `handle_submit_task` does to the application.
    pub open spec fn handle_submit_task_post(pre: &Self, post: &Self, task: Task) -> bool {
        &&& pre.same_but_queued(post)
        &&& Self::one_more(pre.queued@, post.queued@)
        &&& submits_task(post.queued@.last(), task@)
    }

    /// Takes in the task that the editor hands in: it waits to be sent to the
    /// store, as a new task where it has no id, else in place of the task of
    /// its id.
    pub fn handle_submit_task(&mut self, task: Task)
        ensures
            Self::handle_submit_task_post(&*old(self), &*final(self), task),
    {
        let command = if task.id.is_empty() {
            Command::Create(task)
        } else {
            Command::Edit(task)
        };
        self.queued.push(command);
        assert(self.queued@.drop_last() =~= old(self).queued@);
    }

    /// What `handle_submit_modifications` does to the application.
    pub open spec fn handle_submit_modifications_post(pre: &Self, post: &Self) -> bool {
        &&& pre.same_but_queued(post)
        &&& Self::one_more(pre.queued@, post.queued@)
        &&& submits_changes(post.queued@.last(), &pre.grid_state)
    }

    /// Plans the sending of the pending changes: one plan for each task of
    /// the list that has changes pending, with its edit and its reorder
    /// before its destructive action. The plans wait to be sent to the
    /// store.
    pub fn handle_submit_modifications(&mut self)
        ensures
            Self::handle_submit_modifications_post(&*old(self), &*final(self)),
    {
        let ghost keys = self.grid_state.modifications.keys();
        let ghost m = self.grid_state.modifications@;
        let ghost items = self.grid_state.items();
        let n = self.grid_state.modifications.len();
        let mut plans: Vec<TaskPlan> = Vec::new();
        let mut i: usize = 0;
        while i < n
            invariant
                i <= n,
                n == keys.len(),
                *self == *old(self),
                keys == self.grid_state.modifications.keys(),
                m == self.grid_state.modifications@,
                items == self.grid_state.items(),
                plans_view(plans@) == planned(keys.subrange(0, i as int), m, items),
            decreases n - i,
        {
            let ghost done = keys.subrange(0, i as int);
            let ghost next = keys.subrange(0, i + 1);
            let (id, diff) = self.grid_state.modifications.entry(i);
            proof {
                assert(next.drop_last() =~= done);
            }
            match self.grid_state.find_task(id) {
                Some(at) => {
                    let plan = TaskPlan {
                        task: self.grid_state.task_items[at].clone(),
                        actions: diff.to_send(),
                    };
                    plans.push(plan);
                },
                None => {},
            }
            i += 1;
        }
        assert(keys.subrange(0, n as int) =~= keys);
        self.queued.push(Command::Submit(plans));
        assert(self.queued@.drop_last() =~= old(self).queued@);
    }

    /// What `decay_debug_msg` does to the message on display.
    pub open spec fn decayed_message(before: Option<(String, u32)>) -> Option<(String, u32)> {
        match before {
            Some(msg) => if msg.1 <= 1 {
                None
            } else {
                Some((msg.0, (msg.1 - 1) as u32))
            },
            None => None,
        }
    }

    fn decay_debug_msg(&mut self)
        ensures
            final(self).log_debug == Self::decayed_message(old(self).log_debug),
            final(self).state == old(self).state,
            final(self).grid_state == old(self).grid_state,
            final(self).editor_state == old(self).editor_state,
            final(self).should_refresh_tasks == old(self).should_refresh_tasks,
            final(self).queued == old(self).queued,
    {
        match self.log_debug.take() {
            Some(msg) => {
                if msg.1 > 1 {
                    self.log_debug = Some((msg.0, msg.1 - 1));
                }
            },
            None => {},
        }
    }

    /// What a tick does to the grid: it takes in what came back from the
    /// store and lets a tick pass for the waiting key.
    pub open spec fn tick_grid_post(
        pre: &TaskGridState,
        post: &TaskGridState,
        completed: Option<Completion>,
    ) -> bool {
        &&& post.page == pre.page
        &&& post.selected == pre.selected
        &&& post.selected_sub == pre.selected_sub
        &&& post.loading == pre.loading
        &&& post.shape == pre.shape
        &&& post.mod_key == match pre.mod_key {
            Some(waiting) => if waiting.1 <= 1 {
                None
            } else {
                Some((waiting.0, (waiting.1 - 1) as u32))
            },
            None => None,
        }
        &&& match completed {
            Some(Completion::Fetched(list)) => {
                &&& post.modifications == pre.modifications
                &&& post.items() == merge_fetched(
                    pre.items(),
                    pre.modifications@,
                    tasks_view(list@),
                )
            },
            Some(Completion::Submitted(updates)) => {
                &&& post.items() == confirmed_all_items(pre.items(), updates_view(updates@))
                &&& post.modifications@ == confirmed_all_pending(
                    pre.modifications@,
                    updates_view(updates@),
                )
            },
            _ => post.task_items == pre.task_items && post.modifications == pre.modifications,
        }
    }

    /// Whether the completion is the end of a fetch.
    pub open spec fn ends_fetch(completed: Option<Completion>) -> bool {
        completed matches Some(Completion::Fetched(_)) || completed matches Some(
            Completion::FetchFailed,
        )
    }

    /// What `tick` does to the application and what it asks for.
    pub open spec fn tick_post(
        pre: &Habitui,
        post: &Habitui,
        completed: Option<Completion>,
        r: Option<Command>,
    ) -> bool {
        let due = pre.should_refresh_tasks || Self::ends_fetch(completed);
        &&& post.state == pre.state
        &&& if pre.queued@.len() > 0 {
            &&& r == Some(pre.queued@[0])
            &&& post.queued@ == pre.queued@.drop_first()
            &&& post.should_refresh_tasks == due
        } else {
            &&& post.queued@.len() == 0
            &&& !post.should_refresh_tasks
            &&& if due {
                r matches Some(Command::Fetch)
            } else {
                r is None
            }
        }
        &&& Self::tick_grid_post(&pre.grid_state, &post.grid_state, completed)
        &&& match pre.editor_state {
            Some(before) => post.editor_state matches Some(after)
                && EditorState::decay_mod_key_post(&before, &after),
            None => post.editor_state is None,
        }
        &&& post.log_debug == Self::decayed_message(pre.log_debug)
    }

    /// One tick of the application. First what came back from the store is
    /// taken into the grid: a fetched list is merged in, the confirmed
    /// actions are applied and are pending no more, a failed fetch changes
    /// nothing. Then at most one request goes out: the one that has waited
    /// longest, else a fetch where one is due. A fetch is due at the start
    /// and again whenever one has come back. Last a tick passes for the
    /// waiting keys of the grid and of the editor and for the message on
    /// display.
    pub fn tick(&mut self, completed: Option<Completion>) -> (r: Option<Command>)
        ensures
            Self::tick_post(&*old(self), &*final(self), completed, r),
            old(self).wf() ==> final(self).wf(),
    {
        match completed {
            Some(Completion::Fetched(list)) => {
                self.grid_state.merge_fetch(list);
                self.should_refresh_tasks = true;
            },
            Some(Completion::FetchFailed) => {
                self.should_refresh_tasks = true;
            },
            Some(Completion::Submitted(updates)) => {
                self.grid_state.apply_confirmed(updates);
            },
            None => {},
        }
        let command = if self.queued.len() > 0 {
            let first = self.queued.remove(0);
            Some(first)
        } else if self.should_refresh_tasks {
            self.should_refresh_tasks = false;
            Some(Command::Fetch)
        } else {
            None
        };
        match self.editor_state.take() {
            Some(editor) => {
                let mut editor = editor;
                editor.decay_mod_key();
                self.editor_state = Some(editor);
            },
            None => {},
        }
        self.grid_state.decay_mod_key();
        self.decay_debug_msg();
        command
    }
}

} // verus!
