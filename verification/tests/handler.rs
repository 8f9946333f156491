use hutctl::app::{AppState, Command, Completion, Habitui, Outcome, TaskPlan};
use hutctl::app::task_update;
use hutctl::diff::Destructive;
use hutctl::editor::EditorMode;
use hutctl::handler::handle_key_events;
use hutctl::keys::{KeyCode, KeyEvent, KeyModifiers};
use hutctl::types::{Action, Difficulty, SubTask, Task, TaskId};

fn task(id: &str, text: &str) -> Task {
    Task {
        id: TaskId(id.to_string()),
        text: text.to_string(),
        task_type: "todo".to_string(),
        difficulty: Difficulty::EASY,
        notes: None,
        date: None,
        checklist: None,
    }
}

fn app_with(n: usize) -> Habitui {
    let mut app = Habitui::default();
    let tasks = (0..n).map(|i| task(&format!("id{i}"), &format!("task {i}"))).collect();
    app.grid_state.merge_fetch(tasks);
    app
}

fn press(app: &mut Habitui, c: char) {
    handle_key_events(KeyEvent::plain(KeyCode::Char(c)), app).unwrap()
}

fn press_code(app: &mut Habitui, code: KeyCode) {
    handle_key_events(KeyEvent::plain(code), app).unwrap()
}

fn press_with(app: &mut Habitui, c: char, modifiers: KeyModifiers) {
    handle_key_events(KeyEvent { code: KeyCode::Char(c), modifiers }, app).unwrap()
}

fn id(text: &str) -> TaskId {
    TaskId(text.to_string())
}

#[test]
fn control_c_exits_everywhere() {
    let mut app = app_with(1);
    assert!(app.is_running());
    press_with(&mut app, 'c', KeyModifiers::control());
    assert_eq!(app.state, AppState::Exit);
    assert!(app.queued.is_empty());
    assert!(!app.is_running());
    let mut app = app_with(1);
    press(&mut app, 'a');
    assert_eq!(app.state, AppState::Editor);
    press_with(&mut app, 'C', KeyModifiers::control());
    assert_eq!(app.state, AppState::Exit);
}

#[test]
fn q_and_escape_exit_the_list() {
    let mut app = app_with(1);
    press(&mut app, 'q');
    assert_eq!(app.state, AppState::Exit);
    let mut app = app_with(1);
    press_code(&mut app, KeyCode::Esc);
    assert_eq!(app.state, AppState::Exit);
}

#[test]
fn vim_keys_move_the_selection() {
    let mut app = app_with(12);
    press(&mut app, 'l');
    assert_eq!(app.grid_state.selected, Some(0));
    press(&mut app, 'l');
    press(&mut app, 'j');
    assert_eq!(app.grid_state.selected, Some(4));
    press(&mut app, 'h');
    press(&mut app, 'k');
    assert_eq!(app.grid_state.selected, Some(0));
    press(&mut app, 'G');
    assert_eq!(app.grid_state.selected, Some(11));
    assert_eq!(app.grid_state.page, 1);
    press(&mut app, 'g');
    assert_eq!(app.grid_state.selected, Some(11));
    assert!(app.grid_state.mod_key.is_some());
    press(&mut app, 'g');
    assert_eq!(app.grid_state.selected, Some(0));
    assert_eq!(app.grid_state.page, 0);
    assert!(app.grid_state.mod_key.is_none());
    press(&mut app, 'J');
    assert_eq!(app.grid_state.page, 1);
    assert_eq!(app.grid_state.selected, Some(9));
    press(&mut app, 'K');
    assert_eq!(app.grid_state.page, 0);
    assert_eq!(app.grid_state.selected, Some(0));
}

#[test]
fn alt_moves_the_task_and_control_moves_in_the_checklist() {
    let mut app = Habitui::default();
    let mut first = task("a", "A");
    first.checklist = Some(vec![
        SubTask { text: "one".to_string(), completed: false },
        SubTask { text: "two".to_string(), completed: false },
    ]);
    app.grid_state.merge_fetch(vec![first, task("b", "B"), task("c", "C")]);
    press(&mut app, 'l');
    press_with(&mut app, 'j', KeyModifiers::control());
    assert_eq!(app.grid_state.selected_sub, Some(0));
    press_with(&mut app, 'k', KeyModifiers::control());
    assert_eq!(app.grid_state.selected_sub, Some(1));
    press_with(&mut app, 'l', KeyModifiers::alt());
    assert_eq!(app.grid_state.selected, Some(1));
    assert_eq!(app.grid_state.task_items[1].text, "A");
    assert_eq!(app.grid_state.modifications.get(&id("a")).unwrap().reorder, Some((0, 1)));
    press_with(&mut app, 'h', KeyModifiers::alt());
    assert!(app.grid_state.modifications.is_empty());
}

#[test]
fn space_and_d_mark_the_selected_task() {
    let mut app = app_with(3);
    press(&mut app, 'l');
    press(&mut app, ' ');
    assert_eq!(
        app.grid_state.modifications.get(&id("id0")).unwrap().destructive,
        Some(Destructive::ToggleComplete)
    );
    press(&mut app, 'd');
    assert_eq!(
        app.grid_state.modifications.get(&id("id0")).unwrap().destructive,
        Some(Destructive::Remove)
    );
    press(&mut app, 'd');
    assert!(app.grid_state.modifications.is_empty());
}

#[test]
fn enter_sends_the_pending_changes() {
    let mut app = app_with(3);
    press_code(&mut app, KeyCode::Enter);
    assert!(app.queued.is_empty());
    app.grid_state.upsert_modified(id("id2"), Action::Remove);
    app.grid_state.upsert_modified(id("id2"), Action::Reorder((2, 0)));
    app.grid_state.upsert_modified(id("id0"), Action::Edit(task("id0", "edited")));
    app.grid_state.upsert_modified(id("gone"), Action::Remove);
    press_code(&mut app, KeyCode::Enter);
    assert_eq!(app.queued.len(), 1);
    let plans = match app.queued.pop() {
        Some(Command::Submit(plans)) => plans,
        other => panic!("{:?}", other),
    };
    assert_eq!(plans.len(), 2);
    assert_eq!(plans[0].task, task("id2", "task 2"));
    assert_eq!(plans[0].actions.len(), 2);
    assert!(matches!(plans[0].actions[0], Action::Reorder((2, 0))));
    assert!(matches!(plans[0].actions[1], Action::Remove));
    assert_eq!(plans[1].task, task("id0", "task 0"));
    assert!(matches!(&plans[1].actions[0], Action::Edit(t) if t.text == "edited"));
    assert_eq!(app.grid_state.modifications.len(), 3);
}

#[test]
fn a_opens_the_editor_for_a_new_task() {
    let mut app = app_with(1);
    press(&mut app, 'a');
    assert_eq!(app.state, AppState::Editor);
    let editor = app.editor_state.as_ref().unwrap();
    assert_eq!(editor.mode, EditorMode::Insert);
    assert_eq!(editor.task, Task::default());
    assert!(app.is_well_formed());
}

#[test]
fn e_opens_the_editor_for_the_selected_task_as_the_user_sees_it() {
    let mut app = app_with(2);
    press(&mut app, 'e');
    assert_eq!(app.state, AppState::List);
    assert!(app.editor_state.is_none());
    app.grid_state.upsert_modified(id("id1"), Action::Edit(task("id1", "edited")));
    app.grid_state.selected = Some(1);
    press(&mut app, 'e');
    assert_eq!(app.state, AppState::Editor);
    assert_eq!(app.editor_state.as_ref().unwrap().task.text, "edited");
    assert_eq!(app.editor_state.as_ref().unwrap().mode, EditorMode::Normal);
}

#[test]
fn editing_a_task_through_the_keys() {
    let mut app = Habitui::default();
    app.grid_state.merge_fetch(vec![task("milk", "Buy milk")]);
    press(&mut app, 'l');
    press(&mut app, 'e');
    press(&mut app, 'o');
    for c in "Buy eggs".chars() {
        press(&mut app, c);
    }
    press_code(&mut app, KeyCode::Esc);
    assert_eq!(app.state, AppState::Editor);
    assert_eq!(app.editor_state.as_ref().unwrap().mode, EditorMode::Normal);
    assert!(app.queued.is_empty());
    press_code(&mut app, KeyCode::Enter);
    assert_eq!(app.state, AppState::List);
    assert!(app.editor_state.is_none());
    match app.queued.pop() {
        Some(Command::Edit(sent)) => {
            assert_eq!(sent.id, id("milk"));
            assert_eq!(
                sent.checklist,
                Some(vec![SubTask { text: "Buy eggs".to_string(), completed: false }])
            );
        },
        other => panic!("{:?}", other),
    }
}

#[test]
fn creating_a_task_through_the_keys() {
    let mut app = app_with(0);
    press(&mut app, 'a');
    for c in "Water plants".chars() {
        press(&mut app, c);
    }
    press_code(&mut app, KeyCode::Tab);
    for c in "twice".chars() {
        press(&mut app, c);
    }
    press(&mut app, 'j');
    press(&mut app, 'j');
    let editor = app.editor_state.as_ref().unwrap();
    assert_eq!(editor.mode, EditorMode::Normal);
    assert_eq!(editor.task.text, "Water plants");
    assert_eq!(editor.task.notes, Some("twice".to_string()));
    press(&mut app, '+');
    press_code(&mut app, KeyCode::Enter);
    match app.queued.pop() {
        Some(Command::Create(sent)) => {
            assert!(sent.id.is_empty());
            assert_eq!(sent.text, "Water plants");
            assert_eq!(sent.difficulty, Difficulty::MEDIUM);
        },
        other => panic!("{:?}", other),
    }
    assert_eq!(app.state, AppState::List);
}

#[test]
fn enter_in_the_editor_needs_a_change() {
    let mut app = app_with(1);
    press(&mut app, 'l');
    press(&mut app, 'e');
    press_code(&mut app, KeyCode::Enter);
    assert!(app.queued.is_empty());
    assert_eq!(app.state, AppState::Editor);
    press(&mut app, 'q');
    assert_eq!(app.state, AppState::List);
    assert!(app.editor_state.is_none());
    assert!(app.is_well_formed());
}

#[test]
fn normal_mode_keys() {
    let mut app = Habitui::default();
    let mut t = task("a", "alpha beta");
    t.checklist = Some(vec![SubTask { text: "one two".to_string(), completed: false }]);
    app.grid_state.merge_fetch(vec![t]);
    press(&mut app, 'l');
    press(&mut app, 'e');
    press(&mut app, 'j');
    press(&mut app, 'j');
    press(&mut app, 'j');
    assert_eq!(app.editor_state.as_ref().unwrap().focus, Some(2));
    press(&mut app, 'k');
    assert_eq!(app.editor_state.as_ref().unwrap().focus, Some(1));
    press(&mut app, 'k');
    press(&mut app, 'k');
    assert_eq!(app.editor_state.as_ref().unwrap().focus, Some(0));
    press(&mut app, 'c');
    press(&mut app, 'w');
    {
        let editor = app.editor_state.as_ref().unwrap();
        assert_eq!(editor.mode, EditorMode::Insert);
        assert_eq!(editor.field_text_at(0).unwrap(), "beta");
        assert_eq!(editor.dirty_fields, [0]);
        assert!(editor.is_modified);
    }
    press_code(&mut app, KeyCode::Esc);
    assert_eq!(app.editor_state.as_ref().unwrap().task.text, "beta");
    press(&mut app, 'd');
    assert!(app.editor_state.as_ref().unwrap().mod_key.is_some());
    press(&mut app, 'd');
    {
        let editor = app.editor_state.as_ref().unwrap();
        assert_eq!(editor.field_text_at(0).unwrap(), "");
        assert_eq!(editor.task.text, "");
        assert_eq!(editor.mode, EditorMode::Normal);
        assert!(editor.mod_key.is_none());
    }
    press_with(&mut app, 'l', KeyModifiers::control());
    assert_eq!(app.editor_state.as_ref().unwrap().mode, EditorMode::Calendar);
    press_with(&mut app, 'h', KeyModifiers::control());
    assert_eq!(app.editor_state.as_ref().unwrap().mode, EditorMode::Normal);
    press(&mut app, 'i');
    assert_eq!(app.editor_state.as_ref().unwrap().mode, EditorMode::Insert);
}

#[test]
fn insert_mode_enter_moves_on_and_opens_a_new_entry_at_the_end() {
    let mut app = app_with(1);
    press(&mut app, 'a');
    press_code(&mut app, KeyCode::Enter);
    assert_eq!(app.editor_state.as_ref().unwrap().focus, Some(1));
    press_code(&mut app, KeyCode::Enter);
    {
        let editor = app.editor_state.as_ref().unwrap();
        assert_eq!(editor.focus, Some(2));
        assert_eq!(editor.fields.len(), 3);
    }
    handle_key_events(KeyEvent { code: KeyCode::Tab, modifiers: KeyModifiers::shift() }, &mut app)
        .unwrap();
    assert_eq!(app.editor_state.as_ref().unwrap().focus, Some(1));
}

#[test]
fn calendar_mode_keys() {
    let mut app = app_with(1);
    press(&mut app, 'l');
    press(&mut app, 'e');
    press_with(&mut app, 'l', KeyModifiers::control());
    press(&mut app, 'l');
    let first = app.editor_state.as_ref().unwrap().date_focus.unwrap();
    press(&mut app, 'j');
    press(&mut app, 'h');
    press(&mut app, 'k');
    let last = app.editor_state.as_ref().unwrap().date_focus.unwrap();
    assert_eq!(last.unix_nanos + 86_400_000_000_000, first.unix_nanos);
    press_code(&mut app, KeyCode::Enter);
    assert!(app.queued.is_empty());
    press(&mut app, ' ');
    {
        let editor = app.editor_state.as_ref().unwrap();
        assert_eq!(editor.task.date, editor.date_focus);
        assert!(editor.is_modified);
    }
    press(&mut app, 'x');
    assert_eq!(app.editor_state.as_ref().unwrap().task.date, None);
    press(&mut app, '-');
    assert_eq!(app.editor_state.as_ref().unwrap().task.difficulty, Difficulty::TRIVIAL);
    press_code(&mut app, KeyCode::Enter);
    assert!(matches!(app.queued.pop(), Some(Command::Edit(_))));
    assert_eq!(app.state, AppState::List);
}

#[test]
fn tick_asks_for_one_fetch_at_a_time() {
    let mut app = Habitui::default();
    assert!(app.should_refresh_tasks);
    assert!(matches!(app.tick(None), Some(Command::Fetch)));
    assert!(!app.should_refresh_tasks);
    assert!(app.tick(None).is_none());
    assert!(app.tick(Some(Completion::Submitted(Vec::new()))).is_none());
    assert!(!app.should_refresh_tasks);
    assert!(matches!(
        app.tick(Some(Completion::Fetched(vec![task("a", "A")]))),
        Some(Command::Fetch)
    ));
    assert!(!app.should_refresh_tasks);
    assert_eq!(app.grid_state.task_items.len(), 1);
    assert!(app.tick(None).is_none());
    assert!(matches!(app.tick(Some(Completion::FetchFailed)), Some(Command::Fetch)));
    assert_eq!(app.grid_state.task_items.len(), 1);
}

#[test]
fn tick_sends_one_waiting_request_at_a_time_before_it_fetches() {
    let mut app = app_with(2);
    app.handle_submit_task(task("", "new"));
    app.grid_state.upsert_modified(id("id1"), Action::Remove);
    app.handle_submit_modifications();
    assert_eq!(app.queued.len(), 2);
    assert!(matches!(app.tick(None), Some(Command::Create(_))));
    assert!(app.should_refresh_tasks);
    assert!(matches!(app.tick(None), Some(Command::Submit(_))));
    assert!(app.queued.is_empty());
    assert!(matches!(app.tick(None), Some(Command::Fetch)));
    assert!(app.tick(None).is_none());
}

#[test]
fn tick_takes_in_what_was_confirmed_and_decays_the_waiting_keys() {
    let mut app = app_with(2);
    app.grid_state.upsert_modified(id("id0"), Action::Remove);
    app.grid_state.upsert_modified(id("id1"), Action::ToggleComplete);
    press(&mut app, 'g');
    app.log_debug = Some(("hello".to_string(), 2));
    app.tick(Some(Completion::Submitted(vec![(task("id0", "task 0"), Action::Remove)])));
    assert_eq!(app.grid_state.task_items.len(), 1);
    assert_eq!(app.grid_state.modifications.len(), 1);
    assert_eq!(app.grid_state.mod_key.unwrap().1, 49);
    assert_eq!(app.log_debug, Some(("hello".to_string(), 1)));
    app.tick(None);
    assert_eq!(app.log_debug, None);
}

#[test]
fn a_plan_reports_what_the_store_confirmed() {
    let plan = TaskPlan {
        task: task("a", "stored"),
        actions: vec![Action::Edit(task("a", "mine")), Action::Reorder((0, 2)), Action::Remove],
    };
    let all = plan.confirmed(&vec![
        Outcome::ConfirmedWith(task("a", "answer")),
        Outcome::Failed,
        Outcome::Confirmed,
    ]);
    assert_eq!(all.len(), 2);
    assert_eq!(all[0].0, task("a", "answer"));
    assert!(matches!(&all[0].1, Action::Edit(t) if t.text == "answer"));
    assert_eq!(all[1].0, task("a", "answer"));
    assert!(matches!(all[1].1, Action::Remove));
    let none = plan.confirmed(&vec![Outcome::Failed]);
    assert!(none.is_empty());
    let short = plan.confirmed(&vec![Outcome::Failed, Outcome::ConfirmedWith(task("a", "x"))]);
    assert_eq!(short.len(), 1);
    assert_eq!(short[0].0, task("a", "stored"));
    assert!(matches!(short[0].1, Action::Reorder((0, 2))));
}

#[test]
fn a_submitted_task_is_created_or_edited() {
    let mut app = Habitui::default();
    app.handle_submit_task(task("", "new"));
    app.handle_submit_task(task("a", "old"));
    assert!(matches!(&app.queued[0], Command::Create(t) if t.text == "new"));
    assert!(matches!(&app.queued[1], Command::Edit(t) if t.text == "old"));
    let created = task_update(task("", "new"), task("srv", "new"));
    assert_eq!(created.len(), 1);
    assert_eq!(created[0].0.id, id("srv"));
    assert!(matches!(created[0].1, Action::Create));
    let edited = task_update(task("a", "mine"), task("a", "theirs"));
    assert_eq!(edited[0].0.text, "theirs");
    assert!(matches!(&edited[0].1, Action::Edit(t) if t.text == "mine"));
}

#[test]
fn word_keys_move_the_text_cursor_and_change_words() {
    let mut app = Habitui::default();
    app.grid_state.merge_fetch(vec![task("a", "one two three")]);
    press(&mut app, 'l');
    press(&mut app, 'e');
    let cursor = |app: &Habitui| app.editor_state.as_ref().unwrap().field_cursor_at(0).unwrap();
    let text = |app: &Habitui| app.editor_state.as_ref().unwrap().field_text_at(0).unwrap();
    press(&mut app, 'w');
    assert_eq!(cursor(&app), (0, 4));
    press(&mut app, 'w');
    assert_eq!(cursor(&app), (0, 8));
    press(&mut app, 'b');
    assert_eq!(cursor(&app), (0, 4));
    press(&mut app, 'a');
    assert_eq!(cursor(&app), (0, 5));
    assert_eq!(app.editor_state.as_ref().unwrap().mode, EditorMode::Insert);
    press_code(&mut app, KeyCode::Esc);
    press(&mut app, 'c');
    press(&mut app, 'b');
    assert_eq!(text(&app), "one wo three");
    assert_eq!(cursor(&app), (0, 4));
    assert_eq!(app.editor_state.as_ref().unwrap().mode, EditorMode::Insert);
    press_code(&mut app, KeyCode::Esc);
    press(&mut app, 'c');
    press(&mut app, 'w');
    assert_eq!(text(&app), "one three");
    assert_eq!(cursor(&app), (0, 4));
    press_code(&mut app, KeyCode::Esc);
    press(&mut app, 'h');
    press(&mut app, 'd');
    press(&mut app, 'd');
    assert_eq!(text(&app), "");
    assert_eq!(cursor(&app), (0, 0));
    assert_eq!(app.editor_state.as_ref().unwrap().task.text, "");
}
