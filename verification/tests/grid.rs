use hutctl::diff::Destructive;
use hutctl::grid::TaskGridState;
use hutctl::keys::{KeyCode, KeyEvent, MOD_KEY_TTL};
use hutctl::layout::{Direction, GridShape, Palette};
use hutctl::types::{Action, ActionKind, Difficulty, SubTask, Task, TaskId};

fn task(id: &str, text: &str) -> Task {
    Task {
        id: TaskId(id.to_string()),
        text: text.to_string(),
        task_type: "todo".to_string(),
        difficulty: Difficulty::EASY,
        notes: None,
        date: None,
        checklist: None,
    }
}

fn grid_of(n: usize) -> TaskGridState {
    let mut grid = TaskGridState::default();
    grid.merge_fetch((0..n).map(|i| task(&format!("id{i}"), &format!("task {i}"))).collect());
    grid
}

fn id(text: &str) -> TaskId {
    TaskId(text.to_string())
}

#[test]
fn select_next_down_from_last_slot_flips_the_page() {
    let mut grid = grid_of(12);
    grid.selected = Some(8);
    grid.page = 0;
    grid.select_next(Direction::DOWN);
    assert_eq!(grid.selected, Some(11));
    assert_eq!(grid.page, 1);
    assert_eq!(grid.selected_sub, None);
}

#[test]
fn select_next_up_flips_the_page_back() {
    let mut grid = grid_of(12);
    grid.selected = Some(10);
    grid.page = 1;
    grid.select_next(Direction::UP);
    assert_eq!(grid.selected, Some(7));
    assert_eq!(grid.page, 0);
}

#[test]
fn select_next_clamps_at_both_ends() {
    let mut grid = grid_of(5);
    grid.selected = Some(0);
    grid.select_next(Direction::LEFT);
    assert_eq!(grid.selected, Some(0));
    grid.select_next(Direction::UP);
    assert_eq!(grid.selected, Some(0));
    grid.selected = Some(4);
    grid.select_next(Direction::RIGHT);
    assert_eq!(grid.selected, Some(4));
    grid.select_next(Direction::DOWN);
    assert_eq!(grid.selected, Some(4));
    assert_eq!(grid.page, 0);
}

#[test]
fn select_next_without_selection_takes_the_first_task_of_the_page() {
    let mut grid = grid_of(12);
    grid.page = 1;
    grid.select_next(Direction::RIGHT);
    assert_eq!(grid.selected, Some(9));
    assert_eq!(grid.page, 1);
    let mut stale = grid_of(3);
    stale.page = 4;
    stale.select_next(Direction::RIGHT);
    assert_eq!(stale.selected, Some(2));
}

#[test]
fn select_next_clears_the_checklist_selection() {
    let mut grid = grid_of(3);
    grid.selected = Some(1);
    grid.selected_sub = Some(2);
    grid.select_next(Direction::RIGHT);
    assert_eq!(grid.selected, Some(2));
    assert_eq!(grid.selected_sub, None);
}

#[test]
fn selection_stays_in_range_on_any_walk() {
    let directions = [Direction::DOWN, Direction::RIGHT, Direction::UP, Direction::LEFT];
    for (width, height) in [(1usize, 1usize), (3, 3), (2, 5), (7, 1)] {
        for len in [1usize, 2, 9, 10, 23] {
            let mut grid = TaskGridState::with_shape(GridShape::new(width, height).unwrap());
            grid.merge_fetch((0..len).map(|i| task(&format!("t{i}"), "x")).collect());
            let mut seed = 12345u64 + (width * 31 + height * 7 + len) as u64;
            for _ in 0..200 {
                seed = seed.wrapping_mul(6364136223846793005).wrapping_add(1442695040888963407);
                grid.select_next(directions[(seed >> 33) as usize % 4]);
                let selected = grid.selected.unwrap();
                assert!(selected < len);
                assert_eq!(grid.page, selected / (width * height));
            }
        }
    }
}

#[test]
fn select_first_and_last() {
    let mut grid = grid_of(12);
    grid.select_last();
    assert_eq!(grid.selected, Some(11));
    assert_eq!(grid.page, 1);
    grid.select_first();
    assert_eq!(grid.selected, Some(0));
    assert_eq!(grid.page, 0);
    let mut full = grid_of(9);
    full.select_last();
    assert_eq!(full.selected, Some(8));
    assert_eq!(full.page, 0);
}

#[test]
fn next_page_and_prev_page() {
    let mut grid = grid_of(12);
    grid.selected = Some(1);
    grid.selected_sub = Some(0);
    grid.next_page();
    assert_eq!(grid.page, 1);
    assert_eq!(grid.selected, Some(10));
    assert_eq!(grid.selected_sub, None);
    grid.next_page();
    assert_eq!(grid.page, 1);
    assert_eq!(grid.selected, Some(10));
    grid.prev_page();
    assert_eq!(grid.page, 0);
    assert_eq!(grid.selected, Some(1));
    grid.prev_page();
    assert_eq!(grid.page, 0);
    assert_eq!(grid.selected, Some(1));
}

#[test]
fn next_page_keeps_the_selection_within_the_list() {
    let mut grid = grid_of(12);
    grid.selected = Some(8);
    grid.next_page();
    assert_eq!(grid.page, 1);
    assert_eq!(grid.selected, Some(11));
}

#[test]
fn select_next_sub_is_a_noop_without_checklist() {
    let mut grid = grid_of(3);
    grid.selected = Some(0);
    grid.select_next_sub();
    assert_eq!(grid.selected_sub, None);
    grid.select_prev_sub();
    assert_eq!(grid.selected_sub, None);
    let mut empty_list = task("a", "a");
    empty_list.checklist = Some(Vec::new());
    let mut grid = TaskGridState::default();
    grid.merge_fetch(vec![empty_list]);
    grid.selected = Some(0);
    grid.select_next_sub();
    assert_eq!(grid.selected_sub, None);
}

fn with_checklist(id: &str, n: usize) -> Task {
    let mut t = task(id, id);
    t.checklist = Some(
        (0..n).map(|i| SubTask { text: format!("item {i}"), completed: false }).collect(),
    );
    t
}

#[test]
fn checklist_selection_wraps() {
    let mut grid = TaskGridState::default();
    grid.merge_fetch(vec![with_checklist("a", 3)]);
    grid.selected = Some(0);
    grid.select_next_sub();
    assert_eq!(grid.selected_sub, Some(0));
    grid.select_next_sub();
    grid.select_next_sub();
    assert_eq!(grid.selected_sub, Some(2));
    grid.select_next_sub();
    assert_eq!(grid.selected_sub, Some(0));
    grid.select_prev_sub();
    assert_eq!(grid.selected_sub, Some(2));
    grid.select_prev_sub();
    assert_eq!(grid.selected_sub, Some(1));
    grid.selected_sub = None;
    grid.select_prev_sub();
    assert_eq!(grid.selected_sub, Some(0));
}

#[test]
fn toggle_complete_twice_cancels() {
    let mut grid = grid_of(3);
    grid.upsert_modified(id("id1"), Action::ToggleComplete);
    assert!(grid.modifications.get(&id("id1")).unwrap().contains(ActionKind::ToggleComplete));
    grid.upsert_modified(id("id1"), Action::ToggleComplete);
    assert!(grid.modifications.get(&id("id1")).is_none());
    assert!(grid.modifications.is_empty());
}

#[test]
fn toggle_complete_twice_keeps_the_other_slots() {
    let mut grid = grid_of(3);
    grid.upsert_modified(id("id1"), Action::Reorder((1, 2)));
    grid.upsert_modified(id("id1"), Action::ToggleComplete);
    grid.upsert_modified(id("id1"), Action::ToggleComplete);
    let diff = grid.modifications.get(&id("id1")).unwrap();
    assert_eq!(diff.reorder, Some((1, 2)));
    assert_eq!(diff.destructive, None);
    assert!(diff.edit.is_none());
    assert_eq!(grid.modifications.len(), 1);
}

#[test]
fn remove_replaces_toggle_complete() {
    let mut grid = grid_of(3);
    grid.upsert_modified(id("id0"), Action::ToggleComplete);
    grid.upsert_modified(id("id0"), Action::Remove);
    let diff = grid.modifications.get(&id("id0")).unwrap();
    assert_eq!(diff.destructive, Some(Destructive::Remove));
    assert!(diff.contains(ActionKind::Remove));
    assert!(!diff.contains(ActionKind::ToggleComplete));
    let sent = diff.to_send();
    assert_eq!(sent.len(), 1);
    assert!(matches!(sent[0], Action::Remove));
}

#[test]
fn reorder_there_and_back_leaves_no_reorder() {
    let mut grid = grid_of(5);
    grid.upsert_modified(id("id2"), Action::Reorder((2, 4)));
    assert_eq!(grid.modifications.get(&id("id2")).unwrap().reorder, Some((2, 4)));
    grid.upsert_modified(id("id2"), Action::Reorder((4, 2)));
    assert!(grid.modifications.get(&id("id2")).is_none());
}

#[test]
fn reorders_compose_and_keep_the_origin() {
    let mut grid = grid_of(5);
    grid.upsert_modified(id("id0"), Action::Reorder((0, 1)));
    grid.upsert_modified(id("id0"), Action::Reorder((1, 3)));
    assert_eq!(grid.modifications.get(&id("id0")).unwrap().reorder, Some((0, 3)));
    grid.upsert_modified(id("id0"), Action::ToggleComplete);
    grid.upsert_modified(id("id0"), Action::Reorder((3, 0)));
    let diff = grid.modifications.get(&id("id0")).unwrap();
    assert_eq!(diff.reorder, None);
    assert_eq!(diff.destructive, Some(Destructive::ToggleComplete));
}

#[test]
fn noop_edit_leaves_no_pending_edit() {
    let mut grid = grid_of(3);
    grid.upsert_modified(id("id1"), Action::Edit(task("id1", "task 1")));
    assert!(grid.modifications.get(&id("id1")).is_none());
    grid.upsert_modified(id("id1"), Action::Edit(task("id1", "changed")));
    assert_eq!(grid.modifications.get(&id("id1")).unwrap().edit, Some(task("id1", "changed")));
    grid.upsert_modified(id("id1"), Action::Edit(task("id1", "changed again")));
    assert_eq!(
        grid.modifications.get(&id("id1")).unwrap().edit,
        Some(task("id1", "changed again"))
    );
    grid.upsert_modified(id("id1"), Action::Edit(task("id1", "task 1")));
    assert!(grid.modifications.get(&id("id1")).is_none());
}

#[test]
fn noop_edit_keeps_the_other_slots() {
    let mut grid = grid_of(3);
    grid.upsert_modified(id("id1"), Action::Remove);
    grid.upsert_modified(id("id1"), Action::Edit(task("id1", "changed")));
    grid.upsert_modified(id("id1"), Action::Edit(task("id1", "task 1")));
    let diff = grid.modifications.get(&id("id1")).unwrap();
    assert!(diff.edit.is_none());
    assert_eq!(diff.destructive, Some(Destructive::Remove));
}

#[test]
fn upsert_create_sets_the_creation_slot() {
    let mut grid = grid_of(1);
    grid.upsert_modified(id("new"), Action::Create);
    let diff = grid.modifications.get(&id("new")).unwrap();
    assert!(diff.create);
    assert!(diff.contains(ActionKind::Create));
    assert!(diff.to_send().is_empty());
}

#[test]
fn effective_view_overlays_the_pending_edit() {
    let mut grid = grid_of(3);
    grid.upsert_modified(id("id1"), Action::Edit(task("id1", "edited")));
    let all = grid.get_all_items();
    assert_eq!(all.len(), 3);
    assert_eq!(all[0].text, "task 0");
    assert_eq!(all[1].text, "edited");
    assert_eq!(grid.task_items[1].text, "task 1");
    assert_eq!(grid.effective_at(1).unwrap().text, "edited");
    assert!(grid.effective_at(3).is_none());
    grid.selected = Some(1);
    assert_eq!(grid.get_selected().unwrap().text, "edited");
    grid.selected = Some(7);
    assert!(grid.get_selected().is_none());
}

#[test]
fn mark_item_completed_toggles_the_whole_task() {
    let mut grid = grid_of(3);
    grid.mark_item_completed();
    assert!(grid.modifications.is_empty());
    grid.selected = Some(2);
    grid.mark_item_completed();
    assert_eq!(
        grid.modifications.get(&id("id2")).unwrap().destructive,
        Some(Destructive::ToggleComplete)
    );
    assert!(grid.is_marked_completed(2));
    assert!(!grid.is_marked_completed(1));
    grid.mark_item_completed();
    assert!(grid.modifications.is_empty());
}

#[test]
fn mark_item_completed_toggles_the_selected_checklist_entry() {
    let mut grid = TaskGridState::default();
    grid.merge_fetch(vec![with_checklist("a", 2)]);
    grid.selected = Some(0);
    grid.selected_sub = Some(1);
    grid.mark_item_completed();
    let edited = grid.modifications.get(&id("a")).unwrap().edit.clone().unwrap();
    let list = edited.checklist.unwrap();
    assert!(!list[0].completed);
    assert!(list[1].completed);
    assert_eq!(list[1].text, "item 1");
    grid.mark_item_completed();
    assert!(grid.modifications.is_empty());
    grid.selected_sub = Some(5);
    grid.mark_item_completed();
    assert!(grid.modifications.is_empty());
}

#[test]
fn mark_item_removed_toggles_the_removal() {
    let mut grid = grid_of(3);
    grid.selected = Some(0);
    grid.mark_item_removed();
    assert_eq!(grid.modifications.get(&id("id0")).unwrap().destructive, Some(Destructive::Remove));
    grid.mark_item_removed();
    assert!(grid.modifications.is_empty());
}

#[test]
fn move_task_relocates_and_records_the_move() {
    let mut grid = grid_of(5);
    grid.selected = Some(1);
    grid.move_task(Direction::RIGHT);
    assert_eq!(grid.selected, Some(2));
    let order: Vec<&str> = grid.task_items.iter().map(|t| t.text.as_str()).collect();
    assert_eq!(order, ["task 0", "task 2", "task 1", "task 3", "task 4"]);
    assert_eq!(grid.modifications.get(&id("id1")).unwrap().reorder, Some((1, 2)));
    grid.move_task(Direction::RIGHT);
    assert_eq!(grid.modifications.get(&id("id1")).unwrap().reorder, Some((1, 3)));
    grid.move_task(Direction::LEFT);
    grid.move_task(Direction::LEFT);
    assert!(grid.modifications.is_empty());
    let order: Vec<&str> = grid.task_items.iter().map(|t| t.text.as_str()).collect();
    assert_eq!(order, ["task 0", "task 1", "task 2", "task 3", "task 4"]);
}

#[test]
fn move_task_without_selection_does_nothing() {
    let mut grid = grid_of(3);
    grid.move_task(Direction::DOWN);
    assert_eq!(grid.selected, None);
    assert!(grid.modifications.is_empty());
    grid.selected = Some(9);
    grid.move_task(Direction::DOWN);
    assert_eq!(grid.selected, Some(9));
    assert!(grid.modifications.is_empty());
}

#[test]
fn merge_fetch_adopts_the_first_list() {
    let mut grid = TaskGridState::default();
    grid.merge_fetch(vec![task("b", "B"), task("a", "A")]);
    let order: Vec<&str> = grid.task_items.iter().map(|t| t.text.as_str()).collect();
    assert_eq!(order, ["B", "A"]);
}

#[test]
fn merge_fetch_replaces_known_and_inserts_new() {
    let mut grid = grid_of(2);
    grid.merge_fetch(vec![task("id1", "fresh 1"), task("new", "brand new")]);
    let order: Vec<&str> = grid.task_items.iter().map(|t| t.text.as_str()).collect();
    assert_eq!(order, ["brand new", "task 0", "fresh 1"]);
}

#[test]
fn merge_fetch_never_overwrites_a_pending_task() {
    let mut grid = grid_of(3);
    grid.upsert_modified(id("id1"), Action::ToggleComplete);
    grid.upsert_modified(id("id2"), Action::Edit(task("id2", "mine")));
    grid.merge_fetch(vec![
        task("id0", "remote 0"),
        task("id1", "remote 1"),
        task("id2", "remote 2"),
        task("id9", "remote 9"),
    ]);
    let order: Vec<&str> = grid.task_items.iter().map(|t| t.text.as_str()).collect();
    assert_eq!(order, ["remote 9", "remote 0", "task 1", "task 2"]);
    assert_eq!(grid.modifications.len(), 2);
    assert_eq!(grid.modifications.get(&id("id2")).unwrap().edit, Some(task("id2", "mine")));
}

#[test]
fn apply_confirmed_follows_each_action() {
    let mut grid = grid_of(4);
    grid.upsert_modified(id("id1"), Action::Remove);
    grid.upsert_modified(id("id2"), Action::Edit(task("id2", "mine")));
    grid.upsert_modified(id("id2"), Action::Reorder((2, 3)));
    grid.upsert_modified(id("id3"), Action::ToggleComplete);
    grid.apply_confirmed(vec![
        (task("id1", "task 1"), Action::Remove),
        (task("id2", "stored"), Action::Edit(task("id2", "stored"))),
        (task("made", "created"), Action::Create),
    ]);
    let order: Vec<&str> = grid.task_items.iter().map(|t| t.text.as_str()).collect();
    assert_eq!(order, ["created", "task 0", "stored", "task 3"]);
    assert!(grid.modifications.get(&id("id1")).is_none());
    let second = grid.modifications.get(&id("id2")).unwrap();
    assert!(second.edit.is_none());
    assert_eq!(second.reorder, Some((2, 3)));
    assert_eq!(
        grid.modifications.get(&id("id3")).unwrap().destructive,
        Some(Destructive::ToggleComplete)
    );
}

#[test]
fn mod_key_waits_and_decays() {
    let mut grid = grid_of(1);
    let g = KeyEvent::plain(KeyCode::Char('g'));
    grid.add_mod_key(g);
    assert_eq!(grid.mod_key, Some((g, MOD_KEY_TTL)));
    assert_eq!(MOD_KEY_TTL, 50);
    grid.decay_mod_key();
    assert_eq!(grid.mod_key, Some((g, 49)));
    for _ in 0..48 {
        grid.decay_mod_key();
    }
    assert_eq!(grid.mod_key, Some((g, 1)));
    grid.decay_mod_key();
    assert_eq!(grid.mod_key, None);
    grid.add_mod_key(g);
    assert_eq!(grid.pop_mod_key(), Some(g));
    assert_eq!(grid.pop_mod_key(), None);
}

#[test]
fn cells_map_to_tasks_and_colours() {
    let mut grid = grid_of(12);
    assert_eq!(grid.cell_task(0, 0), Some(0));
    assert_eq!(grid.cell_task(1, 2), Some(5));
    assert_eq!(grid.cell_task(2, 2), Some(8));
    assert_eq!(grid.cell_task(3, 0), None);
    assert_eq!(grid.cell_task(0, 3), None);
    grid.page = 1;
    assert_eq!(grid.cell_task(0, 2), Some(11));
    assert_eq!(grid.cell_task(1, 0), None);
    grid.selected = Some(0);
    grid.upsert_modified(id("id1"), Action::Remove);
    grid.upsert_modified(id("id2"), Action::ToggleComplete);
    grid.upsert_modified(id("id0"), Action::Remove);
    assert_eq!(grid.cell_colour(0), Palette::GREEN);
    assert_eq!(grid.cell_colour(1), Palette::RED);
    assert_eq!(grid.cell_colour(2), Palette::YELLOW);
    assert_eq!(grid.cell_colour(3), Palette::BG2);
    assert_eq!(Palette::GREEN.rgb(), 0x00e3f2c4);
    assert_eq!(Palette::CURSOR.rgb(), 0x00ff6900);
}

#[test]
fn line_offset_of_the_selected_checklist_entry() {
    let mut t = with_checklist("a", 3);
    t.notes = Some("n".to_string());
    let mut grid = TaskGridState::default();
    grid.merge_fetch(vec![t, with_checklist("b", 1)]);
    grid.selected = Some(0);
    assert_eq!(grid.get_line_offset_selected_sub(), None);
    grid.selected_sub = Some(1);
    assert_eq!(grid.get_line_offset_selected_sub(), Some(3));
    grid.selected = Some(1);
    grid.selected_sub = Some(0);
    assert_eq!(grid.get_line_offset_selected_sub(), Some(1));
}

#[test]
fn grid_shape_needs_a_cell() {
    assert!(GridShape::new(0, 3).is_none());
    assert!(GridShape::new(3, 0).is_none());
    assert!(GridShape::new(usize::MAX, 2).is_none());
    let shape = GridShape::new(4, 2).unwrap();
    assert_eq!((shape.columns(), shape.rows(), shape.page_size()), (4, 2, 8));
    let standard = GridShape::default();
    assert_eq!((standard.columns(), standard.rows(), standard.page_size()), (3, 3, 9));
}

#[test]
fn an_empty_list_has_nothing_to_select() {
    let mut grid = TaskGridState::default();
    grid.select_next(Direction::DOWN);
    assert_eq!(grid.selected, Some(0));
    assert!(grid.get_selected().is_none());
    assert!(grid.get_selected_checklist().is_none());
    grid.select_last();
    assert_eq!((grid.selected, grid.page), (Some(0), 0));
    grid.select_first();
    assert_eq!((grid.selected, grid.page), (Some(0), 0));
    grid.mark_item_completed();
    grid.mark_item_removed();
    grid.move_task(Direction::RIGHT);
    grid.select_next_sub();
    grid.next_page();
    grid.prev_page();
    assert!(grid.modifications.is_empty());
    assert!(grid.task_items.is_empty());
    assert_eq!(grid.selected_sub, None);
    assert_eq!(grid.cell_task(0, 0), None);
    assert!(grid.get_all_items().is_empty());
}

#[test]
fn pending_changes_by_id() {
    let mut grid = grid_of(3);
    grid.upsert_modified(id("id0"), Action::Remove);
    grid.upsert_modified(id("id2"), Action::Reorder((2, 1)));
    assert!(grid.modifications.contains_key(&id("id0")));
    assert!(!grid.modifications.contains_key(&id("id1")));
    assert_eq!(grid.modifications.len(), 2);
    let (first, diff) = grid.modifications.entry(0);
    assert_eq!(first, &id("id0"));
    assert_eq!(diff.destructive, Some(Destructive::Remove));
    assert_eq!(grid.modifications.entry(1).0, &id("id2"));
    let copy = grid.modifications.clone();
    grid.modifications.discard(&id("id0"), ActionKind::ToggleComplete);
    assert_eq!(grid.modifications.len(), 2);
    grid.modifications.discard(&id("id0"), ActionKind::Remove);
    assert_eq!(grid.modifications.len(), 1);
    grid.modifications.discard(&id("nobody"), ActionKind::Edit);
    assert_eq!(grid.modifications.len(), 1);
    grid.modifications.clear();
    assert!(grid.modifications.is_empty());
    assert_eq!(copy.len(), 2);
    assert_eq!(copy.get(&id("id2")).unwrap().reorder, Some((2, 1)));
}

#[test]
fn find_task_gives_the_first_with_the_id() {
    let mut grid = TaskGridState::default();
    grid.merge_fetch(vec![task("a", "first"), task("b", "B"), task("a", "second")]);
    assert_eq!(grid.find_task(&id("a")), Some(0));
    assert_eq!(grid.find_task(&id("b")), Some(1));
    assert_eq!(grid.find_task(&id("c")), None);
}
