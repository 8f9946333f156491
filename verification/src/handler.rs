//! What each key does: in the list, and in the three modes of the editor.

use vstd::prelude::*;
use crate::app::{AppState, Habitui};
use crate::editor::{same_except, synced, EditorMode, EditorState};
use crate::error::AppError;
use crate::fields::{cursor_moved, line_cut, word_cut, Field};
use crate::grid::{Cursor, TaskGridState};
use crate::keys::{CursorMove, KeyCode, KeyEvent, MOD_KEY_TTL};
use crate::layout::Direction;

verus! {

/// What a key pressed in the editor asks of the application.
#[derive(Debug, PartialEq, Eq, Structural, Clone, Copy)]
pub enum EditorRequest {
    /// Nothing: the editor stays open.
    Stay,
    /// Go back to the list and drop what was edited.
    Close,
    /// Hand the task in and go back to the list.
    Submit,
}

/// Whether `key` is Control with `c`, which ends the application wherever
/// it is pressed.
pub open spec fn is_interrupt(key: KeyEvent) -> bool {
    (key.code == KeyCode::Char('c') || key.code == KeyCode::Char('C'))
        && key.modifiers.is_control()
}

/// Whether the key that waits for a second key is the character `c`.
pub open spec fn waits_for(waiting: Option<(KeyEvent, u32)>, c: char) -> bool {
    waiting matches Some(w) && w.0.code == KeyCode::Char(c)
}

fn is_waiting_for(waiting: Option<KeyEvent>, c: char) -> (r: bool)
    ensures
        r == (waiting matches Some(w) && w.code == KeyCode::Char(c)),
{
    match waiting {
        Some(w) => w.is_char(c),
        None => false,
    }
}

/// `post` is `pre` but for its mode.
pub open spec fn only_mode_differs(pre: &EditorState, post: &EditorState) -> bool {
    &&& pre.same_fields(post)
    &&& post.task == pre.task
    &&& post.focus == pre.focus
    &&& post.date_focus == pre.date_focus
    &&& post.mod_key == pre.mod_key
    &&& post.is_modified == pre.is_modified
}

/// `post` is `pre` but for its focus.
pub open spec fn only_focus_differs(pre: &EditorState, post: &EditorState) -> bool {
    &&& pre.same_fields(post)
    &&& post.task == pre.task
    &&& post.mode == pre.mode
    &&& post.date_focus == pre.date_focus
    &&& post.mod_key == pre.mod_key
    &&& post.is_modified == pre.is_modified
}

/// What changing a word does to a field: with `w` the text cursor moves on
/// by a word first, then the word before the cursor is deleted.
pub open spec fn word_changed(before: Field, after: Field, forward: bool) -> bool {
    if forward {
        exists|moved: Field| #[trigger]
            cursor_moved(before, moved, CursorMove::WordForward) && word_cut(moved, after)
    } else {
        word_cut(before, after)
    }
}

/// The editor after `w`, where `forward` holds, or `b` in Normal mode. The
/// waiting key waits no more. Where it was `c`, the word before the text
/// cursor of the focused field is deleted, with `w` after the cursor moved
/// on by a word; the field is marked as changed and the editor enters Insert
/// mode. Else only the text cursor moves, by a word forward or back.
pub open spec fn word_key_post(pre: &EditorState, post: &EditorState, forward: bool) -> bool {
    &&& post.task == pre.task
    &&& post.date_focus == pre.date_focus
    &&& post.focus == pre.focus
    &&& post.mod_key is None
    &&& match pre.focused() {
        Some(f) => {
            &&& same_except(pre.fields@, post.fields@, f)
            &&& if waits_for(pre.mod_key, 'c') {
                &&& word_changed(pre.fields@[f], post.fields@[f], forward)
                &&& post.dirty_fields@ == pre.dirty_fields@.push(f as usize)
                &&& post.is_modified
                &&& post.mode == EditorMode::Insert
            } else {
                &&& cursor_moved(
                    pre.fields@[f],
                    post.fields@[f],
                    if forward {
                        CursorMove::WordForward
                    } else {
                        CursorMove::WordBack
                    },
                )
                &&& post.dirty_fields == pre.dirty_fields
                &&& post.is_modified == pre.is_modified
                &&& post.mode == pre.mode
            }
        },
        None => {
            &&& pre.same_fields(post)
            &&& post.is_modified == pre.is_modified
            &&& post.mode == pre.mode
        },
    }
}

/// What deleting its line does to a field: the text cursor goes to the head
/// of its line, and the line is deleted from there on.
pub open spec fn line_emptied(before: Field, after: Field) -> bool {
    exists|headed: Field| #[trigger]
        cursor_moved(before, headed, CursorMove::Head) && line_cut(headed, after)
}

/// The editor after `d` in Normal mode. After a waiting `d`, the line of the
/// focused field is deleted, the field is marked as changed and the changed
/// fields are written back into the task; else the key waits for a second
/// one.
pub open spec fn delete_key_post(pre: &EditorState, post: &EditorState, key: KeyEvent) -> bool {
    &&& post.mode == pre.mode
    &&& post.focus == pre.focus
    &&& post.date_focus == pre.date_focus
    &&& if waits_for(pre.mod_key, 'd') {
        &&& post.mod_key is None
        &&& match pre.focused() {
            Some(f) => {
                &&& post.is_modified
                &&& post.dirty_fields@ == pre.dirty_fields@.push(f as usize)
                &&& exists|emptied: Seq<Field>| #[trigger]
                    same_except(pre.fields@, emptied, f) && line_emptied(
                        pre.fields@[f],
                        emptied[f],
                    ) && (post.task@, post.fields@) == synced(
                        pre.task@,
                        emptied,
                        pre.dirty_fields@.push(f as usize),
                    )
            },
            None => {
                &&& pre.same_fields(post)
                &&& post.task == pre.task
                &&& post.is_modified == pre.is_modified
            },
        }
    } else {
        &&& pre.same_fields(post)
        &&& post.task == pre.task
        &&& post.is_modified == pre.is_modified
        &&& post.mod_key == Some((key, MOD_KEY_TTL))
    }
}

/// The editor after `a` in Normal mode: the text cursor of the focused
/// field moves on by one and the editor enters Insert mode.
pub open spec fn append_key_post(pre: &EditorState, post: &EditorState) -> bool {
    &&& post.task == pre.task
    &&& post.date_focus == pre.date_focus
    &&& post.mod_key == pre.mod_key
    &&& post.is_modified == pre.is_modified
    &&& post.dirty_fields == pre.dirty_fields
    &&& post.mode == EditorMode::Insert
    &&& post.focus == Some(
        match pre.focus {
            Some(f) => f,
            None => 0usize,
        },
    )
    &&& match pre.focused() {
        Some(f) => same_except(pre.fields@, post.fields@, f) && cursor_moved(
            pre.fields@[f],
            post.fields@[f],
            CursorMove::Forward,
        ),
        None => post.fields == pre.fields,
    }
}

/// What a key asks of the application in Normal mode and in Calendar mode:
/// Escape and `q` close the editor, Enter hands in a task that was changed.
pub open spec fn request_of(pre: &EditorState, key: KeyEvent) -> EditorRequest {
    if pre.mode == EditorMode::Insert {
        EditorRequest::Stay
    } else if key.code == KeyCode::Esc || key.code == KeyCode::Char('q') {
        EditorRequest::Close
    } else if key.code == KeyCode::Enter && pre.is_modified {
        EditorRequest::Submit
    } else {
        EditorRequest::Stay
    }
}

/// What a key does to the editor in Normal mode.
pub open spec fn normal_key_post(pre: &EditorState, post: &EditorState, key: KeyEvent) -> bool {
    match key.code {
        KeyCode::Char(c) => if c == 'h' {
            EditorState::move_cursor_post(pre, post, CursorMove::Back)
        } else if c == 'l' {
            if key.modifiers.is_control() {
                only_mode_differs(pre, post) && post.mode == EditorMode::Calendar
            } else {
                EditorState::move_cursor_post(pre, post, CursorMove::Forward)
            }
        } else if c == 'w' || c == 'b' {
            word_key_post(pre, post, c == 'w')
        } else if c == 'd' {
            delete_key_post(pre, post, key)
        } else if c == 'c' || c == 'y' {
            EditorState::add_mod_key_post(pre, post, key)
        } else if c == 'j' {
            EditorState::focus_next_post(pre, post)
        } else if c == 'k' {
            EditorState::focus_prev_post(pre, post)
        } else if c == 'i' {
            EditorState::enter_insert_mode_post(pre, post)
        } else if c == 'a' {
            append_key_post(pre, post)
        } else if c == 'o' || c == 'O' {
            EditorState::insert_subtask_post(pre, post)
        } else if c == '+' {
            EditorState::next_task_difficulty_post(pre, post)
        } else if c == '-' {
            EditorState::prev_task_difficulty_post(pre, post)
        } else {
            *post == *pre
        },
        KeyCode::Tab => EditorState::focus_next_post(pre, post),
        _ => *post == *pre,
    }
}

/// What a key does to the editor in Insert mode.
pub open spec fn insert_key_post(pre: &EditorState, post: &EditorState, key: KeyEvent) -> bool {
    match key.code {
        KeyCode::Esc => EditorState::exit_insert_mode_post(pre, post),
        KeyCode::Enter => match pre.focus {
            Some(i) => if i + 1 < pre.fields@.len() {
                &&& only_focus_differs(pre, post)
                &&& post.focus == Some((i + 1) as usize)
            } else {
                EditorState::insert_subtask_post(pre, post)
            },
            None => *post == *pre,
        },
        KeyCode::Tab => EditorState::focus_step_post(pre, post, key.modifiers.is_shift()),
        KeyCode::Char(c) => if c == 'j' {
            if waits_for(pre.mod_key, 'j') {
                EditorState::exit_insert_mode_post(pre, post)
            } else {
                EditorState::add_mod_key_post(pre, post, key)
            }
        } else {
            EditorState::type_key_post(pre, post, key)
        },
        _ => EditorState::type_key_post(pre, post, key),
    }
}

/// What a key does to the editor in Calendar mode.
pub open spec fn calendar_key_post(pre: &EditorState, post: &EditorState, key: KeyEvent) -> bool {
    match key.code {
        KeyCode::Char(c) => if c == 'h' {
            if key.modifiers.is_control() {
                only_mode_differs(pre, post) && post.mode == EditorMode::Normal
            } else {
                EditorState::move_date_cursor_post(pre, post, CursorMove::Back)
            }
        } else if c == 'j' {
            EditorState::move_date_cursor_post(pre, post, CursorMove::Down)
        } else if c == 'k' {
            EditorState::move_date_cursor_post(pre, post, CursorMove::Up)
        } else if c == 'l' {
            EditorState::move_date_cursor_post(pre, post, CursorMove::Forward)
        } else if c == 'x' {
            EditorState::remove_due_date_post(pre, post)
        } else if c == ' ' {
            EditorState::confirm_due_date_post(pre, post)
        } else if c == '+' {
            EditorState::next_task_difficulty_post(pre, post)
        } else if c == '-' {
            EditorState::prev_task_difficulty_post(pre, post)
        } else {
            *post == *pre
        },
        _ => *post == *pre,
    }
}

/// What a key does to the editor, by its mode.
pub open spec fn editor_key_post(pre: &EditorState, post: &EditorState, key: KeyEvent) -> bool {
    match pre.mode {
        EditorMode::Normal => normal_key_post(pre, post, key),
        EditorMode::Insert => insert_key_post(pre, post, key),
        EditorMode::Calendar => calendar_key_post(pre, post, key),
    }
}

/// Handles a key in Normal mode: motions of the text cursor and of the
/// focus, the two-key sequences that delete a word or a line, the keys that
/// enter Insert and Calendar mode, open a new checklist entry, or change the
/// difficulty.
pub fn handle_normal_key(key_event: KeyEvent, editor: &mut EditorState) -> (r: EditorRequest)
    requires
        old(editor).wf(),
        old(editor).mode == EditorMode::Normal,
    ensures
        final(editor).wf(),
        normal_key_post(&*old(editor), &*final(editor), key_event),
        r == request_of(&*old(editor), key_event),
{
    match key_event.code {
        KeyCode::Esc => EditorRequest::Close,
        KeyCode::Enter => if editor.is_modified {
            EditorRequest::Submit
        } else {
            EditorRequest::Stay
        },
        KeyCode::Tab => {
            editor.focus_next();
            EditorRequest::Stay
        },
        KeyCode::Char(c) => {
            if c == 'q' {
                return EditorRequest::Close;
            }
            if c == 'h' {
                editor.move_cursor(CursorMove::Back);
            } else if c == 'l' {
                if key_event.modifiers.only_control() {
                    editor.mode = EditorMode::Calendar;
                } else {
                    editor.move_cursor(CursorMove::Forward);
                }
            } else if c == 'w' || c == 'b' {
                let waiting = editor.pop_mod_key();
                let change = is_waiting_for(waiting, 'c');
                match editor.get_focused_mut() {
                    Some(f) => {
                        if c == 'w' {
                            editor.move_cursor(CursorMove::WordForward);
                        }
                        let ghost moved = editor.fields@[f as int];
                        if change {
                            editor.delete_word();
                            editor.mark_modified(f);
                            editor.enter_insert_mode();
                            assert(word_changed(
                                old(editor).fields@[f as int],
                                editor.fields@[f as int],
                                c == 'w',
                            )) by {
                                if c == 'w' {
                                    assert(cursor_moved(
                                        old(editor).fields@[f as int],
                                        moved,
                                        CursorMove::WordForward,
                                    ) && word_cut(moved, editor.fields@[f as int]));
                                }
                            }
                        } else if c == 'b' {
                            editor.move_cursor(CursorMove::WordBack);
                        }
                    },
                    None => {},
                }
            } else if c == 'd' {
                let waiting = editor.pop_mod_key();
                if is_waiting_for(waiting, 'd') {
                    match editor.get_focused_mut() {
                        Some(f) => {
                            editor.move_cursor(CursorMove::Head);
                            let ghost headed = editor.fields@[f as int];
                            editor.delete_line_by_end();
                            editor.mark_modified(f);
                            let ghost emptied = editor.fields@;
                            editor.sync_changes();
                            assert(line_emptied(old(editor).fields@[f as int], emptied[f as int]))
                                by {
                                assert(cursor_moved(
                                    old(editor).fields@[f as int],
                                    headed,
                                    CursorMove::Head,
                                ) && line_cut(headed, emptied[f as int]));
                            }
                            assert(same_except(old(editor).fields@, emptied, f as int));
                        },
                        None => {},
                    }
                } else {
                    editor.add_mod_key(key_event);
                }
            } else if c == 'c' || c == 'y' {
                editor.add_mod_key(key_event);
            } else if c == 'j' {
                editor.focus_next();
            } else if c == 'k' {
                editor.focus_prev();
            } else if c == 'i' {
                editor.enter_insert_mode();
            } else if c == 'a' {
                editor.move_cursor(CursorMove::Forward);
                editor.enter_insert_mode();
            } else if c == 'o' || c == 'O' {
                editor.insert_subtask();
            } else if c == '+' {
                editor.next_task_difficulty();
            } else if c == '-' {
                editor.prev_task_difficulty();
            }
            EditorRequest::Stay
        },
        _ => EditorRequest::Stay,
    }
}

/// Handles a key in Insert mode: Escape and a double `j` leave the mode,
/// Enter and Tab move the focus, Enter on the last field opens a new
/// checklist entry, and every other key is typed into the focused field.
pub fn handle_insert_key(key_event: KeyEvent, editor: &mut EditorState) -> (r: EditorRequest)
    requires
        old(editor).wf(),
        old(editor).mode == EditorMode::Insert,
    ensures
        final(editor).wf(),
        insert_key_post(&*old(editor), &*final(editor), key_event),
        r == request_of(&*old(editor), key_event),
{
    match key_event.code {
        KeyCode::Esc => {
            editor.exit_insert_mode();
        },
        KeyCode::Enter => {
            match editor.focus {
                Some(i) => {
                    if i < editor.fields.len() - 1 {
                        editor.focus = Some(i + 1);
                    } else {
                        editor.insert_subtask();
                    }
                },
                None => {},
            }
        },
        KeyCode::Tab => {
            editor.focus_step(key_event.modifiers.only_shift());
        },
        KeyCode::Char(c) => {
            if c == 'j' {
                let again = match editor.mod_key {
                    Some(w) => w.0.is_char('j'),
                    None => false,
                };
                if again {
                    editor.exit_insert_mode();
                } else {
                    editor.add_mod_key(key_event);
                }
            } else {
                editor.type_key(key_event);
            }
        },
        _ => {
            editor.type_key(key_event);
        },
    }
    EditorRequest::Stay
}

/// Handles a key in Calendar mode: motions of the date cursor, the keys that
/// set and take away the due date, change the difficulty, or go back to
/// Normal mode.
pub fn handle_calendar_key(key_event: KeyEvent, editor: &mut EditorState) -> (r: EditorRequest)
    requires
        old(editor).wf(),
        old(editor).mode == EditorMode::Calendar,
    ensures
        final(editor).wf(),
        calendar_key_post(&*old(editor), &*final(editor), key_event),
        r == request_of(&*old(editor), key_event),
{
    match key_event.code {
        KeyCode::Esc => EditorRequest::Close,
        KeyCode::Enter => if editor.is_modified {
            EditorRequest::Submit
        } else {
            EditorRequest::Stay
        },
        KeyCode::Char(c) => {
            if c == 'q' {
                return EditorRequest::Close;
            }
            if c == 'h' {
                if key_event.modifiers.only_control() {
                    editor.mode = EditorMode::Normal;
                } else {
                    editor.move_date_cursor(CursorMove::Back);
                }
            } else if c == 'j' {
                editor.move_date_cursor(CursorMove::Down);
            } else if c == 'k' {
                editor.move_date_cursor(CursorMove::Up);
            } else if c == 'l' {
                editor.move_date_cursor(CursorMove::Forward);
            } else if c == 'x' {
                editor.remove_due_date();
            } else if c == ' ' {
                editor.confirm_due_date();
            } else if c == '+' {
                editor.next_task_difficulty();
            } else if c == '-' {
                editor.prev_task_difficulty();
            }
            EditorRequest::Stay
        },
        _ => EditorRequest::Stay,
    }
}

/// `post` is `pre` but for its grid.
pub open spec fn only_grid_differs(pre: &Habitui, post: &Habitui) -> bool {
    &&& post.state == pre.state
    &&& post.editor_state == pre.editor_state
    &&& post.should_refresh_tasks == pre.should_refresh_tasks
    &&& post.queued == pre.queued
    &&& post.log_debug == pre.log_debug
}

/// `post` is `pre` but for what it shows.
pub open spec fn only_state_differs(pre: &Habitui, post: &Habitui) -> bool {
    &&& post.grid_state == pre.grid_state
    &&& post.editor_state == pre.editor_state
    &&& post.should_refresh_tasks == pre.should_refresh_tasks
    &&& post.queued == pre.queued
    &&& post.log_debug == pre.log_debug
}

/// `post` is `pre` but for what it shows and for its editor.
pub open spec fn only_editor_differs(pre: &Habitui, post: &Habitui) -> bool {
    &&& post.grid_state == pre.grid_state
    &&& post.should_refresh_tasks == pre.should_refresh_tasks
    &&& post.queued == pre.queued
    &&& post.log_debug == pre.log_debug
}

/// The grid after `g`: after a waiting `g` the first task is selected, after
/// another waiting key nothing but that it waits no more, and without one
/// the key waits for a second one.
pub open spec fn first_key_post(pre: &TaskGridState, post: &TaskGridState, key: KeyEvent) -> bool {
    &&& pre.same_tasks(post)
    &&& match pre.mod_key {
        Some(w) => {
            &&& post.mod_key is None
            &&& if w.0.code == KeyCode::Char('g') {
                post.cursor() == (Cursor { page: 0, selected: Some(0) })
                    && post.selected_sub is None
            } else {
                post.page == pre.page && post.selected == pre.selected && post.selected_sub
                    == pre.selected_sub
            }
        },
        None => {
            &&& post.mod_key == Some((key, MOD_KEY_TTL))
            &&& post.page == pre.page
            &&& post.selected == pre.selected
            &&& post.selected_sub == pre.selected_sub
        },
    }
}

/// What a key does in the list.
pub open spec fn list_key_post(pre: &Habitui, post: &Habitui, key: KeyEvent) -> bool {
    let grid = &pre.grid_state;
    let after = &post.grid_state;
    match key.code {
        KeyCode::Esc => only_state_differs(pre, post) && post.state == AppState::Exit,
        KeyCode::Enter => if grid.modifications.keys().len() == 0 {
            *post == *pre
        } else {
            Habitui::handle_submit_modifications_post(pre, post)
        },
        KeyCode::Char(c) => if c == 'q' {
            only_state_differs(pre, post) && post.state == AppState::Exit
        } else if c == 'a' {
            &&& only_editor_differs(pre, post)
            &&& post.state == AppState::Editor
            &&& post.editor_state matches Some(editor) && EditorState::opened(None, &editor)
        } else if c == 'e' {
            &&& only_editor_differs(pre, post)
            &&& match grid.selected_task() {
                Some(task) => {
                    &&& post.state == AppState::Editor
                    &&& post.editor_state matches Some(editor) && EditorState::opened(
                        Some(task),
                        &editor,
                    )
                },
                None => post.state == pre.state && post.editor_state == pre.editor_state,
            }
        } else {
            &&& only_grid_differs(pre, post)
            &&& if c == ' ' {
                TaskGridState::mark_item_completed_post(grid, after)
            } else if c == 'h' {
                if key.modifiers.is_alt() {
                    TaskGridState::move_task_post(grid, after, Direction::LEFT)
                } else {
                    TaskGridState::select_next_post(grid, after, Direction::LEFT)
                }
            } else if c == 'j' {
                if key.modifiers.is_alt() {
                    TaskGridState::move_task_post(grid, after, Direction::DOWN)
                } else if key.modifiers.is_control() {
                    TaskGridState::select_next_sub_post(grid, after)
                } else {
                    TaskGridState::select_next_post(grid, after, Direction::DOWN)
                }
            } else if c == 'k' {
                if key.modifiers.is_alt() {
                    TaskGridState::move_task_post(grid, after, Direction::UP)
                } else if key.modifiers.is_control() {
                    TaskGridState::select_prev_sub_post(grid, after)
                } else {
                    TaskGridState::select_next_post(grid, after, Direction::UP)
                }
            } else if c == 'l' {
                if key.modifiers.is_alt() {
                    TaskGridState::move_task_post(grid, after, Direction::RIGHT)
                } else {
                    TaskGridState::select_next_post(grid, after, Direction::RIGHT)
                }
            } else if c == 'd' {
                TaskGridState::mark_item_removed_post(grid, after)
            } else if c == 'J' {
                TaskGridState::next_page_post(grid, after)
            } else if c == 'K' {
                TaskGridState::prev_page_post(grid, after)
            } else if c == 'g' {
                first_key_post(grid, after, key)
            } else if c == 'G' {
                TaskGridState::select_last_post(grid, after)
            } else {
                post.grid_state == pre.grid_state
            }
        },
        _ => *post == *pre,
    }
}

/// Handles a key in the list: the motions of the selection and of the
/// selected task, the keys that mark a task as completed or removed, open
/// the editor, send the pending changes, or end the application.
pub fn handle_list_key(key_event: KeyEvent, app: &mut Habitui)
    requires
        old(app).wf(),
        old(app).state != AppState::Editor,
    ensures
        final(app).wf(),
        list_key_post(&*old(app), &*final(app), key_event),
{
    match key_event.code {
        KeyCode::Esc => {
            app.state = AppState::Exit;
        },
        KeyCode::Enter => {
            if !app.grid_state.modifications.is_empty() {
                app.handle_submit_modifications();
            }
        },
        KeyCode::Char(c) => {
            let alt = key_event.modifiers.only_alt();
            let control = key_event.modifiers.only_control();
            if c == 'q' {
                app.state = AppState::Exit;
            } else if c == ' ' {
                app.grid_state.mark_item_completed();
            } else if c == 'a' {
                app.state = AppState::Editor;
                app.editor_state = Some(EditorState::new(None));
            } else if c == 'e' {
                let editor = match app.grid_state.get_selected() {
                    Some(task) => Some(EditorState::new(Some(task))),
                    None => None,
                };
                match editor {
                    Some(editor) => {
                        app.state = AppState::Editor;
                        app.editor_state = Some(editor);
                    },
                    None => {},
                }
            } else if c == 'h' {
                if alt {
                    app.grid_state.move_task(Direction::LEFT);
                } else {
                    app.grid_state.select_next(Direction::LEFT);
                }
            } else if c == 'j' {
                if alt {
                    app.grid_state.move_task(Direction::DOWN);
                } else if control {
                    app.grid_state.select_next_sub();
                } else {
                    app.grid_state.select_next(Direction::DOWN);
                }
            } else if c == 'k' {
                if alt {
                    app.grid_state.move_task(Direction::UP);
                } else if control {
                    app.grid_state.select_prev_sub();
                } else {
                    app.grid_state.select_next(Direction::UP);
                }
            } else if c == 'l' {
                if alt {
                    app.grid_state.move_task(Direction::RIGHT);
                } else {
                    app.grid_state.select_next(Direction::RIGHT);
                }
            } else if c == 'd' {
                app.grid_state.mark_item_removed();
            } else if c == 'J' {
                app.grid_state.next_page();
            } else if c == 'K' {
                app.grid_state.prev_page();
            } else if c == 'g' {
                match app.grid_state.pop_mod_key() {
                    Some(waiting) => {
                        if waiting.is_char('g') {
                            app.grid_state.select_first();
                        }
                    },
                    None => {
                        app.grid_state.add_mod_key(key_event);
                    },
                }
            } else if c == 'G' {
                app.grid_state.select_last();
            }
        },
        _ => {},
    }
}

/// What a key does to the application. Control with `c` ends it. While the
/// editor is shown the key goes to the editor; where the editor asks to be
/// closed, or hands its task in, the list is shown again and the editor is
/// gone. Else the key goes to the list.
pub open spec fn handle_key_events_post(pre: &Habitui, post: &Habitui, key: KeyEvent) -> bool {
    if is_interrupt(key) {
        only_state_differs(pre, post) && post.state == AppState::Exit
    } else if pre.state == AppState::Editor {
        &&& post.grid_state == pre.grid_state
        &&& post.should_refresh_tasks == pre.should_refresh_tasks
        &&& post.log_debug == pre.log_debug
        &&& pre.editor_state matches Some(before)
        &&& match request_of(&before, key) {
            EditorRequest::Stay => {
                &&& post.state == pre.state
                &&& post.queued == pre.queued
                &&& post.editor_state matches Some(after)
                &&& editor_key_post(&before, &after, key)
            },
            EditorRequest::Close => {
                &&& post.state == AppState::List
                &&& post.queued == pre.queued
                &&& post.editor_state is None
            },
            EditorRequest::Submit => {
                &&& post.state == AppState::List
                &&& post.editor_state is None
                &&& Habitui::one_more(pre.queued@, post.queued@)
                &&& crate::app::submits_task(post.queued@.last(), before.task@)
            },
        }
    } else {
        list_key_post(pre, post, key)
    }
}

/// Handles a key press. No key is refused.
pub fn handle_key_events(key_event: KeyEvent, app: &mut Habitui) -> (r: Result<(), AppError>)
    requires
        old(app).wf(),
    ensures
        r is Ok,
        final(app).wf(),
        handle_key_events_post(&*old(app), &*final(app), key_event),
{
    if (key_event.is_char('c') || key_event.is_char('C')) && key_event.modifiers.only_control() {
        app.state = AppState::Exit;
        return Ok(());
    }
    match app.state {
        AppState::Editor => {
            let mut editor = match app.editor_state.take() {
                Some(editor) => editor,
                None => {
                    return Ok(());
                },
            };
            let request = match editor.mode {
                EditorMode::Normal => handle_normal_key(key_event, &mut editor),
                EditorMode::Insert => handle_insert_key(key_event, &mut editor),
                EditorMode::Calendar => handle_calendar_key(key_event, &mut editor),
            };
            match request {
                EditorRequest::Stay => {
                    app.editor_state = Some(editor);
                },
                EditorRequest::Close => {
                    app.state = AppState::List;
                },
                EditorRequest::Submit => {
                    let task = editor.clone_task();
                    app.state = AppState::List;
                    app.handle_submit_task(task);
                },
            }
        },
        _ => handle_list_key(key_event, app),
    }
    Ok(())
}

} // verus!
