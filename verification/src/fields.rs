//! The input fields of the editor. Each is a text area of `tui_textarea`,
//! which keeps the lines, the cursor and the undo history of the field.

use vstd::prelude::*;
use tui_textarea::{Input, Key, TextArea};
use crate::keys::{CursorMove, KeyCode, KeyEvent};
use crate::text::lines_view;

verus! {

/// One input field of the editor: a text area of `tui_textarea`. What is
/// inside is not open to proof; `field_lines` names the lines it holds,
/// `field_cursor` where its text cursor stands and `field_selection` where
/// its selection began, and the methods below say what the text area's own
/// methods do to them.
#[verifier::external_body]
pub struct Field {
    area: TextArea<'static>,
}

/// The lines of text that a field holds.
pub uninterp spec fn field_lines(field: Field) -> Seq<Seq<char>>;

/// The row and the column at which the text cursor of a field stands,
/// counted in characters from zero.
pub uninterp spec fn field_cursor(field: Field) -> (usize, usize);

/// Where the selection of text in a field began, while text is being
/// selected; the selection reaches from there to the text cursor.
pub uninterp spec fn field_selection(field: Field) -> Option<(usize, usize)>;

/// Where `motion` leads the text cursor that stands at `cursor` in `lines`.
pub uninterp spec fn moved_cursor(
    lines: Seq<Seq<char>>,
    cursor: (usize, usize),
    motion: CursorMove,
) -> (usize, usize);

/// The lines and the text cursor after the word before the cursor was
/// deleted, or the selected text where text was selected from `selection`
/// on.
pub uninterp spec fn word_deleted(
    lines: Seq<Seq<char>>,
    cursor: (usize, usize),
    selection: Option<(usize, usize)>,
) -> (Seq<Seq<char>>, (usize, usize));

/// The lines and the text cursor after the line was deleted from the cursor
/// on, or the selected text where text was selected from `selection` on.
pub uninterp spec fn line_end_deleted(
    lines: Seq<Seq<char>>,
    cursor: (usize, usize),
    selection: Option<(usize, usize)>,
) -> (Seq<Seq<char>>, (usize, usize));

/// The smaller of two lengths.
pub open spec fn at_most(col: int, len: int) -> int {
    if col < len {
        col
    } else {
        len
    }
}

/// Where a motion by one character or one line, or to the head or the end
/// of the line, leads the text cursor; none for a motion by a word. A step
/// forward at the end of a line leads to the head of the next line, a step
/// back at the head of a line to the end of the line before; a step up or
/// down keeps the column as far as the line reaches. Where there is no line
/// to go to, the cursor stays.
pub open spec fn plain_move(
    lines: Seq<Seq<char>>,
    cursor: (usize, usize),
    motion: CursorMove,
) -> Option<(usize, usize)> {
    let row = cursor.0 as int;
    let col = cursor.1 as int;
    match motion {
        CursorMove::Forward => Some(
            if col >= lines[row].len() {
                if row + 1 < lines.len() {
                    ((row + 1) as usize, 0usize)
                } else {
                    cursor
                }
            } else {
                (cursor.0, (col + 1) as usize)
            },
        ),
        CursorMove::Back => Some(
            if col == 0 {
                if row == 0 {
                    cursor
                } else {
                    ((row - 1) as usize, lines[row - 1].len() as usize)
                }
            } else {
                (cursor.0, (col - 1) as usize)
            },
        ),
        CursorMove::Up => Some(
            if row == 0 {
                cursor
            } else {
                ((row - 1) as usize, at_most(col, lines[row - 1].len() as int) as usize)
            },
        ),
        CursorMove::Down => Some(
            if row + 1 < lines.len() {
                ((row + 1) as usize, at_most(col, lines[row + 1].len() as int) as usize)
            } else {
                cursor
            },
        ),
        CursorMove::Head => Some((cursor.0, 0usize)),
        CursorMove::End => Some((cursor.0, lines[row].len() as usize)),
        CursorMove::WordForward => None,
        CursorMove::WordBack => None,
    }
}

/// The lines and the text cursor after the line break before the line of the
/// cursor was taken away: the line is joined to the line before, and the
/// cursor stands where the two meet. In the first line nothing changes.
pub open spec fn line_break_cut(lines: Seq<Seq<char>>, cursor: (usize, usize)) -> (
    Seq<Seq<char>>,
    (usize, usize),
) {
    let row = cursor.0 as int;
    if row == 0 {
        (lines, cursor)
    } else {
        (
            lines.remove(row).update(row - 1, lines[row - 1] + lines[row]),
            ((row - 1) as usize, lines[row - 1].len() as usize),
        )
    }
}

/// The lines and the text cursor after the line was cut off at the cursor.
/// At the end of a line the next line is joined to it; at the end of the
/// last line nothing changes.
pub open spec fn line_end_cut(lines: Seq<Seq<char>>, cursor: (usize, usize)) -> (
    Seq<Seq<char>>,
    (usize, usize),
) {
    let row = cursor.0 as int;
    let col = cursor.1 as int;
    if col < lines[row].len() {
        (lines.update(row, lines[row].subrange(0, col)), cursor)
    } else if row + 1 < lines.len() {
        (
            lines.remove(row + 1).update(row, lines[row] + lines[row + 1]),
            (cursor.0, lines[row].len() as usize),
        )
    } else {
        (lines, cursor)
    }
}

/// The character that a key types: the key's own character, unless it is a
/// line break or Control or Alt is held.
pub open spec fn typed_char(key: KeyEvent) -> Option<char> {
    match key.code {
        KeyCode::Char(c) => if c != '\n' && c != '\r' && !key.modifiers.control
            && !key.modifiers.alt {
            Some(c)
        } else {
            None
        },
        _ => None,
    }
}

/// Whether the key breaks the line: Enter, or a line break typed with
/// neither Control nor Alt held.
pub open spec fn breaks_line(key: KeyEvent) -> bool {
    match key.code {
        KeyCode::Enter => true,
        KeyCode::Char(c) => (c == '\n' || c == '\r') && !key.modifiers.control
            && !key.modifiers.alt,
        _ => false,
    }
}

/// Whether the key erases the character before the text cursor: Backspace
/// with neither Control nor Alt held.
pub open spec fn erases(key: KeyEvent) -> bool {
    key.code == KeyCode::Backspace && !key.modifiers.control && !key.modifiers.alt
}

/// The lines and the text cursor after `c` was put in at the cursor: the
/// line of the cursor holds it at the cursor's column, and the cursor
/// stands behind it.
pub open spec fn char_put(lines: Seq<Seq<char>>, cursor: (usize, usize), c: char) -> (
    Seq<Seq<char>>,
    (usize, usize),
) {
    let row = cursor.0 as int;
    let col = cursor.1 as int;
    (lines.update(row, lines[row].insert(col, c)), (cursor.0, (col + 1) as usize))
}

/// The lines and the text cursor after the line was broken at the cursor:
/// what stood behind the cursor is a line of its own, and the cursor stands
/// at its head.
pub open spec fn line_broken(lines: Seq<Seq<char>>, cursor: (usize, usize)) -> (
    Seq<Seq<char>>,
    (usize, usize),
) {
    let row = cursor.0 as int;
    let col = cursor.1 as int;
    (
        lines.update(row, lines[row].subrange(0, col)).insert(
            row + 1,
            lines[row].subrange(col, lines[row].len() as int),
        ),
        ((row + 1) as usize, 0usize),
    )
}

/// The lines and the text cursor after the character before the cursor was
/// erased; at the head of a line it is the line break before it.
pub open spec fn char_erased(lines: Seq<Seq<char>>, cursor: (usize, usize)) -> (
    Seq<Seq<char>>,
    (usize, usize),
) {
    let row = cursor.0 as int;
    let col = cursor.1 as int;
    if col == 0 {
        line_break_cut(lines, cursor)
    } else {
        (lines.update(row, lines[row].remove(col - 1)), (cursor.0, (col - 1) as usize))
    }
}

/// What a key does to a field with no text selected, as far as it types a
/// character, breaks the line or erases a character: the lines and the text
/// cursor afterwards. After each of these no text is selected, whether any
/// was before or not. Of other keys, and of these where text is selected,
/// nothing is said.
pub open spec fn key_typed(before: Field, after: Field, key: KeyEvent) -> bool {
    let lines = field_lines(before);
    let cursor = field_cursor(before);
    let plain = field_selection(before) is None;
    &&& typed_char(key) is Some || breaks_line(key) || erases(key) ==> field_selection(after)
        is None
    &&& plain && typed_char(key) is Some ==> (field_lines(after), field_cursor(after))
        == char_put(lines, cursor, typed_char(key)->0)
    &&& plain && breaks_line(key) ==> (field_lines(after), field_cursor(after)) == line_broken(
        lines,
        cursor,
    )
    &&& plain && erases(key) ==> (field_lines(after), field_cursor(after)) == char_erased(
        lines,
        cursor,
    )
}

/// What moving the text cursor does to a field: the lines and the selection
/// stay, and the cursor stands where the motion leads.
pub open spec fn cursor_moved(before: Field, after: Field, motion: CursorMove) -> bool {
    &&& field_lines(after) == field_lines(before)
    &&& field_selection(after) == field_selection(before)
    &&& field_cursor(after) == moved_cursor(field_lines(before), field_cursor(before), motion)
    &&& plain_move(field_lines(before), field_cursor(before), motion) matches Some(c)
        ==> field_cursor(after) == c
}

/// What deleting the word before the text cursor does to a field. At the
/// head of a line, with no text selected, the line break before it is taken
/// away.
pub open spec fn word_cut(before: Field, after: Field) -> bool {
    &&& (field_lines(after), field_cursor(after)) == word_deleted(
        field_lines(before),
        field_cursor(before),
        field_selection(before),
    )
    &&& field_selection(after) is None
    &&& field_selection(before) is None && field_cursor(before).1 == 0 ==> (
        field_lines(after),
        field_cursor(after),
    ) == line_break_cut(field_lines(before), field_cursor(before))
}

/// What deleting the line from the text cursor on does to a field. With no
/// text selected the line is cut off at the cursor.
pub open spec fn line_cut(before: Field, after: Field) -> bool {
    &&& (field_lines(after), field_cursor(after)) == line_end_deleted(
        field_lines(before),
        field_cursor(before),
        field_selection(before),
    )
    &&& field_selection(after) is None
    &&& field_selection(before) is None ==> (field_lines(after), field_cursor(after))
        == line_end_cut(field_lines(before), field_cursor(before))
}

impl Field {
    /// `TextArea::new`: a field with the given lines, or with one empty line
    /// where no line is given, with the text cursor at its start and no text
    /// selected.
    #[verifier::external_body]
    pub(crate) fn new(lines: Vec<String>) -> (field: Field)
        ensures
            field_lines(field) == if lines@.len() == 0 {
                seq![Seq::<char>::empty()]
            } else {
                lines_view(lines@)
            },
            field_cursor(field) == (0usize, 0usize),
            field_selection(field) is None,
    {
        Field { area: TextArea::new(lines) }
    }

    /// `TextArea::lines`: a copy of the lines that the field holds.
    #[verifier::external_body]
    pub(crate) fn lines(&self) -> (lines: Vec<String>)
        ensures
            lines_view(lines@) == field_lines(*self),
    {
        self.area.lines().to_vec()
    }

    /// `TextArea::cursor`: the row and column of the text cursor.
    #[verifier::external_body]
    pub(crate) fn cursor(&self) -> (position: (usize, usize))
        ensures
            position == field_cursor(*self),
    {
        self.area.cursor()
    }

    /// `TextArea::move_cursor`: moves the text cursor, which leaves the
    /// lines and the selection as they are. Where the cursor ends follows
    /// from the lines, the cursor and the motion alone; for the motions by a
    /// character or a line and to the head or the end of the line it is
    /// written out in `plain_move`.
    #[verifier::external_body]
    pub(crate) fn move_cursor(&mut self, motion: CursorMove)
        ensures
            field_lines(*final(self)) == field_lines(*old(self)),
            field_selection(*final(self)) == field_selection(*old(self)),
            field_cursor(*final(self)) == moved_cursor(
                field_lines(*old(self)),
                field_cursor(*old(self)),
                motion,
            ),
            plain_move(field_lines(*old(self)), field_cursor(*old(self)), motion) matches Some(c)
                ==> field_cursor(*final(self)) == c,
    {
        self.area.move_cursor(
            match motion {
                CursorMove::Forward => tui_textarea::CursorMove::Forward,
                CursorMove::Back => tui_textarea::CursorMove::Back,
                CursorMove::Up => tui_textarea::CursorMove::Up,
                CursorMove::Down => tui_textarea::CursorMove::Down,
                CursorMove::Head => tui_textarea::CursorMove::Head,
                CursorMove::End => tui_textarea::CursorMove::End,
                CursorMove::WordForward => tui_textarea::CursorMove::WordForward,
                CursorMove::WordBack => tui_textarea::CursorMove::WordBack,
            },
        );
    }

    /// `TextArea::input`: hands a key press to the field, which edits its
    /// text or moves its cursor by its own key bindings. With no text
    /// selected, a plain character is put in at the cursor, Enter breaks the
    /// line there, and Backspace erases the character before it; no text is
    /// selected afterwards. Of the other bindings nothing is claimed.
    #[verifier::external_body]
    pub(crate) fn input(&mut self, key: KeyEvent)
        ensures
            key_typed(*old(self), *final(self), key),
    {
        let code = match key.code {
            KeyCode::Char(c) => Key::Char(c), KeyCode::Backspace => Key::Backspace,
            KeyCode::Enter => Key::Enter, KeyCode::Left => Key::Left,
            KeyCode::Right => Key::Right, KeyCode::Up => Key::Up,
            KeyCode::Down => Key::Down, KeyCode::Tab => Key::Tab,
            KeyCode::Delete => Key::Delete, KeyCode::Home => Key::Home,
            KeyCode::End => Key::End, KeyCode::PageUp => Key::PageUp,
            KeyCode::PageDown => Key::PageDown, KeyCode::Esc => Key::Esc,
            KeyCode::Null => Key::Null,
        };
        let m = key.modifiers;
        self.area.input(Input { key: code, ctrl: m.control, alt: m.alt, shift: m.shift });
    }

    /// `TextArea::delete_word`: deletes the word before the text cursor, or
    /// the selected text where text is selected; no text is selected
    /// afterwards. The lines and the cursor afterwards follow from the
    /// lines, the cursor and the selection alone. At the head of a line,
    /// with no text selected, the line break before it is taken away.
    #[verifier::external_body]
    pub(crate) fn delete_word(&mut self)
        ensures
            (field_lines(*final(self)), field_cursor(*final(self))) == word_deleted(
                field_lines(*old(self)),
                field_cursor(*old(self)),
                field_selection(*old(self)),
            ),
            field_selection(*final(self)) is None,
            field_selection(*old(self)) is None && field_cursor(*old(self)).1 == 0 ==> (
                field_lines(*final(self)),
                field_cursor(*final(self)),
            ) == line_break_cut(field_lines(*old(self)), field_cursor(*old(self))),
    {
        self.area.delete_word();
    }

    /// `TextArea::delete_line_by_end`: deletes from the text cursor to the
    /// end of its line, at the end of a line the line break behind it, or
    /// the selected text where text is selected; no text is selected
    /// afterwards. The lines and the cursor afterwards follow from the
    /// lines, the cursor and the selection alone.
    #[verifier::external_body]
    pub(crate) fn delete_line_by_end(&mut self)
        ensures
            (field_lines(*final(self)), field_cursor(*final(self))) == line_end_deleted(
                field_lines(*old(self)),
                field_cursor(*old(self)),
                field_selection(*old(self)),
            ),
            field_selection(*final(self)) is None,
            field_selection(*old(self)) is None ==> (
                field_lines(*final(self)),
                field_cursor(*final(self)),
            ) == line_end_cut(field_lines(*old(self)), field_cursor(*old(self))),
    {
        self.area.delete_line_by_end();
    }
}

} // verus!
