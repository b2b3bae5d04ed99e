//! The editor's decisions: where the cursor goes, how the view scrolls, what
//! a key does to the document, and what the bars at the bottom say. What
//! needs the terminal, the clock or the disk is named in a [`Command`] and
//! left to the caller.

use vstd::prelude::*;
use vstd::string::*;
use crate::document::{
    document_find, kind_of, plain_rows, rows_delete, rows_insert, Document, DocumentView,
};
use crate::floating_item::{item_render, FloatingItemView};
use crate::grapheme::{clusters_of, grapheme_clusters};
use crate::row::{Row, RowView};
use crate::text::{
    decimal, lemma_texts_push, push_char, push_decimal, string_of, texts, to_chars,
};
use crate::row::row_render;
use crate::document::hover_box;

verus! {

/// A cell of the text grid: `x` counts grapheme clusters within a row, `y`
/// counts rows.
#[derive(Default, Clone, Copy, Debug, PartialEq, Eq)]
pub struct Position {
    pub x: usize,
    pub y: usize,
}

/// The way a search runs through the text.
#[derive(Clone, Copy, Debug, PartialEq, Eq, Structural)]
pub enum SearchDirection {
    /// Towards the end of the text.
    Forward,
    /// Towards the start of the text.
    Backward,
}

/// The size of the text area, in cells.
#[derive(Clone, Copy, Debug, PartialEq, Eq)]
pub struct Size {
    pub width: u16,
    pub height: u16,
}

/// A key, as far as the editor tells keys apart.
#[derive(Clone, Copy, Debug, PartialEq, Eq)]
pub enum Key {
    Char(char),
    Ctrl(char),
    F(u8),
    Delete,
    Backspace,
    Up,
    Down,
    Left,
    Right,
    PageUp,
    PageDown,
    End,
    Home,
    Esc,
    Other,
}

/// What is left for the caller to do after a key.
#[derive(Clone, Copy, Debug, PartialEq, Eq)]
pub enum Command {
    /// Nothing.
    Nothing,
    /// Save the document, asking for a name where it has none.
    Save,
    /// Ask for a query and search for it.
    Search,
    /// Ask the language server what it knows of the cell `x`, `y`.
    Hover { x: u32, y: u32 },
}

/// How often the quit key must be pressed to leave a document with changes
/// that are not saved.
pub const QUIT_TIMES: u8 = 3;

/// The sum of two numbers, or the greatest number where the sum is greater.
pub open spec fn capped_sum(a: usize, b: usize) -> usize {
    if a + b > usize::MAX {
        usize::MAX
    } else {
        (a + b) as usize
    }
}

/// The offset along one axis after scrolling: where the cursor is before
/// the window, the window starts at the cursor; where it is behind the
/// window, the window ends at the cursor; else the window stays.
pub open spec fn scrolled_axis(cursor: usize, offset: usize, extent: usize) -> usize {
    if cursor < offset {
        cursor
    } else if cursor >= capped_sum(offset, extent) {
        capped_sum(
            if cursor >= extent {
                (cursor - extent) as usize
            } else {
                0
            },
            1,
        )
    } else {
        offset
    }
}

/// The offset of the window after scrolling to the cursor.
pub open spec fn scrolled(cursor: Position, offset: Position, size: Size) -> Position {
    Position {
        x: scrolled_axis(cursor.x, offset.x, size.width as usize),
        y: scrolled_axis(cursor.y, offset.y, size.height as usize),
    }
}

/// The length of the row `y`; zero below the last row.
pub open spec fn row_len(rows: Seq<RowView>, y: int) -> usize {
    if 0 <= y < rows.len() {
        rows[y].len as usize
    } else {
        0
    }
}

/// Where the cursor goes on a key, before it is held within its row.
pub open spec fn stepped(cursor: Position, key: Key, rows: Seq<RowView>, page: usize) -> Position {
    let Position { x, y } = cursor;
    let height = rows.len();
    let width = row_len(rows, y as int);
    match key {
        Key::PageUp => Position {
            x,
            y: if y > page {
                (y - page) as usize
            } else {
                0
            },
        },
        Key::PageDown => Position {
            x,
            y: if capped_sum(y, page) < height {
                capped_sum(y, page)
            } else {
                height as usize
            },
        },
        Key::Home => Position { x: 0, y },
        Key::End => Position { x: width, y },
        Key::Up => Position {
            x,
            y: if y > 0 {
                (y - 1) as usize
            } else {
                0
            },
        },
        Key::Down => Position {
            x,
            y: if y < height {
                (y + 1) as usize
            } else {
                y
            },
        },
        Key::Left => if x >= 1 {
            Position { x: (x - 1) as usize, y }
        } else if y >= 1 {
            Position { x: row_len(rows, y - 1), y: (y - 1) as usize }
        } else {
            cursor
        },
        Key::Right => if x < width {
            Position { x: (x + 1) as usize, y }
        } else if y < height {
            Position { x: 0, y: (y + 1) as usize }
        } else {
            cursor
        },
        _ => cursor,
    }
}

/// Where the cursor goes on a key: where the key takes it, but no further
/// right than the end of its row. `page` is the height of a page.
pub open spec fn moved(cursor: Position, key: Key, rows: Seq<RowView>, page: usize) -> Position {
    let target = stepped(cursor, key, rows, page);
    let width = row_len(rows, target.y as int);
    Position {
        x: if target.x > width {
            width
        } else {
            target.x
        },
        y: target.y,
    }
}

/// Whether `c` is a control character.
pub open spec fn is_control(c: char) -> bool {
    (c as u32) < 32 || 127 <= (c as u32) <= 159
}

/// What a key does to the text of a prompt, and whether it ends the prompt.
/// Backspace takes the last character away. Enter and Ctrl-C end the prompt
/// and keep the text; Escape ends it and drops the text. Any other
/// character that is no control character is appended.
pub open spec fn prompt_after(input: Seq<char>, key: Key) -> (Seq<char>, bool) {
    match key {
        Key::Backspace => (
            if input.len() > 0 {
                input.drop_last()
            } else {
                input
            },
            false,
        ),
        Key::Char(c) => if c == '\n' {
            (input, true)
        } else if is_control(c) {
            (input, false)
        } else {
            (input.push(c), false)
        },
        Key::Ctrl(c) => (input, c == 'c'),
        Key::Esc => (Seq::empty(), true),
        _ => (input, false),
    }
}

/// Takes a key for a prompt whose text is `input`; see [`prompt_after`].
/// Says whether the prompt has ended.
pub fn prompt_key(input: &mut String, key: Key) -> (done: bool)
    ensures
        (final(input)@, done) == prompt_after(old(input)@, key),
{
    match key {
        Key::Backspace => {
            let chars = to_chars(input.as_str());
            if chars.len() > 0 {
                *input = string_of(&chars, 0, chars.len() - 1);
            }
            false
        },
        Key::Char(c) => {
            if c == '\n' {
                true
            } else {
                let code: u32 = c as u32;
                if code < 32 || (127 <= code && code <= 159) {
                    false
                } else {
                    push_char(input, c);
                    false
                }
            }
        },
        Key::Ctrl(c) => c == 'c',
        Key::Esc => {
            *input = String::new();
            true
        },
        _ => false,
    }
}

/// The direction in which a search goes on after a key: backward after Up
/// and Left, forward after every other key.
pub open spec fn search_direction(key: Key) -> SearchDirection {
    match key {
        Key::Up | Key::Left => SearchDirection::Backward,
        _ => SearchDirection::Forward,
    }
}

/// Whether a search first steps off the place it stands at: after Down and
/// Right.
pub open spec fn search_steps_on(key: Key) -> bool {
    match key {
        Key::Down | Key::Right => true,
        _ => false,
    }
}

/// The first `count` characters of `text`.
pub open spec fn clipped(text: Seq<char>, count: int) -> Seq<char> {
    if count < text.len() {
        text.subrange(0, count)
    } else {
        text
    }
}

/// A stretch of `count` spaces.
pub open spec fn spaces(count: int) -> Seq<char> {
    Seq::new(
        if count >= 0 {
            count as nat
        } else {
            0
        },
        |i: int| ' ',
    )
}

/// The left half of the status bar: the file's name, cut to twenty
/// characters, the number of lines, and a mark where the text has changes
/// that are not saved.
pub open spec fn status_left(file_name: Option<Seq<char>>, lines: nat, dirty: bool) -> Seq<char> {
    (match file_name {
        Some(name) => clipped(name, 20),
        None => "[No File]"@,
    }) + " - "@ + decimal(lines) + " lines"@ + (if dirty {
        " (modified)"@
    } else {
        Seq::empty()
    })
}

/// The right half of the status bar: the kind of the file and the line of
/// the cursor, counted from one, among the lines.
pub open spec fn status_right(file_type: Seq<char>, cursor_y: usize, lines: nat) -> Seq<char> {
    file_type + " | "@ + decimal(capped_sum(cursor_y, 1) as nat) + "/"@ + decimal(lines)
}

/// The status bar of a window `width` cells wide: the left half, spaces
/// that push the right half to the window's edge, the right half; all of it
/// cut to the width.
pub open spec fn status_bar_of(left: Seq<char>, right: Seq<char>, width: int) -> Seq<char> {
    clipped(left + spaces(width - left.len() - right.len()) + right, width)
}

/// The line that greets the user of an empty editor: a tilde, then the
/// greeting in the middle of the window, cut to the window's width.
pub open spec fn welcome_of(version: Seq<char>, width: int) -> Seq<char> {
    let greeting = "Hecto Editor -- version "@ + version;
    let room = if width > greeting.len() {
        width - greeting.len()
    } else {
        0
    };
    clipped("~"@ + spaces(room / 2) + greeting, width)
}

/// Appends `count` spaces to `out`.
pub fn push_spaces(out: &mut String, count: usize)
    ensures
        final(out)@ == old(out)@ + spaces(count as int),
{
    let mut i: usize = 0;
    assert(out@ =~= old(out)@ + spaces(0));
    while i < count
        invariant
            i <= count,
            out@ == old(out)@ + spaces(i as int),
        decreases count - i,
    {
        push_char(out, ' ');
        i += 1;
        assert(out@ =~= old(out)@ + spaces(i as int));
    }
}

/// The first `count` characters of `text`; see [`clipped`].
pub fn clip(text: &str, count: usize) -> (out: String)
    ensures
        out@ == clipped(text@, count as int),
{
    let chars = to_chars(text);
    if count < chars.len() {
        string_of(&chars, 0, count)
    } else {
        let out = string_of(&chars, 0, chars.len());
        assert(chars@.subrange(0, chars.len() as int) =~= chars@);
        out
    }
}

/// The status bar; see [`status_left`], [`status_right`] and
/// [`status_bar_of`].
pub fn status_bar(
    file_name: Option<&str>,
    lines: usize,
    dirty: bool,
    file_type: &str,
    cursor_y: usize,
    width: usize,
) -> (out: String)
    ensures
        out@ == status_bar_of(
            status_left(
                match file_name {
                    Some(name) => Some(name@),
                    None => None,
                },
                lines as nat,
                dirty,
            ),
            status_right(file_type@, cursor_y, lines as nat),
            width as int,
        ),
{
    let mut left = match file_name {
        Some(name) => clip(name, 20),
        None => String::from_str("[No File]"),
    };
    left.append(" - ");
    push_decimal(&mut left, lines as u64);
    left.append(" lines");
    if dirty {
        left.append(" (modified)");
    } else {
        assert(left@ + Seq::<char>::empty() =~= left@);
    }
    let mut right = String::from_str(file_type);
    right.append(" | ");
    push_decimal(&mut right, cursor_y.saturating_add(1) as u64);
    right.append("/");
    push_decimal(&mut right, lines as u64);
    let left_len: usize = left.as_str().unicode_len();
    let right_len: usize = right.as_str().unicode_len();
    let mut bar = left;
    let gap: usize = if width > left_len && width - left_len > right_len {
        width - left_len - right_len
    } else {
        0
    };
    push_spaces(&mut bar, gap);
    bar.append(right.as_str());
    clip(bar.as_str(), width)
}

/// The greeting of an empty editor for a window `width` cells wide; see
/// [`welcome_of`].
pub fn welcome_message(version: &str, width: usize) -> (out: String)
    ensures
        out@ == welcome_of(version@, width as int),
{
    let greeting = String::from_str("Hecto Editor -- version ").concat(version);
    let len: usize = greeting.as_str().unicode_len();
    let room: usize = if width > len {
        width - len
    } else {
        0
    };
    let mut line = String::from_str("~");
    push_spaces(&mut line, room / 2);
    line.append(greeting.as_str());
    clip(line.as_str(), width)
}

/// The offset of the window after scrolling to the cursor; see
/// [`scrolled`].
pub fn scroll(cursor: Position, offset: Position, size: Size) -> (out: Position)
    ensures
        out == scrolled(cursor, offset, size),
{
    let width: usize = size.width as usize;
    let height: usize = size.height as usize;
    let y: usize = if cursor.y < offset.y {
        cursor.y
    } else if cursor.y >= offset.y.saturating_add(height) {
        cursor.y.saturating_sub(height).saturating_add(1)
    } else {
        offset.y
    };
    let x: usize = if cursor.x < offset.x {
        cursor.x
    } else if cursor.x >= offset.x.saturating_add(width) {
        cursor.x.saturating_sub(width).saturating_add(1)
    } else {
        offset.x
    };
    Position { x, y }
}

fn length_of_row(document: &Document, y: usize) -> (n: usize)
    ensures
        n == row_len(document@.rows, y as int),
{
    match document.row(y) {
        Some(row) => row.len(),
        None => 0,
    }
}

/// Where the cursor goes on a key in `document`; see [`moved`].
pub fn move_cursor(cursor: Position, key: Key, document: &Document, page: usize) -> (out: Position)
    ensures
        out == moved(cursor, key, document@.rows, page),
{
    let mut x: usize = cursor.x;
    let mut y: usize = cursor.y;
    let height: usize = document.len();
    let width: usize = length_of_row(document, y);
    match key {
        Key::PageUp => {
            y = if y > page {
                y - page
            } else {
                0
            };
        },
        Key::PageDown => {
            y = if y.saturating_add(page) < height {
                y.saturating_add(page)
            } else {
                height
            };
        },
        Key::Home => {
            x = 0;
        },
        Key::End => {
            x = width;
        },
        Key::Up => {
            y = y.saturating_sub(1);
        },
        Key::Down => {
            if y < height {
                y = y + 1;
            }
        },
        Key::Left => {
            if x >= 1 {
                x = x - 1;
            } else if y >= 1 {
                y = y - 1;
                x = length_of_row(document, y);
            }
        },
        Key::Right => {
            if x < width {
                x = x + 1;
            } else if y < height {
                y = y + 1;
                x = 0;
            }
        },
        _ => {},
    }
    let width: usize = length_of_row(document, y);
    if x > width {
        x = width;
    }
    Position { x, y }
}

/// The editor: a document, the cursor in it, the window on it, and what the
/// message bar says.
pub struct Editor {
    should_quit: bool,
    cursor_position: Position,
    offset: Position,
    document: Document,
    status_message: String,
    quit_times: u8,
}

/// The state of an [`Editor`].
pub ghost struct EditorView {
    /// Whether the editor is to end.
    pub should_quit: bool,
    /// The cell of the cursor, in the document.
    pub cursor: Position,
    /// The cell of the document in the window's upper left corner.
    pub offset: Position,
    /// The document.
    pub document: DocumentView,
    /// What the message bar says.
    pub status: Seq<char>,
    /// How often the quit key is still to be pressed.
    pub quit_times: u8,
}

impl View for Editor {
    type V = EditorView;

    closed spec fn view(&self) -> EditorView {
        EditorView {
            should_quit: self.should_quit,
            cursor: self.cursor_position,
            offset: self.offset,
            document: self.document@,
            status: self.status_message@,
            quit_times: self.quit_times,
        }
    }
}

/// The warning that the quit key was pressed on a document with changes
/// that are not saved, and is to be pressed `times` more times.
pub open spec fn quit_warning(times: u8) -> Seq<char> {
    "WARNING! Unsaved changes will be discarded! Press Ctrl-Q "@ + decimal(times as nat)
        + " times to quit."@
}

/// A document after a key that changes it, up to the highlight classes of
/// its rows: it has the rows `rows`, it is dirty if it was or if `changed`,
/// and no box floats over it.
pub open spec fn edited(
    before: DocumentView,
    after: DocumentView,
    rows: Seq<RowView>,
    changed: bool,
) -> bool {
    &&& plain_rows(after.rows) == plain_rows(rows)
    &&& after == (DocumentView {
        rows: after.rows,
        dirty: before.dirty || changed,
        floatings: Seq::empty(),
        ..before
    })
}

/// What a key does to the editor, and what it leaves for the caller to do.
///
/// A character is typed at the cursor, which then steps right. Ctrl-Q ends
/// the editor at once when the document is clean, and else after it was
/// pressed often enough, with a warning each time before. Ctrl-S, Ctrl-F and
/// F1 leave saving, searching and hovering to the caller. Delete deletes at
/// the cursor; Backspace steps left and deletes there. The other keys of
/// movement move the cursor. Typing, deleting and Backspace take the boxes
/// away. After every key but the quit that ends a clean document the window
/// scrolls to the cursor.
pub open spec fn key_effect(
    before: EditorView,
    key: Key,
    size: Size,
    after: EditorView,
    command: Command,
) -> bool {
    let page = size.height as usize;
    let rows = before.document.rows;
    match key {
        Key::Char(c) => {
            &&& command == Command::Nothing
            &&& edited(
                before.document,
                after.document,
                rows_insert(rows, before.cursor, c),
                before.cursor.y <= rows.len(),
            )
            &&& after == (EditorView {
                document: after.document,
                cursor: moved(before.cursor, Key::Right, after.document.rows, page),
                offset: scrolled(after.cursor, before.offset, size),
                ..before
            })
        },
        Key::Ctrl(c) => if c == 'q' {
            &&& command == Command::Nothing
            &&& after == if !before.document.dirty {
                EditorView { should_quit: true, ..before }
            } else if before.quit_times <= 1 {
                EditorView {
                    should_quit: true,
                    offset: scrolled(before.cursor, before.offset, size),
                    ..before
                }
            } else {
                EditorView {
                    quit_times: (before.quit_times - 1) as u8,
                    status: quit_warning((before.quit_times - 1) as u8),
                    offset: scrolled(before.cursor, before.offset, size),
                    ..before
                }
            }
        } else {
            &&& command == if c == 's' {
                Command::Save
            } else if c == 'f' {
                Command::Search
            } else {
                Command::Nothing
            }
            &&& after == (EditorView {
                offset: scrolled(before.cursor, before.offset, size),
                ..before
            })
        },
        Key::F(n) => {
            &&& command == if n == 1 {
                Command::Hover { x: before.cursor.x as u32, y: before.cursor.y as u32 }
            } else {
                Command::Nothing
            }
            &&& after == (EditorView {
                offset: scrolled(before.cursor, before.offset, size),
                ..before
            })
        },
        Key::Delete => {
            &&& command == Command::Nothing
            &&& edited(
                before.document,
                after.document,
                rows_delete(rows, before.cursor),
                before.cursor.y < rows.len(),
            )
            &&& after == (EditorView {
                document: after.document,
                offset: scrolled(before.cursor, before.offset, size),
                ..before
            })
        },
        Key::Backspace => {
            let target = if before.cursor.x > 0 || before.cursor.y > 0 {
                moved(before.cursor, Key::Left, rows, page)
            } else {
                before.cursor
            };
            &&& command == Command::Nothing
            &&& edited(
                before.document,
                after.document,
                if before.cursor.x > 0 || before.cursor.y > 0 {
                    rows_delete(rows, target)
                } else {
                    rows
                },
                (before.cursor.x > 0 || before.cursor.y > 0) && target.y < rows.len(),
            )
            &&& after == (EditorView {
                document: after.document,
                cursor: target,
                offset: scrolled(target, before.offset, size),
                ..before
            })
        },
        Key::Up | Key::Down | Key::Left | Key::Right | Key::PageUp | Key::PageDown | Key::End
        | Key::Home => {
            &&& command == Command::Nothing
            &&& after == (EditorView {
                cursor: moved(before.cursor, key, rows, page),
                offset: scrolled(after.cursor, before.offset, size),
                ..before
            })
        },
        _ => {
            &&& command == Command::Nothing
            &&& after == (EditorView {
                offset: scrolled(before.cursor, before.offset, size),
                ..before
            })
        },
    }
}

/// The editor after a key of the search prompt, when the prompt's text is
/// `query`. After Down and Right the search first steps off the place it
/// stands at. Where the query is found, the cursor goes there and the
/// window scrolls to it; where it is not, the step is taken back.
pub open spec fn search_after(before: EditorView, key: Key, query: Seq<char>, size: Size)
    -> EditorView {
    let page = size.height as usize;
    let rows = before.document.rows;
    let from = if search_steps_on(key) {
        moved(before.cursor, Key::Right, rows, page)
    } else {
        before.cursor
    };
    match document_find(rows, query, from, search_direction(key)) {
        Some(place) => EditorView {
            cursor: place,
            offset: scrolled(place, before.offset, size),
            ..before
        },
        None => EditorView {
            cursor: if search_steps_on(key) {
                moved(from, Key::Left, rows, page)
            } else {
                from
            },
            ..before
        },
    }
}

/// The cells of a screen row below the text: a tilde.
pub open spec fn tilde_row() -> Seq<Seq<char>> {
    seq!["~"@, "\r"@]
}

/// The screen row `y`, which shows `cells`, with the first `count` boxes
/// drawn over it, one after the other.
pub open spec fn overlaid(
    floatings: Seq<FloatingItemView>,
    cells: Seq<Seq<char>>,
    y: int,
    count: int,
) -> Seq<Seq<char>>
    decreases count,
{
    if count <= 0 {
        cells
    } else {
        item_render(floatings[count - 1], overlaid(floatings, cells, y, count - 1), y)
    }
}

/// What the row `terminal_row` of the window shows before the boxes: the
/// row of the document that stands there, as the window shows it; in an
/// empty document, a third down the window, the greeting; else a tilde.
pub open spec fn screen_base(e: EditorView, version: Seq<char>, terminal_row: u16, size: Size) -> Seq<
    Seq<char>,
> {
    let index = capped_sum(e.offset.y, terminal_row as usize);
    if index < e.document.rows.len() {
        row_render(
            e.document.rows[index as int],
            e.offset.x as int,
            capped_sum(e.offset.x, size.width as usize) as int,
        )
    } else if e.document.rows.len() == 0 && terminal_row == size.height / 3 {
        grapheme_clusters(welcome_of(version, size.width as int))
    } else {
        tilde_row()
    }
}

/// The row `terminal_row` of the window: what it shows, with all boxes of
/// the document drawn over it; see [`screen_base`] and [`overlaid`].
pub open spec fn screen_row(e: EditorView, version: Seq<char>, terminal_row: u16, size: Size) -> Seq<
    Seq<char>,
> {
    overlaid(
        e.document.floatings,
        screen_base(e, version, terminal_row, size),
        terminal_row as int,
        e.document.floatings.len() as int,
    )
}

impl Editor {
    /// An editor on `document` whose message bar says `status_message`. The
    /// cursor and the window are at the start of the document.
    pub fn new(document: Document, status_message: String) -> (editor: Editor)
        ensures
            editor@ == (EditorView {
                should_quit: false,
                cursor: Position { x: 0, y: 0 },
                offset: Position { x: 0, y: 0 },
                document: document@,
                status: status_message@,
                quit_times: QUIT_TIMES,
            }),
    {
        Editor {
            should_quit: false,
            cursor_position: Position { x: 0, y: 0 },
            offset: Position { x: 0, y: 0 },
            document,
            status_message,
            quit_times: QUIT_TIMES,
        }
    }

    /// Whether the editor is to end.
    pub fn should_quit(&self) -> (b: bool)
        ensures
            b == self@.should_quit,
    {
        self.should_quit
    }

    /// The cell of the cursor, in the document.
    pub fn cursor_position(&self) -> (p: Position)
        ensures
            p == self@.cursor,
    {
        self.cursor_position
    }

    /// The cell of the document in the window's upper left corner.
    pub fn offset(&self) -> (p: Position)
        ensures
            p == self@.offset,
    {
        self.offset
    }

    /// The document.
    pub fn document(&self) -> (document: &Document)
        ensures
            document@ == self@.document,
    {
        &self.document
    }

    /// What the message bar says.
    pub fn status_message(&self) -> (message: &str)
        ensures
            message@ == self@.status,
    {
        self.status_message.as_str()
    }

    /// Makes the message bar say `message`.
    pub fn set_status(&mut self, message: String)
        ensures
            final(self)@ == (EditorView { status: message@, ..old(self)@ }),
    {
        self.status_message = message;
    }

    /// The row `row` as the window shows it: from the window's left edge,
    /// as wide as the window.
    pub fn draw_row(&self, row: &Row, size: Size) -> (cells: Vec<String>)
        ensures
            texts(cells@) == row_render(
                row@,
                self@.offset.x as int,
                capped_sum(self@.offset.x, size.width as usize) as int,
            ),
    {
        let width: usize = size.width as usize;
        let start: usize = self.offset.x;
        let end: usize = self.offset.x.saturating_add(width);
        row.render(start, end)
    }

    /// The status bar for a window `width` cells wide; see
    /// [`status_bar_of`].
    pub fn draw_status_bar(&self, width: usize) -> (bar: String)
        ensures
            bar@ == status_bar_of(
                status_left(
                    self@.document.file_name,
                    self@.document.rows.len(),
                    self@.document.dirty,
                ),
                status_right(
                    self@.document.file_type.name,
                    self@.cursor.y,
                    self@.document.rows.len(),
                ),
                width as int,
            ),
    {
        let kind = self.document.file_type();
        status_bar(
            self.document.name(),
            self.document.len(),
            self.document.is_dirty(),
            kind.as_str(),
            self.cursor_position.y,
            width,
        )
    }

    /// The message bar for a window `width` cells wide: the message, cut to
    /// the width.
    pub fn draw_message_bar(&self, width: usize) -> (bar: String)
        ensures
            bar@ == clipped(self@.status, width as int),
    {
        clip(self.status_message.as_str(), width)
    }

    /// Takes a key; see [`key_effect`].
    pub fn process_key(&mut self, key: Key, size: Size) -> (command: Command)
        ensures
            key_effect(old(self)@, key, size, final(self)@, command),
    {
        let page: usize = size.height as usize;
        let mut command = Command::Nothing;
        match key {
            Key::Char(c) => {
                self.document.insert(&self.cursor_position, c);
                self.cursor_position = move_cursor(
                    self.cursor_position,
                    Key::Right,
                    &self.document,
                    page,
                );
                self.document.clear_floating();
            },
            Key::Ctrl(c) => {
                if c == 'q' {
                    if !self.document.is_dirty() {
                        self.should_quit = true;
                        return Command::Nothing;
                    }
                    if self.quit_times <= 1 {
                        self.should_quit = true;
                    } else {
                        self.quit_times = self.quit_times - 1;
                        let mut warning = String::from_str(
                            "WARNING! Unsaved changes will be discarded! Press Ctrl-Q ",
                        );
                        push_decimal(&mut warning, self.quit_times as u64);
                        warning.append(" times to quit.");
                        self.status_message = warning;
                    }
                } else if c == 's' {
                    command = Command::Save;
                } else if c == 'f' {
                    command = Command::Search;
                }
            },
            Key::F(n) => {
                if n == 1 {
                    command = Command::Hover {
                        x: #[verifier::truncate] (self.cursor_position.x as u32),
                        y: #[verifier::truncate] (self.cursor_position.y as u32),
                    };
                }
            },
            Key::Delete => {
                self.document.clear_floating();
                self.document.delete(&self.cursor_position);
                self.document.clear_floating();
            },
            Key::Backspace => {
                if self.cursor_position.x > 0 || self.cursor_position.y > 0 {
                    self.cursor_position = move_cursor(
                        self.cursor_position,
                        Key::Left,
                        &self.document,
                        page,
                    );
                    self.document.delete(&self.cursor_position);
                }
                self.document.clear_floating();
            },
            Key::Up | Key::Down | Key::Left | Key::Right | Key::PageUp | Key::PageDown | Key::End
            | Key::Home => {
                self.cursor_position = move_cursor(self.cursor_position, key, &self.document, page);
            },
            _ => {},
        }
        self.offset = scroll(self.cursor_position, self.offset, size);
        command
    }

    /// Takes a key of the search prompt, whose text is now `query`; see
    /// [`search_after`].
    pub fn search_key(&mut self, key: Key, query: &str, size: Size)
        ensures
            final(self)@ == search_after(old(self)@, key, query@, size),
    {
        let page: usize = size.height as usize;
        let mut moved: bool = false;
        let direction = match key {
            Key::Down | Key::Right => {
                self.cursor_position = move_cursor(
                    self.cursor_position,
                    Key::Right,
                    &self.document,
                    page,
                );
                moved = true;
                SearchDirection::Forward
            },
            Key::Up | Key::Left => SearchDirection::Backward,
            _ => SearchDirection::Forward,
        };
        match self.document.find(query, &self.cursor_position, direction) {
            Some(place) => {
                self.cursor_position = place;
                self.offset = scroll(self.cursor_position, self.offset, size);
            },
            None => {
                if moved {
                    self.cursor_position = move_cursor(
                        self.cursor_position,
                        Key::Left,
                        &self.document,
                        page,
                    );
                }
            },
        }
    }

    /// Ends a search that was given up: the cursor goes back to `previous`,
    /// where it stood before the search, and the window scrolls to it.
    pub fn search_cancelled(&mut self, previous: Position, size: Size)
        ensures
            final(self)@ == (EditorView {
                cursor: previous,
                offset: scrolled(previous, old(self)@.offset, size),
                ..old(self)@
            }),
    {
        self.cursor_position = previous;
        self.offset = scroll(self.cursor_position, self.offset, size);
    }

    /// Gives the document the name `name` to be saved under.
    pub fn save_as(&mut self, name: String)
        ensures
            final(self)@ == (EditorView {
                document: DocumentView { file_name: Some(name@), ..old(self)@.document },
                ..old(self)@
            }),
    {
        self.document.set_name(name);
    }

    /// Notes that saving was given up because no name was given.
    pub fn save_aborted(&mut self)
        ensures
            final(self)@ == (EditorView {
                status: "Save aborted"@,
                document: DocumentView { floatings: Seq::empty(), ..old(self)@.document },
                ..old(self)@
            }),
    {
        self.status_message = String::from_str("Save aborted");
        self.document.clear_floating();
    }

    /// Notes how saving ended. After a save that went well the document is
    /// clean and of the kind that its name tells; after one that failed it
    /// stays as it is. Either way the message bar says how it went, and the
    /// boxes are taken away.
    pub fn save_finished(&mut self, written: bool)
        ensures
            plain_rows(final(self)@.document.rows) == plain_rows(old(self)@.document.rows),
            final(self)@ == (EditorView {
                status: if written {
                    "File Saved successfully"@
                } else {
                    "Error writing file!"@
                },
                document: DocumentView {
                    rows: final(self)@.document.rows,
                    floatings: Seq::empty(),
                    dirty: if written && old(self)@.document.file_name is Some {
                        false
                    } else {
                        old(self)@.document.dirty
                    },
                    file_type: match old(self)@.document.file_name {
                        Some(name) => if written {
                            kind_of(name)
                        } else {
                            old(self)@.document.file_type
                        },
                        None => old(self)@.document.file_type,
                    },
                    ..old(self)@.document
                },
                ..old(self)@
            }),
    {
        if written {
            self.document.save();
            self.status_message = String::from_str("File Saved successfully");
        } else {
            self.status_message = String::from_str("Error writing file!");
        }
        self.document.clear_floating();
    }

    /// Shows the hover text `lines` for the cell `x`, `y` in a box; see
    /// [`hover_box`].
    pub fn show_hover(&mut self, x: u32, y: u32, lines: &Vec<String>)
        ensures
            final(self)@ == (EditorView {
                document: DocumentView {
                    floatings: seq![hover_box(x, y, texts(lines@))],
                    ..old(self)@.document
                },
                ..old(self)@
            }),
    {
        self.document.hover(x, y, lines);
    }

    /// Takes the answer of the language server for the cell `x`, `y`:
    /// lines are shown in a box, see [`hover_box`]; without an answer the
    /// editor stays as it is.
    pub fn take_hover(&mut self, x: u32, y: u32, found: Option<Vec<String>>)
        ensures
            final(self)@ == (match found {
                Some(lines) => EditorView {
                    document: DocumentView {
                        floatings: seq![hover_box(x, y, texts(lines@))],
                        ..old(self)@.document
                    },
                    ..old(self)@
                },
                None => old(self)@,
            }),
    {
        match found {
            Some(lines) => {
                self.document.hover(x, y, &lines);
            },
            None => {},
        }
    }

    /// The cells of the row `terminal_row` of the window; see
    /// [`screen_row`]. `version` is the version that the greeting names.
    pub fn draw_screen_row(&self, version: &str, terminal_row: u16, size: Size) -> (cells: Vec<
        String,
    >)
        ensures
            texts(cells@) == screen_row(self@, version@, terminal_row, size),
    {
        let index: usize = self.offset.y.saturating_add(terminal_row as usize);
        let mut cells: Vec<String> = match self.document.row(index) {
            Some(row) => self.draw_row(row, size),
            None => {
                if self.document.is_empty() && terminal_row == size.height / 3 {
                    clusters_of(welcome_message(version, size.width as usize).as_str())
                } else {
                    let mut tilde: Vec<String> = Vec::new();
                    let first = String::from_str("~");
                    let second = String::from_str("\r");
                    proof {
                        lemma_texts_push(tilde@, first);
                        lemma_texts_push(tilde@.push(first), second);
                        assert(texts(tilde@.push(first).push(second)) =~= tilde_row());
                    }
                    tilde.push(first);
                    tilde.push(second);
                    tilde
                }
            },
        };
        let ghost base = texts(cells@);
        let mut i: usize = 0;
        while i < self.document.floating_len()
            invariant
                i <= self.document@.floatings.len(),
                texts(cells@) == overlaid(
                    self.document@.floatings,
                    base,
                    terminal_row as int,
                    i as int,
                ),
            decreases self.document@.floatings.len() - i,
        {
            match self.document.floating(i) {
                Some(floating) => {
                    cells = floating.render(&cells, terminal_row as usize);
                },
                None => {},
            }
            i += 1;
        }
        cells
    }
}

} // verus!
