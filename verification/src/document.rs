//! The document: the rows of a file, what is known of the file, and the
//! boxes that float over the text.

use vstd::prelude::*;
use vstd::slice::{slice_subrange, slice_to_vec};
use vstd::string::*;
use vstd::utf8::encode_utf8;
use crate::editor::{Position, SearchDirection};
use crate::filetype::{file_type_of, syntax_of, unknown_file_type, FileType, FileTypeView};
use crate::floating_item::{FloatingItem, FloatingItemView};
use crate::grapheme::{clusters_of, grapheme_clusters};
use crate::highlighting::{painted, Highlight, HighlightError, Type};
use crate::row::{
    row_append, row_delete, row_find, row_insert, row_split_left, row_split_right, Row, RowView,
};
use crate::text::{lemma_texts_push, lines, split_lines, texts};

verus! {

/// The text of a file as rows, with the file's name and kind, whether the
/// text has changes that are not saved, and the boxes that float over it.
pub struct Document {
    rows: Vec<Row>,
    pub file_name: Option<String>,
    dirty: bool,
    file_type: FileType,
    floatings: Vec<FloatingItem>,
    highlighter: Option<Highlight>,
}

/// The state of a [`Document`].
pub ghost struct DocumentView {
    /// The rows, first to last.
    pub rows: Seq<RowView>,
    /// The name of the file, where the document has one.
    pub file_name: Option<Seq<char>>,
    /// Whether the text has changes that are not saved.
    pub dirty: bool,
    /// The kind of the file.
    pub file_type: FileTypeView,
    /// The boxes that float over the text.
    pub floatings: Seq<FloatingItemView>,
}

/// The states of a list of rows, in order.
pub open spec fn rows_view(rows: Seq<Row>) -> Seq<RowView> {
    Seq::new(rows.len(), |i: int| rows[i]@)
}

/// The states of a list of boxes, in order.
pub open spec fn floatings_view(items: Seq<FloatingItem>) -> Seq<FloatingItemView> {
    Seq::new(items.len(), |i: int| items[i]@)
}

impl View for Document {
    type V = DocumentView;

    closed spec fn view(&self) -> DocumentView {
        DocumentView {
            rows: rows_view(self.rows@),
            file_name: match self.file_name {
                Some(name) => Some(name@),
                None => None,
            },
            dirty: self.dirty,
            file_type: self.file_type@,
            floatings: floatings_view(self.floatings@),
        }
    }
}

/// A row without its highlight classes.
pub open spec fn plain(row: RowView) -> RowView {
    RowView { highlight: Seq::empty(), ..row }
}

/// Rows without their highlight classes.
pub open spec fn plain_rows(rows: Seq<RowView>) -> Seq<RowView> {
    Seq::new(rows.len(), |i: int| plain(rows[i]))
}

/// The row of the line `line`, fresh from a file.
pub open spec fn row_of(line: Seq<char>) -> RowView {
    RowView { text: line, len: grapheme_clusters(line).len(), highlight: Seq::empty() }
}

/// The empty row.
pub open spec fn empty_row() -> RowView {
    RowView { text: Seq::empty(), len: 0, highlight: Seq::empty() }
}

/// The rows after `c` was typed at `at`. A line feed splits the row at the
/// place, or adds an empty row below the last one. Any other character goes
/// into the row at the place, or into a new row below the last one. A place
/// further down changes nothing.
pub open spec fn rows_insert(rows: Seq<RowView>, at: Position, c: char) -> Seq<RowView> {
    if at.y > rows.len() {
        rows
    } else if c == '\n' {
        if at.y == rows.len() {
            rows.push(empty_row())
        } else {
            rows.update(at.y as int, row_split_left(rows[at.y as int], at.x as int)).insert(
                at.y + 1,
                row_split_right(rows[at.y as int], at.x as int),
            )
        }
    } else if at.y == rows.len() {
        rows.push(row_insert(empty_row(), 0, c))
    } else {
        rows.update(at.y as int, row_insert(rows[at.y as int], at.x as int, c))
    }
}

/// The rows after the cluster at `at` was deleted. At the end of a row that
/// is not the last, the next row is joined to it. A place below the last row
/// changes nothing.
pub open spec fn rows_delete(rows: Seq<RowView>, at: Position) -> Seq<RowView> {
    if at.y >= rows.len() {
        rows
    } else if at.x == rows[at.y as int].len && at.y + 1 < rows.len() {
        rows.remove(at.y + 1).update(
            at.y as int,
            row_append(rows[at.y as int], rows[at.y + 1]),
        )
    } else {
        rows.update(at.y as int, row_delete(rows[at.y as int], at.x as int))
    }
}

/// Where a search goes on after the row `at.y` gave nothing: forward, at the
/// start of the next row; backward, at the end of the row before, and from
/// the first row on the first row again.
pub open spec fn search_onward(rows: Seq<RowView>, at: Position, direction: SearchDirection)
    -> Position {
    if direction == SearchDirection::Forward {
        Position {
            x: 0,
            y: if at.y < usize::MAX {
                (at.y + 1) as usize
            } else {
                at.y
            },
        }
    } else {
        let y: usize = if at.y > 0 {
            (at.y - 1) as usize
        } else {
            0
        };
        Position { x: rows[y as int].len as usize, y }
    }
}

/// Where `query` is found when the search starts at `at` and looks at up to
/// `steps` rows, one after the other; see [`row_find`] for the search in
/// one row.
pub open spec fn rows_find(
    rows: Seq<RowView>,
    query: Seq<char>,
    at: Position,
    direction: SearchDirection,
    steps: nat,
) -> Option<Position>
    decreases steps,
{
    if steps == 0 || at.y >= rows.len() {
        None
    } else {
        match row_find(rows[at.y as int], query, at.x as int, direction) {
            Some(x) => Some(Position { x: x as usize, y: at.y }),
            None => rows_find(
                rows,
                query,
                search_onward(rows, at, direction),
                direction,
                (steps - 1) as nat,
            ),
        }
    }
}

/// Where `query` is found in a document when the search starts at `at`:
/// forward through the rows from `at.y` to the last, backward through the
/// rows from `at.y` to the first. A place below the last row finds nothing.
pub open spec fn document_find(
    rows: Seq<RowView>,
    query: Seq<char>,
    at: Position,
    direction: SearchDirection,
) -> Option<Position> {
    if at.y >= rows.len() {
        None
    } else {
        rows_find(
            rows,
            query,
            at,
            direction,
            if direction == SearchDirection::Forward {
                (rows.len() - at.y) as nat
            } else {
                (at.y + 1) as nat
            },
        )
    }
}

/// The texts of the first `count` rows, each followed by `ending`.
pub open spec fn joined_lines(rows: Seq<RowView>, ending: Seq<char>, count: int) -> Seq<char>
    decreases count,
{
    if count <= 0 {
        Seq::empty()
    } else {
        joined_lines(rows, ending, count - 1) + rows[count - 1].text + ending
    }
}

/// The bytes of the first `count` rows, each followed by the bytes `ending`.
pub open spec fn joined_bytes(rows: Seq<RowView>, ending: Seq<u8>, count: int) -> Seq<u8>
    decreases count,
{
    if count <= 0 {
        Seq::empty()
    } else {
        joined_bytes(rows, ending, count - 1) + encode_utf8(rows[count - 1].text) + ending
    }
}

/// The text of the first `count` rows with `\r\n` between them.
pub open spec fn snapshot(rows: Seq<RowView>, count: int) -> Seq<char>
    decreases count,
{
    if count <= 0 {
        Seq::empty()
    } else if count == 1 {
        rows[0].text
    } else {
        snapshot(rows, count - 1) + "\r\n"@ + rows[count - 1].text
    }
}

/// The bytes `\r\n`.
pub open spec fn crlf() -> Seq<u8> {
    seq![13u8, 10u8]
}

/// The byte at which the row `index` starts in the source that is handed to
/// the highlighter, where each row is followed by `\r\n`.
pub open spec fn source_start(rows: Seq<RowView>, index: int) -> int
    decreases index,
{
    if index <= 0 {
        0
    } else {
        source_start(rows, index - 1) + encode_utf8(rows[index - 1].text).len() + 2
    }
}

/// A row with the classes that `tags` holds for its bytes; unchanged where
/// `tags` does not reach to the row's end.
pub open spec fn row_highlighted(rows: Seq<RowView>, tags: Seq<Type>, index: int) -> RowView {
    let start = source_start(rows, index);
    let end = start + encode_utf8(rows[index].text).len();
    if end <= tags.len() {
        RowView { highlight: tags.subrange(start, end), ..rows[index] }
    } else {
        rows[index]
    }
}

/// The rows with the classes that `tags` holds for their bytes.
pub open spec fn rows_highlighted(rows: Seq<RowView>, tags: Seq<Type>) -> Seq<RowView> {
    Seq::new(rows.len(), |i: int| row_highlighted(rows, tags, i))
}

/// The lines that are not empty, in order.
pub open spec fn filled_lines(lines: Seq<Seq<char>>) -> Seq<Seq<char>>
    decreases lines.len(),
{
    if lines.len() == 0 {
        Seq::empty()
    } else if lines.last().len() > 0 {
        filled_lines(lines.drop_last()).push(lines.last())
    } else {
        filled_lines(lines.drop_last())
    }
}

/// The number of clusters of the line that has most.
pub open spec fn widest_line(lines: Seq<Seq<char>>) -> nat
    decreases lines.len(),
{
    if lines.len() == 0 {
        0
    } else {
        let before = widest_line(lines.drop_last());
        let last = grapheme_clusters(lines.last()).len();
        if last > before {
            last
        } else {
            before
        }
    }
}

/// The box that shows the hover text `lines` for the cell `x`, `y`: one row
/// below the cell, as wide as the widest line, with the lines that are not
/// empty.
pub open spec fn hover_box(x: u32, y: u32, lines: Seq<Seq<char>>) -> FloatingItemView {
    FloatingItemView {
        pos: Position {
            x: x as usize,
            y: if y < u32::MAX {
                (y + 1) as usize
            } else {
                y as usize
            },
        },
        width: widest_line(lines) as usize,
        height: filled_lines(lines).len() as usize,
        msg: filled_lines(lines),
        bg_color: (0u8, 0u8, 0u8),
    }
}

/// The kind of the file named `file_name`.
pub open spec fn kind_of(file_name: Seq<char>) -> FileTypeView {
    match syntax_of(file_name) {
        Some(syntax) => file_type_of(syntax),
        None => unknown_file_type(),
    }
}

/// The source starts of later rows are no smaller.
pub proof fn lemma_source_start_grows(rows: Seq<RowView>, i: int, k: int)
    requires
        0 <= i <= k,
    ensures
        source_start(rows, i) <= source_start(rows, k),
        i < k ==> source_start(rows, i) + encode_utf8(rows[i].text).len() + 2 <= source_start(
            rows,
            k,
        ),
    decreases k - i,
{
    if i < k {
        lemma_source_start_grows(rows, i, k - 1);
    }
}

/// The rows of the lines `lines`, fresh from a file.
pub fn rows_from(lines: &Vec<String>) -> (rows: Vec<Row>)
    ensures
        rows_view(rows@) == Seq::new(lines.len() as nat, |i: int| row_of(lines[i]@)),
{
    let mut rows: Vec<Row> = Vec::new();
    let mut i: usize = 0;
    while i < lines.len()
        invariant
            i <= lines.len(),
            rows.len() == i,
            rows_view(rows@) == Seq::new(i as nat, |k: int| row_of(lines[k]@)),
        decreases lines.len() - i,
    {
        let row = Row::from(lines[i].as_str());
        assert(rows_view(rows@.push(row)) =~= Seq::new((i + 1) as nat, |k: int| row_of(lines[k]@)))
            by {
            assert forall|k: int| 0 <= k < i implies rows@[k]@ == row_of(lines[k]@) by {
                assert(rows_view(rows@)[k] == rows@[k]@);
            }
        }
        rows.push(row);
        i += 1;
    }
    rows
}

/// The kind of the file named `file_name`; see [`kind_of`].
pub fn kind_of_file(file_name: &str) -> (kind: FileType)
    ensures
        kind@ == kind_of(file_name@),
        syntax_of(file_name@) is Some ==> kind.highlighting().complete(),
        syntax_of(file_name@) is None ==> kind.highlighting().empty(),
{
    match FileType::from(file_name) {
        Some(kind) => kind,
        None => FileType::default(),
    }
}

impl Default for Document {
    /// A document without rows and without a file.
    fn default() -> (doc: Document)
        ensures
            doc@ == (DocumentView {
                rows: Seq::empty(),
                file_name: None,
                dirty: false,
                file_type: unknown_file_type(),
                floatings: Seq::empty(),
            }),
    {
        let doc = Document {
            rows: Vec::new(),
            file_name: None,
            dirty: false,
            file_type: FileType::default(),
            floatings: Vec::new(),
            highlighter: None,
        };
        assert(rows_view(doc.rows@) =~= Seq::empty());
        assert(floatings_view(doc.floatings@) =~= Seq::empty());
        doc
    }
}

impl Document {
    /// The document of the file named `file_name`, whose text is
    /// `contents`: one row for each line, highlighted where the editor
    /// knows the file's language.
    pub fn open(file_name: &str, contents: &str) -> (doc: Document)
        ensures
            plain_rows(doc@.rows) == Seq::new(
                lines(contents@).len(),
                |i: int| row_of(lines(contents@)[i]),
            ),
            doc@.file_name == Some(file_name@),
            !doc@.dirty,
            doc@.file_type == kind_of(file_name@),
            doc@.floatings == Seq::<FloatingItemView>::empty(),
    {
        let file_type = kind_of_file(file_name);
        let options = file_type.highlighting_options();
        let highlighter = match (options.get_lang(), options.get_hl_query(), options.get_inj_query()) {
            (Some(lang), Some(hl_query), Some(inj_query)) => match Highlight::new(
                lang,
                hl_query,
                inj_query,
            ) {
                Ok(highlighter) => Some(highlighter),
                Err(_) => None,
            },
            _ => None,
        };
        let found = split_lines(contents);
        let rows = rows_from(&found);
        let mut doc = Document {
            rows,
            file_name: Some(String::from_str(file_name)),
            dirty: false,
            file_type,
            floatings: Vec::new(),
            highlighter,
        };
        assert(floatings_view(doc.floatings@) =~= Seq::empty());
        assert(plain_rows(doc@.rows) =~= Seq::new(
            lines(contents@).len(),
            |i: int| row_of(lines(contents@)[i]),
        )) by {
            assert(texts(found@) == lines(contents@));
            assert forall|i: int| 0 <= i < found.len() implies found[i]@ == lines(contents@)[i] by {
                assert(texts(found@)[i] == found[i]@);
            }
        }
        doc.highlight();
        doc
    }

    /// The row `index`.
    pub fn row(&self, index: usize) -> (row: Option<&Row>)
        ensures
            match row {
                Some(row) => index < self@.rows.len() && row@ == self@.rows[index as int],
                None => index >= self@.rows.len(),
            },
    {
        if index < self.rows.len() {
            Some(&self.rows[index])
        } else {
            None
        }
    }

    /// Whether the document has no rows.
    pub fn is_empty(&self) -> (b: bool)
        ensures
            b == (self@.rows.len() == 0),
    {
        self.rows.len() == 0
    }

    /// The number of rows.
    pub fn len(&self) -> (n: usize)
        ensures
            n == self@.rows.len(),
    {
        self.rows.len()
    }

    /// The number of boxes that float over the text.
    pub fn floating_len(&self) -> (n: usize)
        ensures
            n == self@.floatings.len(),
    {
        self.floatings.len()
    }

    /// The box `index`.
    pub fn floating(&self, index: usize) -> (item: Option<&FloatingItem>)
        ensures
            match item {
                Some(item) => index < self@.floatings.len() && item@ == self@.floatings[index as int],
                None => index >= self@.floatings.len(),
            },
    {
        if index < self.floatings.len() {
            Some(&self.floatings[index])
        } else {
            None
        }
    }

    fn insert_newline(&mut self, at: &Position)
        requires
            at.y <= old(self).rows.len(),
        ensures
            plain_rows(final(self)@.rows) == plain_rows(rows_insert(old(self)@.rows, *at, '\n')),
            final(self)@ == (DocumentView { rows: final(self)@.rows, ..old(self)@ }),
    {
        if at.y == self.rows.len() {
            let row = Row::default();
            assert(rows_view(self.rows@.push(row)) =~= rows_view(self.rows@).push(row@));
            self.rows.push(row);
            return ;
        }
        let new_row = self.rows[at.y].split(at.x);
        self.rows.insert(at.y + 1, new_row);
        assert(rows_view(self.rows@) =~= rows_insert(rows_view(old(self).rows@), *at, '\n'));
        self.highlight();
    }

    /// Types `c` at `at`; see [`rows_insert`]. A change makes the document
    /// dirty, and the rows are highlighted anew.
    pub fn insert(&mut self, at: &Position, c: char)
        ensures
            plain_rows(final(self)@.rows) == plain_rows(rows_insert(old(self)@.rows, *at, c)),
            final(self)@ == (DocumentView {
                rows: final(self)@.rows,
                dirty: old(self)@.dirty || at.y <= old(self)@.rows.len(),
                ..old(self)@
            }),
    {
        if at.y > self.rows.len() {
            return ;
        }
        self.dirty = true;
        if c == '\n' {
            self.insert_newline(at);
            return ;
        }
        if at.y == self.rows.len() {
            let mut row = Row::default();
            row.insert(0, c);
            assert(rows_view(self.rows@.push(row)) =~= rows_view(self.rows@).push(row@));
            self.rows.push(row);
        } else {
            self.rows[at.y].insert(at.x, c);
            assert(rows_view(self.rows@) =~= rows_insert(rows_view(old(self).rows@), *at, c));
        }
        self.highlight();
    }

    /// Deletes the cluster at `at`; see [`rows_delete`]. A change makes the
    /// document dirty, and the rows are highlighted anew.
    pub fn delete(&mut self, at: &Position)
        ensures
            plain_rows(final(self)@.rows) == plain_rows(rows_delete(old(self)@.rows, *at)),
            final(self)@ == (DocumentView {
                rows: final(self)@.rows,
                dirty: old(self)@.dirty || at.y < old(self)@.rows.len(),
                ..old(self)@
            }),
    {
        let len: usize = self.rows.len();
        if at.y >= len {
            return ;
        }
        self.dirty = true;
        if at.x == self.rows[at.y].len() && at.y < len - 1 {
            let next_row = self.rows.remove(at.y + 1);
            self.rows[at.y].append(&next_row);
            assert(rows_view(self.rows@) =~= rows_delete(rows_view(old(self).rows@), *at));
        } else {
            self.rows[at.y].delete(at.x);
            assert(rows_view(self.rows@) =~= rows_delete(rows_view(old(self).rows@), *at));
        }
        self.highlight();
    }

    /// The bytes that a file holds when the document is saved in it: each
    /// row, followed by a line feed.
    pub fn file_bytes(&self) -> (bytes: Vec<u8>)
        ensures
            bytes@ == joined_bytes(self@.rows, seq![10u8], self@.rows.len() as int),
    {
        let mut bytes: Vec<u8> = Vec::new();
        let mut i: usize = 0;
        while i < self.rows.len()
            invariant
                i <= self.rows.len(),
                bytes@ == joined_bytes(rows_view(self.rows@), seq![10u8], i as int),
            decreases self.rows.len() - i,
        {
            bytes.extend_from_slice(self.rows[i].as_bytes());
            bytes.push(10u8);
            i += 1;
            assert(bytes@ =~= joined_bytes(rows_view(self.rows@), seq![10u8], i as int));
        }
        bytes
    }

    /// Closes a save, after the bytes of [`Document::file_bytes`] were
    /// written under the document's name: the kind of the file is taken
    /// from the name again, the rows are highlighted anew, and the document
    /// is clean. A document without a name stays as it is.
    pub fn save(&mut self)
        ensures
            plain_rows(final(self)@.rows) == plain_rows(old(self)@.rows),
            match old(self)@.file_name {
                Some(name) => final(self)@ == (DocumentView {
                    rows: final(self)@.rows,
                    dirty: false,
                    file_type: kind_of(name),
                    ..old(self)@
                }),
                None => final(self)@ == old(self)@,
            },
    {
        let kind = match &self.file_name {
            Some(name) => Some(kind_of_file(name.as_str())),
            None => None,
        };
        match kind {
            Some(kind) => {
                self.file_type = kind;
                self.highlight();
                self.dirty = false;
            },
            None => {},
        }
    }

    /// The name of the file, where the document has one.
    pub fn name(&self) -> (name: Option<&str>)
        ensures
            match name {
                Some(name) => self@.file_name == Some(name@),
                None => self@.file_name is None,
            },
    {
        match &self.file_name {
            Some(name) => Some(name.as_str()),
            None => None,
        }
    }

    /// Gives the document the name `name`.
    pub fn set_name(&mut self, name: String)
        ensures
            final(self)@ == (DocumentView { file_name: Some(name@), ..old(self)@ }),
    {
        self.file_name = Some(name);
    }

    /// Whether the text has changes that are not saved.
    pub fn is_dirty(&self) -> (b: bool)
        ensures
            b == self@.dirty,
    {
        self.dirty
    }

    /// Searches the document for `query`; see [`document_find`].
    pub fn find(&self, query: &str, at: &Position, direction: SearchDirection) -> (r: Option<
        Position,
    >)
        ensures
            r == document_find(self@.rows, query@, *at, direction),
    {
        if at.y >= self.rows.len() {
            return None;
        }
        let forward: bool = direction == SearchDirection::Forward;
        let mut position: Position = Position { x: at.x, y: at.y };
        let mut steps: usize = if forward {
            self.rows.len() - at.y
        } else {
            at.y + 1
        };
        while steps > 0
            invariant
                forward == (direction == SearchDirection::Forward),
                document_find(self@.rows, query@, *at, direction) == rows_find(
                    self@.rows,
                    query@,
                    position,
                    direction,
                    steps as nat,
                ),
            decreases steps,
        {
            if position.y >= self.rows.len() {
                return None;
            }
            match self.rows[position.y].find(query, position.x, direction) {
                Some(x) => {
                    return Some(Position { x, y: position.y });
                },
                None => {},
            }
            if forward {
                position = Position { x: 0, y: position.y.saturating_add(1) };
            } else {
                let y: usize = position.y.saturating_sub(1);
                position = Position { x: self.rows[y].len(), y };
            }
            steps -= 1;
        }
        None
    }

    /// The name of the kind of the file.
    pub fn file_type(&self) -> (name: String)
        ensures
            name@ == self@.file_type.name,
    {
        self.file_type.name()
    }

    /// The source that is handed to the highlighter: the bytes of each
    /// row, followed by `\r\n`.
    pub fn highlight_source(&self) -> (bytes: Vec<u8>)
        ensures
            bytes@ == joined_bytes(self@.rows, crlf(), self@.rows.len() as int),
    {
        let mut bytes: Vec<u8> = Vec::new();
        let mut i: usize = 0;
        while i < self.rows.len()
            invariant
                i <= self.rows.len(),
                bytes@ == joined_bytes(rows_view(self.rows@), crlf(), i as int),
            decreases self.rows.len() - i,
        {
            bytes.extend_from_slice(self.rows[i].as_bytes());
            bytes.push(13u8);
            bytes.push(10u8);
            i += 1;
            assert(bytes@ =~= joined_bytes(rows_view(self.rows@), crlf(), i as int));
        }
        bytes
    }

    /// The text of the document as the language server gets it: the rows
    /// with `\r\n` between them.
    pub fn text(&self) -> (text: String)
        ensures
            text@ == snapshot(self@.rows, self@.rows.len() as int),
    {
        let mut text = String::new();
        let mut i: usize = 0;
        while i < self.rows.len()
            invariant
                i <= self.rows.len(),
                text@ == snapshot(rows_view(self.rows@), i as int),
            decreases self.rows.len() - i,
        {
            if i > 0 {
                text.append("\r\n");
            }
            text.append(self.rows[i].as_str());
            i += 1;
            assert(text@ =~= snapshot(rows_view(self.rows@), i as int));
        }
        text
    }

    /// Gives each row the classes that `tags` holds for its bytes; see
    /// [`rows_highlighted`].
    pub fn apply_highlight(&mut self, tags: &Vec<Type>)
        ensures
            final(self)@ == (DocumentView {
                rows: rows_highlighted(old(self)@.rows, tags@),
                ..old(self)@
            }),
    {
        let ghost before = rows_view(self.rows@);
        let mut start: usize = 0;
        let mut i: usize = 0;
        while i < self.rows.len()
            invariant_except_break
                i <= self.rows.len(),
                start == source_start(before, i as int),
                start <= tags.len(),
                forall|k: int|
                    0 <= k < i ==> (#[trigger] self.rows@[k])@ == row_highlighted(before, tags@, k),
                forall|k: int| i <= k < before.len() ==> (#[trigger] self.rows@[k])@ == before[k],
            invariant
                self.rows.len() == before.len(),
                self.file_name == old(self).file_name,
                self.dirty == old(self).dirty,
                self.file_type == old(self).file_type,
                self.floatings == old(self).floatings,
            ensures
                forall|k: int|
                    0 <= k < before.len() ==> (#[trigger] self.rows@[k])@ == row_highlighted(
                        before,
                        tags@,
                        k,
                    ),
                self.rows.len() == before.len(),
                self.file_name == old(self).file_name,
                self.dirty == old(self).dirty,
                self.file_type == old(self).file_type,
                self.floatings == old(self).floatings,
            decreases self.rows.len() - i,
        {
            let width: usize = self.rows[i].as_bytes().len();
            if width > tags.len() - start {
                proof {
                    assert forall|k: int| i <= k < before.len() implies (
                    #[trigger] self.rows@[k])@ == row_highlighted(before, tags@, k) by {
                        lemma_source_start_grows(before, i as int, k);
                    }
                }
                break ;
            }
            let end: usize = start + width;
            let classes = slice_to_vec(slice_subrange(tags.as_slice(), start, end));
            self.rows[i].set_highlight(classes);
            if tags.len() - end < 2 {
                proof {
                    assert forall|k: int| i < k < before.len() implies (#[trigger] self.rows@[k])@
                        == row_highlighted(before, tags@, k) by {
                        lemma_source_start_grows(before, i as int, k);
                    }
                }
                break ;
            }
            start = end + 2;
            i += 1;
        }
        assert(rows_view(self.rows@) =~= rows_highlighted(before, tags@));
    }

    /// Highlights the rows anew. A document that cannot highlight stays as
    /// it is. One that can hands its source to the highlighter and takes
    /// what the highlighter finds; see [`Document::take_highlight`].
    pub fn highlight(&mut self)
        ensures
            plain_rows(final(self)@.rows) == plain_rows(old(self)@.rows),
            final(self)@ == (DocumentView { rows: final(self)@.rows, ..old(self)@ }),
            !old(self).can_highlight() ==> final(self)@ == old(self)@,
            final(self)@.rows == old(self)@.rows || exists|tags: Seq<Type>|
                painted(tags) && final(self)@.rows == #[trigger] rows_highlighted(
                    old(self)@.rows,
                    tags,
                ),
    {
        let source = self.highlight_source();
        let options = self.file_type.highlighting_options();
        if !options.get_hl_query().is_some() || !options.get_inj_query().is_some() {
            return ;
        }
        let found = match &mut self.highlighter {
            Some(highlighter) => highlighter.highlight(source.as_slice()),
            None => {
                return ;
            },
        };
        proof {
            if found is Ok {
                let tags = found->Ok_0@;
                assert(painted(tags));
                assert(plain_rows(rows_highlighted(self@.rows, tags)) =~= plain_rows(self@.rows));
            }
        }
        self.take_highlight(found);
    }

    /// Whether the document can highlight its rows: it has a highlighter,
    /// and the kind of its file has the queries of one.
    pub closed spec fn can_highlight(&self) -> bool {
        self.highlighter is Some && self.file_type.highlighting().has_queries()
    }

    /// Whether the document can highlight its rows.
    pub fn highlights(&self) -> (b: bool)
        ensures
            b == self.can_highlight(),
    {
        let options = self.file_type.highlighting_options();
        self.highlighter.is_some() && options.get_hl_query().is_some()
            && options.get_inj_query().is_some()
    }

    /// Takes what the highlighter found for the document's source: the
    /// classes are given to the rows, see [`rows_highlighted`]; a failure
    /// leaves the document as it is.
    pub fn take_highlight(&mut self, found: Result<Vec<Type>, HighlightError>)
        ensures
            final(self)@ == (match found {
                Ok(tags) => DocumentView {
                    rows: rows_highlighted(old(self)@.rows, tags@),
                    ..old(self)@
                },
                Err(_) => old(self)@,
            }),
    {
        match found {
            Ok(tags) => {
                self.apply_highlight(&tags);
            },
            Err(_) => {},
        }
    }

    /// Takes all boxes away.
    pub fn clear_floating(&mut self)
        ensures
            final(self)@ == (DocumentView { floatings: Seq::empty(), ..old(self)@ }),
    {
        self.floatings.clear();
        assert(floatings_view(self.floatings@) =~= Seq::empty());
    }

    /// Shows the hover text `lines` for the cell `x`, `y` in a box, in place
    /// of all other boxes; see [`hover_box`].
    pub fn hover(&mut self, x: u32, y: u32, lines: &Vec<String>)
        ensures
            final(self)@ == (DocumentView {
                floatings: seq![hover_box(x, y, texts(lines@))],
                ..old(self)@
            }),
    {
        let mut width: usize = 0;
        let mut filled: Vec<String> = Vec::new();
        let mut i: usize = 0;
        assert(texts(lines@).subrange(0, 0) =~= Seq::<Seq<char>>::empty());
        assert(texts(filled@) =~= Seq::<Seq<char>>::empty());
        while i < lines.len()
            invariant
                i <= lines.len(),
                width == widest_line(texts(lines@).subrange(0, i as int)),
                texts(filled@) == filled_lines(texts(lines@).subrange(0, i as int)),
            decreases lines.len() - i,
        {
            let ghost next = texts(lines@).subrange(0, i + 1);
            assert(next.drop_last() =~= texts(lines@).subrange(0, i as int));
            assert(next.last() == lines@[i as int]@);
            let count: usize = clusters_of(lines[i].as_str()).len();
            if count > width {
                width = count;
            }
            if !lines[i].as_str().is_empty() {
                let line = lines[i].clone();
                proof {
                    lemma_texts_push(filled@, line);
                }
                filled.push(line);
            }
            i += 1;
        }
        assert(texts(lines@).subrange(0, i as int) =~= texts(lines@));
        let pos = Position { x: x as usize, y: y.saturating_add(1) as usize };
        let height: usize = filled.len();
        let item = FloatingItem::new(pos, width, height, filled);
        self.floatings.clear();
        self.floatings.push(item);
        assert(floatings_view(self.floatings@) =~= seq![hover_box(x, y, texts(lines@))]);
    }
}

/// What is asked of the language server for the cell `x`, `y` of
/// `document`: the text to start the session with, where the session is not
/// `initialized` yet, and the line and the character of the hover request,
/// which are the cell's row and column.
pub fn hover_plan(document: &Document, initialized: bool, x: u32, y: u32) -> (plan: (
    Option<String>,
    u32,
    u32,
))
    ensures
        plan.0 is Some <==> !initialized,
        plan.0 matches Some(text) ==> text@ == snapshot(
            document@.rows,
            document@.rows.len() as int,
        ),
        plan.1 == y,
        plan.2 == x,
{
    if initialized {
        (None, y, x)
    } else {
        (Some(document.text()), y, x)
    }
}

} // verus!
