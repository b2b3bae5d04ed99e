//! A floating box of text that is drawn over the rows of the screen, such
//! as a tooltip.

use vstd::prelude::*;
use vstd::string::*;
use crate::color::{bg, bg_code, bg_reset, bg_reset_code, Rgb};
use crate::editor::Position;
use crate::grapheme::{clusters_of, grapheme_clusters};
use crate::row::least;
use crate::text::{blanks, extend_with, lemma_texts_push, pad_with_blanks, texts};

verus! {

/// A box of text at a place on the screen.
pub struct FloatingItem {
    pos: Position,
    width: usize,
    height: usize,
    msg: Vec<String>,
    bg_color: (u8, u8, u8),
}

/// The state of a [`FloatingItem`].
pub ghost struct FloatingItemView {
    /// The cell of the box's upper left corner.
    pub pos: Position,
    /// The width of the box, in cells.
    pub width: usize,
    /// The height of the box, in rows.
    pub height: usize,
    /// The lines of the box's text.
    pub msg: Seq<Seq<char>>,
    /// The background colour: red, green, blue.
    pub bg_color: (u8, u8, u8),
}

impl View for FloatingItem {
    type V = FloatingItemView;

    closed spec fn view(&self) -> FloatingItemView {
        FloatingItemView {
            pos: self.pos,
            width: self.width,
            height: self.height,
            msg: texts(self.msg@),
            bg_color: self.bg_color,
        }
    }
}

/// Whether the box covers the screen row `drawing_y`: the rows from its
/// upper edge on, as many as it is high.
pub open spec fn covers_row(item: FloatingItemView, drawing_y: int) -> bool {
    item.pos.y <= drawing_y < least(item.pos.y + item.height, usize::MAX as int)
}

/// The line of the box's text that is drawn on the screen row `drawing_y`;
/// empty where the text has no such line.
pub open spec fn message_line(item: FloatingItemView, drawing_y: int) -> Seq<char> {
    let line = drawing_y - item.pos.y;
    if 0 <= line < item.msg.len() {
        item.msg[line]
    } else {
        Seq::empty()
    }
}

/// The cell `i` of a box row that shows `clusters` in a box `width` cells
/// wide. The first cluster switches the background on. The background is
/// switched off behind the last cluster, if the text fills the box and has
/// more than one cluster, and else behind the last of the spaces that fill
/// the box up.
pub open spec fn box_cell(clusters: Seq<Seq<char>>, width: int, color: Rgb, i: int) -> Seq<char> {
    if i < clusters.len() {
        if i == 0 {
            bg_code(color) + clusters[0]
        } else if width <= clusters.len() && i == clusters.len() - 1 {
            clusters[i] + bg_reset_code()
        } else {
            clusters[i]
        }
    } else if i == width - 1 {
        " "@ + bg_reset_code()
    } else {
        " "@
    }
}

/// A box row that shows `clusters` in a box `width` cells wide: one cell for
/// each cluster, and spaces up to the width.
pub open spec fn box_cells(clusters: Seq<Seq<char>>, width: int, color: Rgb) -> Seq<Seq<char>> {
    Seq::new(
        if width <= clusters.len() {
            clusters.len()
        } else {
            width as nat
        },
        |i: int| box_cell(clusters, width, color, i),
    )
}

/// The screen row `plain` with the box row `cells` laid over it at the
/// column `x`. A box that starts within the row takes the place of `width`
/// cells of it. One that starts at or past its end is set behind it, after
/// spaces that make up for the distance.
pub open spec fn overlay(plain: Seq<Seq<char>>, x: int, width: int, cells: Seq<Seq<char>>) -> Seq<
    Seq<char>,
> {
    if x >= plain.len() {
        let last = if plain.len() > 0 {
            plain.len() - 1
        } else {
            0
        };
        plain + blanks(x - last) + cells
    } else {
        plain.subrange(0, x) + cells + (if x + width <= plain.len() {
            plain.subrange(x + width, plain.len() as int)
        } else {
            Seq::empty()
        })
    }
}

/// The screen row `drawing_y`, which shows `plain`, with the box drawn over
/// it: unchanged where the box does not cover the row.
pub open spec fn item_render(item: FloatingItemView, plain: Seq<Seq<char>>, drawing_y: int) -> Seq<
    Seq<char>,
> {
    if !covers_row(item, drawing_y) {
        plain
    } else {
        let clusters = grapheme_clusters(message_line(item, drawing_y));
        let color = Rgb(item.bg_color.0, item.bg_color.1, item.bg_color.2);
        overlay(
            plain,
            item.pos.x as int,
            item.width as int,
            box_cells(clusters, item.width as int, color),
        )
    }
}

/// The box row that shows `clusters` in a box `width` cells wide; see
/// [`box_cells`].
pub fn draw_box_row(clusters: &Vec<String>, width: usize, color: Rgb) -> (out: Vec<String>)
    ensures
        texts(out@) == box_cells(texts(clusters@), width as int, color),
{
    let n: usize = clusters.len();
    let total: usize = if width <= n {
        n
    } else {
        width
    };
    let mut out: Vec<String> = Vec::new();
    let mut i: usize = 0;
    while i < total
        invariant
            i <= total,
            n == clusters.len(),
            total == (if width <= n {
                n
            } else {
                width
            }),
            texts(out@) == Seq::new(
                i as nat,
                |k: int| box_cell(texts(clusters@), width as int, color, k),
            ),
        decreases total - i,
    {
        let mut cell = String::new();
        if i < n {
            if i == 0 {
                cell.append(bg(color).as_str());
                cell.append(clusters[i].as_str());
            } else if width <= n && i == n - 1 {
                cell.append(clusters[i].as_str());
                cell.append(bg_reset().as_str());
            } else {
                cell.append(clusters[i].as_str());
            }
        } else if i == width - 1 {
            cell.append(" ");
            cell.append(bg_reset().as_str());
        } else {
            cell.append(" ");
        }
        proof {
            assert(cell@ =~= box_cell(texts(clusters@), width as int, color, i as int));
            lemma_texts_push(out@, cell);
            assert(texts(out@).push(cell@) =~= Seq::new(
                (i + 1) as nat,
                |k: int| box_cell(texts(clusters@), width as int, color, k),
            ));
        }
        out.push(cell);
        i += 1;
    }
    out
}

/// Lays the box row `cells` over the screen row `plain`; see [`overlay`].
pub fn lay_over(plain: &Vec<String>, x: usize, width: usize, cells: &Vec<String>) -> (out: Vec<
    String,
>)
    ensures
        texts(out@) == overlay(texts(plain@), x as int, width as int, texts(cells@)),
{
    let mut out: Vec<String> = Vec::new();
    let len: usize = plain.len();
    assert(texts(out@) =~= Seq::<Seq<char>>::empty());
    assert(texts(cells@).subrange(0, cells.len() as int) =~= texts(cells@));
    if x >= len {
        let last: usize = if len > 0 {
            len - 1
        } else {
            0
        };
        extend_with(&mut out, plain, 0, len);
        pad_with_blanks(&mut out, x - last);
        extend_with(&mut out, cells, 0, cells.len());
        assert(texts(plain@).subrange(0, len as int) =~= texts(plain@));
        assert(texts(out@) =~= overlay(texts(plain@), x as int, width as int, texts(cells@)));
    } else {
        extend_with(&mut out, plain, 0, x);
        extend_with(&mut out, cells, 0, cells.len());
        if width <= len - x {
            extend_with(&mut out, plain, x + width, len);
        }
        assert(texts(out@) =~= overlay(texts(plain@), x as int, width as int, texts(cells@)));
    }
    out
}

impl Default for FloatingItem {
    /// A box without size and without text in the screen's upper left
    /// corner.
    fn default() -> (item: FloatingItem)
        ensures
            item@ == (FloatingItemView {
                pos: Position { x: 0, y: 0 },
                width: 0,
                height: 0,
                msg: Seq::empty(),
                bg_color: (0u8, 0u8, 0u8),
            }),
    {
        let item = FloatingItem {
            pos: Position { x: 0, y: 0 },
            width: 0,
            height: 0,
            msg: Vec::new(),
            bg_color: (0, 0, 0),
        };
        assert(texts(item.msg@) =~= Seq::<Seq<char>>::empty());
        item
    }
}

impl FloatingItem {
    /// A box at `pos` with a placeholder text on a black background.
    pub fn create(pos: Position, width: usize, height: usize) -> (item: FloatingItem)
        ensures
            item@ == (FloatingItemView {
                pos,
                width,
                height,
                msg: seq!["nop"@, "nah"@],
                bg_color: (0u8, 0u8, 0u8),
            }),
    {
        let mut msg: Vec<String> = Vec::new();
        let first = String::from_str("nop");
        let second = String::from_str("nah");
        proof {
            lemma_texts_push(msg@, first);
            lemma_texts_push(msg@.push(first), second);
            assert(texts(msg@.push(first).push(second)) =~= seq!["nop"@, "nah"@]);
        }
        msg.push(first);
        msg.push(second);
        FloatingItem { pos, width, height, msg, bg_color: (0, 0, 0) }
    }

    /// A box at `pos` that shows the lines `msg` on a black background.
    pub fn new(pos: Position, width: usize, height: usize, msg: Vec<String>) -> (item:
        FloatingItem)
        ensures
            item@ == (FloatingItemView {
                pos,
                width,
                height,
                msg: texts(msg@),
                bg_color: (0u8, 0u8, 0u8),
            }),
    {
        FloatingItem { pos, width, height, msg, bg_color: (0, 0, 0) }
    }

    /// The cell of the box's upper left corner.
    pub fn get_pos(&self) -> (pos: &Position)
        ensures
            *pos == self@.pos,
    {
        &self.pos
    }

    /// The width of the box, in cells.
    pub fn get_width(&self) -> (width: usize)
        ensures
            width == self@.width,
    {
        self.width
    }

    /// The height of the box, in rows.
    pub fn get_height(&self) -> (height: usize)
        ensures
            height == self@.height,
    {
        self.height
    }

    /// The line `index` of the box's text.
    pub fn get_str(&self, index: usize) -> (line: Option<&String>)
        ensures
            match line {
                Some(text) => index < self@.msg.len() && text@ == self@.msg[index as int],
                None => index >= self@.msg.len(),
            },
    {
        if index < self.msg.len() {
            Some(&self.msg[index])
        } else {
            None
        }
    }

    /// The background colour: red, green, blue.
    pub fn get_bg(&self) -> (color: (u8, u8, u8))
        ensures
            color == self@.bg_color,
    {
        self.bg_color
    }

    /// The screen row `drawing_y`, which shows `plain_row`, with this box
    /// drawn over it; see [`item_render`].
    pub fn render(&self, plain_row: &Vec<String>, drawing_y: usize) -> (out: Vec<String>)
        ensures
            texts(out@) == item_render(self@, texts(plain_row@), drawing_y as int),
    {
        let bottom: usize = match self.pos.y.checked_add(self.height) {
            Some(sum) => sum,
            None => usize::MAX,
        };
        if drawing_y < self.pos.y || bottom <= drawing_y {
            let mut out: Vec<String> = Vec::new();
            assert(texts(out@) =~= Seq::<Seq<char>>::empty());
            extend_with(&mut out, plain_row, 0, plain_row.len());
            assert(texts(out@) =~= texts(plain_row@));
            return out;
        }
        let line: usize = drawing_y - self.pos.y;
        let empty = String::new();
        let text: &String = if line < self.msg.len() {
            &self.msg[line]
        } else {
            &empty
        };
        let clusters = clusters_of(text.as_str());
        let (r, g, b) = self.bg_color;
        let cells = draw_box_row(&clusters, self.width, Rgb(r, g, b));
        lay_over(plain_row, self.pos.x, self.width, &cells)
    }
}

} // verus!
