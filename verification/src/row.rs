//! One line of text. A row counts, cuts and joins its text by grapheme
//! clusters, and is drawn cluster by cluster in the colours of its highlight
//! classes.

use vstd::prelude::*;
use vstd::string::*;
use vstd::utf8::encode_utf8;
use crate::color::{fg, fg_code, fg_reset, fg_reset_code};
use crate::editor::SearchDirection;
use crate::grapheme::{
    all_nonempty, clusters_of, grapheme_clusters, join, lemma_count_within_length,
    lemma_flatten_cut,
};
use crate::highlighting::{color_of, Type};
use crate::text::{
    byte_len, find_bytes, first_occurrence, last_occurrence, lemma_texts_push, push_char,
    rfind_bytes, texts,
};

verus! {

/// One line of text, with its length in grapheme clusters and the highlight
/// class of each of its cells.
pub struct Row {
    string: String,
    highlight: Vec<Type>,
    len: usize,
}

/// The state of a [`Row`].
pub ghost struct RowView {
    /// The text of the line, without a line terminator.
    pub text: Seq<char>,
    /// The length that the row goes by.
    pub len: nat,
    /// The highlight classes, by index.
    pub highlight: Seq<Type>,
}

impl View for Row {
    type V = RowView;

    closed spec fn view(&self) -> RowView {
        RowView { text: self.string@, len: self.len as nat, highlight: self.highlight@ }
    }
}

/// The text `clusters` with `c` put before the cluster at `at`; unchanged
/// when there is no such cluster.
pub open spec fn with_inserted(clusters: Seq<Seq<char>>, at: int, c: char) -> Seq<char> {
    if 0 <= at < clusters.len() {
        clusters.subrange(0, at).flatten() + seq![c] + clusters.subrange(
            at,
            clusters.len() as int,
        ).flatten()
    } else {
        clusters.flatten()
    }
}

/// The text `clusters` without the cluster at `at`; unchanged when there is
/// no such cluster.
pub open spec fn with_removed(clusters: Seq<Seq<char>>, at: int) -> Seq<char> {
    if 0 <= at < clusters.len() {
        clusters.subrange(0, at).flatten() + clusters.subrange(
            at + 1,
            clusters.len() as int,
        ).flatten()
    } else {
        clusters.flatten()
    }
}

/// The smaller of two numbers.
pub open spec fn least(a: int, b: int) -> int {
    if a <= b {
        a
    } else {
        b
    }
}

/// A row after `c` was inserted at `at`. At or past the row's length the
/// character goes to the end of the text and the length grows by one.
/// Before it, the character goes before the cluster at `at` and the length
/// becomes the number of clusters and one more.
pub open spec fn row_insert(r: RowView, at: int, c: char) -> RowView {
    if at >= r.len {
        RowView { text: r.text.push(c), len: r.len + 1, ..r }
    } else {
        let clusters = grapheme_clusters(r.text);
        RowView {
            text: with_inserted(clusters, at, c),
            len: if at < clusters.len() {
                clusters.len() + 1
            } else {
                clusters.len()
            },
            ..r
        }
    }
}

/// A row after the cluster at `at` was deleted. At or past the row's length
/// nothing changes.
pub open spec fn row_delete(r: RowView, at: int) -> RowView {
    if at >= r.len {
        r
    } else {
        let clusters = grapheme_clusters(r.text);
        RowView {
            text: with_removed(clusters, at),
            len: if at < clusters.len() {
                (clusters.len() - 1) as nat
            } else {
                clusters.len()
            },
            ..r
        }
    }
}

/// A row after the text of `other` was appended.
pub open spec fn row_append(r: RowView, other: RowView) -> RowView {
    RowView { text: r.text + other.text, len: r.len + other.len, ..r }
}

/// What stays of a row that is split before the cluster at `at`.
pub open spec fn row_split_left(r: RowView, at: int) -> RowView {
    let clusters = grapheme_clusters(r.text);
    let cut = least(at, clusters.len() as int);
    RowView { text: clusters.subrange(0, cut).flatten(), len: cut as nat, ..r }
}

/// What is split off a row before the cluster at `at`: a row of its own,
/// without highlight classes.
pub open spec fn row_split_right(r: RowView, at: int) -> RowView {
    let clusters = grapheme_clusters(r.text);
    let cut = least(at, clusters.len() as int);
    RowView {
        text: clusters.subrange(cut, clusters.len() as int).flatten(),
        len: (clusters.len() - cut) as nat,
        highlight: Seq::empty(),
    }
}

/// The number of bytes that the first `count` clusters take.
pub open spec fn byte_offset(clusters: Seq<Seq<char>>, count: int) -> nat
    decreases count,
{
    if count <= 0 {
        0
    } else {
        byte_offset(clusters, count - 1) + encode_utf8(clusters[count - 1]).len()
    }
}

/// The first cluster at or after `from` that starts at the byte `byte`.
pub open spec fn cluster_starting_at(clusters: Seq<Seq<char>>, byte: nat, from: int) -> Option<int>
    decreases clusters.len() - from,
{
    if from < 0 || from >= clusters.len() {
        None
    } else if byte_offset(clusters, from) == byte {
        Some(from)
    } else {
        cluster_starting_at(clusters, byte, from + 1)
    }
}

/// Where `query` is found in a row, searching from the cluster `after`.
///
/// Forward, the stretch from `after` to the row's length is searched for the
/// first occurrence; backward, the stretch before `after` for the last one.
/// The answer is the cluster at which the occurrence starts, counted in the
/// row; an occurrence that starts inside a cluster of the stretch is none.
/// An empty query and an `after` past the row's length find nothing.
pub open spec fn row_find(r: RowView, query: Seq<char>, after: int, direction: SearchDirection)
    -> Option<int> {
    if after > r.len || query.len() == 0 {
        None
    } else {
        let clusters = grapheme_clusters(r.text);
        let start = if direction == SearchDirection::Forward {
            after
        } else {
            0
        };
        let end = if direction == SearchDirection::Forward {
            r.len as int
        } else {
            after
        };
        let stretch = clusters.subrange(
            least(start, clusters.len() as int),
            least(end, clusters.len() as int),
        ).flatten();
        let hay = encode_utf8(stretch);
        let needle = encode_utf8(query);
        let found = if direction == SearchDirection::Forward {
            first_occurrence(hay, needle, 0)
        } else {
            last_occurrence(hay, needle, hay.len() - needle.len())
        };
        match found {
            Some(byte) => match cluster_starting_at(grapheme_clusters(stretch), byte as nat, 0) {
                Some(cluster) => Some(start + cluster),
                None => None,
            },
            None => None,
        }
    }
}

/// What one cluster is drawn as: its first character, a tab as two spaces.
pub open spec fn glyph(cluster: Seq<char>) -> Seq<char> {
    if cluster[0] == '\t' {
        "  "@
    } else {
        seq![cluster[0]]
    }
}

/// The class of the cell `index`; cells without a class are plain.
pub open spec fn class_of_cell(highlight: Seq<Type>, index: int) -> Type {
    if 0 <= index < highlight.len() {
        highlight[index]
    } else {
        Type::Plain
    }
}

/// The escape sequence that switches the foreground to the colour of a
/// class; for plain text, back to the terminal's own colour.
pub open spec fn color_switch(class: Type) -> Seq<char> {
    if class == Type::Plain {
        fg_reset_code()
    } else {
        fg_code(color_of(class))
    }
}

/// The cells `from..to` of a row as they are drawn, when the colour of
/// `current` is set: one string for each cluster, which holds the cluster's
/// glyph, after a colour switch where the class changes.
pub open spec fn cells(
    clusters: Seq<Seq<char>>,
    highlight: Seq<Type>,
    from: int,
    to: int,
    current: Type,
) -> Seq<Seq<char>>
    decreases to - from,
{
    if from >= to {
        Seq::empty()
    } else if clusters[from].len() == 0 {
        cells(clusters, highlight, from + 1, to, current)
    } else {
        let class = class_of_cell(highlight, from);
        let switch = if class != current {
            color_switch(class)
        } else {
            Seq::empty()
        };
        seq![switch + glyph(clusters[from])] + cells(clusters, highlight, from + 1, to, class)
    }
}

/// A row as it is drawn between the columns `start` and `end`: the cells of
/// that stretch, then the switch back to the terminal's own colour. `end` is
/// first cut down to the number of bytes of the text, `start` to `end`.
pub open spec fn row_render(r: RowView, start: int, end: int) -> Seq<Seq<char>> {
    let clusters = grapheme_clusters(r.text);
    let end = least(end, encode_utf8(r.text).len() as int);
    let start = least(start, end);
    cells(
        clusters,
        r.highlight,
        least(start, clusters.len() as int),
        least(end, clusters.len() as int),
        Type::Plain,
    ).push(fg_reset_code())
}

/// `clusters[from..to]`, with `c` put before the cluster at `at`.
pub fn insert_into(clusters: &Vec<String>, at: usize, c: char) -> (out: String)
    ensures
        out@ == with_inserted(texts(clusters@), at as int, c),
{
    let n: usize = clusters.len();
    proof {
        assert(texts(clusters@).subrange(0, n as int) =~= texts(clusters@));
    }
    if at < n {
        let mut out = join(clusters, 0, at);
        push_char(&mut out, c);
        let tail = join(clusters, at, n);
        out.append(tail.as_str());
        assert(out@ =~= with_inserted(texts(clusters@), at as int, c));
        out
    } else {
        join(clusters, 0, n)
    }
}

/// The text of `clusters` without the cluster at `at`.
pub fn remove_from(clusters: &Vec<String>, at: usize) -> (out: String)
    ensures
        out@ == with_removed(texts(clusters@), at as int),
{
    let n: usize = clusters.len();
    proof {
        assert(texts(clusters@).subrange(0, n as int) =~= texts(clusters@));
    }
    if at < n {
        let mut out = join(clusters, 0, at);
        let tail = join(clusters, at + 1, n);
        out.append(tail.as_str());
        out
    } else {
        join(clusters, 0, n)
    }
}

/// Once the clusters take more bytes than `byte`, none of the later ones
/// starts at `byte`.
pub proof fn lemma_no_cluster_past(clusters: Seq<Seq<char>>, byte: nat, from: int)
    requires
        0 <= from,
        byte_offset(clusters, from) > byte,
    ensures
        cluster_starting_at(clusters, byte, from) is None,
    decreases clusters.len() - from,
{
    if from < clusters.len() {
        lemma_no_cluster_past(clusters, byte, from + 1);
    }
}

/// The first cluster that starts at the byte `byte` of the clusters' text.
pub fn cluster_at_byte(clusters: &Vec<String>, byte: usize) -> (r: Option<usize>)
    ensures
        match r {
            Some(cluster) => cluster_starting_at(texts(clusters@), byte as nat, 0) == Some(
                cluster as int,
            ),
            None => cluster_starting_at(texts(clusters@), byte as nat, 0) is None,
        },
        r matches Some(cluster) ==> cluster < clusters.len(),
{
    let mut cluster: usize = 0;
    let mut offset: usize = 0;
    while cluster < clusters.len()
        invariant
            cluster <= clusters.len(),
            offset == byte_offset(texts(clusters@), cluster as int),
            cluster_starting_at(texts(clusters@), byte as nat, 0) == cluster_starting_at(
                texts(clusters@),
                byte as nat,
                cluster as int,
            ),
        decreases clusters.len() - cluster,
    {
        if offset == byte {
            return Some(cluster);
        }
        let width: usize = byte_len(clusters[cluster].as_str());
        assert(byte_offset(texts(clusters@), cluster + 1) == offset + width);
        match offset.checked_add(width) {
            Some(next) => {
                offset = next;
            },
            None => {
                proof {
                    lemma_no_cluster_past(texts(clusters@), byte as nat, cluster + 1);
                }
                return None;
            },
        }
        cluster += 1;
    }
    None
}

/// The cells `from..to` of `clusters` as they are drawn; see [`cells`].
pub fn render_cells(clusters: &Vec<String>, highlight: &Vec<Type>, from: usize, to: usize) -> (out:
    Vec<String>)
    requires
        from <= to <= clusters.len(),
    ensures
        texts(out@) == cells(texts(clusters@), highlight@, from as int, to as int, Type::Plain),
{
    let mut out: Vec<String> = Vec::new();
    let mut current: Type = Type::Plain;
    let mut index: usize = from;
    let ghost all = cells(texts(clusters@), highlight@, from as int, to as int, Type::Plain);
    assert(texts(out@) =~= Seq::<Seq<char>>::empty());
    while index < to
        invariant
            from <= index <= to <= clusters.len(),
            texts(out@) + cells(texts(clusters@), highlight@, index as int, to as int, current)
                == all,
        decreases to - index,
    {
        let cluster: &str = clusters[index].as_str();
        let ghost before = current;
        if !cluster.is_empty() {
            let class: Type = if index < highlight.len() {
                highlight[index]
            } else {
                Type::Plain
            };
            let mut cell = String::new();
            if class != current {
                current = class;
                if class == Type::Plain {
                    cell.append(fg_reset().as_str());
                } else {
                    cell.append(fg(class.to_color()).as_str());
                }
            }
            let c: char = cluster.get_char(0);
            if c == '\t' {
                cell.append("  ");
            } else {
                push_char(&mut cell, c);
            }
            proof {
                let ghost rest = cells(texts(clusters@), highlight@, index + 1, to as int, class);
                assert(cell@ =~= (if class != before {
                    color_switch(class)
                } else {
                    Seq::empty()
                }) + glyph(cluster@)) by {
                    assert(seq![c] =~= Seq::<char>::empty().push(c));
                }
                lemma_texts_push(out@, cell);
                assert(texts(out@).push(cell@) + rest =~= texts(out@) + (seq![cell@] + rest));
            }
            out.push(cell);
        }
        index += 1;
    }
    assert(texts(out@) + Seq::<Seq<char>>::empty() =~= texts(out@));
    out
}

/// Between two cuts of a list of clusters, none of them empty, the text has
/// room for the cut's index: the clusters before the first cut take at least
/// one character each.
pub proof fn lemma_stretch_within_text(clusters: Seq<Seq<char>>, from: int, to: int)
    requires
        all_nonempty(clusters),
        0 <= from <= to <= clusters.len(),
    ensures
        from + clusters.subrange(from, to).flatten().len() <= clusters.flatten().len(),
        to - from <= clusters.subrange(from, to).flatten().len(),
{
    lemma_flatten_cut(clusters, from);
    let tail = clusters.subrange(from, clusters.len() as int);
    lemma_flatten_cut(tail, to - from);
    assert(tail.subrange(0, to - from) =~= clusters.subrange(from, to));
    assert forall|i: int| 0 <= i < clusters.subrange(0, from).len() implies (
    #[trigger] clusters.subrange(0, from)[i]).len() > 0 by {
        assert(clusters.subrange(0, from)[i] == clusters[i]);
    }
    lemma_count_within_length(clusters.subrange(0, from));
    assert forall|i: int| 0 <= i < clusters.subrange(from, to).len() implies (
    #[trigger] clusters.subrange(from, to)[i]).len() > 0 by {
        assert(clusters.subrange(from, to)[i] == clusters[from + i]);
    }
    lemma_count_within_length(clusters.subrange(from, to));
}

impl Default for Row {
    /// The empty row.
    fn default() -> (r: Row)
        ensures
            r@ == (RowView { text: Seq::empty(), len: 0, highlight: Seq::empty() }),
    {
        Row { string: String::new(), highlight: Vec::new(), len: 0 }
    }
}

impl Row {
    #[verifier::type_invariant]
    spec fn counted_within_text(&self) -> bool {
        self.len <= self.string@.len()
    }

    /// Takes the text out of the row, which is left empty.
    fn take_text(&mut self) -> (text: String)
        ensures
            text@ == old(self).string@,
            final(self).string@ == Seq::<char>::empty(),
            final(self).len == 0,
            final(self).highlight == old(self).highlight,
    {
        self.len = 0;
        let mut text = String::new();
        std::mem::swap(&mut self.string, &mut text);
        text
    }

    /// The row of the line `slice`: as long as `slice` has clusters, and
    /// without highlight classes.
    pub fn from(slice: &str) -> (r: Row)
        ensures
            r@ == (RowView {
                text: slice@,
                len: grapheme_clusters(slice@).len(),
                highlight: Seq::empty(),
            }),
    {
        let clusters = clusters_of(slice);
        Row { string: String::from_str(slice), highlight: Vec::new(), len: clusters.len() }
    }

    /// This row as it is drawn between the columns `start` and `end`; see
    /// [`row_render`].
    pub fn render(&self, start: usize, end: usize) -> (out: Vec<String>)
        ensures
            texts(out@) == row_render(self@, start as int, end as int),
    {
        let bytes: usize = byte_len(self.string.as_str());
        let end: usize = if end <= bytes {
            end
        } else {
            bytes
        };
        let start: usize = if start <= end {
            start
        } else {
            end
        };
        let clusters = clusters_of(self.string.as_str());
        let n: usize = clusters.len();
        let from: usize = if start <= n {
            start
        } else {
            n
        };
        let to: usize = if end <= n {
            end
        } else {
            n
        };
        let mut out = render_cells(&clusters, &self.highlight, from, to);
        let reset = fg_reset();
        proof {
            lemma_texts_push(out@, reset);
        }
        out.push(reset);
        out
    }

    /// The length that the row goes by.
    pub fn len(&self) -> (n: usize)
        ensures
            n == self@.len,
    {
        self.len
    }

    /// Whether the row's length is zero.
    pub fn is_empty(&self) -> (b: bool)
        ensures
            b == (self@.len == 0),
    {
        self.len == 0
    }

    /// Inserts `c` at the cluster `at`; see [`row_insert`].
    pub fn insert(&mut self, at: usize, c: char)
        ensures
            final(self)@ == row_insert(old(self)@, at as int, c),
    {
        proof {
            use_type_invariant(&*self);
        }
        if at >= self.len {
            let count: usize = self.len;
            let mut text = self.take_text();
            push_char(&mut text, c);
            // A text has no more characters than bytes, so the new length fits.
            let room: usize = byte_len(text.as_str());
            self.string = text;
            self.len = count + 1;
            return ;
        }
        let clusters = clusters_of(self.string.as_str());
        let n: usize = clusters.len();
        let result = insert_into(&clusters, at, c);
        if at < n {
            proof {
                lemma_flatten_cut(texts(clusters@), at as int);
            }
            // A text has no more characters than bytes, so the new length fits.
            let room: usize = byte_len(result.as_str());
            self.string = result;
            self.len = n + 1;
        } else {
            self.string = result;
            self.len = n;
        }
    }

    /// Deletes the cluster at `at`; see [`row_delete`].
    pub fn delete(&mut self, at: usize)
        ensures
            final(self)@ == row_delete(old(self)@, at as int),
    {
        proof {
            use_type_invariant(&*self);
        }
        if at >= self.len {
            return ;
        }
        let clusters = clusters_of(self.string.as_str());
        let n: usize = clusters.len();
        let result = remove_from(&clusters, at);
        if at < n {
            proof {
                let all = texts(clusters@);
                lemma_stretch_within_text(all, 0, at as int);
                lemma_stretch_within_text(all, at + 1, n as int);
            }
            self.len = n - 1;
            self.string = result;
        } else {
            self.len = n;
            self.string = result;
        }
    }

    /// Appends the text of `new`; see [`row_append`].
    pub fn append(&mut self, new: &Row)
        ensures
            final(self)@ == row_append(old(self)@, new@),
    {
        proof {
            use_type_invariant(&*self);
            use_type_invariant(new);
        }
        let count: usize = self.len;
        let mut text = self.take_text();
        text.append(new.string.as_str());
        // A text has no more characters than bytes, so the sum of the lengths fits.
        let room: usize = byte_len(text.as_str());
        self.string = text;
        self.len = count + new.len;
    }

    /// Splits the row before the cluster at `at` and hands out what is split
    /// off; see [`row_split_left`] and [`row_split_right`].
    pub fn split(&mut self, at: usize) -> (rest: Row)
        ensures
            final(self)@ == row_split_left(old(self)@, at as int),
            rest@ == row_split_right(old(self)@, at as int),
    {
        proof {
            use_type_invariant(&*self);
        }
        let clusters = clusters_of(self.string.as_str());
        let n: usize = clusters.len();
        let cut: usize = if at <= n {
            at
        } else {
            n
        };
        let left = join(&clusters, 0, cut);
        let right = join(&clusters, cut, n);
        proof {
            lemma_stretch_within_text(texts(clusters@), 0, cut as int);
            lemma_stretch_within_text(texts(clusters@), cut as int, n as int);
        }
        self.len = cut;
        self.string = left;
        Row { string: right, highlight: Vec::new(), len: n - cut }
    }

    /// Searches the row for `query`; see [`row_find`].
    pub fn find(&self, query: &str, after: usize, direction: SearchDirection) -> (r: Option<usize>)
        ensures
            match r {
                Some(x) => row_find(self@, query@, after as int, direction) == Some(x as int),
                None => row_find(self@, query@, after as int, direction) is None,
            },
    {
        proof {
            use_type_invariant(self);
        }
        if after > self.len || query.is_empty() {
            return None;
        }
        let forward: bool = direction == SearchDirection::Forward;
        let start: usize = if forward {
            after
        } else {
            0
        };
        let end: usize = if forward {
            self.len
        } else {
            after
        };
        // A text has no more characters than bytes, so every index into it fits.
        let room: usize = byte_len(self.string.as_str());
        let clusters = clusters_of(self.string.as_str());
        let n: usize = clusters.len();
        let from: usize = if start <= n {
            start
        } else {
            n
        };
        let to: usize = if end <= n {
            end
        } else {
            n
        };
        let stretch = join(&clusters, from, to);
        let hay = stretch.as_str().as_bytes();
        let needle = query.as_bytes();
        let found = if forward {
            find_bytes(hay, needle)
        } else {
            rfind_bytes(hay, needle)
        };
        match found {
            Some(byte) => {
                let parts = clusters_of(stretch.as_str());
                match cluster_at_byte(&parts, byte) {
                    Some(cluster) => {
                        proof {
                            lemma_stretch_within_text(texts(clusters@), from as int, to as int);
                            assert(cluster < stretch@.len());
                            assert(start == from);
                            assert(from + stretch@.len() <= self.string@.len());
                        }
                        Some(start + cluster)
                    },
                    None => None,
                }
            },
            None => None,
        }
    }

    /// The bytes of the row's text.
    pub fn as_bytes(&self) -> (bytes: &[u8])
        ensures
            bytes@ == encode_utf8(self@.text),
    {
        self.string.as_str().as_bytes()
    }

    /// The row's text.
    pub fn as_str(&self) -> (s: &str)
        ensures
            s@ == self@.text,
    {
        self.string.as_str()
    }

    /// Gives the row new highlight classes.
    pub fn set_highlight(&mut self, vector: Vec<Type>)
        ensures
            final(self)@ == (RowView { highlight: vector@, ..old(self)@ }),
    {
        proof {
            use_type_invariant(&*self);
        }
        self.highlight = vector;
    }
}

/// Splitting a row and appending what was split off gives the text back,
/// where the clusters of the text make up the text.
pub proof fn lemma_split_then_append_keeps_text(r: RowView, at: int)
    requires
        0 <= at,
        grapheme_clusters(r.text).flatten() == r.text,
    ensures
        row_append(row_split_left(r, at), row_split_right(r, at)).text == r.text,
        row_append(row_split_left(r, at), row_split_right(r, at)).len == grapheme_clusters(
            r.text,
        ).len(),
{
    let clusters = grapheme_clusters(r.text);
    lemma_flatten_cut(clusters, least(at, clusters.len() as int));
}

/// Inserting a character before a cluster and deleting the cluster at that
/// place gives the text back, where the clusters of the text make up the
/// text.
pub proof fn lemma_insert_puts_the_character_before_the_cluster(r: RowView, at: int, c: char)
    requires
        0 <= at < r.len,
        at < grapheme_clusters(r.text).len(),
        grapheme_clusters(r.text).flatten() == r.text,
    ensures
        row_insert(r, at, c).text.len() == r.text.len() + 1,
        row_insert(r, at, c).len == grapheme_clusters(r.text).len() + 1,
        row_insert(r, at, c).text == grapheme_clusters(r.text).subrange(0, at).flatten().push(c)
            + grapheme_clusters(r.text).subrange(
            at,
            grapheme_clusters(r.text).len() as int,
        ).flatten(),
{
    let clusters = grapheme_clusters(r.text);
    lemma_flatten_cut(clusters, at);
    assert(clusters.subrange(0, at).flatten() + seq![c] =~= clusters.subrange(0, at).flatten().push(
        c,
    ));
}

} // verus!
