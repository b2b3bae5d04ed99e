//! Text helpers shared by the wire format and the editing code: decimal
//! numerals, UTF-8 decoding and line splitting.

use vstd::prelude::*;
use vstd::string::*;
use vstd::utf8::*;
use vstd::std_specs::iter::IteratorSpec;

verus! {

/// `String::push` of the standard library: `c` is appended to `s`.
#[verifier::external_body]
pub(crate) fn push_char(s: &mut String, c: char)
    ensures
        final(s)@ == old(s)@.push(c),
{
    s.push(c);
}

/// `String::from_utf8` of the standard library: the text that `bytes`
/// encodes, or `None` when `bytes` is not well-formed UTF-8.
#[verifier::external_body]
pub(crate) fn string_from_utf8(bytes: Vec<u8>) -> (r: Option<String>)
    ensures
        r is Some <==> valid_utf8(bytes@),
        r matches Some(s) ==> s@ == decode_utf8(bytes@),
{
    String::from_utf8(bytes).ok()
}

/// The decimal digit `d` (0 to 9) as a character.
pub open spec fn digit_char(d: nat) -> char {
    (48 + d) as u8 as char
}

/// The decimal numeral of `n`, without sign and without leading zeros.
pub open spec fn decimal(n: nat) -> Seq<char>
    decreases n,
{
    if n < 10 {
        seq![digit_char(n)]
    } else {
        decimal(n / 10).push(digit_char(n % 10))
    }
}

/// The decimal numeral of an integer: a minus sign before the numeral of a
/// negative number's magnitude.
pub open spec fn signed_decimal(n: int) -> Seq<char> {
    if n < 0 {
        seq!['-'] + decimal((-n) as nat)
    } else {
        decimal(n as nat)
    }
}

/// The bytes of a text whose characters all fit in one byte.
pub open spec fn narrow(chars: Seq<char>) -> Seq<u8> {
    Seq::new(chars.len(), |i: int| chars[i] as u8)
}

/// A numeral has at least one digit, and nothing but digits.
pub proof fn lemma_decimal_is_digits(n: nat)
    ensures
        decimal(n).len() >= 1,
        forall|i: int| 0 <= i < decimal(n).len() ==> '0' <= #[trigger] decimal(n)[i] <= '9',
        all_digits(narrow(decimal(n))),
    decreases n,
{
    if n >= 10 {
        lemma_decimal_is_digits(n / 10);
        assert forall|i: int| 0 <= i < decimal(n).len() implies '0' <= #[trigger] decimal(n)[i]
            <= '9' by {
            if i < decimal(n / 10).len() {
                assert(decimal(n)[i] == decimal(n / 10)[i]);
            }
        }
    }
    assert forall|i: int| 0 <= i < narrow(decimal(n)).len() implies is_digit_byte(
        #[trigger] narrow(decimal(n))[i],
    ) by {
        assert('0' <= decimal(n)[i] <= '9');
    }
}

/// A numeral denotes the number it was written for.
pub proof fn lemma_decimal_is_read_back(n: nat)
    ensures
        digits_value(narrow(decimal(n))) == n,
    decreases n,
{
    let digits = narrow(decimal(n));
    if n >= 10 {
        lemma_decimal_is_read_back(n / 10);
        assert(digits.drop_last() =~= narrow(decimal(n / 10)));
        assert(digits.last() == 48 + n % 10);
    } else {
        assert(digits.drop_last() =~= Seq::<u8>::empty());
        assert(digits.last() == 48 + n);
        assert(digits_value(digits.drop_last()) == 0);
    }
}

/// Appends the decimal numeral of `n` to `out`.
pub fn push_decimal(out: &mut String, n: u64)
    ensures
        final(out)@ == old(out)@ + decimal(n as nat),
    decreases n,
{
    if n >= 10 {
        push_decimal(out, n / 10);
    }
    let d: u8 = (n % 10) as u8;
    let c: char = (48u8 + d) as char;
    assert(c == digit_char((n % 10) as nat));
    push_char(out, c);
    assert(out@ == old(out)@ + decimal(n as nat)) by {
        if n >= 10 {
            assert(old(out)@ + decimal((n / 10) as nat).push(c) == (old(out)@ + decimal(
                (n / 10) as nat,
            )).push(c));
        } else {
            assert(old(out)@ + seq![c] == old(out)@.push(c));
        }
    }
}

/// Appends the decimal numeral of the integer `n` to `out`.
pub fn push_signed_decimal(out: &mut String, n: i64)
    ensures
        final(out)@ == old(out)@ + signed_decimal(n as int),
{
    if n < 0 {
        push_char(out, '-');
        let magnitude: u64 = if n == i64::MIN {
            9223372036854775808u64
        } else {
            (-n) as u64
        };
        push_decimal(out, magnitude);
        assert(out@ == old(out)@ + (seq!['-'] + decimal((-n) as nat)));
    } else {
        push_decimal(out, n as u64);
    }
}

/// The views of a list of strings, in order.
pub open spec fn texts(v: Seq<String>) -> Seq<Seq<char>> {
    Seq::new(v.len(), |i: int| v[i]@)
}

/// Pushing a string onto a list pushes its view onto the list's views.
pub proof fn lemma_texts_push(v: Seq<String>, s: String)
    ensures
        texts(v.push(s)) == texts(v).push(s@),
{
    assert(texts(v.push(s)) =~= texts(v).push(s@));
}

/// The characters of `s`, in order.
pub fn to_chars(s: &str) -> (out: Vec<char>)
    ensures
        out@ == s@,
{
    let mut it = s.chars();
    let mut out: Vec<char> = Vec::new();
    loop
        invariant
            it.obeys_prophetic_iter_laws(),
            it.decrease() is Some,
            out@ + it.remaining() == s@,
        ensures
            out@ == s@,
        decreases it.decrease()->0,
    {
        let ghost before = it.remaining();
        match it.next() {
            Some(c) => {
                out.push(c);
                assert(out@ + it.remaining() == s@) by {
                    assert(before == seq![c] + before.drop_first());
                    assert(out@ + it.remaining() =~= s@);
                }
            },
            None => {
                assert(out@ + it.remaining() =~= out@);
                break ;
            },
        }
    }
    out
}

/// The string made of the characters `chars[from..to]`.
pub fn string_of(chars: &Vec<char>, from: usize, to: usize) -> (out: String)
    requires
        from <= to <= chars.len(),
    ensures
        out@ == chars@.subrange(from as int, to as int),
{
    let mut out = String::new();
    let mut i: usize = from;
    while i < to
        invariant
            from <= i <= to <= chars.len(),
            out@ == chars@.subrange(from as int, i as int),
        decreases to - i,
    {
        push_char(&mut out, chars[i]);
        i += 1;
        assert(out@ =~= chars@.subrange(from as int, i as int));
    }
    out
}

/// Whether `b` is an ASCII decimal digit.
pub open spec fn is_digit_byte(b: u8) -> bool {
    48 <= b <= 57
}

/// Whether every byte of `s` is an ASCII decimal digit.
pub open spec fn all_digits(s: Seq<u8>) -> bool {
    forall|i: int| 0 <= i < s.len() ==> is_digit_byte(#[trigger] s[i])
}

/// The number that the digits `s` denote, most significant digit first.
pub open spec fn digits_value(s: Seq<u8>) -> nat
    decreases s.len(),
{
    if s.len() == 0 {
        0
    } else {
        digits_value(s.drop_last()) * 10 + (s.last() - 48) as nat
    }
}

/// A numeral with its optional leading plus sign taken off.
pub open spec fn unsigned_part(s: Seq<u8>) -> Seq<u8> {
    if s.len() > 0 && s[0] == 43 {
        s.skip(1)
    } else {
        s
    }
}

/// The length that the numeral `s` denotes: an optional plus sign followed by
/// at least one digit, with a value that fits in `usize`. Anything else
/// denotes no length.
pub open spec fn parse_length(s: Seq<u8>) -> Option<usize> {
    let digits = unsigned_part(s);
    if digits.len() > 0 && all_digits(digits) && digits_value(digits) <= usize::MAX {
        Some(digits_value(digits) as usize)
    } else {
        None
    }
}

/// A numeral denotes at least what any of its prefixes denotes.
pub proof fn lemma_digits_value_prefix(s: Seq<u8>, k: int)
    requires
        0 <= k <= s.len(),
    ensures
        digits_value(s.subrange(0, k)) <= digits_value(s),
    decreases s.len(),
{
    if k == s.len() {
        assert(s.subrange(0, k) =~= s);
    } else {
        lemma_digits_value_prefix(s.drop_last(), k);
        assert(s.drop_last().subrange(0, k) =~= s.subrange(0, k));
    }
}

/// Reads `s[from..to]` as a length; see [`parse_length`].
pub fn read_length(s: &[u8], from: usize, to: usize) -> (r: Option<usize>)
    requires
        from <= to <= s.len(),
    ensures
        r == parse_length(s@.subrange(from as int, to as int)),
{
    let ghost numeral = s@.subrange(from as int, to as int);
    let start: usize = if from < to && s[from] == 43 {
        from + 1
    } else {
        from
    };
    let ghost digits = unsigned_part(numeral);
    assert(digits =~= s@.subrange(start as int, to as int));
    if start == to {
        return None;
    }
    let mut i: usize = start;
    let mut acc: usize = 0;
    while i < to
        invariant
            from <= start <= i <= to <= s.len(),
            start < to,
            numeral == s@.subrange(from as int, to as int),
            digits == unsigned_part(numeral),
            digits == s@.subrange(start as int, to as int),
            all_digits(digits.subrange(0, i - start)),
            acc == digits_value(digits.subrange(0, i - start)),
        decreases to - i,
    {
        let b: u8 = s[i];
        let ghost next = digits.subrange(0, i - start + 1);
        assert(next.drop_last() =~= digits.subrange(0, i - start));
        assert(next.last() == b);
        if b < 48 || b > 57 {
            assert(!is_digit_byte(digits[i - start]));
            return None;
        }
        let stepped: Option<usize> = match acc.checked_mul(10) {
            Some(m) => m.checked_add((b - 48) as usize),
            None => None,
        };
        match stepped {
            Some(v) => {
                acc = v;
            },
            None => {
                proof {
                    lemma_digits_value_prefix(digits, i - start + 1);
                }
                return None;
            },
        }
        i += 1;
        assert forall|j: int| 0 <= j < next.len() implies is_digit_byte(#[trigger] next[j]) by {
            if j < next.len() - 1 {
                assert(next[j] == digits.subrange(0, i - start - 1)[j]);
            }
        }
    }
    assert(digits.subrange(0, i - start) =~= digits);
    Some(acc)
}

/// Where the line that starts at `from` ends: the index of the first line
/// feed at or after `from`, or the length of `s` when there is none.
pub open spec fn line_end(s: Seq<char>, from: int) -> int
    decreases s.len() - from,
{
    if from >= s.len() || s[from] == '\n' {
        from
    } else {
        line_end(s, from + 1)
    }
}

/// A line without the carriage return that stood before its line feed.
pub open spec fn strip_cr(line: Seq<char>) -> Seq<char> {
    if line.len() > 0 && line.last() == '\r' {
        line.drop_last()
    } else {
        line
    }
}

/// A line ends no earlier than it starts, and within the text.
pub proof fn lemma_line_end_bounds(s: Seq<char>, from: int)
    requires
        0 <= from <= s.len(),
    ensures
        from <= line_end(s, from) <= s.len(),
        line_end(s, from) < s.len() ==> s[line_end(s, from)] == '\n',
        forall|i: int| from <= i < line_end(s, from) ==> s[i] != '\n',
    decreases s.len() - from,
{
    if from < s.len() && s[from] != '\n' {
        lemma_line_end_bounds(s, from + 1);
    }
}

/// The lines of `s` from index `from` on. Lines end at a line feed, or at a
/// carriage return directly followed by one; a last line needs no
/// terminator, and keeps a trailing carriage return that has none.
pub open spec fn lines_from(s: Seq<char>, from: int) -> Seq<Seq<char>>
    decreases s.len() - from,
{
    if from < 0 || from >= s.len() {
        Seq::empty()
    } else {
        let end = line_end(s, from);
        if end >= s.len() {
            seq![s.subrange(from, s.len() as int)]
        } else {
            proof {
                lemma_line_end_bounds(s, from);
            }
            seq![strip_cr(s.subrange(from, end))] + lines_from(s, end + 1)
        }
    }
}

/// The lines of `s`.
pub open spec fn lines(s: Seq<char>) -> Seq<Seq<char>> {
    lines_from(s, 0)
}

/// Splits `text` into its lines; see [`lines_from`].
pub fn split_lines(text: &str) -> (out: Vec<String>)
    ensures
        texts(out@) == lines(text@),
{
    let chars = to_chars(text);
    let mut out: Vec<String> = Vec::new();
    let mut start: usize = 0;
    let mut i: usize = 0;
    assert(texts(out@) =~= Seq::<Seq<char>>::empty());
    while i < chars.len()
        invariant
            chars@ == text@,
            start <= i <= chars.len(),
            forall|k: int| start <= k < i ==> chars@[k] != '\n',
            texts(out@) + lines_from(chars@, start as int) == lines(chars@),
        decreases chars.len() - i,
    {
        if chars[i] == '\n' {
            proof {
                lemma_line_end_at(chars@, start as int, i as int);
            }
            let stop: usize = if i > start && chars[i - 1] == '\r' {
                i - 1
            } else {
                i
            };
            let line = string_of(&chars, start, stop);
            assert(line@ == strip_cr(chars@.subrange(start as int, i as int))) by {
                assert(line@ =~= strip_cr(chars@.subrange(start as int, i as int)));
            }
            proof {
                lemma_texts_push(out@, line);
                assert(texts(out@).push(line@) + lines_from(chars@, i + 1) =~= texts(out@)
                    + lines_from(chars@, start as int));
            }
            out.push(line);
            start = i + 1;
        }
        i += 1;
    }
    if start < chars.len() {
        proof {
            lemma_line_end_at(chars@, start as int, chars.len() as int);
        }
        let line = string_of(&chars, start, chars.len());
        proof {
            lemma_texts_push(out@, line);
            assert(texts(out@).push(line@) =~= texts(out@) + lines_from(chars@, start as int));
        }
        out.push(line);
    } else {
        assert(texts(out@) + lines_from(chars@, start as int) =~= texts(out@));
    }
    out
}

/// A line that holds no line feed before `at` ends at `at`, when a line
/// feed or the end of the text stands there.
pub proof fn lemma_line_end_at(s: Seq<char>, from: int, at: int)
    requires
        0 <= from <= at <= s.len(),
        forall|k: int| from <= k < at ==> s[k] != '\n',
        at == s.len() || s[at] == '\n',
    ensures
        line_end(s, from) == at,
    decreases at - from,
{
    if from < at {
        lemma_line_end_at(s, from + 1, at);
    }
}

/// The UTF-8 encoding of a text has at least one byte for each character.
pub proof fn lemma_encoding_is_no_shorter(chars: Seq<char>)
    ensures
        encode_utf8(chars).len() >= chars.len(),
    decreases chars.len(),
{
    if chars.len() > 0 {
        lemma_encoding_is_no_shorter(chars.drop_first());
        assert(encode_scalar(chars[0] as u32).len() >= 1);
    }
}

/// The number of bytes of `s`. A text has no more characters than bytes.
pub fn byte_len(s: &str) -> (n: usize)
    ensures
        n == encode_utf8(s@).len(),
        s@.len() <= n,
{
    proof {
        lemma_encoding_is_no_shorter(s@);
    }
    s.as_bytes().len()
}

/// Whether `needle` stands in `hay` at index `at`.
pub open spec fn occurs_at(hay: Seq<u8>, needle: Seq<u8>, at: int) -> bool {
    0 <= at && at + needle.len() <= hay.len() && hay.subrange(at, at + needle.len()) == needle
}

/// The first index at or after `from` at which `needle` stands in `hay`.
pub open spec fn first_occurrence(hay: Seq<u8>, needle: Seq<u8>, from: int) -> Option<int>
    decreases hay.len() + 1 - from,
{
    if from < 0 || from + needle.len() > hay.len() {
        None
    } else if occurs_at(hay, needle, from) {
        Some(from)
    } else {
        first_occurrence(hay, needle, from + 1)
    }
}

/// The last index at or before `from` at which `needle` stands in `hay`.
pub open spec fn last_occurrence(hay: Seq<u8>, needle: Seq<u8>, from: int) -> Option<int>
    decreases from + 1,
{
    if from < 0 {
        None
    } else if occurs_at(hay, needle, from) {
        Some(from)
    } else {
        last_occurrence(hay, needle, from - 1)
    }
}

/// The first occurrence is an occurrence, and the least one from `from` on;
/// where there is none, `needle` stands nowhere from `from` on.
pub proof fn lemma_first_occurrence_is_least(hay: Seq<u8>, needle: Seq<u8>, from: int)
    requires
        0 <= from,
    ensures
        match first_occurrence(hay, needle, from) {
            Some(at) => from <= at && occurs_at(hay, needle, at) && forall|j: int|
                from <= j < at ==> !occurs_at(hay, needle, j),
            None => forall|j: int| from <= j ==> !occurs_at(hay, needle, j),
        },
    decreases hay.len() + 1 - from,
{
    if from + needle.len() <= hay.len() && !occurs_at(hay, needle, from) {
        lemma_first_occurrence_is_least(hay, needle, from + 1);
    }
}

/// The last occurrence is an occurrence, and the greatest one up to `from`;
/// where there is none, `needle` stands nowhere up to `from`.
pub proof fn lemma_last_occurrence_is_greatest(hay: Seq<u8>, needle: Seq<u8>, from: int)
    ensures
        match last_occurrence(hay, needle, from) {
            Some(at) => at <= from && occurs_at(hay, needle, at) && forall|j: int|
                at < j <= from ==> !occurs_at(hay, needle, j),
            None => forall|j: int| j <= from ==> !occurs_at(hay, needle, j),
        },
    decreases from + 1,
{
    if from >= 0 && !occurs_at(hay, needle, from) {
        lemma_last_occurrence_is_greatest(hay, needle, from - 1);
    }
}

/// Whether `needle` stands in `hay` at index `at`.
pub fn matches_at(hay: &[u8], needle: &[u8], at: usize) -> (b: bool)
    requires
        at + needle.len() <= hay.len(),
    ensures
        b == occurs_at(hay@, needle@, at as int),
{
    let mut k: usize = 0;
    while k < needle.len()
        invariant
            k <= needle.len(),
            at + needle.len() <= hay.len(),
            forall|j: int| 0 <= j < k ==> hay@[at + j] == needle@[j],
        decreases needle.len() - k,
    {
        if hay[at + k] != needle[k] {
            assert(hay@.subrange(at as int, at + needle.len())[k as int] != needle@[k as int]);
            return false;
        }
        k += 1;
    }
    assert(hay@.subrange(at as int, at + needle.len()) =~= needle@);
    true
}

/// The first index at which `needle` stands in `hay`.
pub fn find_bytes(hay: &[u8], needle: &[u8]) -> (r: Option<usize>)
    ensures
        match r {
            Some(at) => first_occurrence(hay@, needle@, 0) == Some(at as int),
            None => first_occurrence(hay@, needle@, 0) is None,
        },
{
    if needle.len() > hay.len() {
        return None;
    }
    let last: usize = hay.len() - needle.len();
    let mut at: usize = 0;
    loop
        invariant
            at <= last,
            last + needle.len() == hay.len(),
            first_occurrence(hay@, needle@, 0) == first_occurrence(hay@, needle@, at as int),
        decreases last - at,
    {
        if matches_at(hay, needle, at) {
            return Some(at);
        }
        if at == last {
            assert(first_occurrence(hay@, needle@, at + 1) is None);
            return None;
        }
        at += 1;
    }
}

/// The last index at which `needle` stands in `hay`.
pub fn rfind_bytes(hay: &[u8], needle: &[u8]) -> (r: Option<usize>)
    ensures
        match r {
            Some(at) => last_occurrence(hay@, needle@, hay@.len() - needle@.len()) == Some(
                at as int,
            ),
            None => last_occurrence(hay@, needle@, hay@.len() - needle@.len()) is None,
        },
{
    if needle.len() > hay.len() {
        return None;
    }
    let mut at: usize = hay.len() - needle.len();
    loop
        invariant
            at + needle.len() <= hay.len(),
            last_occurrence(hay@, needle@, hay@.len() - needle@.len()) == last_occurrence(
                hay@,
                needle@,
                at as int,
            ),
        decreases at,
    {
        if matches_at(hay, needle, at) {
            return Some(at);
        }
        if at == 0 {
            assert(last_occurrence(hay@, needle@, -1) is None);
            return None;
        }
        at -= 1;
    }
}

/// Appends copies of `items[from..to]` to `out`.
pub fn extend_with(out: &mut Vec<String>, items: &Vec<String>, from: usize, to: usize)
    requires
        from <= to <= items.len(),
    ensures
        texts(final(out)@) == texts(old(out)@) + texts(items@).subrange(from as int, to as int),
{
    let mut i: usize = from;
    assert(texts(out@) =~= texts(old(out)@) + texts(items@).subrange(from as int, i as int));
    while i < to
        invariant
            from <= i <= to <= items.len(),
            texts(out@) == texts(old(out)@) + texts(items@).subrange(from as int, i as int),
        decreases to - i,
    {
        let item = items[i].clone();
        proof {
            lemma_texts_push(out@, item);
            assert(texts(out@).push(item@) =~= texts(old(out)@) + texts(items@).subrange(
                from as int,
                i + 1,
            ));
        }
        out.push(item);
        i += 1;
    }
}

/// A stretch of `count` cells that hold one space each.
pub open spec fn blanks(count: int) -> Seq<Seq<char>> {
    Seq::new(
        if count >= 0 {
            count as nat
        } else {
            0
        },
        |i: int| " "@,
    )
}

/// Appends `count` cells of one space each to `out`.
pub fn pad_with_blanks(out: &mut Vec<String>, count: usize)
    ensures
        texts(final(out)@) == texts(old(out)@) + blanks(count as int),
{
    let mut i: usize = 0;
    assert(texts(out@) =~= texts(old(out)@) + blanks(0));
    while i < count
        invariant
            i <= count,
            texts(out@) == texts(old(out)@) + blanks(i as int),
        decreases count - i,
    {
        let blank = String::from_str(" ");
        proof {
            lemma_texts_push(out@, blank);
            assert(texts(out@).push(blank@) =~= texts(old(out)@) + blanks(i + 1));
        }
        out.push(blank);
        i += 1;
    }
}

} // verus!
