//! Character-level helpers: comparing, splitting and trimming text.
//!
//! Text is modelled as `Seq<char>`. Executable code scans a line once as a
//! vector of characters and cuts the pieces it needs out of the line itself,
//! by character position.

use vstd::prelude::*;
use vstd::string::*;

verus! {

/// Whether two string slices hold the same characters.
///
/// Trusted: stands for `==` on `str`, which compares the two slices by content.
#[verifier::external_body]
pub(crate) fn text_eq(a: &str, b: &str) -> (same: bool)
    ensures
        same == (a@ == b@),
{
    a == b
}

/// The characters of a string slice, in order.
pub fn chars_of(s: &str) -> (chars: Vec<char>)
    ensures
        chars@ == s@,
{
    broadcast use vstd::string::group_string_axioms;

    let mut chars: Vec<char> = Vec::new();
    for c in it: s.chars()
        invariant
            it.seq() == s@,
            chars@ == it.seq().take(it.index()),
    {
        chars.push(c);
    }
    chars
}

/// The characters that Unicode marks as `White_Space`.
pub open spec fn is_white_space(c: char) -> bool {
    let code = c as u32;
    ||| 0x09 <= code <= 0x0D
    ||| code == 0x20
    ||| code == 0x85
    ||| code == 0xA0
    ||| code == 0x1680
    ||| 0x2000 <= code <= 0x200A
    ||| code == 0x2028
    ||| code == 0x2029
    ||| code == 0x202F
    ||| code == 0x205F
    ||| code == 0x3000
}

/// The characters that may enclose a cell by mistake: quotes, blanks and commas.
pub open spec fn is_padding(c: char) -> bool {
    c == '\'' || c == '"' || c == ' ' || c == ','
}

/// Whether a character is stripped from the ends: padding where `padding` is
/// set, white space where it is not.
pub open spec fn strips(padding: bool, c: char) -> bool {
    if padding {
        is_padding(c)
    } else {
        is_white_space(c)
    }
}

/// Whether Unicode marks a character as `White_Space`, as `char::is_whitespace` tells.
pub fn is_whitespace(c: char) -> (white: bool)
    ensures
        white == is_white_space(c),
{
    let code: u32 = c as u32;
    (0x09 <= code && code <= 0x0D) || code == 0x20 || code == 0x85 || code == 0xA0 || code
        == 0x1680 || (0x2000 <= code && code <= 0x200A) || code == 0x2028 || code == 0x2029 || code
        == 0x202F || code == 0x205F || code == 0x3000
}

fn is_stripped(padding: bool, c: char) -> (stripped: bool)
    ensures
        stripped == strips(padding, c),
{
    if padding {
        c == '\'' || c == '"' || c == ' ' || c == ','
    } else {
        is_whitespace(c)
    }
}

/// A text without the stripped characters that it begins with.
pub open spec fn trim_front(s: Seq<char>, padding: bool) -> Seq<char>
    decreases s.len(),
{
    if s.len() > 0 && strips(padding, s[0]) {
        trim_front(s.drop_first(), padding)
    } else {
        s
    }
}

/// A text without the stripped characters that it ends with.
pub open spec fn trim_back(s: Seq<char>, padding: bool) -> Seq<char>
    decreases s.len(),
{
    if s.len() > 0 && strips(padding, s.last()) {
        trim_back(s.drop_last(), padding)
    } else {
        s
    }
}

/// A text without the stripped characters at either end.
pub open spec fn trim_both(s: Seq<char>, padding: bool) -> Seq<char> {
    trim_back(trim_front(s, padding), padding)
}

/// A cell as it is read: surrounding white space goes first, then surrounding
/// padding.
pub open spec fn cleaned(raw: Seq<char>) -> Seq<char> {
    trim_both(trim_both(raw, false), true)
}

/// Narrows `start..end` to the part of it that `trim_both` keeps.
fn trim_range(chars: &Vec<char>, start: usize, end: usize, padding: bool) -> (kept: (usize, usize))
    requires
        start <= end <= chars.len(),
    ensures
        start <= kept.0 <= kept.1 <= end,
        chars@.subrange(kept.0 as int, kept.1 as int) == trim_both(
            chars@.subrange(start as int, end as int),
            padding,
        ),
{
    let mut from: usize = start;
    while from < end && is_stripped(padding, chars[from])
        invariant
            start <= from <= end <= chars.len(),
            trim_front(chars@.subrange(from as int, end as int), padding) == trim_front(
                chars@.subrange(start as int, end as int),
                padding,
            ),
        decreases end - from,
    {
        assert(chars@.subrange(from as int, end as int).drop_first() == chars@.subrange(
            from + 1,
            end as int,
        ));
        from += 1;
    }
    let mut to: usize = end;
    while from < to && is_stripped(padding, chars[to - 1])
        invariant
            from <= to <= end <= chars.len(),
            trim_back(chars@.subrange(from as int, to as int), padding) == trim_back(
                chars@.subrange(from as int, end as int),
                padding,
            ),
        decreases to - from,
    {
        assert(chars@.subrange(from as int, to as int).drop_last() == chars@.subrange(
            from as int,
            to - 1,
        ));
        to -= 1;
    }
    (from, to)
}

/// Narrows `start..end` to the cleaned cell inside it.
pub(crate) fn clean_range(chars: &Vec<char>, start: usize, end: usize) -> (kept: (usize, usize))
    requires
        start <= end <= chars.len(),
    ensures
        start <= kept.0 <= kept.1 <= end,
        chars@.subrange(kept.0 as int, kept.1 as int) == cleaned(
            chars@.subrange(start as int, end as int),
        ),
{
    let (from, to) = trim_range(chars, start, end, false);
    trim_range(chars, from, to, true)
}

/// A cell without the white space and then the padding that surround it.
pub fn clean_cell(raw: &str) -> (cell: &str)
    ensures
        cell@ == cleaned(raw@),
{
    let chars = chars_of(raw);
    let (from, to) = clean_range(&chars, 0, chars.len());
    assert(chars@.subrange(0, chars.len() as int) == chars@);
    raw.substring_char(from, to)
}

/// Where the first separator stands in a text, or the text's length if it
/// holds none.
pub open spec fn first_sep(s: Seq<char>, sep: char) -> nat
    decreases s.len(),
{
    if s.len() == 0 || s[0] == sep {
        0
    } else {
        1 + first_sep(s.drop_first(), sep)
    }
}

/// The pieces of a text between its separators. A text without a separator is
/// one piece; a separator at either end borders an empty piece.
pub open spec fn split(s: Seq<char>, sep: char) -> Seq<Seq<char>>
    decreases s.len(),
{
    let at = first_sep(s, sep) as int;
    if at >= s.len() {
        seq![s]
    } else {
        seq![s.take(at)] + split(s.skip(at + 1), sep)
    }
}

/// `first_sep` is the least position that holds the separator.
pub proof fn lemma_first_sep(s: Seq<char>, sep: char, at: int)
    requires
        0 <= at <= s.len(),
        forall|i: int| 0 <= i < at ==> s[i] != sep,
        at < s.len() ==> s[at] == sep,
    ensures
        first_sep(s, sep) == at,
    decreases s.len(),
{
    if at > 0 {
        lemma_first_sep(s.drop_first(), sep, at - 1);
    }
}

/// The texts that a sequence of pieces, given by their bounds in `chars`, holds.
pub(crate) open spec fn pieces(chars: Seq<char>, bounds: Seq<(usize, usize)>) -> Seq<Seq<char>> {
    Seq::new(bounds.len(), |i: int| chars.subrange(bounds[i].0 as int, bounds[i].1 as int))
}

/// The bounds of the pieces that `split` cuts `chars` into.
pub(crate) fn split_bounds(chars: &Vec<char>, sep: char) -> (bounds: Vec<(usize, usize)>)
    ensures
        forall|i: int|
            0 <= i < bounds.len() ==> (#[trigger] bounds[i]).0 <= bounds[i].1 <= chars.len(),
        pieces(chars@, bounds@) == split(chars@, sep),
{
    let mut bounds: Vec<(usize, usize)> = Vec::new();
    let mut start: usize = 0;
    let mut at: usize = 0;
    proof {
        assert(chars@.skip(0) == chars@);
        assert(pieces(chars@, bounds@) + split(chars@, sep) == split(chars@, sep));
    }
    while at < chars.len()
        invariant
            start <= at <= chars.len(),
            forall|i: int| start <= i < at ==> chars[i] != sep,
            forall|i: int|
                0 <= i < bounds.len() ==> (#[trigger] bounds[i]).0 <= bounds[i].1 <= chars.len(),
            split(chars@, sep) == pieces(chars@, bounds@) + split(chars@.skip(start as int), sep),
        decreases chars.len() - at,
    {
        if chars[at] == sep {
            proof {
                let rest = chars@.skip(start as int);
                lemma_first_sep(rest, sep, at - start);
                assert(rest.take(at - start) == chars@.subrange(start as int, at as int));
                assert(rest.skip(at - start + 1) == chars@.skip(at + 1));
                assert(pieces(chars@, bounds@.push((start, at))) == pieces(chars@, bounds@)
                    + seq![chars@.subrange(start as int, at as int)]);
            }
            bounds.push((start, at));
            start = at + 1;
        }
        at += 1;
    }
    proof {
        let rest = chars@.skip(start as int);
        lemma_first_sep(rest, sep, rest.len() as int);
        assert(rest == chars@.subrange(start as int, chars.len() as int));
        assert(pieces(chars@, bounds@.push((start, chars.len()))) == pieces(chars@, bounds@)
            + seq![rest]);
    }
    bounds.push((start, chars.len()));
    bounds
}

/// The texts that a sequence of string slices holds.
pub open spec fn texts(slices: Seq<&str>) -> Seq<Seq<char>> {
    Seq::new(slices.len(), |i: int| slices[i]@)
}

/// The pieces of a line between its separators, as they stand.
pub fn split_fields<'a>(line: &'a str, sep: char) -> (fields: Vec<&'a str>)
    ensures
        texts(fields@) == split(line@, sep),
{
    let chars = chars_of(line);
    let bounds = split_bounds(&chars, sep);
    let mut fields: Vec<&'a str> = Vec::new();
    let mut i: usize = 0;
    while i < bounds.len()
        invariant
            chars@ == line@,
            i <= bounds.len(),
            forall|k: int|
                0 <= k < bounds.len() ==> (#[trigger] bounds[k]).0 <= bounds[k].1 <= chars.len(),
            fields.len() == i,
            forall|k: int| 0 <= k < i ==> (#[trigger] fields[k])@ == pieces(chars@, bounds@)[k],
        decreases bounds.len() - i,
    {
        let (from, to) = bounds[i];
        fields.push(line.substring_char(from, to));
        i += 1;
    }
    assert(texts(fields@) == pieces(chars@, bounds@));
    fields
}

/// The cells of a row: each piece of the line, cleaned.
pub open spec fn row_texts(line: Seq<char>, sep: char) -> Seq<Seq<char>> {
    split(line, sep).map_values(|piece: Seq<char>| cleaned(piece))
}

/// The cells of a row: the pieces of the line between its separators, each
/// without the white space and padding around it.
pub fn row_cells<'a>(line: &'a str, sep: char) -> (cells: Vec<&'a str>)
    ensures
        texts(cells@) == row_texts(line@, sep),
{
    let chars = chars_of(line);
    let bounds = split_bounds(&chars, sep);
    let mut cells: Vec<&'a str> = Vec::new();
    let mut i: usize = 0;
    while i < bounds.len()
        invariant
            chars@ == line@,
            i <= bounds.len(),
            forall|k: int|
                0 <= k < bounds.len() ==> (#[trigger] bounds[k]).0 <= bounds[k].1 <= chars.len(),
            cells.len() == i,
            forall|k: int|
                0 <= k < i ==> (#[trigger] cells[k])@ == cleaned(pieces(chars@, bounds@)[k]),
        decreases bounds.len() - i,
    {
        let (start, end) = bounds[i];
        let (from, to) = clean_range(&chars, start, end);
        cells.push(line.substring_char(from, to));
        i += 1;
    }
    assert(texts(cells@) == row_texts(line@, sep));
    cells
}

} // verus!
