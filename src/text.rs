//! The mathematical model of a document: a sequence of characters split into
//! lines by line feeds.

use vstd::prelude::*;

verus! {

/// Number of line feeds among the first `i` characters of `s`.
pub open spec fn newlines_before(s: Seq<char>, i: int) -> nat
    decreases i,
{
    if i <= 0 {
        0
    } else {
        newlines_before(s, i - 1) + if s[i - 1] == '\n' { 1nat } else { 0nat }
    }
}

/// Number of lines of `s`: one more than its number of line feeds.
pub open spec fn line_count(s: Seq<char>) -> nat {
    newlines_before(s, s.len() as int) + 1
}

/// Index of the line that holds offset `i`.
pub open spec fn line_of(s: Seq<char>, i: int) -> nat {
    newlines_before(s, i)
}

/// The first offset at or after `i` preceded by at least `l` line feeds, or the
/// length of `s` when there is none.
pub open spec fn first_offset_from(s: Seq<char>, l: nat, i: int) -> int
    decreases s.len() - i,
{
    if i >= s.len() || newlines_before(s, i) >= l {
        i
    } else {
        first_offset_from(s, l, i + 1)
    }
}

/// Offset at which line `l` begins: just after the `l`-th line feed (0 for the
/// first line); the length of `s` for the line one past the last.
pub open spec fn line_start(s: Seq<char>, l: nat) -> int {
    first_offset_from(s, l, 0)
}

/// Offset at which the visible text of line `l` ends: before its line feed, and
/// before a carriage return that stands just ahead of that line feed.
pub open spec fn line_end(s: Seq<char>, l: nat) -> int {
    let st = line_start(s, l);
    let en = line_start(s, l + 1);
    if en > st && s[en - 1] == '\n' {
        if en - st >= 2 && s[en - 2] == '\r' {
            en - 2
        } else {
            en - 1
        }
    } else {
        en
    }
}

/// Number of visible characters of line `l`.
pub open spec fn line_len(s: Seq<char>, l: nat) -> int {
    line_end(s, l) - line_start(s, l)
}

/// The visible characters of line `l`.
pub open spec fn line_text(s: Seq<char>, l: nat) -> Seq<char> {
    s.subrange(line_start(s, l), line_end(s, l))
}

/// Whether a character counts as part of a word (`char::is_alphanumeric`).
pub uninterp spec fn is_alphanumeric(c: char) -> bool;

/// Relies on std's `char::is_alphanumeric`: its result depends on the
/// character alone.
#[verifier::external_body]
pub(crate) fn char_is_alphanumeric(c: char) -> (r: bool)
    ensures
        r == is_alphanumeric(c),
{
    c.is_alphanumeric()
}

/// Moving left from `pos`, the first offset whose character is alphanumeric
/// (or 0).
pub open spec fn skip_non_word_back(s: Seq<char>, pos: int) -> int
    decreases pos,
{
    if pos > 0 && !is_alphanumeric(s[pos]) {
        skip_non_word_back(s, pos - 1)
    } else {
        pos
    }
}

/// Moving left from `pos`, the first offset not preceded by an alphanumeric
/// character (or 0).
pub open spec fn skip_word_back(s: Seq<char>, pos: int) -> int
    decreases pos,
{
    if pos > 0 && is_alphanumeric(s[pos - 1]) {
        skip_word_back(s, pos - 1)
    } else {
        pos
    }
}

/// Moving right from `pos`, the first offset whose character is not
/// alphanumeric (or the length).
pub open spec fn skip_word_forward(s: Seq<char>, pos: int) -> int
    decreases s.len() - pos,
{
    if pos < s.len() && is_alphanumeric(s[pos]) {
        skip_word_forward(s, pos + 1)
    } else {
        pos
    }
}

/// Moving right from `pos`, the first offset whose character is alphanumeric
/// (or the length).
pub open spec fn skip_non_word_forward(s: Seq<char>, pos: int) -> int
    decreases s.len() - pos,
{
    if pos < s.len() && !is_alphanumeric(s[pos]) {
        skip_non_word_forward(s, pos + 1)
    } else {
        pos
    }
}

/// The word boundary left of `caret`: from the character before it, skip back
/// over non-word characters, then over word characters.
pub open spec fn prev_word_boundary(s: Seq<char>, caret: int) -> int {
    if caret <= 0 {
        0
    } else {
        skip_word_back(s, skip_non_word_back(s, caret - 1))
    }
}

/// The word boundary right of `caret`: skip forward over word characters, then
/// over non-word characters.
pub open spec fn next_word_boundary(s: Seq<char>, caret: int) -> int {
    if caret >= s.len() {
        s.len() as int
    } else {
        skip_non_word_forward(s, skip_word_forward(s, caret))
    }
}

pub proof fn lemma_newlines_monotone(s: Seq<char>, i: int, j: int)
    requires
        0 <= i <= j,
    ensures
        newlines_before(s, i) <= newlines_before(s, j),
        newlines_before(s, j) <= newlines_before(s, i) + (j - i),
    decreases j - i,
{
    if i < j {
        lemma_newlines_monotone(s, i, j - 1);
    }
}

proof fn lemma_first_offset_bounds(s: Seq<char>, l: nat, i: int)
    requires
        0 <= i <= s.len(),
    ensures
        i <= first_offset_from(s, l, i) <= s.len(),
        first_offset_from(s, l, i) < s.len() ==> newlines_before(s, first_offset_from(s, l, i))
            >= l,
    decreases s.len() - i,
{
    if !(i >= s.len() || newlines_before(s, i) >= l) {
        lemma_first_offset_bounds(s, l, i + 1);
    }
}

proof fn lemma_first_offset_reaches(s: Seq<char>, l: nat, i: int, c: int)
    requires
        0 <= i <= c <= s.len(),
        newlines_before(s, c) >= l,
    ensures
        first_offset_from(s, l, i) <= c,
        newlines_before(s, first_offset_from(s, l, i)) >= l,
    decreases c - i,
{
    if !(i >= s.len() || newlines_before(s, i) >= l) {
        lemma_first_offset_reaches(s, l, i + 1, c);
    }
}

proof fn lemma_first_offset_passes(s: Seq<char>, l: nat, i: int)
    requires
        0 <= i <= s.len(),
    ensures
        forall|k: int| i <= k < first_offset_from(s, l, i) ==> newlines_before(s, k) < l,
    decreases s.len() - i,
{
    if !(i >= s.len() || newlines_before(s, i) >= l) {
        lemma_first_offset_passes(s, l, i + 1);
    }
}

proof fn lemma_first_offset_monotone(s: Seq<char>, l1: nat, l2: nat, i: int)
    requires
        0 <= i <= s.len(),
        l1 <= l2,
    ensures
        first_offset_from(s, l1, i) <= first_offset_from(s, l2, i),
    decreases s.len() - i,
{
    if !(i >= s.len() || newlines_before(s, i) >= l2) {
        lemma_first_offset_bounds(s, l2, i + 1);
        if !(newlines_before(s, i) >= l1) {
            lemma_first_offset_monotone(s, l1, l2, i + 1);
        }
    }
}

/// Line starts lie within the text and grow with the line index.
pub proof fn lemma_line_start_bounds(s: Seq<char>, l1: nat, l2: nat)
    requires
        l1 <= l2,
    ensures
        0 <= line_start(s, l1) <= line_start(s, l2) <= s.len(),
{
    lemma_first_offset_bounds(s, l1, 0);
    lemma_first_offset_bounds(s, l2, 0);
    lemma_first_offset_monotone(s, l1, l2, 0);
}

/// The visible text of a line lies between its start and the next line's start.
pub proof fn lemma_line_end_bounds(s: Seq<char>, l: nat)
    ensures
        0 <= line_start(s, l) <= line_end(s, l) <= line_start(s, l + 1) <= s.len(),
{
    lemma_line_start_bounds(s, l, l + 1);
}

/// The line that holds offset `c` starts at or before `c`, and no line feed
/// stands between that start and `c`.
pub proof fn lemma_line_start_of_offset(s: Seq<char>, c: int)
    requires
        0 <= c <= s.len(),
    ensures
        0 <= line_start(s, line_of(s, c)) <= c,
        newlines_before(s, line_start(s, line_of(s, c))) == line_of(s, c),
        forall|k: int| line_start(s, line_of(s, c)) <= k < c ==> s[k] != '\n',
{
    let l = line_of(s, c);
    lemma_first_offset_bounds(s, l, 0);
    lemma_first_offset_reaches(s, l, 0, c);
    let st = line_start(s, l);
    lemma_newlines_monotone(s, st, c);
    assert forall|k: int| st <= k < c implies s[k] != '\n' by {
        lemma_newlines_monotone(s, st, k);
        lemma_newlines_monotone(s, k + 1, c);
    }
}

/// An offset within the text lies on one of its lines.
pub proof fn lemma_line_of_bound(s: Seq<char>, c: int)
    requires
        0 <= c <= s.len(),
    ensures
        line_of(s, c) < line_count(s),
{
    lemma_newlines_monotone(s, c, s.len() as int);
}

/// The offset `c` is where line `l` starts when it is the first offset preceded
/// by `l` line feeds.
pub proof fn lemma_line_start_unique(s: Seq<char>, l: nat, c: int)
    requires
        0 <= c <= s.len(),
        newlines_before(s, c) >= l,
        forall|k: int| 0 <= k < c ==> newlines_before(s, k) < l,
    ensures
        line_start(s, l) == c,
{
    lemma_first_offset_reaches(s, l, 0, c);
    lemma_first_offset_passes(s, l, 0);
    lemma_first_offset_bounds(s, l, 0);
}

/// Offsets before the start of line `l` are preceded by fewer than `l` line
/// feeds.
pub proof fn lemma_before_line_start(s: Seq<char>, l: nat)
    ensures
        forall|k: int| 0 <= k < line_start(s, l) ==> newlines_before(s, k) < l,
{
    lemma_first_offset_passes(s, l, 0);
}

/// Line `l` of the text starts after exactly `l` line feeds, and a line start
/// other than 0 follows a line feed.
pub proof fn lemma_line_start_exact(s: Seq<char>, l: nat)
    requires
        l < line_count(s),
    ensures
        newlines_before(s, line_start(s, l)) == l,
        line_start(s, l) > 0 ==> s[line_start(s, l) - 1] == '\n',
{
    let st = line_start(s, l);
    lemma_first_offset_reaches(s, l, 0, s.len() as int);
    lemma_first_offset_passes(s, l, 0);
    if st > 0 {
        lemma_newlines_monotone(s, st - 1, st);
    }
}

/// The line one past the last starts at the end of the text.
pub proof fn lemma_line_start_past_last(s: Seq<char>)
    ensures
        line_start(s, line_count(s)) == s.len(),
{
    let l = line_count(s);
    lemma_first_offset_bounds(s, l, 0);
    let st = line_start(s, l);
    if st < s.len() {
        lemma_newlines_monotone(s, st, s.len() as int);
    }
}

/// Every offset from the start to the end of the visible text of line `l`
/// lies on line `l`.
pub proof fn lemma_offset_on_line(s: Seq<char>, l: nat, o: int)
    requires
        l < line_count(s),
        line_start(s, l) <= o <= line_end(s, l),
    ensures
        line_of(s, o) == l,
        line_start(s, line_of(s, o)) == line_start(s, l),
{
    let st = line_start(s, l);
    let next = line_start(s, l + 1);
    lemma_line_start_exact(s, l);
    lemma_line_end_bounds(s, l);
    lemma_newlines_monotone(s, st, o);
    if l + 1 < line_count(s) {
        lemma_line_start_exact(s, l + 1);
        lemma_newlines_monotone(s, st, next);
        lemma_first_offset_passes(s, l + 1, 0);
        assert(o < next);
    } else {
        lemma_line_start_past_last(s);
        lemma_newlines_monotone(s, o, s.len() as int);
    }
}

/// Line feeds before `i` depend on the first `i` characters alone.
pub proof fn lemma_newlines_prefix(s1: Seq<char>, s2: Seq<char>, i: int)
    requires
        0 <= i <= s1.len(),
        i <= s2.len(),
        s1.subrange(0, i) == s2.subrange(0, i),
    ensures
        newlines_before(s1, i) == newlines_before(s2, i),
    decreases i,
{
    if i > 0 {
        assert(s1.subrange(0, i)[i - 1] == s1[i - 1]);
        assert(s2.subrange(0, i)[i - 1] == s2[i - 1]);
        assert(s1.subrange(0, i - 1) == s1.subrange(0, i).subrange(0, i - 1));
        assert(s2.subrange(0, i - 1) == s2.subrange(0, i).subrange(0, i - 1));
        lemma_newlines_prefix(s1, s2, i - 1);
    }
}

} // verus!
