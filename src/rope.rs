//! The document store: `ropey::Rope`, with the contracts of the calls made on it.

use vstd::prelude::*;
use ropey::Rope;
use crate::text::{line_count, line_start, newlines_before};

verus! {

#[verifier::external_type_specification]
#[verifier::external_body]
pub struct ExRope(ropey::Rope);

/// The characters that a rope holds.
pub uninterp spec fn rope_chars(r: Rope) -> Seq<char>;

/// Relies on ropey's `Rope::new`: an empty rope.
pub assume_specification[ ropey::Rope::new ]() -> (r: Rope)
    ensures
        rope_chars(r) == Seq::<char>::empty(),
;

/// Relies on ropey's `Rope::len_chars`: the number of characters.
pub assume_specification[ ropey::Rope::len_chars ](rope: &Rope) -> (n: usize)
    ensures
        n == rope_chars(*rope).len(),
;

/// Relies on ropey's `Rope::len_lines`: one more than the number of line breaks,
/// which without ropey's default features are the line feeds alone.
pub assume_specification[ ropey::Rope::len_lines ](rope: &Rope) -> (n: usize)
    ensures
        n == line_count(rope_chars(*rope)),
;

/// Relies on ropey's `Rope::char_to_line`: the number of line breaks before the
/// offset. It panics past the end.
pub assume_specification[ ropey::Rope::char_to_line ](rope: &Rope, char_idx: usize) -> (l: usize)
    requires
        char_idx <= rope_chars(*rope).len(),
    ensures
        l == newlines_before(rope_chars(*rope), char_idx as int),
;

/// Relies on ropey's `Rope::line_to_char`: the offset at which a line begins,
/// and the length for the line one past the last. It panics beyond that.
pub assume_specification[ ropey::Rope::line_to_char ](rope: &Rope, line_idx: usize) -> (o: usize)
    requires
        line_idx <= line_count(rope_chars(*rope)),
    ensures
        o == line_start(rope_chars(*rope), line_idx as nat),
;

/// Relies on ropey's `Rope::char`: the character at an offset. It panics at or
/// past the end.
pub assume_specification[ ropey::Rope::char ](rope: &Rope, char_idx: usize) -> (c: char)
    requires
        char_idx < rope_chars(*rope).len(),
    ensures
        c == rope_chars(*rope)[char_idx as int],
;

/// Relies on ropey's `Rope::insert_char`: the character is inserted at the
/// offset. It panics past the end.
pub assume_specification[ ropey::Rope::insert_char ](rope: &mut Rope, char_idx: usize, ch: char)
    requires
        char_idx <= rope_chars(*old(rope)).len(),
    ensures
        rope_chars(*final(rope)) == rope_chars(*old(rope)).insert(char_idx as int, ch),
;

/// Relies on ropey's `Rope::remove`: the characters in `start..end` are taken
/// out. It panics unless `start <= end <= len_chars()`.
#[verifier::external_body]
pub(crate) fn rope_remove(rope: &mut Rope, start: usize, end: usize)
    requires
        start <= end <= rope_chars(*old(rope)).len(),
    ensures
        rope_chars(*final(rope)) == rope_chars(*old(rope)).subrange(0, start as int)
            + rope_chars(*old(rope)).subrange(end as int, rope_chars(*old(rope)).len() as int),
{
    rope.remove(start..end)
}

/// Relies on ropey's `Rope::slice`: the characters in `start..end`, here turned
/// into a `String`. It panics unless `start <= end <= len_chars()`.
#[verifier::external_body]
pub(crate) fn rope_slice_string(rope: &Rope, start: usize, end: usize) -> (s: String)
    requires
        start <= end <= rope_chars(*rope).len(),
    ensures
        s@ == rope_chars(*rope).subrange(start as int, end as int),
{
    String::from(rope.slice(start..end))
}

} // verus!
