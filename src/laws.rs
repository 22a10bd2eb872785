//! Laws that relate the editor's operations to one another.

use vstd::prelude::*;
use crate::editor::{remove_range, EditorModel};
use crate::text::{
    lemma_before_line_start, lemma_line_end_bounds, lemma_offset_on_line, line_count, line_len, lemma_line_start_of_offset, lemma_line_start_unique,
    lemma_newlines_prefix, line_start, newlines_before,
};

verus! {

/// Typing the characters of `t` one after another.
pub open spec fn insert_chars(m: EditorModel, t: Seq<char>) -> EditorModel
    decreases t.len(),
{
    if t.len() == 0 {
        m
    } else {
        insert_chars(m, t.drop_last()).insert_char(t.last())
    }
}

/// Pressing backspace `n` times.
pub open spec fn backspace_times(m: EditorModel, n: nat) -> EditorModel
    decreases n,
{
    if n == 0 {
        m
    } else {
        backspace_times(m.backspace(), (n - 1) as nat)
    }
}

/// Same text, caret and anchor.
pub open spec fn same_text_and_caret(a: EditorModel, b: EditorModel) -> bool {
    a.text == b.text && a.cursor == b.cursor && a.anchor == b.anchor
}

/// Backspace reads nothing but the text, caret and anchor.
proof fn lemma_backspace_times_congruent(a: EditorModel, b: EditorModel, n: nat)
    requires
        same_text_and_caret(a, b),
    ensures
        same_text_and_caret(backspace_times(a, n), backspace_times(b, n)),
    decreases n,
{
    if n > 0 {
        lemma_backspace_times_congruent(a.backspace(), b.backspace(), (n - 1) as nat);
    }
}

/// Typing keeps the state valid and leaves no selection.
proof fn lemma_insert_chars_no_selection(m: EditorModel, t: Seq<char>)
    requires
        m.wf(),
        !m.has_selection(),
    ensures
        insert_chars(m, t).wf(),
        !insert_chars(m, t).has_selection(),
    decreases t.len(),
{
    if t.len() > 0 {
        lemma_insert_chars_no_selection(m, t.drop_last());
    }
}

/// Typing a character and pressing backspace gives back the text, caret and
/// anchor that were there before, when nothing was selected.
pub proof fn law_insert_char_then_backspace(m: EditorModel, ch: char)
    requires
        m.wf(),
        !m.has_selection(),
    ensures
        same_text_and_caret(m.insert_char(ch).backspace(), m),
{
    let c = m.cursor as int;
    let typed = m.text.insert(c, ch);
    assert(remove_range(typed, c, c + 1) =~= m.text);
}

/// Typing a text and then pressing backspace once per character typed gives
/// back the text, caret and anchor that were there before, when nothing was
/// selected.
pub proof fn law_insert_chars_then_backspace(m: EditorModel, t: Seq<char>)
    requires
        m.wf(),
        !m.has_selection(),
    ensures
        same_text_and_caret(backspace_times(insert_chars(m, t), t.len()), m),
    decreases t.len(),
{
    if t.len() > 0 {
        let before = insert_chars(m, t.drop_last());
        lemma_insert_chars_no_selection(m, t.drop_last());
        law_insert_char_then_backspace(before, t.last());
        lemma_backspace_times_congruent(
            before.insert_char(t.last()).backspace(),
            before,
            (t.len() - 1) as nat,
        );
        law_insert_chars_then_backspace(m, t.drop_last());
    }
}

/// Typing while text is selected replaces the selection: the character takes
/// its place and the caret follows it, with nothing selected.
pub proof fn law_typing_replaces_selection(m: EditorModel, ch: char)
    requires
        m.wf(),
    ensures
        ({
            let r = m.insert_char(ch);
            let st = m.selection_start() as int;
            &&& r.text == remove_range(m.text, st, m.selection_end() as int).insert(st, ch)
            &&& r.cursor == st + 1
            &&& !r.has_selection()
            &&& r.wf()
        }),
{
}

/// Collapsing the selection twice is the same as collapsing it once.
pub proof fn law_collapse_to_cursor_idempotent(m: EditorModel)
    ensures
        m.collapse_to_cursor().collapse_to_cursor() == m.collapse_to_cursor(),
{
}

/// Deleting to the line start removes only characters of the caret's own
/// line: none of them is a line feed, and the caret stays on that line, at
/// its start.
pub proof fn law_delete_to_line_start_stays_on_line(m: EditorModel)
    requires
        m.wf(),
        !m.has_selection(),
    ensures
        ({
            let r = m.delete_to_line_start();
            let st = line_start(m.text, m.cursor_row());
            &&& r.text == remove_range(m.text, st, m.cursor as int)
            &&& forall|k: int| st <= k < m.cursor ==> m.text[k] != '\n'
            &&& r.cursor == st
            &&& r.cursor_row() == m.cursor_row()
            &&& r.cursor_col() == 0
        }),
{
    let r = m.delete_to_line_start();
    let st = line_start(m.text, m.cursor_row());
    lemma_line_start_of_offset(m.text, m.cursor as int);
    if st < m.cursor {
        assert(r.text.subrange(0, st) =~= m.text.subrange(0, st));
        lemma_newlines_prefix(r.text, m.text, st);
        lemma_before_line_start(m.text, m.cursor_row());
        assert forall|k: int| 0 <= k < st implies newlines_before(r.text, k) < m.cursor_row() by {
            assert(r.text.subrange(0, k) =~= m.text.subrange(0, k));
            lemma_newlines_prefix(r.text, m.text, k);
        }
        lemma_line_start_unique(r.text, m.cursor_row(), st);
    }
}

/// A vertical move to another line lands on that line, at the target column
/// clamped to the line's length, and records the target column as sticky.
pub proof fn law_move_vertically_lands_on_line(m: EditorModel, row: nat, extend: bool)
    requires
        m.wf(),
        row < line_count(m.text),
    ensures
        ({
            let r = m.move_vertically_to(row, extend);
            let col = if m.target_col() <= line_len(m.text, row) {
                m.target_col()
            } else {
                line_len(m.text, row)
            };
            &&& r.wf()
            &&& r.cursor_row() == row
            &&& r.cursor_col() == col
            &&& r.preferred_col == Some(m.target_col() as nat)
        }),
{
    lemma_line_start_of_offset(m.text, m.cursor as int);
    lemma_line_end_bounds(m.text, row);
    let r = m.move_vertically_to(row, extend);
    lemma_offset_on_line(m.text, row, r.cursor as int);
}

/// Moving down from a line that is not the last lands on the next line, at
/// the sticky column (or the caret's column) clamped to that line's length.
pub proof fn law_move_down_lands_on_next_line(m: EditorModel, extend: bool)
    requires
        m.wf(),
        m.cursor_row() + 1 < line_count(m.text),
    ensures
        m.move_down(extend).cursor_row() == m.cursor_row() + 1,
        m.move_down(extend).cursor_col() == if m.target_col() <= line_len(
            m.text,
            m.cursor_row() + 1,
        ) {
            m.target_col()
        } else {
            line_len(m.text, m.cursor_row() + 1)
        },
{
    law_move_vertically_lands_on_line(m, m.cursor_row() + 1, extend);
}

/// Moving up from a line that is not the first lands on the previous line, at
/// the sticky column (or the caret's column) clamped to that line's length.
pub proof fn law_move_up_lands_on_previous_line(m: EditorModel, extend: bool)
    requires
        m.wf(),
        m.cursor_row() > 0,
    ensures
        m.move_up(extend).cursor_row() == m.cursor_row() - 1,
        m.move_up(extend).cursor_col() == if m.target_col() <= line_len(
            m.text,
            (m.cursor_row() - 1) as nat,
        ) {
            m.target_col()
        } else {
            line_len(m.text, (m.cursor_row() - 1) as nat)
        },
{
    crate::text::lemma_line_of_bound(m.text, m.cursor as int);
    law_move_vertically_lands_on_line(m, (m.cursor_row() - 1) as nat, extend);
}

/// Sticky column: two moves down from column `c`, through a line of any
/// length, land at column `c` when the line reached is long enough.
pub proof fn law_sticky_column_two_moves_down(m: EditorModel, extend: bool)
    requires
        m.wf(),
        m.preferred_col is None,
        m.cursor_row() + 2 < line_count(m.text),
        m.cursor_col() <= line_len(m.text, m.cursor_row() + 2),
    ensures
        m.move_down(extend).move_down(extend).cursor_row() == m.cursor_row() + 2,
        m.move_down(extend).move_down(extend).cursor_col() == m.cursor_col(),
{
    lemma_line_start_of_offset(m.text, m.cursor as int);
    let once = m.move_down(extend);
    law_move_vertically_lands_on_line(m, m.cursor_row() + 1, extend);
    law_move_vertically_lands_on_line(once, once.cursor_row() + 1, extend);
}

/// Sticky column: two moves up from column `c`, through a line of any length,
/// land at column `c` when the line reached is long enough.
pub proof fn law_sticky_column_two_moves_up(m: EditorModel, extend: bool)
    requires
        m.wf(),
        m.preferred_col is None,
        m.cursor_row() >= 2,
        m.cursor_col() <= line_len(m.text, (m.cursor_row() - 2) as nat),
    ensures
        m.move_up(extend).move_up(extend).cursor_row() == m.cursor_row() - 2,
        m.move_up(extend).move_up(extend).cursor_col() == m.cursor_col(),
{
    lemma_line_start_of_offset(m.text, m.cursor as int);
    crate::text::lemma_line_of_bound(m.text, m.cursor as int);
    let once = m.move_up(extend);
    law_move_vertically_lands_on_line(m, (m.cursor_row() - 1) as nat, extend);
    law_move_vertically_lands_on_line(once, (once.cursor_row() - 1) as nat, extend);
}

} // verus!
