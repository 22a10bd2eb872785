//! The editor: a document with a caret, a selection anchor, a sticky column for
//! vertical movement and a scroll offset.

use vstd::prelude::*;
use ropey::Rope;
use crate::rope::{rope_chars, rope_remove, rope_slice_string};
use crate::text::{
    char_is_alphanumeric, lemma_line_end_bounds, lemma_line_of_bound, lemma_line_start_bounds,
    lemma_line_start_of_offset, lemma_line_start_past_last, line_count, line_end, line_len,
    line_of, line_start, line_text, next_word_boundary, prev_word_boundary, skip_non_word_back, skip_non_word_forward,
    skip_word_back, skip_word_forward,
};

verus! {

/// `s` with the characters in `start..end` taken out.
pub open spec fn remove_range(s: Seq<char>, start: int, end: int) -> Seq<char> {
    s.subrange(0, start) + s.subrange(end, s.len() as int)
}

/// The abstract state of an editor.
pub struct EditorModel {
    pub text: Seq<char>,
    pub cursor: nat,
    pub anchor: nat,
    pub preferred_col: Option<nat>,
    pub scroll_offset: nat,
}

impl EditorModel {
    /// Caret and anchor are offsets within the text.
    pub open spec fn wf(self) -> bool {
        self.cursor <= self.text.len() && self.anchor <= self.text.len()
    }

    pub open spec fn has_selection(self) -> bool {
        self.cursor != self.anchor
    }

    pub open spec fn selection_start(self) -> nat {
        if self.cursor <= self.anchor {
            self.cursor
        } else {
            self.anchor
        }
    }

    pub open spec fn selection_end(self) -> nat {
        if self.cursor <= self.anchor {
            self.anchor
        } else {
            self.cursor
        }
    }

    pub open spec fn cursor_row(self) -> nat {
        line_of(self.text, self.cursor as int)
    }

    pub open spec fn cursor_col(self) -> int {
        self.cursor - line_start(self.text, self.cursor_row())
    }

    /// The caret moved to `c`; the anchor follows it unless the selection is
    /// being extended.
    pub open spec fn place_caret(self, c: int, extend: bool) -> Self {
        EditorModel {
            cursor: c as nat,
            anchor: if extend {
                self.anchor
            } else {
                c as nat
            },
            ..self
        }
    }

    pub open spec fn without_sticky(self) -> Self {
        EditorModel { preferred_col: None, ..self }
    }

    pub open spec fn collapse_to_cursor(self) -> Self {
        EditorModel { anchor: self.cursor, ..self }
    }

    pub open spec fn select_all(self) -> Self {
        EditorModel { anchor: 0, cursor: self.text.len(), preferred_col: None, ..self }
    }

    pub open spec fn delete_selection(self) -> Self {
        if !self.has_selection() {
            self
        } else {
            let st = self.selection_start();
            EditorModel {
                text: remove_range(self.text, st as int, self.selection_end() as int),
                cursor: st,
                anchor: st,
                ..self
            }
        }
    }

    /// The text with `start..end` removed, caret and anchor at `start`, no
    /// sticky column.
    pub open spec fn cut_to(self, start: int, end: int) -> Self {
        EditorModel {
            text: remove_range(self.text, start, end),
            cursor: start as nat,
            anchor: start as nat,
            preferred_col: None,
            ..self
        }
    }

    pub open spec fn insert_char(self, ch: char) -> Self {
        let m = self.delete_selection();
        EditorModel {
            text: m.text.insert(m.cursor as int, ch),
            cursor: m.cursor + 1,
            anchor: m.cursor + 1,
            preferred_col: None,
            ..m
        }
    }

    pub open spec fn insert_newline(self) -> Self {
        self.insert_char('\n')
    }

    pub open spec fn insert_tab(self) -> Self {
        self.insert_char(' ').insert_char(' ').insert_char(' ').insert_char(' ')
    }

    pub open spec fn backspace(self) -> Self {
        if self.has_selection() {
            self.delete_selection().without_sticky()
        } else if self.cursor > 0 {
            self.cut_to(self.cursor - 1, self.cursor as int)
        } else {
            self.without_sticky()
        }
    }

    pub open spec fn delete(self) -> Self {
        if self.has_selection() {
            self.delete_selection().without_sticky()
        } else if self.cursor < self.text.len() {
            self.cut_to(self.cursor as int, self.cursor + 1int)
        } else {
            self.without_sticky()
        }
    }

    pub open spec fn delete_word_backward(self) -> Self {
        if self.has_selection() {
            self.delete_selection().without_sticky()
        } else {
            let target = prev_word_boundary(self.text, self.cursor as int);
            if target < self.cursor {
                self.cut_to(target, self.cursor as int)
            } else {
                self.without_sticky()
            }
        }
    }

    pub open spec fn delete_to_line_start(self) -> Self {
        if self.has_selection() {
            self.delete_selection().without_sticky()
        } else {
            let start = line_start(self.text, self.cursor_row());
            if start < self.cursor {
                self.cut_to(start, self.cursor as int)
            } else {
                self.without_sticky()
            }
        }
    }

    pub open spec fn move_left(self, extend: bool) -> Self {
        if !extend && self.has_selection() {
            self.place_caret(self.selection_start() as int, false).without_sticky()
        } else if self.cursor > 0 {
            self.place_caret(self.cursor - 1, extend).without_sticky()
        } else {
            self.without_sticky()
        }
    }

    pub open spec fn move_right(self, extend: bool) -> Self {
        if !extend && self.has_selection() {
            self.place_caret(self.selection_end() as int, false).without_sticky()
        } else if self.cursor < self.text.len() {
            self.place_caret(self.cursor + 1int, extend).without_sticky()
        } else {
            self.without_sticky()
        }
    }

    /// The column that a vertical move aims at: the sticky one if recorded,
    /// else the caret's own.
    pub open spec fn target_col(self) -> int {
        match self.preferred_col {
            Some(c) => c as int,
            None => self.cursor_col(),
        }
    }

    /// The caret moved to line `row` at the target column, clamped to the
    /// line's length; the target column becomes sticky.
    pub open spec fn move_vertically_to(self, row: nat, extend: bool) -> Self {
        let target = self.target_col();
        let col = if target <= line_len(self.text, row) {
            target
        } else {
            line_len(self.text, row)
        };
        EditorModel {
            preferred_col: Some(target as nat),
            ..self.place_caret(line_start(self.text, row) + col, extend)
        }
    }

    pub open spec fn move_up(self, extend: bool) -> Self {
        if self.cursor_row() == 0 {
            self.place_caret(0, extend)
        } else {
            self.move_vertically_to((self.cursor_row() - 1) as nat, extend)
        }
    }

    pub open spec fn move_down(self, extend: bool) -> Self {
        if self.cursor_row() + 1 >= line_count(self.text) {
            self.place_caret(self.text.len() as int, extend)
        } else {
            self.move_vertically_to(self.cursor_row() + 1, extend)
        }
    }

    pub open spec fn move_home(self, extend: bool) -> Self {
        self.place_caret(line_start(self.text, self.cursor_row()), extend).without_sticky()
    }

    pub open spec fn move_end(self, extend: bool) -> Self {
        self.place_caret(line_end(self.text, self.cursor_row()), extend).without_sticky()
    }

    pub open spec fn move_word_left(self, extend: bool) -> Self {
        self.place_caret(prev_word_boundary(self.text, self.cursor as int), extend).without_sticky()
    }

    pub open spec fn move_word_right(self, extend: bool) -> Self {
        self.place_caret(next_word_boundary(self.text, self.cursor as int), extend).without_sticky()
    }

    pub open spec fn move_to_doc_start(self, extend: bool) -> Self {
        self.place_caret(0, extend).without_sticky()
    }

    pub open spec fn move_to_doc_end(self, extend: bool) -> Self {
        self.place_caret(self.text.len() as int, extend).without_sticky()
    }

    /// Minimal scroll that brings the caret's line into a window of `visible`
    /// lines.
    pub open spec fn ensure_cursor_visible(self, visible: nat) -> Self {
        let row = self.cursor_row();
        if visible == 0 {
            self
        } else if row < self.scroll_offset {
            EditorModel { scroll_offset: row, ..self }
        } else if row >= self.scroll_offset + visible {
            EditorModel { scroll_offset: (row - visible + 1) as nat, ..self }
        } else {
            self
        }
    }

    /// The selected columns `start..end` of line `line`, if any: both ends
    /// clamped to the line's visible length, and none when the span is empty.
    pub open spec fn selection_on_line(self, line: nat) -> Option<(int, int)> {
        let st = self.selection_start();
        let en = self.selection_end();
        let st_line = line_of(self.text, st as int);
        let en_line = line_of(self.text, en as int);
        let line_st = line_start(self.text, line);
        let ll = line_len(self.text, line);
        let start_col = if line == st_line {
            if st - line_st <= ll {
                st - line_st
            } else {
                ll
            }
        } else {
            0
        };
        let end_col = if line == en_line {
            if en - line_st <= ll {
                en - line_st
            } else {
                ll
            }
        } else {
            ll
        };
        if !self.has_selection() || line < st_line || line > en_line || start_col == end_col {
            None
        } else {
            Some((start_col, end_col))
        }
    }
}

/// A text buffer with a caret (`cursor`), a selection anchor, a sticky column
/// for vertical movement and the first visible line.
pub struct Editor {
    pub rope: Rope,
    pub cursor: usize,
    pub anchor: usize,
    pub preferred_col: Option<usize>,
    pub scroll_offset: usize,
}

impl View for Editor {
    type V = EditorModel;

    open spec fn view(&self) -> EditorModel {
        EditorModel {
            text: rope_chars(self.rope),
            cursor: self.cursor as nat,
            anchor: self.anchor as nat,
            preferred_col: match self.preferred_col {
                Some(c) => Some(c as nat),
                None => None,
            },
            scroll_offset: self.scroll_offset as nat,
        }
    }
}

impl Editor {
    pub fn new() -> (r: Self)
        ensures
            r@ == (EditorModel {
                text: Seq::<char>::empty(),
                cursor: 0,
                anchor: 0,
                preferred_col: None,
                scroll_offset: 0,
            }),
            r@.wf(),
    {
        Editor { rope: Rope::new(), cursor: 0, anchor: 0, preferred_col: None, scroll_offset: 0 }
    }

    // Derived position info

    pub fn len_lines(&self) -> (n: usize)
        ensures
            n == line_count(self@.text),
            n >= 1,
    {
        self.rope.len_lines()
    }

    pub fn cursor_row(&self) -> (row: usize)
        requires
            self@.wf(),
        ensures
            row == self@.cursor_row(),
            row < line_count(self@.text),
    {
        proof {
            lemma_line_of_bound(self@.text, self.cursor as int);
        }
        self.rope.char_to_line(self.cursor)
    }

    pub fn cursor_col(&self) -> (col: usize)
        requires
            self@.wf(),
        ensures
            col == self@.cursor_col(),
    {
        let row = self.cursor_row();
        proof {
            lemma_line_start_of_offset(self@.text, self.cursor as int);
        }
        self.cursor - self.rope.line_to_char(row)
    }

    /// Where line `row` begins and where its visible text ends: before the line
    /// feed, and before a carriage return just ahead of it.
    fn line_bounds(&self, row: usize) -> (r: (usize, usize))
        requires
            row < line_count(self@.text),
        ensures
            r.0 == line_start(self@.text, row as nat),
            r.1 == line_end(self@.text, row as nat),
            r.0 <= r.1 <= self@.text.len(),
    {
        let lines = self.rope.len_lines();
        let start = self.rope.line_to_char(row);
        // the next line's start, or the end of the text after the last line
        let end = if row + 1 < lines {
            self.rope.line_to_char(row + 1)
        } else {
            proof {
                lemma_line_start_past_last(self@.text);
            }
            self.rope.len_chars()
        };
        proof {
            lemma_line_end_bounds(self@.text, row as nat);
        }
        let len = end - start;
        if len == 0 {
            return (start, end);
        }
        let last = self.rope.char(end - 1);
        if last == '\n' {
            if len >= 2 && self.rope.char(end - 2) == '\r' {
                (start, end - 2)
            } else {
                (start, end - 1)
            }
        } else {
            (start, end)
        }
    }

    /// Visible length of a line: its characters without the line feed and a
    /// carriage return just before it.
    pub fn line_len(&self, row: usize) -> (n: usize)
        requires
            row < line_count(self@.text),
        ensures
            n == line_len(self@.text, row as nat),
    {
        let (start, end) = self.line_bounds(row);
        end - start
    }

    /// The visible text of a line.
    pub fn line_text(&self, row: usize) -> (s: String)
        requires
            row < line_count(self@.text),
        ensures
            s@ == line_text(self@.text, row as nat),
    {
        let (start, end) = self.line_bounds(row);
        rope_slice_string(&self.rope, start, end)
    }

    /// Brings caret and anchor back within the text.
    pub fn clamp(&mut self)
        ensures
            final(self)@ == (EditorModel {
                cursor: if old(self)@.cursor <= old(self)@.text.len() {
                    old(self)@.cursor
                } else {
                    old(self)@.text.len()
                },
                anchor: if old(self)@.anchor <= old(self)@.text.len() {
                    old(self)@.anchor
                } else {
                    old(self)@.text.len()
                },
                ..old(self)@
            }),
            final(self)@.wf(),
    {
        let max = self.rope.len_chars();
        if self.cursor > max {
            self.cursor = max;
        }
        if self.anchor > max {
            self.anchor = max;
        }
    }

    // Selection

    pub fn has_selection(&self) -> (r: bool)
        ensures
            r == self@.has_selection(),
    {
        self.cursor != self.anchor
    }

    pub fn selection_start(&self) -> (r: usize)
        ensures
            r == self@.selection_start(),
    {
        if self.cursor <= self.anchor {
            self.cursor
        } else {
            self.anchor
        }
    }

    pub fn selection_end(&self) -> (r: usize)
        ensures
            r == self@.selection_end(),
    {
        if self.cursor <= self.anchor {
            self.anchor
        } else {
            self.cursor
        }
    }

    /// Removes the selected text and leaves caret and anchor at its start; does
    /// nothing without a selection.
    pub fn delete_selection(&mut self)
        requires
            old(self)@.wf(),
        ensures
            final(self)@ == old(self)@.delete_selection(),
            final(self)@.wf(),
    {
        if !self.has_selection() {
            return;
        }
        let start = self.selection_start();
        let end = self.selection_end();
        rope_remove(&mut self.rope, start, end);
        self.cursor = start;
        self.anchor = start;
    }

    /// Drops the selection without deleting it.
    pub fn collapse_to_cursor(&mut self)
        ensures
            final(self)@ == old(self)@.collapse_to_cursor(),
            old(self)@.wf() ==> final(self)@.wf(),
    {
        self.anchor = self.cursor;
    }

    pub fn select_all(&mut self)
        ensures
            final(self)@ == old(self)@.select_all(),
            final(self)@.wf(),
    {
        self.anchor = 0;
        self.cursor = self.rope.len_chars();
        self.preferred_col = None;
    }

    pub fn char_at(&self, offset: usize) -> (c: char)
        requires
            offset < self@.text.len(),
        ensures
            c == self@.text[offset as int],
    {
        self.rope.char(offset)
    }

    /// Returns `(start_col, end_col)` of the selection on a line, or `None`.
    pub fn selection_on_line(&self, line_idx: usize) -> (r: Option<(usize, usize)>)
        requires
            self@.wf(),
        ensures
            match r {
                Some((a, b)) => self@.selection_on_line(line_idx as nat) == Some((a as int, b as int)),
                None => self@.selection_on_line(line_idx as nat) is None,
            },
    {
        if !self.has_selection() {
            return None;
        }
        let sel_start = self.selection_start();
        let sel_end = self.selection_end();
        let sel_start_line = self.rope.char_to_line(sel_start);
        let sel_end_line = self.rope.char_to_line(sel_end);

        if line_idx < sel_start_line || line_idx > sel_end_line {
            return None;
        }
        proof {
            lemma_line_of_bound(self@.text, sel_end as int);
            lemma_line_start_of_offset(self@.text, sel_start as int);
            lemma_line_start_of_offset(self@.text, sel_end as int);
        }

        let line_start_char = self.rope.line_to_char(line_idx);
        let ll = self.line_len(line_idx);

        let start_col = if line_idx == sel_start_line {
            let from_start = sel_start - line_start_char;
            if from_start <= ll {
                from_start
            } else {
                ll
            }
        } else {
            0
        };
        let end_col = if line_idx == sel_end_line {
            let to_end = sel_end - line_start_char;
            if to_end <= ll {
                to_end
            } else {
                ll
            }
        } else {
            ll
        };

        if start_col == end_col {
            None
        } else {
            Some((start_col, end_col))
        }
    }

    // Editing operations

    pub fn insert_char(&mut self, ch: char)
        requires
            old(self)@.wf(),
            old(self)@.text.len() < usize::MAX,
        ensures
            final(self)@ == old(self)@.insert_char(ch),
            final(self)@.wf(),
    {
        self.delete_selection();
        let at = self.cursor;
        self.rope.insert_char(at, ch);
        self.cursor = at + 1;
        self.collapse_to_cursor();
        self.preferred_col = None;
    }

    pub fn insert_newline(&mut self)
        requires
            old(self)@.wf(),
            old(self)@.text.len() < usize::MAX,
        ensures
            final(self)@ == old(self)@.insert_newline(),
            final(self)@.wf(),
    {
        self.delete_selection();
        let at = self.cursor;
        self.rope.insert_char(at, '\n');
        self.cursor = at + 1;
        self.collapse_to_cursor();
        self.preferred_col = None;
    }

    pub fn backspace(&mut self)
        requires
            old(self)@.wf(),
        ensures
            final(self)@ == old(self)@.backspace(),
            final(self)@.wf(),
    {
        if self.has_selection() {
            self.delete_selection();
        } else if self.cursor > 0 {
            let at = self.cursor;
            rope_remove(&mut self.rope, at - 1, at);
            self.cursor = at - 1;
            self.collapse_to_cursor();
        }
        self.preferred_col = None;
    }

    /// Deletes forward: the selection, or else the character at the caret.
    pub fn delete(&mut self)
        requires
            old(self)@.wf(),
        ensures
            final(self)@ == old(self)@.delete(),
            final(self)@.wf(),
    {
        if self.has_selection() {
            self.delete_selection();
        } else if self.cursor < self.rope.len_chars() {
            let at = self.cursor;
            rope_remove(&mut self.rope, at, at + 1);
            self.collapse_to_cursor();
        }
        self.preferred_col = None;
    }

    /// Inserts four spaces; no tab character is stored.
    pub fn insert_tab(&mut self)
        requires
            old(self)@.wf(),
            old(self)@.text.len() + 4 <= usize::MAX,
        ensures
            final(self)@ == old(self)@.insert_tab(),
            final(self)@.wf(),
    {
        self.insert_char(' ');
        self.insert_char(' ');
        self.insert_char(' ');
        self.insert_char(' ');
    }

    pub fn delete_word_backward(&mut self)
        requires
            old(self)@.wf(),
        ensures
            final(self)@ == old(self)@.delete_word_backward(),
            final(self)@.wf(),
    {
        if self.has_selection() {
            self.delete_selection();
        } else {
            let target = self.prev_word_boundary();
            if target < self.cursor {
                let at = self.cursor;
                rope_remove(&mut self.rope, target, at);
                self.cursor = target;
                self.collapse_to_cursor();
            }
        }
        self.preferred_col = None;
    }

    pub fn delete_to_line_start(&mut self)
        requires
            old(self)@.wf(),
        ensures
            final(self)@ == old(self)@.delete_to_line_start(),
            final(self)@.wf(),
    {
        if self.has_selection() {
            self.delete_selection();
        } else {
            let row = self.cursor_row();
            let line_start = self.rope.line_to_char(row);
            proof {
                lemma_line_start_of_offset(self@.text, self.cursor as int);
            }
            if line_start < self.cursor {
                let at = self.cursor;
                rope_remove(&mut self.rope, line_start, at);
                self.cursor = line_start;
                self.collapse_to_cursor();
            }
        }
        self.preferred_col = None;
    }

    // Word boundaries

    pub fn prev_word_boundary(&self) -> (r: usize)
        requires
            self@.wf(),
        ensures
            r == prev_word_boundary(self@.text, self.cursor as int),
            r <= self.cursor,
    {
        if self.cursor == 0 {
            return 0;
        }
        let mut pos: usize = self.cursor - 1;
        // Skip whitespace and punctuation backward
        loop
            invariant
                self@.wf(),
                pos < self.cursor,
                skip_non_word_back(self@.text, pos as int) == skip_non_word_back(
                    self@.text,
                    self.cursor - 1,
                ),
            ensures
                pos < self.cursor,
                pos == skip_non_word_back(self@.text, self.cursor - 1),
            decreases pos,
        {
            if pos == 0 || char_is_alphanumeric(self.char_at(pos)) {
                break;
            }
            pos -= 1;
        }
        let ghost after_gap = pos as int;
        // Skip word characters backward
        loop
            invariant
                self@.wf(),
                pos <= after_gap < self.cursor,
                skip_word_back(self@.text, pos as int) == skip_word_back(self@.text, after_gap),
            ensures
                pos <= after_gap,
                pos == skip_word_back(self@.text, after_gap),
            decreases pos,
        {
            if pos == 0 || !char_is_alphanumeric(self.char_at(pos - 1)) {
                break;
            }
            pos -= 1;
        }
        pos
    }

    pub fn next_word_boundary(&self) -> (r: usize)
        requires
            self@.wf(),
        ensures
            r == next_word_boundary(self@.text, self.cursor as int),
            self.cursor <= r <= self@.text.len(),
    {
        let max = self.rope.len_chars();
        if self.cursor >= max {
            return max;
        }
        let mut pos: usize = self.cursor;
        // Skip the current word's characters forward
        loop
            invariant
                self.cursor <= pos <= max,
                max == self@.text.len(),
                skip_word_forward(self@.text, pos as int) == skip_word_forward(
                    self@.text,
                    self.cursor as int,
                ),
            ensures
                self.cursor <= pos <= max,
                pos == skip_word_forward(self@.text, self.cursor as int),
            decreases max - pos,
        {
            if pos >= max || !char_is_alphanumeric(self.char_at(pos)) {
                break;
            }
            pos += 1;
        }
        let ghost after_word = pos as int;
        // Skip whitespace and punctuation forward
        loop
            invariant
                after_word <= pos <= max,
                max == self@.text.len(),
                skip_non_word_forward(self@.text, pos as int) == skip_non_word_forward(
                    self@.text,
                    after_word,
                ),
            ensures
                pos <= max,
                pos == skip_non_word_forward(self@.text, after_word),
            decreases max - pos,
        {
            if pos >= max || char_is_alphanumeric(self.char_at(pos)) {
                break;
            }
            pos += 1;
        }
        pos
    }

    // Movement: with `extend` the anchor stays where it is and the selection
    // grows or shrinks; without it the selection collapses.

    pub fn move_left(&mut self, extend: bool)
        requires
            old(self)@.wf(),
        ensures
            final(self)@ == old(self)@.move_left(extend),
            final(self)@.wf(),
    {
        if !extend && self.has_selection() {
            // Collapse to the left edge of the selection
            self.cursor = self.selection_start();
            self.collapse_to_cursor();
        } else if self.cursor > 0 {
            self.cursor -= 1;
            if !extend {
                self.collapse_to_cursor();
            }
        }
        self.preferred_col = None;
    }

    pub fn move_right(&mut self, extend: bool)
        requires
            old(self)@.wf(),
        ensures
            final(self)@ == old(self)@.move_right(extend),
            final(self)@.wf(),
    {
        if !extend && self.has_selection() {
            // Collapse to the right edge of the selection
            self.cursor = self.selection_end();
            self.collapse_to_cursor();
        } else if self.cursor < self.rope.len_chars() {
            self.cursor += 1;
            if !extend {
                self.collapse_to_cursor();
            }
        }
        self.preferred_col = None;
    }

    /// Moves the caret to line `row`, at the sticky column if one is recorded
    /// and else at the caret's column, clamped to the line's length.
    fn move_vertically_to(&mut self, row: usize, extend: bool)
        requires
            old(self)@.wf(),
            row < line_count(old(self)@.text),
        ensures
            final(self)@ == old(self)@.move_vertically_to(row as nat, extend),
            final(self)@.wf(),
    {
        let current_col = self.cursor_col();
        let target_col = match self.preferred_col {
            Some(c) => c,
            None => current_col,
        };
        self.preferred_col = Some(target_col);

        let (start, end) = self.line_bounds(row);
        let line_len = end - start;
        let clamped_col = if target_col <= line_len {
            target_col
        } else {
            line_len
        };
        self.cursor = start + clamped_col;
        if !extend {
            self.collapse_to_cursor();
        }
    }

    pub fn move_up(&mut self, extend: bool)
        requires
            old(self)@.wf(),
        ensures
            final(self)@ == old(self)@.move_up(extend),
            final(self)@.wf(),
    {
        let row = self.cursor_row();
        if row == 0 {
            // Move to start of document
            self.cursor = 0;
            if !extend {
                self.collapse_to_cursor();
            }
            return;
        }
        self.move_vertically_to(row - 1, extend);
    }

    pub fn move_down(&mut self, extend: bool)
        requires
            old(self)@.wf(),
        ensures
            final(self)@ == old(self)@.move_down(extend),
            final(self)@.wf(),
    {
        let row = self.cursor_row();
        let lines = self.len_lines();
        if row + 1 >= lines {
            // Move to end of document
            self.cursor = self.rope.len_chars();
            if !extend {
                self.collapse_to_cursor();
            }
            return;
        }
        self.move_vertically_to(row + 1, extend);
    }

    pub fn move_home(&mut self, extend: bool)
        requires
            old(self)@.wf(),
        ensures
            final(self)@ == old(self)@.move_home(extend),
            final(self)@.wf(),
    {
        let row = self.cursor_row();
        proof {
            lemma_line_start_bounds(self@.text, row as nat, row as nat);
        }
        self.cursor = self.rope.line_to_char(row);
        if !extend {
            self.collapse_to_cursor();
        }
        self.preferred_col = None;
    }

    pub fn move_end(&mut self, extend: bool)
        requires
            old(self)@.wf(),
        ensures
            final(self)@ == old(self)@.move_end(extend),
            final(self)@.wf(),
    {
        let row = self.cursor_row();
        let (_, end) = self.line_bounds(row);
        self.cursor = end;
        if !extend {
            self.collapse_to_cursor();
        }
        self.preferred_col = None;
    }

    pub fn move_word_left(&mut self, extend: bool)
        requires
            old(self)@.wf(),
        ensures
            final(self)@ == old(self)@.move_word_left(extend),
            final(self)@.wf(),
    {
        let target = self.prev_word_boundary();
        self.cursor = target;
        if !extend {
            self.collapse_to_cursor();
        }
        self.preferred_col = None;
    }

    pub fn move_word_right(&mut self, extend: bool)
        requires
            old(self)@.wf(),
        ensures
            final(self)@ == old(self)@.move_word_right(extend),
            final(self)@.wf(),
    {
        let target = self.next_word_boundary();
        self.cursor = target;
        if !extend {
            self.collapse_to_cursor();
        }
        self.preferred_col = None;
    }

    pub fn move_to_doc_start(&mut self, extend: bool)
        requires
            old(self)@.wf(),
        ensures
            final(self)@ == old(self)@.move_to_doc_start(extend),
            final(self)@.wf(),
    {
        self.cursor = 0;
        if !extend {
            self.collapse_to_cursor();
        }
        self.preferred_col = None;
    }

    pub fn move_to_doc_end(&mut self, extend: bool)
        requires
            old(self)@.wf(),
        ensures
            final(self)@ == old(self)@.move_to_doc_end(extend),
            final(self)@.wf(),
    {
        self.cursor = self.rope.len_chars();
        if !extend {
            self.collapse_to_cursor();
        }
        self.preferred_col = None;
    }

    // Scrolling

    /// Scrolls just enough that the caret's line is among the `visible_lines`
    /// lines shown from `scroll_offset`; nothing for an empty window.
    pub fn ensure_cursor_visible(&mut self, visible_lines: usize)
        requires
            old(self)@.wf(),
        ensures
            final(self)@ == old(self)@.ensure_cursor_visible(visible_lines as nat),
            final(self)@.wf(),
            visible_lines > 0 ==> final(self).scroll_offset <= old(self)@.cursor_row()
                < final(self).scroll_offset + visible_lines,
    {
        if visible_lines == 0 {
            return;
        }
        let row = self.cursor_row();
        if row < self.scroll_offset {
            self.scroll_offset = row;
        } else if row - self.scroll_offset >= visible_lines {
            self.scroll_offset = row - visible_lines + 1;
        }
    }
}

} // verus!
