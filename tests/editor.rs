use vvscode::editor::Editor;

fn editor_with(text: &str) -> Editor {
    let mut e = Editor::new();
    for ch in text.chars() {
        e.insert_char(ch);
    }
    e
}

fn contents(e: &Editor) -> String {
    e.rope.to_string()
}

fn place(e: &mut Editor, offset: usize) {
    e.move_to_doc_start(false);
    for _ in 0..offset {
        e.move_right(false);
    }
}

fn assert_offsets_valid(e: &Editor) {
    let len = e.rope.len_chars();
    assert!(e.cursor <= len);
    assert!(e.anchor <= len);
}

#[test]
fn new_editor_is_empty() {
    let e = Editor::new();
    assert_eq!(e.cursor, 0);
    assert_eq!(e.anchor, 0);
    assert_eq!(e.preferred_col, None);
    assert_eq!(e.scroll_offset, 0);
    assert_eq!(e.rope.len_chars(), 0);
}

#[test]
fn empty_document_has_one_line() {
    let e = Editor::new();
    assert_eq!(e.len_lines(), 1);
    assert_eq!(e.line_len(0), 0);
    assert_eq!(e.line_text(0), "");
    assert_eq!(e.cursor_row(), 0);
    assert_eq!(e.cursor_col(), 0);
}

#[test]
fn line_count_counts_line_feeds() {
    let e = editor_with("a\nb\n");
    assert_eq!(e.len_lines(), 3);
    assert_eq!(e.line_text(2), "");
}

#[test]
fn offsets_stay_valid_through_edits() {
    let mut e = editor_with("one two\nthree");
    assert_offsets_valid(&e);
    e.move_word_left(true);
    assert_offsets_valid(&e);
    e.backspace();
    assert_offsets_valid(&e);
    e.move_up(false);
    e.delete_word_backward();
    assert_offsets_valid(&e);
    e.select_all();
    e.delete();
    assert_offsets_valid(&e);
    assert_eq!(e.len_lines(), 1);
    e.insert_newline();
    e.delete_to_line_start();
    e.backspace();
    assert_offsets_valid(&e);
    assert_eq!(contents(&e), "");
}

#[test]
fn insert_then_backspace_restores_document() {
    let mut e = editor_with("abc\ndef");
    place(&mut e, 5);
    let before = contents(&e);
    e.insert_char('x');
    e.insert_char('y');
    assert_eq!(contents(&e), "abc\ndxyef");
    e.backspace();
    e.backspace();
    assert_eq!(contents(&e), before);
    assert_eq!(e.cursor, 5);
    assert_eq!(e.anchor, 5);
}

#[test]
fn collapse_to_cursor_twice_equals_once() {
    let mut e = editor_with("hello");
    e.move_left(true);
    e.move_left(true);
    e.collapse_to_cursor();
    let (c, a) = (e.cursor, e.anchor);
    e.collapse_to_cursor();
    assert_eq!((e.cursor, e.anchor), (c, a));
    assert_eq!((c, a), (3, 3));
}

#[test]
fn sticky_column_survives_short_line() {
    let mut e = editor_with("0123456789\nabc\n0123456789");
    place(&mut e, 8);
    assert_eq!((e.cursor_row(), e.cursor_col()), (0, 8));
    e.move_down(false);
    assert_eq!((e.cursor_row(), e.cursor_col()), (1, 3));
    assert_eq!(e.preferred_col, Some(8));
    e.move_down(false);
    assert_eq!((e.cursor_row(), e.cursor_col()), (2, 8));
    e.move_up(false);
    e.move_up(false);
    assert_eq!((e.cursor_row(), e.cursor_col()), (0, 8));
}

#[test]
fn horizontal_move_clears_sticky_column() {
    let mut e = editor_with("0123456789\nabc\n0123456789");
    place(&mut e, 8);
    e.move_down(false);
    e.move_left(false);
    assert_eq!(e.preferred_col, None);
    e.move_down(false);
    assert_eq!((e.cursor_row(), e.cursor_col()), (2, 2));
}

#[test]
fn typing_replaces_selection() {
    let mut e = editor_with("hello world");
    e.move_to_doc_start(false);
    for _ in 0..5 {
        e.move_right(true);
    }
    assert_eq!((e.selection_start(), e.selection_end()), (0, 5));
    e.insert_char('H');
    assert_eq!(contents(&e), "H world");
    assert_eq!(e.cursor, 1);
    assert!(!e.has_selection());
}

#[test]
fn word_boundaries_backward() {
    let mut e = editor_with("foo  bar-baz");
    assert_eq!(e.cursor, 12);
    assert_eq!(e.prev_word_boundary(), 9);
    e.cursor = 9;
    e.anchor = 9;
    assert_eq!(e.prev_word_boundary(), 5);
    e.cursor = 5;
    e.anchor = 5;
    assert_eq!(e.prev_word_boundary(), 0);
}

#[test]
fn word_boundaries_forward() {
    let mut e = editor_with("foo  bar-baz");
    place(&mut e, 0);
    assert_eq!(e.next_word_boundary(), 5);
    e.move_word_right(false);
    assert_eq!(e.cursor, 5);
    assert_eq!(e.next_word_boundary(), 9);
    e.move_word_right(false);
    assert_eq!(e.next_word_boundary(), 12);
    e.move_to_doc_end(false);
    assert_eq!(e.next_word_boundary(), 12);
}

#[test]
fn scroll_follows_caret_down() {
    let mut e = Editor::new();
    for _ in 0..99 {
        e.insert_newline();
    }
    assert_eq!(e.len_lines(), 100);
    place(&mut e, 50);
    assert_eq!(e.cursor_row(), 50);
    assert_eq!(e.scroll_offset, 0);
    e.ensure_cursor_visible(20);
    assert_eq!(e.scroll_offset, 31);
}

#[test]
fn scroll_follows_caret_up_and_ignores_empty_window() {
    let mut e = Editor::new();
    for _ in 0..10 {
        e.insert_newline();
    }
    e.scroll_offset = 7;
    place(&mut e, 3);
    e.ensure_cursor_visible(0);
    assert_eq!(e.scroll_offset, 7);
    e.ensure_cursor_visible(2);
    assert_eq!(e.scroll_offset, 3);
    e.ensure_cursor_visible(5);
    assert_eq!(e.scroll_offset, 3);
}

#[test]
fn delete_to_line_start_stays_on_line() {
    let mut e = editor_with("first\n    indented text");
    place(&mut e, 6 + 8);
    assert_eq!((e.cursor_row(), e.cursor_col()), (1, 8));
    e.delete_to_line_start();
    assert_eq!(contents(&e), "first\nnted text");
    assert_eq!((e.cursor_row(), e.cursor_col()), (1, 0));
    e.delete_to_line_start();
    assert_eq!(contents(&e), "first\nnted text");
}

#[test]
fn crlf_is_not_visible_text() {
    let e = editor_with("ab\r\ncd");
    assert_eq!(e.len_lines(), 2);
    assert_eq!(e.line_len(0), 2);
    assert_eq!(e.line_text(0), "ab");
    assert_eq!(e.line_len(1), 2);
    assert_eq!(e.line_text(1), "cd");
}

#[test]
fn multibyte_characters_count_once() {
    let mut e = editor_with("héllo\n日本");
    assert_eq!(e.rope.len_chars(), 8);
    assert_eq!(e.line_len(0), 5);
    assert_eq!(e.line_text(1), "日本");
    assert_eq!(e.char_at(6), '日');
    e.backspace();
    assert_eq!(contents(&e), "héllo\n日");
}

#[test]
fn backspace_and_delete_at_edges_do_nothing() {
    let mut e = editor_with("ab");
    e.delete();
    assert_eq!(contents(&e), "ab");
    e.move_to_doc_start(false);
    e.backspace();
    assert_eq!(contents(&e), "ab");
    e.delete();
    assert_eq!(contents(&e), "b");
    assert_eq!(e.cursor, 0);
}

#[test]
fn delete_joins_lines() {
    let mut e = editor_with("ab\ncd");
    place(&mut e, 2);
    e.delete();
    assert_eq!(contents(&e), "abcd");
    assert_eq!(e.len_lines(), 1);
}

#[test]
fn insert_tab_inserts_four_spaces() {
    let mut e = editor_with("x");
    e.move_to_doc_start(false);
    e.insert_tab();
    assert_eq!(contents(&e), "    x");
    assert_eq!(e.cursor, 4);
}

#[test]
fn delete_word_backward_removes_word() {
    let mut e = editor_with("foo  bar-baz");
    e.delete_word_backward();
    assert_eq!(contents(&e), "foo  bar-");
    e.delete_word_backward();
    assert_eq!(contents(&e), "foo  ");
    e.delete_word_backward();
    assert_eq!(contents(&e), "");
}

#[test]
fn delete_word_backward_deletes_selection_first() {
    let mut e = editor_with("foo bar");
    e.move_left(true);
    e.move_left(true);
    e.delete_word_backward();
    assert_eq!(contents(&e), "foo b");
    assert_eq!(e.preferred_col, None);
}

#[test]
fn select_all_then_type() {
    let mut e = editor_with("abc\ndef");
    e.select_all();
    assert_eq!((e.anchor, e.cursor), (0, 7));
    e.insert_char('z');
    assert_eq!(contents(&e), "z");
}

#[test]
fn move_left_and_right_collapse_selection_to_its_edges() {
    let mut e = editor_with("abcdef");
    place(&mut e, 2);
    e.move_right(true);
    e.move_right(true);
    e.move_left(false);
    assert_eq!((e.cursor, e.anchor), (2, 2));
    e.move_right(true);
    e.move_right(true);
    e.move_right(false);
    assert_eq!((e.cursor, e.anchor), (4, 4));
}

#[test]
fn move_up_on_first_line_goes_to_start() {
    let mut e = editor_with("abc\ndef");
    place(&mut e, 2);
    e.move_up(true);
    assert_eq!((e.cursor, e.anchor), (0, 2));
    e.move_to_doc_end(false);
    e.move_down(false);
    assert_eq!(e.cursor, 7);
    place(&mut e, 5);
    e.move_down(false);
    assert_eq!((e.cursor, e.anchor), (7, 7));
}

#[test]
fn home_and_end_stay_on_line() {
    let mut e = editor_with("ab\r\ncdef\nx");
    place(&mut e, 6);
    e.move_home(false);
    assert_eq!(e.cursor, 4);
    e.move_end(true);
    assert_eq!((e.cursor, e.anchor), (8, 4));
    place(&mut e, 1);
    e.move_end(false);
    assert_eq!(e.cursor, 2);
}

#[test]
fn selection_on_line_spans() {
    let mut e = editor_with("abcd\nef\nghij");
    place(&mut e, 2);
    for _ in 0..8 {
        e.move_right(true);
    }
    assert_eq!(e.selection_on_line(0), Some((2, 4)));
    assert_eq!(e.selection_on_line(1), Some((0, 2)));
    assert_eq!(e.selection_on_line(2), Some((0, 2)));
    assert_eq!(e.selection_on_line(3), None);
    e.collapse_to_cursor();
    assert_eq!(e.selection_on_line(2), None);
}

#[test]
fn selection_on_line_skips_empty_spans() {
    let mut e = editor_with("ab\ncd");
    place(&mut e, 2);
    e.move_right(true);
    assert_eq!(e.selection_on_line(0), None);
    assert_eq!(e.selection_on_line(1), None);
    e.move_right(true);
    assert_eq!(e.selection_on_line(1), Some((0, 1)));
}

#[test]
fn clamp_pulls_offsets_into_text() {
    let mut e = editor_with("abc");
    e.cursor = 10;
    e.anchor = 7;
    e.clamp();
    assert_eq!((e.cursor, e.anchor), (3, 3));
}

#[test]
fn char_at_reads_character() {
    let e = editor_with("xyz");
    assert_eq!(e.char_at(1), 'y');
}

#[test]
fn selection_on_line_clamps_start_inside_line_break() {
    let mut e = editor_with("ab\r\ncd");
    place(&mut e, 3);
    e.move_to_doc_end(true);
    assert_eq!(e.selection_on_line(0), None);
    assert_eq!(e.selection_on_line(1), Some((0, 2)));
}
