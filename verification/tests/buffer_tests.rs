//! The buffer's motions, edits, and rendering, exercised directly.

use copperline::buffer::Buffer;

fn buffer_with(text: &str) -> Buffer {
    let mut b = Buffer::new();
    b.insert_at_cursor(&text.to_string());
    b
}

#[test]
fn insert_and_read_back() {
    let b = buffer_with("hello");
    assert_eq!(b.to_string(), "hello".to_string());
    assert_eq!(b.char_len(), 5);
    assert_eq!(b.cursor_index(), 5);
}

#[test]
fn cursor_clamps_at_boundaries() {
    let mut b = buffer_with("ab");
    b.move_end();
    b.move_right();
    assert_eq!(b.cursor_index(), 2);
    b.move_start();
    b.move_left();
    assert_eq!(b.cursor_index(), 0);
}

#[test]
fn move_right_then_left_round_trips() {
    let mut b = buffer_with("abc");
    b.move_start();
    b.move_right();
    let before = b.cursor_index();
    b.move_right();
    b.move_left();
    assert_eq!(b.cursor_index(), before);
}

#[test]
fn insert_then_delete_left_restores() {
    let mut b = buffer_with("abc");
    b.move_left();
    let cursor = b.cursor_index();
    b.insert_at_cursor(&"x".to_string());
    b.delete_char_left_of_cursor();
    assert_eq!(b.to_string(), "abc".to_string());
    assert_eq!(b.cursor_index(), cursor);
}

#[test]
fn multibyte_cursor_counts_characters() {
    let mut b = buffer_with("h\u{e9}j");
    assert_eq!(b.char_len(), 3);
    b.move_left();
    b.move_left();
    assert_eq!(b.cursor_index(), 1);
    b.delete_char_right_of_cursor();
    assert_eq!(b.to_string(), "hj".to_string());
}

#[test]
fn delete_right_or_eof_signals_on_empty() {
    let mut b = Buffer::new();
    assert!(b.delete_char_right_of_cursor_or_eof());
    let mut b2 = buffer_with("a");
    b2.move_start();
    assert!(!b2.delete_char_right_of_cursor_or_eof());
    assert_eq!(b2.to_string(), "".to_string());
}

#[test]
fn word_right_lands_on_next_word() {
    let mut b = buffer_with("foo bar");
    b.move_start();
    b.move_word_right(false);
    assert_eq!(b.cursor_index(), 4);
}

#[test]
fn word_right_stops_at_punctuation_run() {
    let mut b = buffer_with("a.b c");
    b.move_start();
    b.move_word_right(false);
    assert_eq!(b.cursor_index(), 1);
    // the WS-word variant skips the whole non-whitespace run
    b.move_start();
    b.move_word_right(true);
    assert_eq!(b.cursor_index(), 4);
}

#[test]
fn word_left_lands_on_word_start() {
    let mut b = buffer_with("foo bar");
    b.move_word_left(false);
    assert_eq!(b.cursor_index(), 4);
    b.move_word_left(false);
    assert_eq!(b.cursor_index(), 0);
}

#[test]
fn word_end_lands_on_last_character() {
    let mut b = buffer_with("foo bar");
    b.move_start();
    b.move_word_end_right(false);
    assert_eq!(b.cursor_index(), 2);
    b.move_word_end_right(false);
    assert_eq!(b.cursor_index(), 6);
    // at the last word it stays put
    b.move_word_end_right(false);
    assert_eq!(b.cursor_index(), 6);
}

#[test]
fn underscore_counts_as_word_character() {
    let mut b = buffer_with("a_b c");
    b.move_start();
    b.move_word_end_right(false);
    assert_eq!(b.cursor_index(), 2);
}

#[test]
fn find_char_inclusive_and_exclusive() {
    let mut b = buffer_with("hello");
    b.move_start();
    b.move_to_char_right('l', true);
    assert_eq!(b.cursor_index(), 2);
    let mut b2 = buffer_with("hello");
    b2.move_start();
    b2.move_to_char_right('l', false);
    assert_eq!(b2.cursor_index(), 1);
    // absent character: no-op
    b2.move_to_char_right('z', true);
    assert_eq!(b2.cursor_index(), 1);
}

#[test]
fn find_char_backwards() {
    let mut b = buffer_with("hello");
    b.move_to_char_left('l', true);
    assert_eq!(b.cursor_index(), 3);
    b.move_to_char_left('h', false);
    assert_eq!(b.cursor_index(), 1);
    b.move_to_char_left('z', true);
    assert_eq!(b.cursor_index(), 1);
}

#[test]
fn replace_at_cursor_overwrites_and_extends() {
    let mut b = buffer_with("abc");
    b.move_left();
    b.replace_at_cursor(&"zz".to_string());
    assert_eq!(b.to_string(), "abzz".to_string());
    assert_eq!(b.cursor_index(), 4);
}

#[test]
fn swap_preserves_edit_across_recall() {
    let mut b = buffer_with("draft");
    b.swap();
    assert_eq!(b.to_string(), "".to_string());
    b.replace(&"recalled".to_string());
    assert_eq!(b.to_string(), "recalled".to_string());
    b.swap();
    assert_eq!(b.to_string(), "draft".to_string());
    assert_eq!(b.cursor_index(), 5);
}

#[test]
fn rendered_line_is_exact() {
    let mut b = buffer_with("ab");
    let line = b.get_line("p> ");
    assert_eq!(line, b"\rp> ab\x1b[0K\x1b[6G".to_vec());
    b.move_start();
    let line2 = b.get_line("p> ");
    assert_eq!(line2, b"\rp> ab\x1b[0K\x1b[4G".to_vec());
}

#[test]
fn rendered_line_counts_characters_not_bytes() {
    let b = buffer_with("\u{e9}");
    let line = b.get_line("> ");
    // one character, two bytes: the column directive counts characters
    assert_eq!(line, b"\r> \xc3\xa9\x1b[0K\x1b[4G".to_vec());
}
