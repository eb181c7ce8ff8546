//! End-to-end edit sessions driven byte by byte, the way a host with its
//! own I/O loop drives the library.

use copperline::edit::{edit, EditCtx, EditMode, EditResult};
use copperline::history::History;
use copperline::parser::Encoding;
use copperline::Error;

/// Drives a session with the given input, handing it one byte per prompt,
/// and returns the session's result; exhausted input is end-of-file.
fn run_session(mut ctx: EditCtx<'_>, mut input: Vec<u8>) -> Result<String, Error> {
    loop {
        match edit(&mut ctx) {
            EditResult::Halt(res) => return res,
            EditResult::Cont(_bytes) => {
                if input.is_empty() {
                    return Err(Error::EndOfFile);
                }
                let b = input.remove(0);
                ctx.fill(b);
            }
        }
    }
}

#[test]
fn error_eof_on_empty_input() {
    let h = History::new();
    let ctx = EditCtx::new("foo> ", &h, Encoding::Ascii, EditMode::Emacs);
    assert_eq!(run_session(ctx, vec![]), Err(Error::EndOfFile));
}

#[test]
fn ok_empty_after_return() {
    let h = History::new();
    let ctx = EditCtx::new("foo> ", &h, Encoding::Ascii, EditMode::Emacs);
    assert_eq!(run_session(ctx, vec![13]), Ok("".to_string()));
}

#[test]
fn ok_ascii_after_return() {
    let h = History::new();
    let ctx = EditCtx::new("foo> ", &h, Encoding::Ascii, EditMode::Emacs);
    assert_eq!(run_session(ctx, vec![65, 66, 67, 13]), Ok("ABC".to_string()));
}

/// Make sure integers don't overflow in vi mode when using large command counts.
#[test]
fn no_integer_overflow() {
    let mut input_vec = vec![27];
    for _ in 0..50 {
        input_vec.push('9' as u8);
    }
    input_vec.push(13);
    let h = History::new();
    let ctx = EditCtx::new("foo> ", &h, Encoding::Ascii, EditMode::Vi);
    assert_eq!(run_session(ctx, input_vec), Ok("".to_string()));
}

#[test]
fn ctrl_c_cancels() {
    let h = History::new();
    let ctx = EditCtx::new("> ", &h, Encoding::Ascii, EditMode::Emacs);
    assert_eq!(run_session(ctx, vec![65, 3]), Err(Error::Cancel));
}

#[test]
fn ctrl_d_on_empty_is_eof() {
    let h = History::new();
    let ctx = EditCtx::new("> ", &h, Encoding::Ascii, EditMode::Emacs);
    assert_eq!(run_session(ctx, vec![4]), Err(Error::EndOfFile));
}

#[test]
fn ctrl_d_on_text_deletes() {
    let h = History::new();
    let ctx = EditCtx::new("> ", &h, Encoding::Ascii, EditMode::Emacs);
    // type "ab", Ctrl-A to the start, Ctrl-D deletes the 'a'
    assert_eq!(
        run_session(ctx, vec![b'a', b'b', 1, 4, 13]),
        Ok("b".to_string())
    );
}

#[test]
fn backspace_deletes_left() {
    let h = History::new();
    let ctx = EditCtx::new("> ", &h, Encoding::Ascii, EditMode::Emacs);
    assert_eq!(
        run_session(ctx, vec![b'a', b'b', 0x7f, 13]),
        Ok("a".to_string())
    );
}

#[test]
fn invalid_byte_stops_session_utf8() {
    let h = History::new();
    let ctx = EditCtx::new("> ", &h, Encoding::Utf8, EditMode::Emacs);
    assert_eq!(run_session(ctx, vec![0x80]), Err(Error::InvalidUTF8));
}

#[test]
fn high_byte_invalid_under_ascii() {
    let h = History::new();
    let ctx = EditCtx::new("> ", &h, Encoding::Ascii, EditMode::Emacs);
    assert_eq!(run_session(ctx, vec![0xc3]), Err(Error::InvalidUTF8));
}

#[test]
fn multibyte_text_inserts_under_utf8() {
    let h = History::new();
    let ctx = EditCtx::new("> ", &h, Encoding::Utf8, EditMode::Emacs);
    // "h", then 'e with acute' as 0xc3 0xa9, then "j"
    assert_eq!(
        run_session(ctx, vec![0x68, 0xc3, 0xa9, 0x6a, 13]),
        Ok("h\u{e9}j".to_string())
    );
}

#[test]
fn lone_escape_prefix_then_plain_byte() {
    let h = History::new();
    let ctx = EditCtx::new("> ", &h, Encoding::Ascii, EditMode::Emacs);
    // ESC followed by a byte that opens no CSI sequence resolves to the
    // bare Esc key (a no-op in Emacs) and swallows that byte
    assert_eq!(run_session(ctx, vec![27, b'9', 13]), Ok("".to_string()));
}

#[test]
fn unnamed_tilde_sequence_is_noop() {
    let h = History::new();
    let ctx = EditCtx::new("> ", &h, Encoding::Ascii, EditMode::Emacs);
    // ESC [ 5 ~ (page up) is recognized but unbound
    assert_eq!(
        run_session(ctx, vec![27, 91, 53, 126, b'x', 13]),
        Ok("x".to_string())
    );
}

#[test]
fn arrow_left_then_insert() {
    let h = History::new();
    let ctx = EditCtx::new("> ", &h, Encoding::Ascii, EditMode::Emacs);
    // "ac", arrow left, insert "b"
    assert_eq!(
        run_session(ctx, vec![b'a', b'c', 27, 91, 68, b'b', 13]),
        Ok("abc".to_string())
    );
}

#[test]
fn delete_key_removes_at_cursor() {
    let h = History::new();
    let ctx = EditCtx::new("> ", &h, Encoding::Ascii, EditMode::Emacs);
    // "ab", home, ESC [ 3 ~ deletes the 'a'
    assert_eq!(
        run_session(ctx, vec![b'a', b'b', 27, 91, 72, 27, 91, 51, 126, 13]),
        Ok("b".to_string())
    );
}

#[test]
fn history_recall_and_live_restore() {
    let mut h = History::new();
    h.push("one".to_string());
    h.push("two".to_string());
    let ctx = EditCtx::new("> ", &h, Encoding::Ascii, EditMode::Emacs);
    // type "xy", recall older twice (shows "two" then "one"), then back
    // newer twice: the live "xy" must be restored, then submitted
    assert_eq!(
        run_session(ctx, vec![b'x', b'y', 16, 16, 14, 14, 13]),
        Ok("xy".to_string())
    );
}

#[test]
fn history_recall_submits_entry() {
    let mut h = History::new();
    h.push("one".to_string());
    h.push("two".to_string());
    let ctx = EditCtx::new("> ", &h, Encoding::Ascii, EditMode::Emacs);
    // two steps older lands on the oldest entry; a third changes nothing
    assert_eq!(
        run_session(ctx, vec![16, 16, 16, 13]),
        Ok("one".to_string())
    );
}

#[test]
fn vi_escape_then_motion_and_delete() {
    let h = History::new();
    let ctx = EditCtx::new("> ", &h, Encoding::Ascii, EditMode::Vi);
    // insert "ab", Esc Esc to normal mode (a lone Esc resolves only once
    // the next byte shows it opens no CSI sequence, and that byte is
    // consumed with it), 'h' moves left, 'x' deletes 'b'
    assert_eq!(
        run_session(ctx, vec![b'a', b'b', 27, 27, b'h', b'x', 13]),
        Ok("a".to_string())
    );
}

#[test]
fn vi_replace_single_char() {
    let h = History::new();
    let ctx = EditCtx::new("> ", &h, Encoding::Ascii, EditMode::Vi);
    // "abc", Esc Esc, left, 'r' then 'z' overwrites the 'c'
    assert_eq!(
        run_session(ctx, vec![b'a', b'b', b'c', 27, 27, b'h', b'r', b'z', 13]),
        Ok("abz".to_string())
    );
}

#[test]
fn vi_substitute_enters_insert() {
    let h = History::new();
    let ctx = EditCtx::new("> ", &h, Encoding::Ascii, EditMode::Vi);
    // "abc", Esc Esc, two lefts, 's' deletes 'b' and re-enters insert,
    // then "xy"
    assert_eq!(
        run_session(ctx, vec![b'a', b'b', b'c', 27, 27, b'h', b'h', b's', b'x', b'y', 13]),
        Ok("axyc".to_string())
    );
}

#[test]
fn vi_find_char_motion() {
    let h = History::new();
    let ctx = EditCtx::new("> ", &h, Encoding::Ascii, EditMode::Vi);
    // "abcb", Esc Esc, home (ESC [ H), 'f' 'b' lands on the first 'b',
    // 'x' deletes it
    assert_eq!(
        run_session(
            ctx,
            vec![b'a', b'b', b'c', b'b', 27, 27, 27, 91, 72, b'f', b'b', b'x', 13]
        ),
        Ok("acb".to_string())
    );
}

#[test]
fn vi_append_end() {
    let h = History::new();
    let ctx = EditCtx::new("> ", &h, Encoding::Ascii, EditMode::Vi);
    // "ab", Esc Esc, home, 'A' appends at the end
    assert_eq!(
        run_session(
            ctx,
            vec![b'a', b'b', 27, 27, 27, 91, 72, b'A', b'c', 13]
        ),
        Ok("abc".to_string())
    );
}

#[test]
fn clear_screen_directive_precedes_prompt() {
    let h = History::new();
    let mut ctx = EditCtx::new("> ", &h, Encoding::Ascii, EditMode::Emacs);
    ctx.fill(12); // Ctrl-L
    match edit(&mut ctx) {
        EditResult::Cont(bytes) => {
            assert_eq!(&bytes[..7], b"\x1b[H\x1b[2J");
            assert_eq!(&bytes[7..], b"\r> \x1b[0K\x1b[3G");
        }
        EditResult::Halt(_) => panic!("session should still be active"),
    }
    // the directive is emitted once
    match edit(&mut ctx) {
        EditResult::Cont(bytes) => assert_eq!(bytes, b"\r> \x1b[0K\x1b[3G".to_vec()),
        EditResult::Halt(_) => panic!("session should still be active"),
    }
}

#[test]
fn halted_session_ignores_input() {
    let h = History::new();
    let mut ctx = EditCtx::new("> ", &h, Encoding::Ascii, EditMode::Emacs);
    ctx.fill(b'a');
    ctx.fill(13);
    ctx.fill(b'z'); // ignored: the session is already done
    match edit(&mut ctx) {
        EditResult::Halt(res) => assert_eq!(res, Ok("a".to_string())),
        EditResult::Cont(_) => panic!("session should have halted"),
    }
}
