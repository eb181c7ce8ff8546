//! The parser's byte-level contract: exactly one of error, incomplete, or
//! one whole token.

use copperline::parser::{
    parse, parse_cursor_pos, CursorPosResult, Encoding, ParseResult, Token,
};

#[test]
fn printable_ascii_is_one_text_token() {
    assert_eq!(
        parse(b"a", Encoding::Ascii),
        ParseResult::Success(Token::Text("a".to_string()))
    );
    assert_eq!(
        parse(b"a", Encoding::Utf8),
        ParseResult::Success(Token::Text("a".to_string()))
    );
    assert_eq!(
        parse(b" ", Encoding::Ascii),
        ParseResult::Success(Token::Text(" ".to_string()))
    );
}

#[test]
fn control_bytes_are_named_keys() {
    assert_eq!(parse(&[13], Encoding::Ascii), ParseResult::Success(Token::Enter));
    assert_eq!(parse(&[0x7f], Encoding::Ascii), ParseResult::Success(Token::Backspace));
    assert_eq!(parse(&[1], Encoding::Ascii), ParseResult::Success(Token::CtrlA));
    assert_eq!(parse(&[4], Encoding::Ascii), ParseResult::Success(Token::CtrlD));
    assert_eq!(parse(&[16], Encoding::Ascii), ParseResult::Success(Token::CtrlP));
    // an unnamed control byte keeps its code
    assert_eq!(
        parse(&[7], Encoding::Ascii),
        ParseResult::Success(Token::ControlChar(7))
    );
}

#[test]
fn escape_prefixes_stay_incomplete() {
    assert_eq!(parse(&[27], Encoding::Ascii), ParseResult::Incomplete);
    assert_eq!(parse(&[27, 91], Encoding::Ascii), ParseResult::Incomplete);
    assert_eq!(parse(&[27, 91, 51], Encoding::Ascii), ParseResult::Incomplete);
}

#[test]
fn csi_sequences_resolve_to_named_keys() {
    assert_eq!(
        parse(&[27, 91, 65], Encoding::Ascii),
        ParseResult::Success(Token::EscBracketA)
    );
    assert_eq!(
        parse(&[27, 91, 68], Encoding::Ascii),
        ParseResult::Success(Token::EscBracketD)
    );
    assert_eq!(
        parse(&[27, 91, 72], Encoding::Ascii),
        ParseResult::Success(Token::EscBracketH)
    );
    assert_eq!(
        parse(&[27, 91, 51, 126], Encoding::Ascii),
        ParseResult::Success(Token::EscBracket3T)
    );
    // other digit-tilde forms are recognized but unnamed
    assert_eq!(
        parse(&[27, 91, 53, 126], Encoding::Ascii),
        ParseResult::Success(Token::ControlChar(0x35))
    );
}

#[test]
fn escape_before_plain_byte_is_the_esc_key() {
    assert_eq!(
        parse(&[27, b'9'], Encoding::Ascii),
        ParseResult::Success(Token::Esc)
    );
}

#[test]
fn unresolvable_csi_is_an_error() {
    assert_eq!(parse(&[27, 91, 1], Encoding::Ascii), ParseResult::Error);
    assert_eq!(parse(&[27, 91, 51, 51], Encoding::Ascii), ParseResult::Error);
}

#[test]
fn utf8_multibyte_accumulates_then_decodes() {
    assert_eq!(parse(&[0xc3], Encoding::Utf8), ParseResult::Incomplete);
    assert_eq!(
        parse(&[0xc3, 0xa9], Encoding::Utf8),
        ParseResult::Success(Token::Text("\u{e9}".to_string()))
    );
    assert_eq!(parse(&[0xe2], Encoding::Utf8), ParseResult::Incomplete);
    assert_eq!(parse(&[0xe2, 0x82], Encoding::Utf8), ParseResult::Incomplete);
    assert_eq!(
        parse(&[0xe2, 0x82, 0xac], Encoding::Utf8),
        ParseResult::Success(Token::Text("\u{20ac}".to_string()))
    );
    assert_eq!(
        parse(&[0xf0, 0x9f, 0x98, 0x80], Encoding::Utf8),
        ParseResult::Success(Token::Text("\u{1f600}".to_string()))
    );
}

#[test]
fn malformed_utf8_is_an_error() {
    // bare continuation byte
    assert_eq!(parse(&[0x80], Encoding::Utf8), ParseResult::Error);
    // overlong lead bytes
    assert_eq!(parse(&[0xc0], Encoding::Utf8), ParseResult::Error);
    assert_eq!(parse(&[0xc1], Encoding::Utf8), ParseResult::Error);
    // overlong three-byte form
    assert_eq!(parse(&[0xe0, 0x80], Encoding::Utf8), ParseResult::Error);
    // surrogate range
    assert_eq!(parse(&[0xed, 0xa0], Encoding::Utf8), ParseResult::Error);
    // beyond the last scalar
    assert_eq!(parse(&[0xf4, 0x90], Encoding::Utf8), ParseResult::Error);
    assert_eq!(parse(&[0xf5], Encoding::Utf8), ParseResult::Error);
    // lead byte followed by a non-continuation byte
    assert_eq!(parse(&[0xc3, 0x28], Encoding::Utf8), ParseResult::Error);
}

#[test]
fn high_bytes_invalid_under_ascii() {
    assert_eq!(parse(&[0xc3], Encoding::Ascii), ParseResult::Error);
    assert_eq!(parse(&[0xa9], Encoding::Ascii), ParseResult::Error);
}

#[test]
fn cursor_pos_reply_parses() {
    assert_eq!(
        parse_cursor_pos(b"\x1b[12;34R"),
        CursorPosResult::Success(12, 34)
    );
    assert_eq!(
        parse_cursor_pos(b"\x1b[1;1R"),
        CursorPosResult::Success(1, 1)
    );
}

#[test]
fn cursor_pos_reply_accumulates() {
    assert_eq!(parse_cursor_pos(b""), CursorPosResult::Incomplete);
    assert_eq!(parse_cursor_pos(b"\x1b"), CursorPosResult::Incomplete);
    assert_eq!(parse_cursor_pos(b"\x1b["), CursorPosResult::Incomplete);
    assert_eq!(parse_cursor_pos(b"\x1b[12"), CursorPosResult::Incomplete);
    assert_eq!(parse_cursor_pos(b"\x1b[12;"), CursorPosResult::Incomplete);
    assert_eq!(parse_cursor_pos(b"\x1b[12;3"), CursorPosResult::Incomplete);
}

#[test]
fn cursor_pos_reply_rejects_malformed() {
    assert_eq!(parse_cursor_pos(b"x"), CursorPosResult::Error);
    assert_eq!(parse_cursor_pos(b"\x1bx"), CursorPosResult::Error);
    assert_eq!(parse_cursor_pos(b"\x1b[;1R"), CursorPosResult::Error);
    assert_eq!(parse_cursor_pos(b"\x1b[1;R"), CursorPosResult::Error);
    assert_eq!(parse_cursor_pos(b"\x1b[1;2x"), CursorPosResult::Error);
}

#[test]
fn cursor_pos_numbers_saturate() {
    assert_eq!(
        parse_cursor_pos(b"\x1b[99999999999999999999999999;1R"),
        CursorPosResult::Success(u64::MAX, 1)
    );
}
