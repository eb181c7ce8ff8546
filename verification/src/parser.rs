//! Incremental classification of accumulated input bytes.
//!
//! The parser is stateless: the caller accumulates bytes and calls [`parse`]
//! with the entire buffer after every new byte.  The result is exactly one of
//! `Error` (discard the buffer, report invalid input), `Incomplete` (read one
//! more byte and retry with the extended buffer), or `Success` (the whole
//! buffer is consumed as one token).  A second entry point,
//! [`parse_cursor_pos`], decodes cursor-position replies under the identical
//! contract.

use vstd::prelude::*;
use vstd::utf8::*;

use crate::chars::{char_from_u32, char_to_string};

verus! {

/// The text encoding a session accepts for bytes at and above `0x80`.
///
/// Under `Ascii` every such byte is invalid input; under `Utf8` a valid lead
/// byte opens a multi-byte character.
#[derive(Clone, Copy, Debug, PartialEq, Eq, Structural)]
pub enum Encoding {
    Ascii,
    Utf8,
}

/// The smallest classified unit of raw input: a named control key, a CSI
/// escape code, a recognized-but-unnamed code carrying its raw byte, or one
/// character of literal text.
#[derive(Debug, PartialEq, Eq)]
pub enum Token {
    ControlChar(u8),
    CtrlA,
    CtrlB,
    CtrlC,
    CtrlD,
    CtrlE,
    CtrlF,
    CtrlH,
    CtrlL,
    CtrlN,
    CtrlP,
    Enter,
    Backspace,
    Esc,
    EscBracketA,
    EscBracketB,
    EscBracketC,
    EscBracketD,
    EscBracketF,
    EscBracketH,
    EscBracket3T,
    Text(String),
}

/// The mathematical image of a [`Token`]: text is a sequence of characters.
#[verifier::ext_equal]
pub ghost enum TokenV {
    ControlChar(u8),
    CtrlA,
    CtrlB,
    CtrlC,
    CtrlD,
    CtrlE,
    CtrlF,
    CtrlH,
    CtrlL,
    CtrlN,
    CtrlP,
    Enter,
    Backspace,
    Esc,
    EscBracketA,
    EscBracketB,
    EscBracketC,
    EscBracketD,
    EscBracketF,
    EscBracketH,
    EscBracket3T,
    Text(Seq<char>),
}

impl View for Token {
    type V = TokenV;

    open spec fn view(&self) -> TokenV {
        match self {
            Token::ControlChar(b) => TokenV::ControlChar(*b),
            Token::CtrlA => TokenV::CtrlA,
            Token::CtrlB => TokenV::CtrlB,
            Token::CtrlC => TokenV::CtrlC,
            Token::CtrlD => TokenV::CtrlD,
            Token::CtrlE => TokenV::CtrlE,
            Token::CtrlF => TokenV::CtrlF,
            Token::CtrlH => TokenV::CtrlH,
            Token::CtrlL => TokenV::CtrlL,
            Token::CtrlN => TokenV::CtrlN,
            Token::CtrlP => TokenV::CtrlP,
            Token::Enter => TokenV::Enter,
            Token::Backspace => TokenV::Backspace,
            Token::Esc => TokenV::Esc,
            Token::EscBracketA => TokenV::EscBracketA,
            Token::EscBracketB => TokenV::EscBracketB,
            Token::EscBracketC => TokenV::EscBracketC,
            Token::EscBracketD => TokenV::EscBracketD,
            Token::EscBracketF => TokenV::EscBracketF,
            Token::EscBracketH => TokenV::EscBracketH,
            Token::EscBracket3T => TokenV::EscBracket3T,
            Token::Text(s) => TokenV::Text(s@),
        }
    }
}

/// Outcome of one classification attempt over the accumulated buffer.
#[derive(Debug, PartialEq, Eq)]
pub enum ParseResult {
    Error,
    Incomplete,
    Success(Token),
}

/// The mathematical image of a [`ParseResult`].
#[verifier::ext_equal]
pub ghost enum ParseV {
    Invalid,
    Incomplete,
    Tok(TokenV),
}

impl View for ParseResult {
    type V = ParseV;

    open spec fn view(&self) -> ParseV {
        match self {
            ParseResult::Error => ParseV::Invalid,
            ParseResult::Incomplete => ParseV::Incomplete,
            ParseResult::Success(t) => ParseV::Tok(t@),
        }
    }
}

/// The named key for a single control byte; unnamed codes keep their byte.
pub open spec fn control_token(b: u8) -> TokenV {
    if b == 0x01 {
        TokenV::CtrlA
    } else if b == 0x02 {
        TokenV::CtrlB
    } else if b == 0x03 {
        TokenV::CtrlC
    } else if b == 0x04 {
        TokenV::CtrlD
    } else if b == 0x05 {
        TokenV::CtrlE
    } else if b == 0x06 {
        TokenV::CtrlF
    } else if b == 0x08 {
        TokenV::CtrlH
    } else if b == 0x0c {
        TokenV::CtrlL
    } else if b == 0x0e {
        TokenV::CtrlN
    } else if b == 0x10 {
        TokenV::CtrlP
    } else {
        TokenV::ControlChar(b)
    }
}

/// True for the CSI final letters the editor names.
pub open spec fn is_csi_letter(b: u8) -> bool {
    b == 0x41 || b == 0x42 || b == 0x43 || b == 0x44 || b == 0x46 || b == 0x48
}

/// The named key for a recognized CSI final letter.
pub open spec fn csi_letter_token(b: u8) -> TokenV
    recommends
        is_csi_letter(b),
{
    if b == 0x41 {
        TokenV::EscBracketA
    } else if b == 0x42 {
        TokenV::EscBracketB
    } else if b == 0x43 {
        TokenV::EscBracketC
    } else if b == 0x44 {
        TokenV::EscBracketD
    } else if b == 0x46 {
        TokenV::EscBracketF
    } else {
        TokenV::EscBracketH
    }
}

/// True for an ASCII decimal digit byte.
pub open spec fn is_digit_byte(b: u8) -> bool {
    0x30 <= b <= 0x39
}

/// A buffer of exactly one byte yields the token; a longer one is invalid.
pub open spec fn single_byte(s: Seq<u8>, t: TokenV) -> ParseV {
    if s.len() == 1 {
        ParseV::Tok(t)
    } else {
        ParseV::Invalid
    }
}

/// Classification of a buffer that opens with the escape byte `0x1b`.
///
/// A lone escape byte may still grow into a CSI sequence, so it stays
/// incomplete; an escape followed by anything but `[` resolves to the bare
/// `Esc` key (the whole buffer is consumed); a CSI prefix stays incomplete
/// until its final letter, or a digit plus `~`, arrives.
pub open spec fn classify_escape(s: Seq<u8>) -> ParseV
    recommends
        s.len() >= 1,
        s[0] == 0x1b,
{
    if s.len() == 1 {
        ParseV::Incomplete
    } else if s[1] != 0x5b {
        ParseV::Tok(TokenV::Esc)
    } else if s.len() == 2 {
        ParseV::Incomplete
    } else {
        let b2 = s[2];
        if is_csi_letter(b2) {
            if s.len() == 3 {
                ParseV::Tok(csi_letter_token(b2))
            } else {
                ParseV::Invalid
            }
        } else if is_digit_byte(b2) {
            if s.len() == 3 {
                ParseV::Incomplete
            } else if s.len() == 4 && s[3] == 0x7e {
                if b2 == 0x33 {
                    ParseV::Tok(TokenV::EscBracket3T)
                } else {
                    ParseV::Tok(TokenV::ControlChar(b2))
                }
            } else {
                ParseV::Invalid
            }
        } else {
            ParseV::Invalid
        }
    }
}

/// Total byte count of a UTF-8 encoding opened by this lead byte, or 0 when
/// the byte cannot open a strict UTF-8 encoding (continuation bytes, the
/// overlong leads `0xc0`/`0xc1`, and bytes above `0xf4`).
pub open spec fn utf8_total_len(b0: u8) -> int {
    if 0xc2 <= b0 <= 0xdf {
        2
    } else if 0xe0 <= b0 <= 0xef {
        3
    } else if 0xf0 <= b0 <= 0xf4 {
        4
    } else {
        0
    }
}

/// The strict range for the first continuation byte, which rules out
/// overlong encodings and surrogate code points.
pub open spec fn utf8_second_ok(b0: u8, b1: u8) -> bool {
    if b0 == 0xe0 {
        0xa0 <= b1 <= 0xbf
    } else if b0 == 0xed {
        0x80 <= b1 <= 0x9f
    } else if b0 == 0xf0 {
        0x90 <= b1 <= 0xbf
    } else if b0 == 0xf4 {
        0x80 <= b1 <= 0x8f
    } else {
        is_continuation_byte(b1)
    }
}

/// Classification of a buffer that opens with a byte at or above `0x80`:
/// one multi-byte UTF-8 character under the `Utf8` encoding, invalid input
/// under `Ascii`.
pub open spec fn classify_multibyte(s: Seq<u8>, enc: Encoding) -> ParseV
    recommends
        s.len() >= 1,
        s[0] >= 0x80,
{
    let b0 = s[0];
    let n = utf8_total_len(b0);
    if enc == Encoding::Ascii || n == 0 {
        ParseV::Invalid
    } else if s.len() >= 2 && !utf8_second_ok(b0, s[1]) {
        ParseV::Invalid
    } else if n >= 3 && s.len() >= 3 && !is_continuation_byte(s[2]) {
        ParseV::Invalid
    } else if n >= 4 && s.len() >= 4 && !is_continuation_byte(s[3]) {
        ParseV::Invalid
    } else if s.len() < n {
        ParseV::Incomplete
    } else if s.len() == n {
        ParseV::Tok(TokenV::Text(seq![decode_first_scalar(s) as char]))
    } else {
        ParseV::Invalid
    }
}

/// Complete classification of an accumulated byte buffer.
///
/// An empty buffer is incomplete; a single control byte is a named key; a
/// printable ASCII byte is one character of text; escapes and multi-byte
/// text follow [`classify_escape`] and [`classify_multibyte`].
pub open spec fn classify(s: Seq<u8>, enc: Encoding) -> ParseV {
    if s.len() == 0 {
        ParseV::Incomplete
    } else {
        let b0 = s[0];
        if b0 == 0x1b {
            classify_escape(s)
        } else if b0 == 0x0d {
            single_byte(s, TokenV::Enter)
        } else if b0 == 0x7f {
            single_byte(s, TokenV::Backspace)
        } else if b0 < 0x20 {
            single_byte(s, control_token(b0))
        } else if b0 < 0x7f {
            single_byte(s, TokenV::Text(seq![decode_first_scalar(s) as char]))
        } else {
            classify_multibyte(s, enc)
        }
    }
}

proof fn lemma_scalar_width_2(b0: u8, b1: u8)
    by (bit_vector)
    requires
        0xc2 <= b0 <= 0xdf,
        0x80 <= b1 <= 0xbf,
    ensures
        0x80 <= ((((b0 & 0x1F) as u32) << 6) | ((b1 & 0x3f) as u32)),
        ((((b0 & 0x1F) as u32) << 6) | ((b1 & 0x3f) as u32)) <= 0x7ff,
{
}

proof fn lemma_scalar_width_3(b0: u8, b1: u8, b2: u8)
    by (bit_vector)
    requires
        0xe0 <= b0 <= 0xef,
        0x80 <= b1 <= 0xbf,
        b0 == 0xe0 ==> 0xa0 <= b1,
        b0 == 0xed ==> b1 <= 0x9f,
        0x80 <= b2 <= 0xbf,
    ensures
        0x800 <= ((((b0 & 0x0F) as u32) << 12) | (((b1 & 0x3f) as u32) << 6) | ((b2
            & 0x3f) as u32)),
        ((((b0 & 0x0F) as u32) << 12) | (((b1 & 0x3f) as u32) << 6) | ((b2 & 0x3f) as u32))
            <= 0xffff,
        !(0xd800 <= ((((b0 & 0x0F) as u32) << 12) | (((b1 & 0x3f) as u32) << 6) | ((b2
            & 0x3f) as u32)) <= 0xdfff),
{
}

proof fn lemma_scalar_width_4(b0: u8, b1: u8, b2: u8, b3: u8)
    by (bit_vector)
    requires
        0xf0 <= b0 <= 0xf4,
        0x80 <= b1 <= 0xbf,
        b0 == 0xf0 ==> 0x90 <= b1,
        b0 == 0xf4 ==> b1 <= 0x8f,
        0x80 <= b2 <= 0xbf,
        0x80 <= b3 <= 0xbf,
    ensures
        0x10000 <= ((((b0 & 0x07) as u32) << 18) | (((b1 & 0x3f) as u32) << 12) | (((b2
            & 0x3f) as u32) << 6) | ((b3 & 0x3f) as u32)),
        ((((b0 & 0x07) as u32) << 18) | (((b1 & 0x3f) as u32) << 12) | (((b2 & 0x3f) as u32) << 6)
            | ((b3 & 0x3f) as u32)) <= 0x10ffff,
{
}

/// Classifies a multi-byte opener under the `Utf8` encoding; mirrors
/// [`classify_multibyte`] exactly.
fn parse_multibyte(seq: &[u8]) -> (r: ParseResult)
    requires
        seq@.len() >= 1,
        seq@[0] >= 0x80,
    ensures
        r@ =~= classify_multibyte(seq@, Encoding::Utf8),
{
    let b0 = seq[0];
    let n: usize = if 0xc2 <= b0 && b0 <= 0xdf {
        2
    } else if 0xe0 <= b0 && b0 <= 0xef {
        3
    } else if 0xf0 <= b0 && b0 <= 0xf4 {
        4
    } else {
        return ParseResult::Error;
    };
    if seq.len() >= 2 {
        let b1 = seq[1];
        let second_ok: bool = if b0 == 0xe0 {
            0xa0 <= b1 && b1 <= 0xbf
        } else if b0 == 0xed {
            0x80 <= b1 && b1 <= 0x9f
        } else if b0 == 0xf0 {
            0x90 <= b1 && b1 <= 0xbf
        } else if b0 == 0xf4 {
            0x80 <= b1 && b1 <= 0x8f
        } else {
            0x80 <= b1 && b1 <= 0xbf
        };
        if !second_ok {
            return ParseResult::Error;
        }
        if n >= 3 && seq.len() >= 3 && !(0x80 <= seq[2] && seq[2] <= 0xbf) {
            return ParseResult::Error;
        }
        if n >= 4 && seq.len() >= 4 && !(0x80 <= seq[3] && seq[3] <= 0xbf) {
            return ParseResult::Error;
        }
    }
    if seq.len() < n {
        return ParseResult::Incomplete;
    }
    if seq.len() > n {
        return ParseResult::Error;
    }
    let cp: u32 = if n == 2 {
        proof {
            lemma_scalar_width_2(b0, seq@[1]);
        }
        (((b0 & 0x1F) as u32) << 6u32) | ((seq[1] & 0x3f) as u32)
    } else if n == 3 {
        proof {
            lemma_scalar_width_3(b0, seq@[1], seq@[2]);
        }
        (((b0 & 0x0F) as u32) << 12u32) | (((seq[1] & 0x3f) as u32) << 6u32) | ((seq[2]
            & 0x3f) as u32)
    } else {
        proof {
            lemma_scalar_width_4(b0, seq@[1], seq@[2], seq@[3]);
        }
        (((b0 & 0x07) as u32) << 18u32) | (((seq[1] & 0x3f) as u32) << 12u32) | (((seq[2]
            & 0x3f) as u32) << 6u32) | ((seq[3] & 0x3f) as u32)
    };
    proof {
        assert(cp == decode_first_codepoint(seq@));
        assert(is_scalar(cp));
    }
    match char_from_u32(cp) {
        Some(c) => {
            let t = char_to_string(c);
            assert(t@ =~= seq![decode_first_scalar(seq@) as char]);
            ParseResult::Success(Token::Text(t))
        },
        None => {
            // unreachable: the ranges established above make `cp` a scalar
            ParseResult::Error
        },
    }
}

/// Classifies the entire accumulated byte buffer as exactly one of invalid
/// input, an incomplete prefix, or one whole token.
///
/// The result is pinned to the mathematical classification [`classify`] of
/// the buffer contents under the given encoding.
pub fn parse(seq: &[u8], enc: Encoding) -> (r: ParseResult)
    ensures
        r@ =~= classify(seq@, enc),
{
    if seq.len() == 0 {
        return ParseResult::Incomplete;
    }
    let b0 = seq[0];
    if b0 == 0x1b {
        if seq.len() == 1 {
            return ParseResult::Incomplete;
        }
        if seq[1] != 0x5b {
            return ParseResult::Success(Token::Esc);
        }
        if seq.len() == 2 {
            return ParseResult::Incomplete;
        }
        let b2 = seq[2];
        if b2 == 0x41 || b2 == 0x42 || b2 == 0x43 || b2 == 0x44 || b2 == 0x46 || b2 == 0x48 {
            if seq.len() == 3 {
                let t = if b2 == 0x41 {
                    Token::EscBracketA
                } else if b2 == 0x42 {
                    Token::EscBracketB
                } else if b2 == 0x43 {
                    Token::EscBracketC
                } else if b2 == 0x44 {
                    Token::EscBracketD
                } else if b2 == 0x46 {
                    Token::EscBracketF
                } else {
                    Token::EscBracketH
                };
                return ParseResult::Success(t);
            }
            return ParseResult::Error;
        }
        if 0x30 <= b2 && b2 <= 0x39 {
            if seq.len() == 3 {
                return ParseResult::Incomplete;
            }
            if seq.len() == 4 && seq[3] == 0x7e {
                if b2 == 0x33 {
                    return ParseResult::Success(Token::EscBracket3T);
                }
                return ParseResult::Success(Token::ControlChar(b2));
            }
            return ParseResult::Error;
        }
        return ParseResult::Error;
    }
    if b0 == 0x0d {
        return if seq.len() == 1 {
            ParseResult::Success(Token::Enter)
        } else {
            ParseResult::Error
        };
    }
    if b0 == 0x7f {
        return if seq.len() == 1 {
            ParseResult::Success(Token::Backspace)
        } else {
            ParseResult::Error
        };
    }
    if b0 < 0x20 {
        if seq.len() != 1 {
            return ParseResult::Error;
        }
        let t = if b0 == 0x01 {
            Token::CtrlA
        } else if b0 == 0x02 {
            Token::CtrlB
        } else if b0 == 0x03 {
            Token::CtrlC
        } else if b0 == 0x04 {
            Token::CtrlD
        } else if b0 == 0x05 {
            Token::CtrlE
        } else if b0 == 0x06 {
            Token::CtrlF
        } else if b0 == 0x08 {
            Token::CtrlH
        } else if b0 == 0x0c {
            Token::CtrlL
        } else if b0 == 0x0e {
            Token::CtrlN
        } else if b0 == 0x10 {
            Token::CtrlP
        } else {
            Token::ControlChar(b0)
        };
        return ParseResult::Success(t);
    }
    if b0 < 0x7f {
        if seq.len() != 1 {
            return ParseResult::Error;
        }
        proof {
            assert(is_scalar(b0 as u32));
            assert(decode_first_codepoint(seq@) == codepoint_width_1(b0));
            assert(codepoint_width_1(b0) == b0 as u32) by (bit_vector)
                requires
                    b0 < 0x7f,
            ;
        }
        match char_from_u32(b0 as u32) {
            Some(c) => {
                let t = char_to_string(c);
                assert(t@ =~= seq![decode_first_scalar(seq@) as char]);
                return ParseResult::Success(Token::Text(t));
            },
            None => {
                // unreachable: every byte below 0x7f is a Unicode scalar
                return ParseResult::Error;
            },
        }
    }
    match enc {
        Encoding::Ascii => ParseResult::Error,
        Encoding::Utf8 => parse_multibyte(seq),
    }
}

/// Outcome of one classification attempt over an accumulating
/// cursor-position reply; `Success` carries row then column.
#[derive(Clone, Copy, Debug, PartialEq, Eq, Structural)]
pub enum CursorPosResult {
    Error,
    Incomplete,
    Success(u64, u64),
}

/// First index at or after `i` holding a non-digit byte, or the end.
pub open spec fn scan_digits(s: Seq<u8>, i: int) -> int
    decreases s.len() - i,
    when 0 <= i <= s.len()
{
    if i >= s.len() {
        i
    } else if is_digit_byte(s[i]) {
        scan_digits(s, i + 1)
    } else {
        i
    }
}

/// One step of saturating decimal accumulation.
pub open spec fn sat_step(acc: u64, d: u64) -> u64 {
    if acc * 10 + d > u64::MAX {
        u64::MAX
    } else {
        (acc * 10 + d) as u64
    }
}

/// The decimal value of the digit bytes `s[a..b]`, saturating at `u64::MAX`.
pub open spec fn sat_dec(s: Seq<u8>, a: int, b: int) -> u64
    decreases b - a,
    when a <= b
{
    if b <= a {
        0u64
    } else {
        sat_step(sat_dec(s, a, b - 1), (s[b - 1] - 0x30) as u64)
    }
}

/// Classification of an accumulating cursor-position reply
/// `ESC [ row ; col R`.
///
/// Each decimal run must hold at least one digit; the `R` must be the final
/// byte of the buffer; the numbers saturate at `u64::MAX` instead of
/// overflowing.
pub open spec fn classify_cursor_pos(s: Seq<u8>) -> CursorPosResult {
    if s.len() == 0 {
        CursorPosResult::Incomplete
    } else if s[0] != 0x1b {
        CursorPosResult::Error
    } else if s.len() == 1 {
        CursorPosResult::Incomplete
    } else if s[1] != 0x5b {
        CursorPosResult::Error
    } else {
        let i = scan_digits(s, 2);
        if i == s.len() {
            CursorPosResult::Incomplete
        } else if i == 2 || s[i] != 0x3b {
            CursorPosResult::Error
        } else {
            let j = scan_digits(s, i + 1);
            if j == s.len() {
                CursorPosResult::Incomplete
            } else if j == i + 1 || s[j] != 0x52 || j + 1 != s.len() {
                CursorPosResult::Error
            } else {
                CursorPosResult::Success(sat_dec(s, 2, i), sat_dec(s, i + 1, j))
            }
        }
    }
}

/// Reads the digit run starting at `from`, returning its end and its
/// saturating decimal value.
fn scan_number(seq: &[u8], from: usize) -> (r: (usize, u64))
    requires
        from <= seq@.len(),
    ensures
        r.0 == scan_digits(seq@, from as int),
        from <= r.0 <= seq@.len(),
        r.1 == sat_dec(seq@, from as int, r.0 as int),
{
    let mut i: usize = from;
    let mut acc: u64 = 0;
    while i < seq.len() && 0x30 <= seq[i] && seq[i] <= 0x39
        invariant
            from <= i <= seq@.len(),
            scan_digits(seq@, from as int) == scan_digits(seq@, i as int),
            acc == sat_dec(seq@, from as int, i as int),
        decreases seq@.len() - i,
    {
        let d: u64 = (seq[i] - 0x30) as u64;
        let wide: u128 = (acc as u128) * 10 + (d as u128);
        acc = if wide > u64::MAX as u128 {
            u64::MAX
        } else {
            wide as u64
        };
        i = i + 1;
    }
    (i, acc)
}

/// Classifies an accumulating cursor-position reply; the caller extends the
/// buffer by one byte after `Incomplete` exactly as with [`parse`].
///
/// The result is pinned to [`classify_cursor_pos`] of the buffer contents.
pub fn parse_cursor_pos(seq: &[u8]) -> (r: CursorPosResult)
    ensures
        r == classify_cursor_pos(seq@),
{
    if seq.len() == 0 {
        return CursorPosResult::Incomplete;
    }
    if seq[0] != 0x1b {
        return CursorPosResult::Error;
    }
    if seq.len() == 1 {
        return CursorPosResult::Incomplete;
    }
    if seq[1] != 0x5b {
        return CursorPosResult::Error;
    }
    let (i, row) = scan_number(seq, 2);
    if i == seq.len() {
        return CursorPosResult::Incomplete;
    }
    if i == 2 || seq[i] != 0x3b {
        return CursorPosResult::Error;
    }
    let (j, col) = scan_number(seq, i + 1);
    if j == seq.len() {
        return CursorPosResult::Incomplete;
    }
    if j == i + 1 || seq[j] != 0x52 || j + 1 != seq.len() {
        return CursorPosResult::Error;
    }
    CursorPosResult::Success(row, col)
}

proof fn lemma_strict_lead_2(b0: u8, b1: u8)
    by (bit_vector)
    requires
        0xc0 <= b0 <= 0xdf,
        0x80 <= b1 <= 0xbf,
        ((((b0 & 0x1F) as u32) << 6) | ((b1 & 0x3f) as u32)) >= 0x80,
    ensures
        0xc2 <= b0,
{
}

proof fn lemma_strict_second_3(b0: u8, b1: u8, b2: u8)
    by (bit_vector)
    requires
        0xe0 <= b0 <= 0xef,
        0x80 <= b1 <= 0xbf,
        0x80 <= b2 <= 0xbf,
        ((((b0 & 0x0F) as u32) << 12) | (((b1 & 0x3f) as u32) << 6) | ((b2 & 0x3f) as u32))
            >= 0x800,
        !(0xd800 <= ((((b0 & 0x0F) as u32) << 12) | (((b1 & 0x3f) as u32) << 6) | ((b2
            & 0x3f) as u32)) <= 0xdfff),
    ensures
        b0 == 0xe0 ==> 0xa0 <= b1,
        b0 == 0xed ==> b1 <= 0x9f,
{
}

proof fn lemma_strict_second_4(b0: u8, b1: u8, b2: u8, b3: u8)
    by (bit_vector)
    requires
        0xf0 <= b0 <= 0xf7,
        0x80 <= b1 <= 0xbf,
        0x80 <= b2 <= 0xbf,
        0x80 <= b3 <= 0xbf,
        0x10000 <= ((((b0 & 0x07) as u32) << 18) | (((b1 & 0x3f) as u32) << 12) | (((b2
            & 0x3f) as u32) << 6) | ((b3 & 0x3f) as u32)) <= 0x10ffff,
    ensures
        b0 <= 0xf4,
        b0 == 0xf0 ==> 0x90 <= b1,
        b0 == 0xf4 ==> b1 <= 0x8f,
{
}

proof fn lemma_ascii_byte(u: u32)
    by (bit_vector)
    requires
        u <= 0x7f,
    ensures
        (u & 0x7F) as u8 == u as u8,
        ((u & 0x7F) as u8) as u32 == u,
        (((((u & 0x7F) as u8) & 0x7F) as u32)) == u,
{
}

/// Law: any single character of text — one printable ASCII byte, or one
/// complete multi-byte UTF-8 encoding — parses to `Success(Text)`
/// consuming exactly that input.
pub proof fn lemma_parse_single_char(c: char)
    requires
        c as u32 >= 0x20,
        c as u32 != 0x7f,
    ensures
        classify(encode_scalar(c as u32), Encoding::Utf8) == ParseV::Tok(
            TokenV::Text(seq![c]),
        ),
        (c as u32) < 0x7f ==> classify(encode_scalar(c as u32), Encoding::Ascii) == ParseV::Tok(
            TokenV::Text(seq![c]),
        ),
{
    let u = c as u32;
    let s = encode_scalar(u);
    char_is_scalar(c);
    char_u32_cast(c, u);
    assert(encode_utf8(seq![c]) =~= s) by {
        reveal_with_fuel(encode_utf8, 2);
        assert(seq![c].drop_first() =~= Seq::<char>::empty());
        assert(s + Seq::<u8>::empty() =~= s);
    }
    encode_utf8_first_scalar(seq![c]);
    assert(decode_first_scalar(s) == u);
    if has_width_1_encoding(u) {
        lemma_ascii_byte(u);
        assert(s.len() == 1);
        assert(s[0] == (u & 0x7F) as u8);
        assert(s[0] as u32 == u);
        assert(decode_first_scalar(s) as char == c);
    } else if has_width_2_encoding(u) {
        let b0 = s[0];
        let b1 = s[1];
        assert(is_leading_byte_width_2(b0) && is_continuation_byte(b1));
        assert(decode_first_codepoint(s) == codepoint_width_2(b0, b1));
        lemma_strict_lead_2(b0, b1);
        assert(utf8_total_len(b0) == 2);
        assert(utf8_second_ok(b0, b1));
        assert(classify_multibyte(s, Encoding::Utf8) == ParseV::Tok(
            TokenV::Text(seq![decode_first_scalar(s) as char]),
        ));
        assert(decode_first_scalar(s) as char == c);
    } else if has_width_3_encoding(u) {
        let b0 = s[0];
        let b1 = s[1];
        let b2 = s[2];
        assert(is_leading_byte_width_3(b0) && is_continuation_byte(b1) && is_continuation_byte(
            b2,
        ));
        assert(decode_first_codepoint(s) == codepoint_width_3(b0, b1, b2));
        lemma_strict_second_3(b0, b1, b2);
        assert(utf8_total_len(b0) == 3);
        assert(utf8_second_ok(b0, b1));
        assert(decode_first_scalar(s) as char == c);
    } else {
        let b0 = s[0];
        let b1 = s[1];
        let b2 = s[2];
        let b3 = s[3];
        assert(is_leading_byte_width_4(b0) && is_continuation_byte(b1) && is_continuation_byte(b2)
            && is_continuation_byte(b3));
        assert(decode_first_codepoint(s) == codepoint_width_4(b0, b1, b2, b3));
        lemma_strict_second_4(b0, b1, b2, b3);
        assert(utf8_total_len(b0) == 4);
        assert(utf8_second_ok(b0, b1));
        assert(decode_first_scalar(s) as char == c);
    }
}

/// A complete escape sequence the parser recognizes: `ESC [ letter`, or
/// `ESC [ digit ~`.
pub open spec fn is_escape_sequence(t: Seq<u8>) -> bool {
    (t.len() == 3 && t[0] == 0x1b && t[1] == 0x5b && is_csi_letter(t[2])) || (t.len() == 4 && t[0]
        == 0x1b && t[1] == 0x5b && is_digit_byte(t[2]) && t[3] == 0x7e)
}

/// Law: the parser never yields `Success` on a strict prefix of a longer
/// recognized escape sequence; such a prefix stays `Incomplete` until the
/// sequence resolves.
pub proof fn lemma_no_success_on_escape_prefix(s: Seq<u8>, t: Seq<u8>, enc: Encoding)
    requires
        is_escape_sequence(t),
        s.len() < t.len(),
        s =~= t.subrange(0, s.len() as int),
    ensures
        classify(s, enc) == ParseV::Incomplete,
{
    if s.len() >= 1 {
        assert(s[0] == t[0]);
    }
    if s.len() >= 2 {
        assert(s[1] == t[1]);
    }
    if s.len() >= 3 {
        assert(s[2] == t[2]);
    }
}

} // verus!
