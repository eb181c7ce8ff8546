//! The pure mapping from tokens to abstract edit instructions.
//!
//! Interpretation is a function of the token and the modal state passed in
//! by the caller; it keeps no state of its own and touches no buffer, which
//! makes every keybinding checkable without a terminal.

use vstd::prelude::*;
use vstd::string::StrSliceExecFns;

use crate::edit::{EditMode, ViMode};
use crate::parser::{Token, TokenV};

verus! {

/// An abstract edit command: cursor and word motions, deletions, mode
/// transitions, repeat-count digits, and session terminators.
#[derive(Debug, PartialEq, Eq)]
pub enum Instr {
    MoveCursorLeft,
    MoveCursorRight,
    MoveCursorStart,
    MoveCursorEnd,
    MoveEndOfWordRight,
    MoveEndOfWordWsRight,
    MoveWordRight,
    MoveWordWsRight,
    MoveWordLeft,
    MoveWordWsLeft,
    MoveCharRight(char),
    MoveCharLeft(char),
    MoveBeforeCharRight(char),
    MoveBeforeCharLeft(char),
    DeleteCharLeftOfCursor,
    DeleteCharRightOfCursor,
    DeleteCharRightOfCursorOrEOF,
    Substitute,
    InsertAtCursor(String),
    ReplaceAtCursor(String),
    HistoryNext,
    HistoryPrev,
    Insert,
    InsertStart,
    Append,
    AppendEnd,
    NormalMode,
    ReplaceMode,
    MoveCharMode(CharMoveType),
    DeleteMode,
    Digit(u32),
    Done,
    Cancel,
    Clear,
    Noop,
}

/// Which of the four pending character-search motions `t T f F` is armed.
#[derive(Clone, Copy, Debug, PartialEq, Eq, Structural)]
pub enum CharMoveType {
    BeforeRight,
    BeforeLeft,
    Right,
    Left,
}

/// The mathematical image of an [`Instr`]: text is a sequence of characters.
#[verifier::ext_equal]
pub ghost enum InstrV {
    MoveCursorLeft,
    MoveCursorRight,
    MoveCursorStart,
    MoveCursorEnd,
    MoveEndOfWordRight,
    MoveEndOfWordWsRight,
    MoveWordRight,
    MoveWordWsRight,
    MoveWordLeft,
    MoveWordWsLeft,
    MoveCharRight(char),
    MoveCharLeft(char),
    MoveBeforeCharRight(char),
    MoveBeforeCharLeft(char),
    DeleteCharLeftOfCursor,
    DeleteCharRightOfCursor,
    DeleteCharRightOfCursorOrEOF,
    Substitute,
    InsertAtCursor(Seq<char>),
    ReplaceAtCursor(Seq<char>),
    HistoryNext,
    HistoryPrev,
    Insert,
    InsertStart,
    Append,
    AppendEnd,
    NormalMode,
    ReplaceMode,
    MoveCharMode(CharMoveType),
    DeleteMode,
    Digit(u32),
    Done,
    Cancel,
    Clear,
    Noop,
}

impl View for Instr {
    type V = InstrV;

    open spec fn view(&self) -> InstrV {
        match self {
            Instr::MoveCursorLeft => InstrV::MoveCursorLeft,
            Instr::MoveCursorRight => InstrV::MoveCursorRight,
            Instr::MoveCursorStart => InstrV::MoveCursorStart,
            Instr::MoveCursorEnd => InstrV::MoveCursorEnd,
            Instr::MoveEndOfWordRight => InstrV::MoveEndOfWordRight,
            Instr::MoveEndOfWordWsRight => InstrV::MoveEndOfWordWsRight,
            Instr::MoveWordRight => InstrV::MoveWordRight,
            Instr::MoveWordWsRight => InstrV::MoveWordWsRight,
            Instr::MoveWordLeft => InstrV::MoveWordLeft,
            Instr::MoveWordWsLeft => InstrV::MoveWordWsLeft,
            Instr::MoveCharRight(c) => InstrV::MoveCharRight(*c),
            Instr::MoveCharLeft(c) => InstrV::MoveCharLeft(*c),
            Instr::MoveBeforeCharRight(c) => InstrV::MoveBeforeCharRight(*c),
            Instr::MoveBeforeCharLeft(c) => InstrV::MoveBeforeCharLeft(*c),
            Instr::DeleteCharLeftOfCursor => InstrV::DeleteCharLeftOfCursor,
            Instr::DeleteCharRightOfCursor => InstrV::DeleteCharRightOfCursor,
            Instr::DeleteCharRightOfCursorOrEOF => InstrV::DeleteCharRightOfCursorOrEOF,
            Instr::Substitute => InstrV::Substitute,
            Instr::InsertAtCursor(s) => InstrV::InsertAtCursor(s@),
            Instr::ReplaceAtCursor(s) => InstrV::ReplaceAtCursor(s@),
            Instr::HistoryNext => InstrV::HistoryNext,
            Instr::HistoryPrev => InstrV::HistoryPrev,
            Instr::Insert => InstrV::Insert,
            Instr::InsertStart => InstrV::InsertStart,
            Instr::Append => InstrV::Append,
            Instr::AppendEnd => InstrV::AppendEnd,
            Instr::NormalMode => InstrV::NormalMode,
            Instr::ReplaceMode => InstrV::ReplaceMode,
            Instr::MoveCharMode(t) => InstrV::MoveCharMode(*t),
            Instr::DeleteMode => InstrV::DeleteMode,
            Instr::Digit(d) => InstrV::Digit(*d),
            Instr::Done => InstrV::Done,
            Instr::Cancel => InstrV::Cancel,
            Instr::Clear => InstrV::Clear,
            Instr::Noop => InstrV::Noop,
        }
    }
}

/// The flat Emacs keymap.
pub open spec fn emacs_spec(t: TokenV) -> InstrV {
    match t {
        TokenV::Enter => InstrV::Done,
        TokenV::Backspace => InstrV::DeleteCharLeftOfCursor,
        TokenV::CtrlH => InstrV::DeleteCharLeftOfCursor,
        TokenV::EscBracket3T => InstrV::DeleteCharRightOfCursor,
        TokenV::CtrlD => InstrV::DeleteCharRightOfCursorOrEOF,
        TokenV::EscBracketA => InstrV::HistoryPrev,
        TokenV::CtrlP => InstrV::HistoryPrev,
        TokenV::EscBracketB => InstrV::HistoryNext,
        TokenV::CtrlN => InstrV::HistoryNext,
        TokenV::EscBracketC => InstrV::MoveCursorRight,
        TokenV::CtrlF => InstrV::MoveCursorRight,
        TokenV::EscBracketD => InstrV::MoveCursorLeft,
        TokenV::CtrlB => InstrV::MoveCursorLeft,
        TokenV::CtrlA => InstrV::MoveCursorStart,
        TokenV::EscBracketH => InstrV::MoveCursorStart,
        TokenV::CtrlE => InstrV::MoveCursorEnd,
        TokenV::EscBracketF => InstrV::MoveCursorEnd,
        TokenV::Text(cs) => InstrV::InsertAtCursor(cs),
        TokenV::CtrlC => InstrV::Cancel,
        TokenV::CtrlL => InstrV::Clear,
        _ => InstrV::Noop,
    }
}

/// The keys shared by all Vi sub-modes.
pub open spec fn vi_common_spec(t: TokenV) -> InstrV {
    match t {
        TokenV::Enter => InstrV::Done,
        TokenV::Esc => InstrV::NormalMode,
        TokenV::Backspace => InstrV::DeleteCharLeftOfCursor,
        TokenV::EscBracket3T => InstrV::DeleteCharRightOfCursor,
        TokenV::CtrlD => InstrV::DeleteCharRightOfCursorOrEOF,
        TokenV::EscBracketA => InstrV::HistoryPrev,
        TokenV::EscBracketB => InstrV::HistoryNext,
        TokenV::EscBracketC => InstrV::MoveCursorRight,
        TokenV::EscBracketD => InstrV::MoveCursorLeft,
        TokenV::EscBracketH => InstrV::MoveCursorStart,
        TokenV::EscBracketF => InstrV::MoveCursorEnd,
        TokenV::CtrlC => InstrV::Cancel,
        TokenV::CtrlL => InstrV::Clear,
        _ => InstrV::Noop,
    }
}

/// Vi insert sub-mode: text is inserted, everything else is shared.
pub open spec fn vi_insert_spec(t: TokenV) -> InstrV {
    match t {
        TokenV::Text(cs) => InstrV::InsertAtCursor(cs),
        _ => vi_common_spec(t),
    }
}

/// The fixed Vi normal-mode command table for a single character.
pub open spec fn vi_normal_char_spec(c: char) -> InstrV {
    match c {
        'h' => InstrV::MoveCursorLeft,
        'j' => InstrV::HistoryNext,
        'k' => InstrV::HistoryPrev,
        'l' => InstrV::MoveCursorRight,
        '0' => InstrV::Digit(0),
        '$' => InstrV::MoveCursorEnd,
        'x' => InstrV::DeleteCharRightOfCursor,
        's' => InstrV::Substitute,
        'r' => InstrV::ReplaceMode,
        'd' => InstrV::DeleteMode,
        'e' => InstrV::MoveEndOfWordRight,
        'E' => InstrV::MoveEndOfWordWsRight,
        'w' => InstrV::MoveWordRight,
        'W' => InstrV::MoveWordWsRight,
        'b' => InstrV::MoveWordLeft,
        'B' => InstrV::MoveWordWsLeft,
        't' => InstrV::MoveCharMode(CharMoveType::BeforeRight),
        'T' => InstrV::MoveCharMode(CharMoveType::BeforeLeft),
        'f' => InstrV::MoveCharMode(CharMoveType::Right),
        'F' => InstrV::MoveCharMode(CharMoveType::Left),
        'a' => InstrV::Append,
        'A' => InstrV::AppendEnd,
        'i' => InstrV::Insert,
        'I' => InstrV::InsertStart,
        '1' => InstrV::Digit(1),
        '2' => InstrV::Digit(2),
        '3' => InstrV::Digit(3),
        '4' => InstrV::Digit(4),
        '5' => InstrV::Digit(5),
        '6' => InstrV::Digit(6),
        '7' => InstrV::Digit(7),
        '8' => InstrV::Digit(8),
        '9' => InstrV::Digit(9),
        _ => InstrV::Noop,
    }
}

/// Vi normal sub-mode: single characters go through the command table,
/// longer text is ignored, everything else is shared.
pub open spec fn vi_normal_spec(t: TokenV) -> InstrV {
    match t {
        TokenV::Text(cs) => if cs.len() == 1 {
            vi_normal_char_spec(cs[0])
        } else {
            InstrV::Noop
        },
        _ => vi_common_spec(t),
    }
}

/// Vi replace sub-mode: the next text token overwrites, anything else
/// reverts to normal mode with no edit.
pub open spec fn vi_replace_spec(t: TokenV) -> InstrV {
    match t {
        TokenV::Text(cs) => InstrV::ReplaceAtCursor(cs),
        _ => InstrV::NormalMode,
    }
}

/// Vi pending character-search sub-mode: only a single-character text token
/// completes the motion; anything else aborts to normal mode.
pub open spec fn vi_move_char_spec(mt: CharMoveType, t: TokenV) -> InstrV {
    match t {
        TokenV::Text(cs) => if cs.len() == 1 {
            match mt {
                CharMoveType::BeforeLeft => InstrV::MoveBeforeCharLeft(cs[0]),
                CharMoveType::BeforeRight => InstrV::MoveBeforeCharRight(cs[0]),
                CharMoveType::Left => InstrV::MoveCharLeft(cs[0]),
                CharMoveType::Right => InstrV::MoveCharRight(cs[0]),
            }
        } else {
            InstrV::NormalMode
        },
        _ => InstrV::NormalMode,
    }
}

/// Vi pending delete operator: deliberately a stub that reverts to normal
/// mode whatever arrives.
pub open spec fn vi_delete_spec(t: TokenV) -> InstrV {
    InstrV::NormalMode
}

/// The complete mode-conditioned interpretation of one token.
pub open spec fn interpret_spec(t: TokenV, edit_mode: EditMode, vi_mode: ViMode) -> InstrV {
    match edit_mode {
        EditMode::Emacs => emacs_spec(t),
        EditMode::Vi => match vi_mode {
            ViMode::Insert => vi_insert_spec(t),
            ViMode::Normal => vi_normal_spec(t),
            ViMode::Replace => vi_replace_spec(t),
            ViMode::MoveChar(mt) => vi_move_char_spec(mt, t),
            ViMode::Delete => vi_delete_spec(t),
        },
    }
}

/// The flat Emacs keymap; unmatched tokens are no-ops.
pub fn emacs_mode(token: Token) -> (r: Instr)
    ensures
        r@ == emacs_spec(token@),
{
    match token {
        Token::Enter => Instr::Done,
        Token::Backspace => Instr::DeleteCharLeftOfCursor,
        Token::CtrlH => Instr::DeleteCharLeftOfCursor,
        Token::EscBracket3T => Instr::DeleteCharRightOfCursor,
        Token::CtrlD => Instr::DeleteCharRightOfCursorOrEOF,
        Token::EscBracketA => Instr::HistoryPrev,
        Token::CtrlP => Instr::HistoryPrev,
        Token::EscBracketB => Instr::HistoryNext,
        Token::CtrlN => Instr::HistoryNext,
        Token::EscBracketC => Instr::MoveCursorRight,
        Token::CtrlF => Instr::MoveCursorRight,
        Token::EscBracketD => Instr::MoveCursorLeft,
        Token::CtrlB => Instr::MoveCursorLeft,
        Token::CtrlA => Instr::MoveCursorStart,
        Token::EscBracketH => Instr::MoveCursorStart,
        Token::CtrlE => Instr::MoveCursorEnd,
        Token::EscBracketF => Instr::MoveCursorEnd,
        Token::Text(text) => Instr::InsertAtCursor(text),
        Token::CtrlC => Instr::Cancel,
        Token::CtrlL => Instr::Clear,
        _ => Instr::Noop,
    }
}

/// The keys shared by all Vi sub-modes.
pub fn vi_common(token: &Token) -> (r: Instr)
    ensures
        r@ == vi_common_spec(token@),
{
    match token {
        Token::Enter => Instr::Done,
        Token::Esc => Instr::NormalMode,
        Token::Backspace => Instr::DeleteCharLeftOfCursor,
        Token::EscBracket3T => Instr::DeleteCharRightOfCursor,
        Token::CtrlD => Instr::DeleteCharRightOfCursorOrEOF,
        Token::EscBracketA => Instr::HistoryPrev,
        Token::EscBracketB => Instr::HistoryNext,
        Token::EscBracketC => Instr::MoveCursorRight,
        Token::EscBracketD => Instr::MoveCursorLeft,
        Token::EscBracketH => Instr::MoveCursorStart,
        Token::EscBracketF => Instr::MoveCursorEnd,
        Token::CtrlC => Instr::Cancel,
        Token::CtrlL => Instr::Clear,
        _ => Instr::Noop,
    }
}

/// Vi insert sub-mode.
pub fn vi_insert_mode(token: Token) -> (r: Instr)
    ensures
        r@ == vi_insert_spec(token@),
{
    match token {
        Token::Text(text) => Instr::InsertAtCursor(text),
        _ => vi_common(&token),
    }
}

/// The Vi normal-mode command table for one character.
fn vi_normal_char(c: char) -> (r: Instr)
    ensures
        r@ == vi_normal_char_spec(c),
{
    match c {
        'h' => Instr::MoveCursorLeft,
        'j' => Instr::HistoryNext,
        'k' => Instr::HistoryPrev,
        'l' => Instr::MoveCursorRight,
        '0' => Instr::Digit(0),
        '$' => Instr::MoveCursorEnd,
        'x' => Instr::DeleteCharRightOfCursor,
        's' => Instr::Substitute,
        'r' => Instr::ReplaceMode,
        'd' => Instr::DeleteMode,
        'e' => Instr::MoveEndOfWordRight,
        'E' => Instr::MoveEndOfWordWsRight,
        'w' => Instr::MoveWordRight,
        'W' => Instr::MoveWordWsRight,
        'b' => Instr::MoveWordLeft,
        'B' => Instr::MoveWordWsLeft,
        't' => Instr::MoveCharMode(CharMoveType::BeforeRight),
        'T' => Instr::MoveCharMode(CharMoveType::BeforeLeft),
        'f' => Instr::MoveCharMode(CharMoveType::Right),
        'F' => Instr::MoveCharMode(CharMoveType::Left),
        'a' => Instr::Append,
        'A' => Instr::AppendEnd,
        'i' => Instr::Insert,
        'I' => Instr::InsertStart,
        '1' => Instr::Digit(1),
        '2' => Instr::Digit(2),
        '3' => Instr::Digit(3),
        '4' => Instr::Digit(4),
        '5' => Instr::Digit(5),
        '6' => Instr::Digit(6),
        '7' => Instr::Digit(7),
        '8' => Instr::Digit(8),
        '9' => Instr::Digit(9),
        _ => Instr::Noop,
    }
}

/// Vi normal sub-mode.
pub fn vi_normal_mode(token: Token) -> (r: Instr)
    ensures
        r@ == vi_normal_spec(token@),
{
    match token {
        Token::Text(text) => {
            if text.as_str().unicode_len() == 1 {
                let c = text.as_str().get_char(0);
                vi_normal_char(c)
            } else {
                Instr::Noop
            }
        },
        _ => vi_common(&token),
    }
}

/// Vi replace sub-mode.
pub fn vi_replace_mode(token: Token) -> (r: Instr)
    ensures
        r@ == vi_replace_spec(token@),
{
    match token {
        Token::Text(text) => Instr::ReplaceAtCursor(text),
        _ => Instr::NormalMode,
    }
}

/// Vi pending character-search sub-mode.
pub fn vi_move_char_mode(move_type: CharMoveType, token: Token) -> (r: Instr)
    ensures
        r@ == vi_move_char_spec(move_type, token@),
{
    match token {
        Token::Text(text) => {
            if text.as_str().unicode_len() == 1 {
                let c = text.as_str().get_char(0);
                match move_type {
                    CharMoveType::BeforeLeft => Instr::MoveBeforeCharLeft(c),
                    CharMoveType::BeforeRight => Instr::MoveBeforeCharRight(c),
                    CharMoveType::Left => Instr::MoveCharLeft(c),
                    CharMoveType::Right => Instr::MoveCharRight(c),
                }
            } else {
                Instr::NormalMode
            }
        },
        _ => Instr::NormalMode,
    }
}

/// Vi pending delete operator: a stub that reverts to normal mode.
pub fn vi_delete_mode(token: Token) -> (r: Instr)
    ensures
        r@ == vi_delete_spec(token@),
{
    Instr::NormalMode
}

/// Maps one token to an abstract instruction under the given modal state;
/// pure, with every keybinding pinned by [`interpret_spec`].
pub fn interpret_token(token: Token, edit_mode: EditMode, vi_mode: ViMode) -> (r: Instr)
    ensures
        r@ == interpret_spec(token@, edit_mode, vi_mode),
{
    match edit_mode {
        EditMode::Emacs => emacs_mode(token),
        EditMode::Vi => match vi_mode {
            ViMode::Insert => vi_insert_mode(token),
            ViMode::Normal => vi_normal_mode(token),
            ViMode::Replace => vi_replace_mode(token),
            ViMode::MoveChar(move_type) => vi_move_char_mode(move_type, token),
            ViMode::Delete => vi_delete_mode(token),
        },
    }
}

} // verus!
