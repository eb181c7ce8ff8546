//! The edit-session state machine: modes, the session context, and the
//! incremental fill/step driver.
//!
//! A session is an in-memory value object.  [`EditCtx::fill`] feeds one
//! input byte and applies any resulting instruction immediately; [`edit`]
//! reports either the bytes to write before awaiting more input, or the
//! session's terminal result.  A host owning its own I/O loop drives these
//! two calls; no I/O happens here.

use vstd::prelude::*;
use vstd::string::StringExecFns;

use crate::buffer::{buf_wf, char_left_v, char_right_v, delete_left_v, delete_right_v, insert_v,
    move_end_v, move_left_v, move_right_v, move_start_v, render_line, replace_all_v, replace_at_v,
    swap_v, word_end_right_v, word_left_v, word_right_v, BufView, Buffer};
use crate::error::Error;
use crate::history::{Cursor, History};
use crate::instr::{interpret_spec, interpret_token, CharMoveType, Instr, InstrV};
use crate::parser::{classify, parse, Encoding, ParseResult, ParseV};

verus! {

/// The top-level keybinding philosophy of a session.
#[derive(Clone, Copy, Debug, PartialEq, Eq, Structural)]
pub enum EditMode {
    Emacs,
    Vi,
}

/// Vi's internal sub-state machine.
///
/// `MoveChar` waits for the target character of a pending `t`/`T`/`f`/`F`
/// motion; `Delete` is the pending delete operator, an unspecified
/// extension point whose completion is deliberately a no-op.
#[derive(Clone, Copy, Debug, PartialEq, Eq, Structural)]
pub enum ViMode {
    Insert,
    Normal,
    Replace,
    MoveChar(CharMoveType),
    Delete,
}

/// Session progress: still editing, finished with a line, or stopped by an
/// error.  Terminal states are final; sessions are single-use.
#[derive(Debug, PartialEq, Eq)]
pub enum Status {
    Active,
    Done(String),
    Failed(Error),
}

/// The mathematical image of a [`Status`].
#[verifier::ext_equal]
pub ghost enum StatusV {
    Active,
    Done(Seq<char>),
    Failed(Error),
}

impl View for Status {
    type V = StatusV;

    open spec fn view(&self) -> StatusV {
        match self {
            Status::Active => StatusV::Active,
            Status::Done(s) => StatusV::Done(s@),
            Status::Failed(e) => StatusV::Failed(*e),
        }
    }
}

/// What one driver step asks of the host: write these bytes and await more
/// input, or stop with the session's result.
#[derive(Debug)]
pub enum EditResult {
    Cont(Vec<u8>),
    Halt(Result<String, Error>),
}

/// The mathematical state of a session.
#[verifier::ext_equal]
pub ghost struct CtxV {
    pub buf: BufView,
    pub hist: Seq<Seq<char>>,
    pub hoff: Option<int>,
    pub mode: EditMode,
    pub vi: ViMode,
    pub count: u32,
    pub seq: Seq<u8>,
    pub status: StatusV,
    pub clear: bool,
    pub prompt: Seq<char>,
    pub enc: Encoding,
}

/// One saturating step of the Vi repeat-count accumulator: a new digit is
/// appended in decimal, capping at `u32::MAX` instead of overflowing.
pub open spec fn sat_digit(c: u32, d: u32) -> u32 {
    if c * 10 + d > u32::MAX {
        u32::MAX
    } else {
        (c * 10 + d) as u32
    }
}

fn sat_digit_exec(c: u32, d: u32) -> (r: u32)
    ensures
        r == sat_digit(c, d),
{
    let wide: u64 = (c as u64) * 10 + (d as u64);
    if wide > u32::MAX as u64 {
        u32::MAX
    } else {
        wide as u32
    }
}

/// History recall one step older: on the transition away from the live
/// line the in-progress edit is saved by a buffer swap; the recalled entry
/// replaces the line; at the oldest entry nothing changes.
pub open spec fn hist_prev_v(v: CtxV) -> CtxV {
    let n = v.hist.len() as int;
    match v.hoff {
        None => if n > 0 {
            CtxV { hoff: Some(0), buf: replace_all_v(swap_v(v.buf), v.hist[n - 1]), ..v }
        } else {
            v
        },
        Some(k) => if k + 1 < n {
            CtxV { hoff: Some(k + 1), buf: replace_all_v(v.buf, v.hist[n - 2 - k]), ..v }
        } else {
            v
        },
    }
}

/// History recall one step newer: the transition back to the live line
/// restores the saved in-progress edit by a buffer swap; at the live line
/// nothing changes.
pub open spec fn hist_next_v(v: CtxV) -> CtxV {
    let n = v.hist.len() as int;
    match v.hoff {
        None => v,
        Some(k) => if k == 0 {
            CtxV { hoff: None, buf: swap_v(v.buf), ..v }
        } else {
            CtxV { hoff: Some(k - 1), buf: replace_all_v(v.buf, v.hist[n - k]), ..v }
        },
    }
}

/// The complete effect of one abstract instruction on a session.
///
/// Every instruction except `Digit` resets the repeat-count accumulator;
/// `Done`, `Cancel` and Ctrl-D on an empty buffer are terminal; the
/// mode-entry instructions switch `ViMode` and touch nothing else.
pub open spec fn apply_v(v: CtxV, iv: InstrV) -> CtxV {
    let v0 = CtxV { count: 0, ..v };
    match iv {
        InstrV::MoveCursorLeft => CtxV { buf: move_left_v(v.buf), ..v0 },
        InstrV::MoveCursorRight => CtxV { buf: move_right_v(v.buf), ..v0 },
        InstrV::MoveCursorStart => CtxV { buf: move_start_v(v.buf), ..v0 },
        InstrV::MoveCursorEnd => CtxV { buf: move_end_v(v.buf), ..v0 },
        InstrV::MoveEndOfWordRight => CtxV { buf: word_end_right_v(v.buf, false), ..v0 },
        InstrV::MoveEndOfWordWsRight => CtxV { buf: word_end_right_v(v.buf, true), ..v0 },
        InstrV::MoveWordRight => CtxV { buf: word_right_v(v.buf, false), ..v0 },
        InstrV::MoveWordWsRight => CtxV { buf: word_right_v(v.buf, true), ..v0 },
        InstrV::MoveWordLeft => CtxV { buf: word_left_v(v.buf, false), ..v0 },
        InstrV::MoveWordWsLeft => CtxV { buf: word_left_v(v.buf, true), ..v0 },
        InstrV::MoveCharRight(c) => CtxV {
            buf: char_right_v(v.buf, c, true),
            vi: ViMode::Normal,
            ..v0
        },
        InstrV::MoveCharLeft(c) => CtxV {
            buf: char_left_v(v.buf, c, true),
            vi: ViMode::Normal,
            ..v0
        },
        InstrV::MoveBeforeCharRight(c) => CtxV {
            buf: char_right_v(v.buf, c, false),
            vi: ViMode::Normal,
            ..v0
        },
        InstrV::MoveBeforeCharLeft(c) => CtxV {
            buf: char_left_v(v.buf, c, false),
            vi: ViMode::Normal,
            ..v0
        },
        InstrV::DeleteCharLeftOfCursor => CtxV { buf: delete_left_v(v.buf), ..v0 },
        InstrV::DeleteCharRightOfCursor => CtxV { buf: delete_right_v(v.buf), ..v0 },
        InstrV::DeleteCharRightOfCursorOrEOF => if v.buf.chars.len() == 0 {
            CtxV { status: StatusV::Failed(Error::EndOfFile), ..v0 }
        } else {
            CtxV { buf: delete_right_v(v.buf), ..v0 }
        },
        InstrV::Substitute => CtxV { buf: delete_right_v(v.buf), vi: ViMode::Insert, ..v0 },
        InstrV::InsertAtCursor(text) => CtxV { buf: insert_v(v.buf, text), ..v0 },
        InstrV::ReplaceAtCursor(text) => CtxV {
            buf: replace_at_v(v.buf, text),
            vi: ViMode::Normal,
            ..v0
        },
        InstrV::HistoryPrev => hist_prev_v(v0),
        InstrV::HistoryNext => hist_next_v(v0),
        InstrV::Insert => CtxV { vi: ViMode::Insert, ..v0 },
        InstrV::InsertStart => CtxV { buf: move_start_v(v.buf), vi: ViMode::Insert, ..v0 },
        InstrV::Append => CtxV { buf: move_right_v(v.buf), vi: ViMode::Insert, ..v0 },
        InstrV::AppendEnd => CtxV { buf: move_end_v(v.buf), vi: ViMode::Insert, ..v0 },
        InstrV::NormalMode => CtxV { vi: ViMode::Normal, ..v0 },
        InstrV::ReplaceMode => CtxV { vi: ViMode::Replace, ..v0 },
        InstrV::MoveCharMode(t) => CtxV { vi: ViMode::MoveChar(t), ..v0 },
        InstrV::DeleteMode => CtxV { vi: ViMode::Delete, ..v0 },
        InstrV::Digit(d) => CtxV { count: sat_digit(v.count, d), ..v },
        InstrV::Done => CtxV { status: StatusV::Done(v.buf.chars), ..v0 },
        InstrV::Cancel => CtxV { status: StatusV::Failed(Error::Cancel), ..v0 },
        InstrV::Clear => CtxV { clear: true, ..v0 },
        InstrV::Noop => v0,
    }
}

/// The complete effect of feeding one byte: a halted session ignores input;
/// otherwise the extended accumulation buffer is classified, and yields
/// nothing yet, an invalid-input stop, or one applied instruction.
pub open spec fn fill_v(v: CtxV, b: u8) -> CtxV {
    if !(v.status is Active) {
        v
    } else {
        let s2 = v.seq.push(b);
        match classify(s2, v.enc) {
            ParseV::Incomplete => CtxV { seq: s2, ..v },
            ParseV::Invalid => CtxV {
                seq: Seq::<u8>::empty(),
                status: StatusV::Failed(Error::InvalidUTF8),
                ..v
            },
            ParseV::Tok(t) => apply_v(
                CtxV { seq: Seq::<u8>::empty(), ..v },
                interpret_spec(t, v.mode, v.vi),
            ),
        }
    }
}

/// The clear-screen directive emitted before the prompt line after Ctrl-L.
pub open spec fn clear_screen_seq() -> Seq<u8> {
    seq![0x1bu8, 0x5bu8, 0x48u8, 0x1bu8, 0x5bu8, 0x32u8, 0x4au8]
}

/// Law: the repeat-count accumulator saturates deterministically — after
/// any digit it holds exactly the capped decimal extension of what it held,
/// so arbitrarily long digit runs never overflow or wrap.
pub proof fn lemma_digit_accumulator_saturates(v: CtxV, d: u32)
    ensures
        apply_v(v, InstrV::Digit(d)).count == sat_digit(v.count, d),
        sat_digit(v.count, d) <= u32::MAX,
        v.count * 10 + d <= u32::MAX ==> sat_digit(v.count, d) == v.count * 10 + d,
        v.count * 10 + d > u32::MAX ==> sat_digit(v.count, d) == u32::MAX,
{
}

/// One edit session: buffer, history cursor, modal state, pending input
/// bytes, and progress.  Bound to a history it does not own.
pub struct EditCtx<'a> {
    buffer: Buffer,
    history: &'a History,
    hcursor: Cursor,
    prompt: String,
    enc: Encoding,
    mode: EditMode,
    vi_mode: ViMode,
    count: u32,
    seq: Vec<u8>,
    status: Status,
    clear_pending: bool,
}

impl<'a> View for EditCtx<'a> {
    type V = CtxV;

    closed spec fn view(&self) -> CtxV {
        CtxV {
            buf: self.buffer@,
            hist: self.history@,
            hoff: self.hcursor@,
            mode: self.mode,
            vi: self.vi_mode,
            count: self.count,
            seq: self.seq@,
            status: self.status@,
            clear: self.clear_pending,
            prompt: self.prompt@,
            enc: self.enc,
        }
    }
}

impl<'a> EditCtx<'a> {
    /// The session invariant: the buffer cursor is in bounds and the
    /// history offset, if any, points at a stored line.
    pub open spec fn wf(&self) -> bool {
        buf_wf(self@.buf) && (match self@.hoff {
            Some(k) => 0 <= k < self@.hist.len(),
            None => true,
        })
    }

    /// A fresh session over the given history: empty buffer, live history
    /// position, empty accumulation buffer, active, and — under Vi — the
    /// insert sub-mode.
    pub fn new(prompt: &str, history: &'a History, enc: Encoding, mode: EditMode) -> (r: EditCtx<
        'a,
    >)
        ensures
            r@ == (CtxV {
                buf: BufView { chars: Seq::<char>::empty(), cursor: 0, held: Seq::<char>::empty() },
                hist: history@,
                hoff: None,
                mode: mode,
                vi: ViMode::Insert,
                count: 0,
                seq: Seq::<u8>::empty(),
                status: StatusV::Active,
                clear: false,
                prompt: prompt@,
                enc: enc,
            }),
            r.wf(),
    {
        EditCtx {
            buffer: Buffer::new(),
            history,
            hcursor: Cursor::new(),
            prompt: String::from_str(prompt),
            enc,
            mode,
            vi_mode: ViMode::Insert,
            count: 0,
            seq: Vec::new(),
            status: Status::Active,
            clear_pending: false,
        }
    }

    /// Applies one abstract instruction to the session.
    fn apply_instr(&mut self, instr: Instr)
        requires
            old(self).wf(),
        ensures
            final(self)@ == apply_v(old(self)@, instr@),
            final(self).wf(),
    {
        match &instr {
            Instr::Digit(_) => {},
            _ => {
                self.count = 0;
            },
        }
        match instr {
            Instr::MoveCursorLeft => self.buffer.move_left(),
            Instr::MoveCursorRight => self.buffer.move_right(),
            Instr::MoveCursorStart => self.buffer.move_start(),
            Instr::MoveCursorEnd => self.buffer.move_end(),
            Instr::MoveEndOfWordRight => self.buffer.move_word_end_right(false),
            Instr::MoveEndOfWordWsRight => self.buffer.move_word_end_right(true),
            Instr::MoveWordRight => self.buffer.move_word_right(false),
            Instr::MoveWordWsRight => self.buffer.move_word_right(true),
            Instr::MoveWordLeft => self.buffer.move_word_left(false),
            Instr::MoveWordWsLeft => self.buffer.move_word_left(true),
            Instr::MoveCharRight(c) => {
                self.buffer.move_to_char_right(c, true);
                self.vi_mode = ViMode::Normal;
            },
            Instr::MoveCharLeft(c) => {
                self.buffer.move_to_char_left(c, true);
                self.vi_mode = ViMode::Normal;
            },
            Instr::MoveBeforeCharRight(c) => {
                self.buffer.move_to_char_right(c, false);
                self.vi_mode = ViMode::Normal;
            },
            Instr::MoveBeforeCharLeft(c) => {
                self.buffer.move_to_char_left(c, false);
                self.vi_mode = ViMode::Normal;
            },
            Instr::DeleteCharLeftOfCursor => self.buffer.delete_char_left_of_cursor(),
            Instr::DeleteCharRightOfCursor => self.buffer.delete_char_right_of_cursor(),
            Instr::DeleteCharRightOfCursorOrEOF => {
                let eof = self.buffer.delete_char_right_of_cursor_or_eof();
                if eof {
                    self.status = Status::Failed(Error::EndOfFile);
                }
            },
            Instr::Substitute => {
                self.buffer.substitute();
                self.vi_mode = ViMode::Insert;
            },
            Instr::InsertAtCursor(text) => self.buffer.insert_at_cursor(&text),
            Instr::ReplaceAtCursor(text) => {
                self.buffer.replace_at_cursor(&text);
                self.vi_mode = ViMode::Normal;
            },
            Instr::HistoryPrev => {
                let h = self.history;
                let was_live = self.hcursor.is_live();
                if self.hcursor.incr(h) {
                    if was_live {
                        self.buffer.swap();
                    }
                    match self.hcursor.get(h) {
                        Some(s) => self.buffer.replace(s),
                        None => {},
                    }
                }
            },
            Instr::HistoryNext => {
                let h = self.history;
                if self.hcursor.decr(h) {
                    if self.hcursor.is_live() {
                        self.buffer.swap();
                    } else {
                        match self.hcursor.get(h) {
                            Some(s) => self.buffer.replace(s),
                            None => {},
                        }
                    }
                }
            },
            Instr::Insert => {
                self.vi_mode = ViMode::Insert;
            },
            Instr::InsertStart => {
                self.buffer.move_start();
                self.vi_mode = ViMode::Insert;
            },
            Instr::Append => {
                self.buffer.move_right();
                self.vi_mode = ViMode::Insert;
            },
            Instr::AppendEnd => {
                self.buffer.move_end();
                self.vi_mode = ViMode::Insert;
            },
            Instr::NormalMode => {
                self.vi_mode = ViMode::Normal;
            },
            Instr::ReplaceMode => {
                self.vi_mode = ViMode::Replace;
            },
            Instr::MoveCharMode(t) => {
                self.vi_mode = ViMode::MoveChar(t);
            },
            Instr::DeleteMode => {
                self.vi_mode = ViMode::Delete;
            },
            Instr::Digit(d) => {
                self.count = sat_digit_exec(self.count, d);
            },
            Instr::Done => {
                self.status = Status::Done(self.buffer.to_string());
            },
            Instr::Cancel => {
                self.status = Status::Failed(Error::Cancel);
            },
            Instr::Clear => {
                self.clear_pending = true;
            },
            Instr::Noop => {},
        }
    }

    /// Feeds one input byte and applies any resulting instruction
    /// immediately; a halted session ignores further input.
    pub fn fill(&mut self, byte: u8)
        requires
            old(self).wf(),
        ensures
            final(self)@ == fill_v(old(self)@, byte),
            final(self).wf(),
    {
        match &self.status {
            Status::Active => {},
            _ => {
                return ;
            },
        }
        self.seq.push(byte);
        let r = parse(self.seq.as_slice(), self.enc);
        match r {
            ParseResult::Incomplete => {},
            ParseResult::Error => {
                self.seq.clear();
                self.status = Status::Failed(Error::InvalidUTF8);
            },
            ParseResult::Success(tok) => {
                self.seq.clear();
                let instr = interpret_token(tok, self.mode, self.vi_mode);
                self.apply_instr(instr);
            },
        }
    }
}

/// One driver step: a finished session halts with its result (left in
/// place, sessions being single-use but their outcome re-readable); an
/// active session yields the bytes to write — a pending clear-screen
/// directive, then the rendered prompt line — and awaits more input.
pub fn edit<'a>(ctx: &mut EditCtx<'a>) -> (r: EditResult)
    requires
        old(ctx).wf(),
    ensures
        final(ctx).wf(),
        match old(ctx)@.status {
            StatusV::Done(s) => (r matches EditResult::Halt(res) && res matches Ok(line) && line@
                == s) && final(ctx)@ == old(ctx)@,
            StatusV::Failed(e) => (r matches EditResult::Halt(res) && res matches Err(e2) && e2
                == e) && final(ctx)@ == old(ctx)@,
            StatusV::Active => (r matches EditResult::Cont(bytes) && bytes@ == (if old(ctx)@.clear {
                clear_screen_seq()
            } else {
                Seq::<u8>::empty()
            }) + render_line(old(ctx)@.prompt, old(ctx)@.buf)) && final(ctx)@ == (CtxV {
                clear: false,
                ..old(ctx)@
            }),
        },
{
    match &ctx.status {
        Status::Done(s) => {
            return EditResult::Halt(Ok(s.clone()));
        },
        Status::Failed(e) => {
            return EditResult::Halt(Err(*e));
        },
        Status::Active => {},
    }
    let mut bytes: Vec<u8> = Vec::new();
    if ctx.clear_pending {
        bytes.push(0x1b);
        bytes.push(0x5b);
        bytes.push(0x48);
        bytes.push(0x1b);
        bytes.push(0x5b);
        bytes.push(0x32);
        bytes.push(0x4a);
        ctx.clear_pending = false;
        proof {
            assert(bytes@ =~= clear_screen_seq());
        }
    }
    let mut line = ctx.buffer.get_line(ctx.prompt.as_str());
    bytes.append(&mut line);
    proof {
        assert(bytes@ =~= (if old(ctx)@.clear {
            clear_screen_seq()
        } else {
            Seq::<u8>::empty()
        }) + render_line(old(ctx)@.prompt, old(ctx)@.buf));
    }
    EditResult::Cont(bytes)
}

} // verus!
