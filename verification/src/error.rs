use vstd::prelude::*;

verus! {

/// The error taxonomy of the line editor.
///
/// Every fallible operation of the library and of its drivers reports one of
/// these variants; there is no control flow by panic in verified code.
#[derive(Clone, Copy, Debug, PartialEq, Eq, Structural)]
pub enum Error {
    /// An operating-system I/O failure, carrying the raw `errno` value
    /// reported by the failing call.
    ErrNo(i32),
    /// The user aborted the edit explicitly (Ctrl-C).
    Cancel,
    /// The input stream is exhausted, or Ctrl-D was pressed on an empty
    /// buffer.
    EndOfFile,
    /// The terminal precheck failed: not a TTY, or a terminal type the
    /// editor does not drive.
    UnsupportedTerm,
    /// A malformed byte sequence was presented as text. This is a hard stop
    /// for the session, not a skip-one-byte recovery.
    InvalidUTF8,
    /// A malformed cursor-position reply arrived on the input stream.
    ParseError,
}

impl Error {
    /// A short human-readable description of the error.
    pub fn describe(&self) -> (r: &'static str)
        ensures
            r@.len() > 0,
    {
        proof {
            reveal_strlit("operating system error");
            reveal_strlit("cancelled");
            reveal_strlit("end of file");
            reveal_strlit("unsupported terminal type");
            reveal_strlit("invalid UTF-8 input");
            reveal_strlit("malformed cursor position reply");
        }
        match self {
            Error::ErrNo(_) => "operating system error",
            Error::Cancel => "cancelled",
            Error::EndOfFile => "end of file",
            Error::UnsupportedTerm => "unsupported terminal type",
            Error::InvalidUTF8 => "invalid UTF-8 input",
            Error::ParseError => "malformed cursor position reply",
        }
    }
}

} // verus!
