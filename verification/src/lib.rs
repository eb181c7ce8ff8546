//! An embeddable interactive line-editing engine.
//!
//! The crate tokenizes raw terminal input incrementally (control keys, ANSI
//! escape sequences, UTF-8 text), maps tokens to abstract edit instructions
//! under Emacs or Vi keybindings, applies them to a UTF-8-correct text buffer
//! with a character-indexed cursor, and navigates an append-only history of
//! submitted lines without losing in-progress edits.  The edit session is an
//! in-memory state machine that a host drives incrementally; raw-mode
//! configuration and the byte transport live outside the library.

use vstd::prelude::*;

pub mod buffer;
mod chars;
pub mod edit;
pub mod error;
pub mod history;
pub mod instr;
pub mod parser;

pub use error::Error;

use history::History;

verus! {

/// The embeddable line editor: a submitted-line history together with the
/// raw file descriptors a blocking host reads from and writes to.
///
/// The descriptors are held as plain values; all reading and writing on
/// them is the host's business.
pub struct Copperline {
    history: History,
    ifd: i32,
    ofd: i32,
}

/// The mathematical state of a [`Copperline`]: the stored lines and the
/// two descriptors.
#[verifier::ext_equal]
pub ghost struct CopperlineV {
    pub hist: Seq<Seq<char>>,
    pub ifd: i32,
    pub ofd: i32,
}

impl View for Copperline {
    type V = CopperlineV;

    closed spec fn view(&self) -> CopperlineV {
        CopperlineV { hist: self.history@, ifd: self.ifd, ofd: self.ofd }
    }
}

impl Copperline {
    /// An editor with empty history over the given raw file descriptors.
    pub fn new_from_raw_fds(ifd: i32, ofd: i32) -> (r: Copperline)
        ensures
            r@ == (CopperlineV { hist: Seq::<Seq<char>>::empty(), ifd: ifd, ofd: ofd }),
    {
        Copperline { history: History::new(), ifd, ofd }
    }

    /// The descriptor a blocking driver reads input bytes from.
    pub fn input_fd(&self) -> (r: i32)
        ensures
            r == self@.ifd,
    {
        self.ifd
    }

    /// The descriptor a blocking driver writes rendered lines to.
    pub fn output_fd(&self) -> (r: i32)
        ensures
            r == self@.ofd,
    {
        self.ofd
    }

    /// The history, for binding an edit session to it.
    pub fn history(&self) -> (r: &History)
        ensures
            r@ == self@.hist,
    {
        &self.history
    }

    /// The number of stored history lines.
    pub fn get_current_history_length(&self) -> (r: usize)
        ensures
            r == self@.hist.len(),
    {
        self.history.len()
    }

    /// Appends a submitted line to the history.
    pub fn add_history(&mut self, line: String)
        ensures
            final(self)@ =~= (CopperlineV {
                hist: old(self)@.hist.push(line@),
                ..old(self)@
            }),
    {
        self.history.push(line)
    }

    /// The history line at the given index, or none when out of range.
    pub fn get_history_item(&self, idx: usize) -> (r: Option<&String>)
        ensures
            idx < self@.hist.len() ==> (r matches Some(s) && s@ == self@.hist[idx as int]),
            idx >= self@.hist.len() ==> r is None,
    {
        self.history.get(idx)
    }

    /// Removes and returns the history line at the given index, or none
    /// when out of range.
    pub fn remove_history_item(&mut self, idx: usize) -> (r: Option<String>)
        ensures
            idx < old(self)@.hist.len() ==> (r matches Some(s) && s@ == old(self)@.hist[idx as int]
                && final(self)@ =~= (CopperlineV {
                hist: old(self)@.hist.remove(idx as int),
                ..old(self)@
            })),
            idx >= old(self)@.hist.len() ==> (r is None && final(self)@ =~= old(self)@),
    {
        self.history.remove(idx)
    }

    /// Removes every history line.
    pub fn clear_history(&mut self)
        ensures
            final(self)@ =~= (CopperlineV { hist: Seq::<Seq<char>>::empty(), ..old(self)@ }),
    {
        self.history.clear()
    }
}

} // verus!
