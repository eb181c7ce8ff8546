//! The append-only store of submitted lines, and the per-session navigation
//! cursor over it.

use vstd::prelude::*;

verus! {

/// The append-ordered sequence of submitted lines; no deduplication.  Owned
/// by the application, outliving individual edit sessions, and mutated only
/// by `push`, `remove` and `clear`.
pub struct History {
    entries: Vec<String>,
}

impl View for History {
    type V = Seq<Seq<char>>;

    closed spec fn view(&self) -> Seq<Seq<char>> {
        self.entries.deep_view()
    }
}

impl History {
    /// An empty history.
    pub fn new() -> (r: History)
        ensures
            r@ =~= Seq::<Seq<char>>::empty(),
    {
        History { entries: Vec::new() }
    }

    /// The number of stored lines.
    pub fn len(&self) -> (r: usize)
        ensures
            r == self@.len(),
    {
        self.entries.len()
    }

    /// Appends a line; its index is the previous length.
    pub fn push(&mut self, line: String)
        ensures
            final(self)@ =~= old(self)@.push(line@),
    {
        self.entries.push(line);
    }

    /// The line at the given index, or none when out of range.
    pub fn get(&self, idx: usize) -> (r: Option<&String>)
        ensures
            idx < self@.len() ==> (r matches Some(s) && s@ == self@[idx as int]),
            idx >= self@.len() ==> r is None,
    {
        if idx < self.entries.len() {
            Some(&self.entries[idx])
        } else {
            None
        }
    }

    /// Removes and returns the line at the given index, or none when out of
    /// range; later lines shift down by one.
    pub fn remove(&mut self, idx: usize) -> (r: Option<String>)
        ensures
            idx < old(self)@.len() ==> (r matches Some(s) && s@ == old(self)@[idx as int]
                && final(self)@ =~= old(self)@.remove(idx as int)),
            idx >= old(self)@.len() ==> (r is None && final(self)@ =~= old(self)@),
    {
        if idx < self.entries.len() {
            Some(self.entries.remove(idx))
        } else {
            None
        }
    }

    /// Removes every line.
    pub fn clear(&mut self)
        ensures
            final(self)@ =~= Seq::<Seq<char>>::empty(),
    {
        self.entries.clear();
    }
}

/// A per-session navigation pointer into a history: either at the live
/// (in-progress) line, or at an offset `k` meaning the `k`-th most recent
/// submitted line.
pub struct Cursor {
    offset: Option<usize>,
}

impl View for Cursor {
    type V = Option<int>;

    closed spec fn view(&self) -> Option<int> {
        match self.offset {
            Some(k) => Some(k as int),
            None => None,
        }
    }
}

impl Cursor {
    /// The cursor invariant relative to the history it navigates: any
    /// offset is in bounds.
    pub open spec fn wf(&self, h: &History) -> bool {
        match self@ {
            Some(k) => 0 <= k < h@.len(),
            None => true,
        }
    }

    /// A cursor at the live position.
    pub fn new() -> (r: Cursor)
        ensures
            r@ is None,
    {
        Cursor { offset: None }
    }

    /// True at the live (in-progress) position.
    pub fn is_live(&self) -> (r: bool)
        ensures
            r == (self@ is None),
    {
        match self.offset {
            None => true,
            Some(_) => false,
        }
    }

    /// Steps one entry older, clamping at the oldest line: at the boundary
    /// (or on an empty history) it returns false and leaves the offset
    /// unchanged; otherwise it returns true.
    pub fn incr(&mut self, h: &History) -> (moved: bool)
        requires
            old(self).wf(h),
        ensures
            final(self).wf(h),
            match old(self)@ {
                None => if h@.len() > 0 {
                    moved && final(self)@ == Some(0int)
                } else {
                    !moved && final(self)@ == old(self)@
                },
                Some(k) => if k + 1 < h@.len() {
                    moved && final(self)@ == Some(k + 1)
                } else {
                    !moved && final(self)@ == old(self)@
                },
            },
    {
        match self.offset {
            None => {
                if h.len() > 0 {
                    self.offset = Some(0);
                    true
                } else {
                    false
                }
            },
            Some(k) => {
                let n = h.len();
                proof {
                    assert(k < n);
                }
                if k + 1 < n {
                    self.offset = Some(k + 1);
                    true
                } else {
                    false
                }
            },
        }
    }

    /// Steps one entry newer, toward the live position: at the live
    /// boundary it returns false and leaves the offset unchanged; from
    /// offset zero it returns to the live position.
    pub fn decr(&mut self, h: &History) -> (moved: bool)
        requires
            old(self).wf(h),
        ensures
            final(self).wf(h),
            match old(self)@ {
                None => !moved && final(self)@ == old(self)@,
                Some(k) => moved && final(self)@ == if k == 0 {
                    None::<int>
                } else {
                    Some(k - 1)
                },
            },
    {
        match self.offset {
            None => false,
            Some(k) => {
                if k == 0 {
                    self.offset = None;
                } else {
                    self.offset = Some(k - 1);
                }
                true
            },
        }
    }

    /// The entry text at the current offset (offset `k` is the `k`-th most
    /// recent line), or none at the live position.
    pub fn get<'a>(&self, h: &'a History) -> (r: Option<&'a String>)
        requires
            self.wf(h),
        ensures
            match self@ {
                Some(k) => r matches Some(s) && s@ == h@[h@.len() - 1 - k],
                None => r is None,
            },
    {
        match self.offset {
            None => None,
            Some(k) => h.get(h.len() - 1 - k),
        }
    }
}

} // verus!
