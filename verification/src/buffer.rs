//! The UTF-8-correct text buffer: line content plus a cursor expressed as a
//! character index, never a byte offset.
//!
//! Every motion and edit is pinned to a mathematical transition on
//! [`BufView`]; the cursor invariant `0 <= cursor <= chars.len()` is
//! established by the constructor and preserved by every method.

use vstd::prelude::*;
use vstd::string::StrSliceExecFns;
use vstd::utf8::*;

use crate::chars::push_char;

verus! {

broadcast use vstd::string::group_string_axioms;

/// The mathematical state of a buffer: the live characters, the cursor as a
/// character index, and the held-aside copy used during history browsing.
#[verifier::ext_equal]
pub ghost struct BufView {
    pub chars: Seq<char>,
    pub cursor: int,
    pub held: Seq<char>,
}

/// The buffer invariant: the cursor is a valid character boundary.
pub open spec fn buf_wf(v: BufView) -> bool {
    0 <= v.cursor <= v.chars.len()
}

/// Whitespace for the purpose of word motions.
pub open spec fn is_ws_char(c: char) -> bool {
    c == ' ' || c == '\t'
}

/// A word constituent: ASCII alphanumeric or underscore.
pub open spec fn is_word_char(c: char) -> bool {
    (0x61 <= c as u32 && c as u32 <= 0x7a) || (0x41 <= c as u32 && c as u32 <= 0x5a) || (0x30
        <= c as u32 && c as u32 <= 0x39) || c == '_'
}

/// The three-way partition a word motion scans by, plus the whole
/// non-whitespace class used by the WS-word motions.
#[derive(Clone, Copy, Debug, PartialEq, Eq, Structural)]
pub enum CharClass {
    Ws,
    Word,
    Punct,
    NonWs,
}

/// Membership of a character in a scanning class.
pub open spec fn in_class(c: char, cls: CharClass) -> bool {
    match cls {
        CharClass::Ws => is_ws_char(c),
        CharClass::Word => is_word_char(c),
        CharClass::Punct => !is_ws_char(c) && !is_word_char(c),
        CharClass::NonWs => !is_ws_char(c),
    }
}

/// The run class a character belongs to: whitespace, word, or punctuation.
pub open spec fn class_of(c: char) -> CharClass {
    if is_ws_char(c) {
        CharClass::Ws
    } else if is_word_char(c) {
        CharClass::Word
    } else {
        CharClass::Punct
    }
}

/// The class a word motion runs over: the character's own run class, or the
/// whole non-whitespace class for the WS-word variants.
pub open spec fn run_class(c: char, ws_only: bool) -> CharClass {
    if ws_only {
        CharClass::NonWs
    } else {
        class_of(c)
    }
}

/// First index at or after `i` whose character leaves the class, or the end.
pub open spec fn scan_fwd_while(s: Seq<char>, i: int, cls: CharClass) -> int
    decreases s.len() - i,
    when 0 <= i <= s.len()
{
    if i >= s.len() {
        i
    } else if in_class(s[i], cls) {
        scan_fwd_while(s, i + 1, cls)
    } else {
        i
    }
}

/// First index at or before `i` such that every character between it and
/// `i` is in the class and the character before it (if any) is not.
pub open spec fn scan_bwd_while(s: Seq<char>, i: int, cls: CharClass) -> int
    decreases i,
    when 0 <= i <= s.len()
{
    if i <= 0 {
        0
    } else if in_class(s[i - 1], cls) {
        scan_bwd_while(s, i - 1, cls)
    } else {
        i
    }
}

/// First index at or after `i` holding `c`, or the end.
pub open spec fn find_fwd_from(s: Seq<char>, i: int, c: char) -> int
    decreases s.len() - i,
    when 0 <= i <= s.len()
{
    if i >= s.len() {
        i
    } else if s[i] == c {
        i
    } else {
        find_fwd_from(s, i + 1, c)
    }
}

/// Largest index strictly below `i` holding `c`, or `-1`.
pub open spec fn find_bwd_before(s: Seq<char>, i: int, c: char) -> int
    decreases i,
    when 0 <= i <= s.len()
{
    if i <= 0 {
        -1
    } else if s[i - 1] == c {
        i - 1
    } else {
        find_bwd_before(s, i - 1, c)
    }
}

proof fn lemma_scan_fwd_bounds(s: Seq<char>, i: int, cls: CharClass)
    requires
        0 <= i <= s.len(),
    ensures
        i <= scan_fwd_while(s, i, cls) <= s.len(),
    decreases s.len() - i,
{
    if i < s.len() && in_class(s[i], cls) {
        lemma_scan_fwd_bounds(s, i + 1, cls);
    }
}

/// Cursor left, clamped at the start.
pub open spec fn move_left_v(v: BufView) -> BufView {
    if v.cursor > 0 {
        BufView { cursor: v.cursor - 1, ..v }
    } else {
        v
    }
}

/// Cursor right, clamped at the end.
pub open spec fn move_right_v(v: BufView) -> BufView {
    if v.cursor < v.chars.len() {
        BufView { cursor: v.cursor + 1, ..v }
    } else {
        v
    }
}

/// Cursor to the start of the line.
pub open spec fn move_start_v(v: BufView) -> BufView {
    BufView { cursor: 0, ..v }
}

/// Cursor to the end of the line.
pub open spec fn move_end_v(v: BufView) -> BufView {
    BufView { cursor: v.chars.len() as int, ..v }
}

/// Cursor to the start of the next word: skip the rest of the current run
/// (if the cursor is on one), then the whitespace after it.
pub open spec fn word_right_v(v: BufView, ws_only: bool) -> BufView {
    let s = v.chars;
    let i = v.cursor;
    let j1 = if i < s.len() && !is_ws_char(s[i]) {
        scan_fwd_while(s, i, run_class(s[i], ws_only))
    } else {
        i
    };
    BufView { cursor: scan_fwd_while(s, j1, CharClass::Ws), ..v }
}

/// Cursor to the first character of the previous word: skip whitespace
/// backwards, then the run it lands in.
pub open spec fn word_left_v(v: BufView, ws_only: bool) -> BufView {
    let s = v.chars;
    let j1 = scan_bwd_while(s, v.cursor, CharClass::Ws);
    let j2 = if j1 > 0 {
        scan_bwd_while(s, j1, run_class(s[j1 - 1], ws_only))
    } else {
        0
    };
    BufView { cursor: j2, ..v }
}

/// Cursor to the last character of the next word: step right, skip
/// whitespace, then run to the end of the run landed in; a no-op when no
/// word remains to the right.
pub open spec fn word_end_right_v(v: BufView, ws_only: bool) -> BufView {
    let s = v.chars;
    let i = v.cursor;
    if i >= s.len() {
        v
    } else {
        let j1 = scan_fwd_while(s, i + 1, CharClass::Ws);
        if j1 >= s.len() {
            v
        } else {
            BufView { cursor: scan_fwd_while(s, j1, run_class(s[j1], ws_only)) - 1, ..v }
        }
    }
}

/// Cursor to the next occurrence of `c` to the right (inclusive lands on
/// it, exclusive one before it); a no-op when `c` is absent there.
pub open spec fn char_right_v(v: BufView, c: char, inclusive: bool) -> BufView {
    let s = v.chars;
    let i = v.cursor;
    if i >= s.len() {
        v
    } else {
        let t = find_fwd_from(s, i + 1, c);
        if t < s.len() {
            BufView { cursor: if inclusive { t } else { t - 1 }, ..v }
        } else {
            v
        }
    }
}

/// Cursor to the previous occurrence of `c` to the left (inclusive lands on
/// it, exclusive one after it); a no-op when `c` is absent there.
pub open spec fn char_left_v(v: BufView, c: char, inclusive: bool) -> BufView {
    let t = find_bwd_before(v.chars, v.cursor, c);
    if t >= 0 {
        BufView { cursor: if inclusive { t } else { t + 1 }, ..v }
    } else {
        v
    }
}

/// Removes the character left of the cursor, if any.
pub open spec fn delete_left_v(v: BufView) -> BufView {
    if v.cursor > 0 {
        BufView { chars: v.chars.remove(v.cursor - 1), cursor: v.cursor - 1, ..v }
    } else {
        v
    }
}

/// Removes the character at the cursor, if any.
pub open spec fn delete_right_v(v: BufView) -> BufView {
    if v.cursor < v.chars.len() {
        BufView { chars: v.chars.remove(v.cursor), ..v }
    } else {
        v
    }
}

/// Splices text at the cursor; the cursor advances past it.
pub open spec fn insert_v(v: BufView, text: Seq<char>) -> BufView {
    BufView {
        chars: v.chars.subrange(0, v.cursor) + text + v.chars.subrange(
            v.cursor,
            v.chars.len() as int,
        ),
        cursor: v.cursor + text.len(),
        ..v
    }
}

/// Overwrites exactly as many characters after the cursor as the text
/// holds, extending the line when it runs past the end; the cursor advances
/// past the text.
pub open spec fn replace_at_v(v: BufView, text: Seq<char>) -> BufView {
    let keep_from = if v.cursor + text.len() <= v.chars.len() {
        v.cursor + text.len()
    } else {
        v.chars.len() as int
    };
    BufView {
        chars: v.chars.subrange(0, v.cursor) + text + v.chars.subrange(
            keep_from,
            v.chars.len() as int,
        ),
        cursor: v.cursor + text.len(),
        ..v
    }
}

/// Replaces the whole line (history recall); the cursor moves to the end.
pub open spec fn replace_all_v(v: BufView, text: Seq<char>) -> BufView {
    BufView { chars: text, cursor: text.len() as int, ..v }
}

/// Exchanges the live content with the held-aside copy; the cursor moves to
/// the end of what becomes live.
pub open spec fn swap_v(v: BufView) -> BufView {
    BufView { chars: v.held, cursor: v.held.len() as int, held: v.chars }
}

/// The decimal digit bytes of `n`, most significant first.
pub open spec fn dec_rep(n: nat) -> Seq<u8>
    decreases n,
{
    if n < 10 {
        seq![(0x30 + n) as u8]
    } else {
        dec_rep(n / 10).push((0x30 + n % 10) as u8)
    }
}

/// The rendered prompt line: carriage return, prompt, content, erase to end
/// of line, and a cursor-column directive counting one column per character.
pub open spec fn render_line(prompt: Seq<char>, v: BufView) -> Seq<u8> {
    seq![0x0du8] + encode_utf8(prompt) + encode_utf8(v.chars) + seq![
        0x1bu8,
        0x5bu8,
        0x30u8,
        0x4bu8,
        0x1bu8,
        0x5bu8,
    ] + dec_rep((prompt.len() + v.cursor + 1) as nat) + seq![0x47u8]
}

/// Membership test for a scanning class.
fn class_test(c: char, cls: CharClass) -> (r: bool)
    ensures
        r == in_class(c, cls),
{
    let u = c as u32;
    let ws = c == ' ' || c == '\t';
    let word = (0x61 <= u && u <= 0x7a) || (0x41 <= u && u <= 0x5a) || (0x30 <= u && u <= 0x39)
        || c == '_';
    match cls {
        CharClass::Ws => ws,
        CharClass::Word => word,
        CharClass::Punct => !ws && !word,
        CharClass::NonWs => !ws,
    }
}

/// The run class of a character.
fn class_test_of(c: char, ws_only: bool) -> (r: CharClass)
    ensures
        r == run_class(c, ws_only),
{
    if ws_only {
        CharClass::NonWs
    } else if class_test(c, CharClass::Ws) {
        CharClass::Ws
    } else if class_test(c, CharClass::Word) {
        CharClass::Word
    } else {
        CharClass::Punct
    }
}

fn scan_fwd(v: &Vec<char>, i: usize, cls: CharClass) -> (r: usize)
    requires
        i <= v@.len(),
    ensures
        r as int == scan_fwd_while(v@, i as int, cls),
        i <= r <= v@.len(),
        r < v@.len() ==> !in_class(v@[r as int], cls),
{
    let mut j: usize = i;
    while j < v.len() && class_test(v[j], cls)
        invariant
            i <= j <= v@.len(),
            scan_fwd_while(v@, i as int, cls) == scan_fwd_while(v@, j as int, cls),
        decreases v@.len() - j,
    {
        j = j + 1;
    }
    j
}

fn scan_bwd(v: &Vec<char>, i: usize, cls: CharClass) -> (r: usize)
    requires
        i <= v@.len(),
    ensures
        r as int == scan_bwd_while(v@, i as int, cls),
        r <= i,
{
    let mut j: usize = i;
    while j > 0 && class_test(v[j - 1], cls)
        invariant
            j <= i <= v@.len(),
            scan_bwd_while(v@, i as int, cls) == scan_bwd_while(v@, j as int, cls),
        decreases j,
    {
        j = j - 1;
    }
    j
}

fn find_fwd(v: &Vec<char>, i: usize, c: char) -> (r: usize)
    requires
        i <= v@.len(),
    ensures
        r as int == find_fwd_from(v@, i as int, c),
        i <= r <= v@.len(),
{
    let mut j: usize = i;
    while j < v.len() && v[j] != c
        invariant
            i <= j <= v@.len(),
            find_fwd_from(v@, i as int, c) == find_fwd_from(v@, j as int, c),
        decreases v@.len() - j,
    {
        j = j + 1;
    }
    j
}

fn find_bwd(v: &Vec<char>, i: usize, c: char) -> (r: Option<usize>)
    requires
        i <= v@.len(),
    ensures
        match r {
            Some(t) => t as int == find_bwd_before(v@, i as int, c) && t < i,
            None => find_bwd_before(v@, i as int, c) == -1,
        },
{
    let mut j: usize = i;
    while j > 0
        invariant
            j <= i <= v@.len(),
            find_bwd_before(v@, i as int, c) == find_bwd_before(v@, j as int, c),
        decreases j,
    {
        if v[j - 1] == c {
            return Some(j - 1);
        }
        j = j - 1;
    }
    None
}

/// Appends the UTF-8 encoding of one character.
fn encode_char(out: &mut Vec<u8>, c: char)
    ensures
        final(out)@ == old(out)@ + encode_scalar(c as u32),
{
    let u = c as u32;
    proof {
        char_is_scalar(c);
    }
    if u <= 0x7f {
        out.push((u & 0x7F) as u8);
    } else if u <= 0x7ff {
        out.push(0xC0 | ((u >> 6u32) & 0x1F) as u8);
        out.push(0x80 | (u & 0x3F) as u8);
    } else if u <= 0xffff {
        out.push(0xE0 | ((u >> 12u32) & 0x0F) as u8);
        out.push(0x80 | ((u >> 6u32) & 0x3F) as u8);
        out.push(0x80 | (u & 0x3F) as u8);
    } else {
        out.push(0xF0 | ((u >> 18u32) & 0x7) as u8);
        out.push(0x80 | ((u >> 12u32) & 0x3F) as u8);
        out.push(0x80 | ((u >> 6u32) & 0x3F) as u8);
        out.push(0x80 | (u & 0x3F) as u8);
    }
    assert(final(out)@ =~= old(out)@ + encode_scalar(c as u32));
}

/// Appends the decimal digits of `n`, most significant first.
fn push_dec(out: &mut Vec<u8>, n: u128)
    ensures
        final(out)@ == old(out)@ + dec_rep(n as nat),
    decreases n,
{
    if n < 10 {
        out.push(0x30 + (n as u8));
        assert(final(out)@ =~= old(out)@ + dec_rep(n as nat));
    } else {
        push_dec(out, n / 10);
        out.push(0x30 + ((n % 10) as u8));
        assert(final(out)@ =~= old(out)@ + dec_rep(n as nat));
    }
}

proof fn lemma_encode_utf8_snoc(s: Seq<char>, c: char)
    ensures
        encode_utf8(s.push(c)) == encode_utf8(s) + encode_scalar(c as u32),
    decreases s.len(),
{
    reveal_with_fuel(encode_utf8, 3);
    if s.len() == 0 {
        assert(s.push(c)[0] == c);
        assert(s.push(c).drop_first() =~= Seq::<char>::empty());
        assert(encode_utf8(s.push(c)) =~= encode_utf8(s) + encode_scalar(c as u32));
    } else {
        assert(s.push(c)[0] == s[0]);
        assert(s.push(c).drop_first() =~= s.drop_first().push(c));
        lemma_encode_utf8_snoc(s.drop_first(), c);
        assert(encode_utf8(s.push(c)) == encode_scalar(s[0] as u32) + (encode_utf8(s.drop_first())
            + encode_scalar(c as u32)));
        assert(encode_scalar(s[0] as u32) + (encode_utf8(s.drop_first()) + encode_scalar(c as u32))
            =~= (encode_scalar(s[0] as u32) + encode_utf8(s.drop_first())) + encode_scalar(
            c as u32,
        ));
    }
}

/// The line buffer: UTF-8 content addressed by character index, the cursor,
/// and the held-aside copy exchanged when history browsing starts and ends.
pub struct Buffer {
    content: Vec<char>,
    cursor: usize,
    held: Vec<char>,
}

impl View for Buffer {
    type V = BufView;

    closed spec fn view(&self) -> BufView {
        BufView { chars: self.content@, cursor: self.cursor as int, held: self.held@ }
    }
}

impl Buffer {
    /// The buffer invariant: the cursor is a valid character index bound.
    pub open spec fn wf(&self) -> bool {
        buf_wf(self@)
    }

    /// An empty buffer with the cursor at the start.
    pub fn new() -> (r: Buffer)
        ensures
            r@ == (BufView {
                chars: Seq::<char>::empty(),
                cursor: 0,
                held: Seq::<char>::empty(),
            }),
            r.wf(),
    {
        Buffer { content: Vec::new(), cursor: 0, held: Vec::new() }
    }

    /// The number of characters in the line.
    pub fn char_len(&self) -> (r: usize)
        ensures
            r == self@.chars.len(),
    {
        self.content.len()
    }

    /// The cursor as a character index.
    pub fn cursor_index(&self) -> (r: usize)
        ensures
            r == self@.cursor,
    {
        self.cursor
    }

    /// Cursor left, clamped at the start.
    pub fn move_left(&mut self)
        requires
            old(self).wf(),
        ensures
            final(self)@ == move_left_v(old(self)@),
            final(self).wf(),
    {
        if self.cursor > 0 {
            self.cursor = self.cursor - 1;
        }
    }

    /// Cursor right, clamped at the end.
    pub fn move_right(&mut self)
        requires
            old(self).wf(),
        ensures
            final(self)@ == move_right_v(old(self)@),
            final(self).wf(),
    {
        if self.cursor < self.content.len() {
            self.cursor = self.cursor + 1;
        }
    }

    /// Cursor to the start of the line.
    pub fn move_start(&mut self)
        requires
            old(self).wf(),
        ensures
            final(self)@ == move_start_v(old(self)@),
            final(self).wf(),
    {
        self.cursor = 0;
    }

    /// Cursor to the end of the line.
    pub fn move_end(&mut self)
        requires
            old(self).wf(),
        ensures
            final(self)@ == move_end_v(old(self)@),
            final(self).wf(),
    {
        self.cursor = self.content.len();
    }

    /// Cursor to the start of the next word (`w`), or of the next WS-word
    /// (`W`).
    pub fn move_word_right(&mut self, ws_only: bool)
        requires
            old(self).wf(),
        ensures
            final(self)@ == word_right_v(old(self)@, ws_only),
            final(self).wf(),
    {
        let len = self.content.len();
        let i = self.cursor;
        let j1: usize = if i < len && !class_test(self.content[i], CharClass::Ws) {
            let cls = class_test_of(self.content[i], ws_only);
            scan_fwd(&self.content, i, cls)
        } else {
            i
        };
        self.cursor = scan_fwd(&self.content, j1, CharClass::Ws);
    }

    /// Cursor to the first character of the previous word (`b`), or WS-word
    /// (`B`).
    pub fn move_word_left(&mut self, ws_only: bool)
        requires
            old(self).wf(),
        ensures
            final(self)@ == word_left_v(old(self)@, ws_only),
            final(self).wf(),
    {
        let j1 = scan_bwd(&self.content, self.cursor, CharClass::Ws);
        let j2: usize = if j1 > 0 {
            let cls = class_test_of(self.content[j1 - 1], ws_only);
            scan_bwd(&self.content, j1, cls)
        } else {
            0
        };
        self.cursor = j2;
    }

    /// Cursor to the last character of the next word (`e`), or WS-word
    /// (`E`); a no-op when no word remains to the right.
    pub fn move_word_end_right(&mut self, ws_only: bool)
        requires
            old(self).wf(),
        ensures
            final(self)@ == word_end_right_v(old(self)@, ws_only),
            final(self).wf(),
    {
        let len = self.content.len();
        let i = self.cursor;
        if i >= len {
            return ;
        }
        let j1 = scan_fwd(&self.content, i + 1, CharClass::Ws);
        if j1 >= len {
            return ;
        }
        let cls = class_test_of(self.content[j1], ws_only);
        proof {
            assert(!is_ws_char(self.content@[j1 as int]));
            assert(in_class(self.content@[j1 as int], cls));
            assert(scan_fwd_while(self.content@, j1 as int, cls) == scan_fwd_while(
                self.content@,
                j1 as int + 1,
                cls,
            ));
            lemma_scan_fwd_bounds(self.content@, j1 as int + 1, cls);
        }
        let j2 = scan_fwd(&self.content, j1, cls);
        self.cursor = j2 - 1;
    }

    /// Cursor to the next occurrence of `c` to the right: inclusive (`f`)
    /// lands on it, exclusive (`t`) one position before it; a no-op when
    /// absent.
    pub fn move_to_char_right(&mut self, c: char, inclusive: bool)
        requires
            old(self).wf(),
        ensures
            final(self)@ == char_right_v(old(self)@, c, inclusive),
            final(self).wf(),
    {
        let len = self.content.len();
        let i = self.cursor;
        if i >= len {
            return ;
        }
        let t = find_fwd(&self.content, i + 1, c);
        if t < len {
            self.cursor = if inclusive {
                t
            } else {
                t - 1
            };
        }
    }

    /// Cursor to the previous occurrence of `c` to the left: inclusive
    /// (`F`) lands on it, exclusive (`T`) one position after it; a no-op
    /// when absent.
    pub fn move_to_char_left(&mut self, c: char, inclusive: bool)
        requires
            old(self).wf(),
        ensures
            final(self)@ == char_left_v(old(self)@, c, inclusive),
            final(self).wf(),
    {
        match find_bwd(&self.content, self.cursor, c) {
            Some(t) => {
                self.cursor = if inclusive {
                    t
                } else {
                    t + 1
                };
            },
            None => {},
        }
    }

    /// Removes the character left of the cursor, if any, and moves the
    /// cursor onto the gap.
    pub fn delete_char_left_of_cursor(&mut self)
        requires
            old(self).wf(),
        ensures
            final(self)@ == delete_left_v(old(self)@),
            final(self).wf(),
    {
        if self.cursor > 0 {
            self.content.remove(self.cursor - 1);
            self.cursor = self.cursor - 1;
        }
    }

    /// Removes the character at the cursor, if any.
    pub fn delete_char_right_of_cursor(&mut self)
        requires
            old(self).wf(),
        ensures
            final(self)@ == delete_right_v(old(self)@),
            final(self).wf(),
    {
        if self.cursor < self.content.len() {
            self.content.remove(self.cursor);
        }
    }

    /// The buffer half of the `s` command: deletes the character at the
    /// cursor; the session then enters insert mode.
    pub fn substitute(&mut self)
        requires
            old(self).wf(),
        ensures
            final(self)@ == delete_right_v(old(self)@),
            final(self).wf(),
    {
        self.delete_char_right_of_cursor();
    }

    /// Like `delete_char_right_of_cursor`, but signals end-of-file (returns
    /// true, changing nothing) when the buffer is already empty; this
    /// drives the Ctrl-D semantics.
    pub fn delete_char_right_of_cursor_or_eof(&mut self) -> (eof: bool)
        requires
            old(self).wf(),
        ensures
            eof == (old(self)@.chars.len() == 0),
            final(self)@ == if eof {
                old(self)@
            } else {
                delete_right_v(old(self)@)
            },
            final(self).wf(),
    {
        if self.content.len() == 0 {
            true
        } else {
            self.delete_char_right_of_cursor();
            false
        }
    }

    /// Splices the text at the cursor; the cursor advances past it.
    pub fn insert_at_cursor(&mut self, text: &String)
        requires
            old(self).wf(),
        ensures
            final(self)@ == insert_v(old(self)@, text@),
            final(self).wf(),
    {
        let n = text.as_str().unicode_len();
        let ghost orig = self.content@;
        let ghost cur = self.cursor as int;
        let ghost kept = self.held@;
        let mut idx: usize = self.cursor;
        let mut k: usize = 0;
        while k < n
            invariant
                k <= n,
                n == text@.len(),
                cur == self.cursor as int,
                kept == self.held@,
                idx as int == cur + k,
                self.cursor <= orig.len(),
                self.content@ =~= orig.subrange(0, cur) + text@.subrange(0, k as int)
                    + orig.subrange(cur, orig.len() as int),
            decreases n - k,
        {
            let c = text.as_str().get_char(k);
            self.content.insert(idx, c);
            proof {
                assert(self.content@ =~= orig.subrange(0, cur) + text@.subrange(0, k + 1 as int)
                    + orig.subrange(cur, orig.len() as int));
            }
            let l = self.content.len();
            proof {
                assert(idx < l);
            }
            idx = idx + 1;
            k = k + 1;
        }
        self.cursor = idx;
        proof {
            assert(text@.subrange(0, n as int) =~= text@);
            assert(self@ =~= insert_v(old(self)@, text@));
        }
    }

    /// Overwrites as many characters after the cursor as the text holds,
    /// extending the line past its end; the cursor advances past the text.
    pub fn replace_at_cursor(&mut self, text: &String)
        requires
            old(self).wf(),
        ensures
            final(self)@ == replace_at_v(old(self)@, text@),
            final(self).wf(),
    {
        let n = text.as_str().unicode_len();
        let ghost orig = self.content@;
        let ghost cur = self.cursor as int;
        let ghost kept = self.held@;
        let mut idx: usize = self.cursor;
        let mut k: usize = 0;
        while k < n
            invariant
                k <= n,
                n == text@.len(),
                cur == self.cursor as int,
                kept == self.held@,
                0 <= cur <= orig.len(),
                idx as int == cur + k,
                idx <= self.content@.len(),
                self.content@ =~= orig.subrange(0, cur) + text@.subrange(0, k as int)
                    + orig.subrange(
                    if cur + k <= orig.len() {
                        cur + k
                    } else {
                        orig.len() as int
                    },
                    orig.len() as int,
                ),
            decreases n - k,
        {
            let c = text.as_str().get_char(k);
            if idx < self.content.len() {
                self.content[idx] = c;
            } else {
                self.content.push(c);
            }
            proof {
                assert(self.content@ =~= orig.subrange(0, cur) + text@.subrange(0, k + 1 as int)
                    + orig.subrange(
                    if cur + k + 1 <= orig.len() {
                        cur + k + 1
                    } else {
                        orig.len() as int
                    },
                    orig.len() as int,
                ));
            }
            let l = self.content.len();
            proof {
                assert(idx < l);
            }
            idx = idx + 1;
            k = k + 1;
        }
        self.cursor = idx;
        proof {
            assert(text@.subrange(0, n as int) =~= text@);
            assert(self@ =~= replace_at_v(old(self)@, text@));
        }
    }

    /// Replaces the whole line with the given text (history recall); the
    /// cursor moves to the end.
    pub fn replace(&mut self, text: &String)
        requires
            old(self).wf(),
        ensures
            final(self)@ == replace_all_v(old(self)@, text@),
            final(self).wf(),
    {
        let n = text.as_str().unicode_len();
        let mut fresh: Vec<char> = Vec::new();
        let mut k: usize = 0;
        while k < n
            invariant
                k <= n,
                n == text@.len(),
                fresh@ =~= text@.subrange(0, k as int),
            decreases n - k,
        {
            fresh.push(text.as_str().get_char(k));
            k = k + 1;
        }
        proof {
            assert(text@.subrange(0, n as int) =~= text@);
        }
        self.content = fresh;
        self.cursor = n;
    }

    /// Exchanges the live content with the held-aside copy, so history
    /// browsing never loses the in-progress edit; the cursor moves to the
    /// end of what becomes live.
    pub fn swap(&mut self)
        requires
            old(self).wf(),
        ensures
            final(self)@ == swap_v(old(self)@),
            final(self).wf(),
    {
        core::mem::swap(&mut self.content, &mut self.held);
        self.cursor = self.content.len();
    }

    /// The final line content as a string.
    pub fn to_string(&self) -> (r: String)
        ensures
            r@ == self@.chars,
    {
        let mut s = String::new();
        let mut k: usize = 0;
        while k < self.content.len()
            invariant
                k <= self.content@.len(),
                s@ =~= self.content@.subrange(0, k as int),
            decreases self.content@.len() - k,
        {
            push_char(&mut s, self.content[k]);
            k = k + 1;
        }
        proof {
            assert(self.content@.subrange(0, self.content@.len() as int) =~= self.content@);
        }
        s
    }

    /// Renders the prompt line: carriage return, prompt, content, erase to
    /// end of line, and the cursor-column directive (one column per
    /// character regardless of byte width).
    pub fn get_line(&self, prompt: &str) -> (r: Vec<u8>)
        requires
            self.wf(),
        ensures
            r@ == render_line(prompt@, self@),
    {
        let mut out: Vec<u8> = Vec::new();
        out.push(0x0d);
        out.extend_from_slice(prompt.as_bytes());
        proof {
            assert(out@ =~= seq![0x0du8] + encode_utf8(prompt@));
        }
        let ghost head = out@;
        let mut k: usize = 0;
        while k < self.content.len()
            invariant
                k <= self.content@.len(),
                out@ =~= head + encode_utf8(self.content@.subrange(0, k as int)),
            decreases self.content@.len() - k,
        {
            let c = self.content[k];
            encode_char(&mut out, c);
            proof {
                assert(self.content@.subrange(0, k + 1 as int) =~= self.content@.subrange(
                    0,
                    k as int,
                ).push(self.content@[k as int]));
                lemma_encode_utf8_snoc(self.content@.subrange(0, k as int), self.content@[k as int]);
            }
            k = k + 1;
        }
        proof {
            assert(self.content@.subrange(0, self.content@.len() as int) =~= self.content@);
        }
        out.push(0x1b);
        out.push(0x5b);
        out.push(0x30);
        out.push(0x4b);
        out.push(0x1b);
        out.push(0x5b);
        let plen = prompt.unicode_len();
        let col: u128 = (plen as u128) + (self.cursor as u128) + 1;
        push_dec(&mut out, col);
        out.push(0x47);
        proof {
            assert(out@ =~= render_line(prompt@, self@));
        }
        out
    }
}

/// Law: for a cursor not at the end, moving right and then left returns it
/// to where it was, with the content untouched.
pub proof fn lemma_move_right_then_left(v: BufView)
    requires
        buf_wf(v),
        v.cursor < v.chars.len(),
    ensures
        move_left_v(move_right_v(v)) == v,
{
    assert(move_left_v(move_right_v(v)) =~= v);
}

/// Law: inserting one character and deleting left of the cursor restores
/// the original content and cursor.
pub proof fn lemma_insert_then_delete_left(v: BufView, c: char)
    requires
        buf_wf(v),
    ensures
        delete_left_v(insert_v(v, seq![c])) == v,
{
    let w = insert_v(v, seq![c]);
    assert(w.cursor == v.cursor + 1);
    assert(w.chars.remove(v.cursor as int) =~= v.chars);
    assert(delete_left_v(w) =~= v);
}

} // verus!
