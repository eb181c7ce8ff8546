//! Small character and string helpers shared by the parser and the buffer.

use vstd::prelude::*;
use vstd::utf8::is_scalar;

verus! {

/// Relies on `String::push`: appends exactly the given character to the
/// string, documented std behaviour.
#[verifier::external_body]
pub(crate) fn push_char(s: &mut String, c: char)
    ensures
        final(s)@ == old(s)@.push(c),
{
    s.push(c);
}

/// Relies on `char::from_u32`: documented to return the character with the
/// given code point exactly when the value is a Unicode scalar value, and
/// `None` otherwise.
#[verifier::external_body]
pub(crate) fn char_from_u32(v: u32) -> (r: Option<char>)
    ensures
        r == if is_scalar(v) {
            Some(v as char)
        } else {
            None::<char>
        },
{
    char::from_u32(v)
}

/// Builds a one-character string.
pub(crate) fn char_to_string(c: char) -> (r: String)
    ensures
        r@ =~= seq![c],
{
    let mut s = String::new();
    push_char(&mut s, c);
    s
}

} // verus!
