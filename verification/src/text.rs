//! Short strings, and bytes made fit to print.

use smol_str::SmolStr;
use vstd::prelude::*;

verus! {

/// `smol_str::SmolStr`, an immutable string. Nothing of its layout is known here: what
/// it holds is named by `smol_chars`.
#[verifier::external_type_specification]
#[verifier::external_body]
pub struct ExSmolStr(SmolStr);

/// The characters that a `SmolStr` holds, in order.
pub uninterp spec fn smol_chars(s: SmolStr) -> Seq<char>;

/// The characters of a short string that may be missing.
pub open spec fn maybe_chars(s: Option<SmolStr>) -> Option<Seq<char>> {
    match s {
        Some(s) => Some(smol_chars(s)),
        None => None,
    }
}

/// Calls `SmolStr::from` on a `String`. Trusted: the result holds the string's characters.
#[verifier::external_body]
pub(crate) fn smol_from_string(s: String) -> (r: SmolStr)
    ensures
        smol_chars(r) == s@,
{
    SmolStr::from(s)
}

/// Calls `SmolStr::from` on a `&str`. Trusted: the result holds the slice's characters.
#[verifier::external_body]
pub(crate) fn smol_from_str(s: &str) -> (r: SmolStr)
    ensures
        smol_chars(r) == s@,
{
    SmolStr::from(s)
}

/// Calls `SmolStr::eq`. Trusted: two short strings are equal exactly when they hold the
/// same characters.
#[verifier::external_body]
pub(crate) fn smol_eq(a: &SmolStr, b: &SmolStr) -> (r: bool)
    ensures
        r == (smol_chars(*a) == smol_chars(*b)),
{
    a == b
}

/// `SmolStr::clone`. Trusted: the copy holds the same characters.
pub assume_specification[ <SmolStr as Clone>::clone ](s: &SmolStr) -> (r: SmolStr)
    ensures
        smol_chars(r) == smol_chars(*s),
;

/// Calls `String::push`. Trusted: the character is added at the end.
#[verifier::external_body]
fn push_char(s: &mut String, c: char)
    ensures
        final(s)@ == old(s)@.push(c),
{
    s.push(c)
}

/// What stands for one byte in printable text: a space for a control byte or a space, the
/// character itself for a visible ASCII byte, a question mark for anything else.
pub open spec fn safe_char(x: u8) -> char {
    if x <= 0x20 {
        ' '
    } else if x < 0x7f {
        x as char
    } else {
        '?'
    }
}

/// The printable text that stands for a run of bytes: one character for each byte.
pub open spec fn safe_text(s: Seq<u8>) -> Seq<char> {
    Seq::new(s.len(), |i: int| safe_char(s[i]))
}

/// Makes bytes that came from the network fit to print in a log line.
pub fn safe_ascii(s: &[u8]) -> (r: SmolStr)
    ensures
        smol_chars(r) == safe_text(s@),
{
    let mut buf = String::new();
    let mut i: usize = 0;
    while i < s.len()
        invariant
            i <= s.len(),
            buf@ == safe_text(s@.take(i as int)),
        decreases s.len() - i,
    {
        let x: u8 = s[i];
        let c: char = if x <= 0x20 {
            ' '
        } else if x < 0x7f {
            x as char
        } else {
            '?'
        };
        push_char(&mut buf, c);
        i += 1;
    }
    smol_from_string(buf)
}

} // verus!
