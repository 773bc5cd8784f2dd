//! Building and decoding text.

use vstd::prelude::*;

verus! {

/// `String::push` from std: appends one character to the end of the string.
#[verifier::external_body]
pub fn push_char(s: &mut String, c: char)
    ensures
        final(s)@ == old(s)@.push(c),
{
    s.push(c)
}

/// The characters whose code points are the given bytes, in order.
pub open spec fn latin1_chars(b: Seq<u8>) -> Seq<char> {
    Seq::new(b.len(), |i: int| b[i] as char)
}

/// A string holding one character per byte, each character having the byte's value as its
/// code point.
pub fn string_from_latin1(b: &[u8]) -> (s: String)
    ensures
        s@ == latin1_chars(b@),
{
    let mut s = String::new();
    let mut i: usize = 0;
    while i < b.len()
        invariant
            i <= b@.len(),
            s@ == latin1_chars(b@.subrange(0, i as int)),
        decreases b@.len() - i,
    {
        let c = b[i] as char;
        push_char(&mut s, c);
        i = i + 1;
        assert(latin1_chars(b@.subrange(0, i as int)) =~= latin1_chars(
            b@.subrange(0, i - 1),
        ).push(c));
    }
    assert(b@.subrange(0, b@.len() as int) =~= b@);
    s
}

/// What `core::str::from_utf8` makes of the bytes: the decoded characters, or `None` where the
/// bytes are not valid UTF-8.
pub uninterp spec fn utf8_decode(b: Seq<u8>) -> Option<Seq<char>>;

/// `core::str::from_utf8` from std, with the text copied into an owned string. The result is
/// `Some` exactly when `utf8_decode` gives characters, and then holds those characters. Beyond
/// that, what UTF-8 decoding yields is left to the name `utf8_decode`.
#[verifier::external_body]
pub fn decode_utf8(b: &[u8]) -> (r: Option<String>)
    ensures
        match utf8_decode(b@) {
            Some(cs) => r matches Some(s) && s@ == cs,
            None => r is None,
        },
{
    match core::str::from_utf8(b) {
        Ok(s) => Some(s.to_owned()),
        Err(_) => None,
    }
}

} // verus!
