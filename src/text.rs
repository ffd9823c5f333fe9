//! Character-level facts shared by the parsers of this crate.
use vstd::prelude::*;
use vstd::string::StringSliceAdditionalSpecFns;

verus! {

broadcast use vstd::string::is_ascii_spec_bytes, vstd::utf8::is_ascii_chars_nat_bound;

/// An ASCII decimal digit.
pub open spec fn is_digit_char(c: char) -> bool {
    '0' <= c && c <= '9'
}

/// An ASCII hexadecimal digit, in either case.
pub open spec fn is_hex_char(c: char) -> bool {
    ('0' <= c && c <= '9') || ('a' <= c && c <= 'f') || ('A' <= c && c <= 'F')
}

/// Every character of `s` is ASCII.
pub open spec fn all_ascii(s: Seq<char>) -> bool {
    vstd::utf8::is_ascii_chars(s)
}

/// The bytes of an ASCII string, with one byte per character.
pub fn ascii_bytes(s: &str) -> (r: &[u8])
    requires
        all_ascii(s@),
    ensures
        r@.len() == s@.len(),
        forall|i: int| 0 <= i < s@.len() ==> (#[trigger] r@[i]) as char == s@[i],
{
    assert(vstd::string::is_ascii(s));
    let r = s.as_bytes();
    assert(r@ =~= s.spec_bytes());
    r
}

/// Tests whether a byte is an ASCII hexadecimal digit.
pub fn is_hex_byte(b: u8) -> (r: bool)
    ensures
        r == is_hex_char(b as char),
{
    (48 <= b && b <= 57) || (97 <= b && b <= 102) || (65 <= b && b <= 70)
}

} // verus!
