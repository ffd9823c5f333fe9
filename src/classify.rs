//! Lexical split between local session names and remote session identifiers.
use vstd::prelude::*;
use crate::text::{all_ascii, ascii_bytes, is_hex_byte, is_hex_char};

verus! {

/// Length of a remote identifier: five hexadecimal groups of 8, 4, 4, 4 and 12
/// characters joined by four hyphens.
pub const UUID_LEN: usize = 36;

/// Positions of the four hyphens in a remote identifier.
pub open spec fn is_hyphen_pos(i: int) -> bool {
    i == 8 || i == 13 || i == 18 || i == 23
}

/// `s` has the 8-4-4-4-12 hyphenated hexadecimal layout.
pub open spec fn uuid_shaped(s: Seq<char>) -> bool {
    &&& s.len() == 36
    &&& forall|i: int|
        0 <= i < 36 ==> if is_hyphen_pos(i) {
            s[i] == '-'
        } else {
            is_hex_char(#[trigger] s[i])
        }
}

/// How a user-supplied session token is routed.
#[derive(Debug, Clone, Copy, PartialEq, Eq, Structural)]
pub enum SessionKind {
    /// A session served by a worker process on this machine.
    Local,
    /// A session hosted by the remote control plane.
    Remote,
}

/// Whether `s` has the layout of a remote session identifier.
pub fn is_uuid(s: &str) -> (r: bool)
    ensures
        r == uuid_shaped(s@),
{
    if !s.is_ascii() {
        proof {
            if uuid_shaped(s@) {
                assert(all_ascii(s@));
            }
        }
        return false;
    }
    assert(all_ascii(s@));
    let b = ascii_bytes(s);
    if b.len() != UUID_LEN {
        return false;
    }
    let mut i: usize = 0;
    while i < UUID_LEN
        invariant
            b@.len() == 36,
            s@.len() == 36,
            forall|k: int| 0 <= k < s@.len() ==> (#[trigger] b@[k]) as char == s@[k],
            i <= 36,
            forall|k: int|
                0 <= k < i ==> if is_hyphen_pos(k) {
                    s@[k] == '-'
                } else {
                    is_hex_char(#[trigger] s@[k])
                },
        decreases 36 - i,
    {
        let c = b[i];
        assert(c as char == s@[i as int]);
        if i == 8 || i == 13 || i == 18 || i == 23 {
            if c != 45 {
                return false;
            }
        } else if !is_hex_byte(c) {
            return false;
        }
        i = i + 1;
    }
    true
}

/// Routes a session token: remote when it has the identifier layout, local
/// otherwise. Purely lexical.
pub fn classify(token: &str) -> (r: SessionKind)
    ensures
        r == (if uuid_shaped(token@) {
            SessionKind::Remote
        } else {
            SessionKind::Local
        }),
{
    if is_uuid(token) {
        SessionKind::Remote
    } else {
        SessionKind::Local
    }
}

} // verus!
