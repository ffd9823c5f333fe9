//! Reading the process id out of a liveness record.
use vstd::prelude::*;
use crate::text::{all_ascii, ascii_bytes, is_digit_char};

verus! {

/// The value of a string of decimal digits.
pub open spec fn digits_value(s: Seq<char>) -> int
    decreases s.len(),
{
    if s.len() == 0 {
        0
    } else {
        digits_value(s.drop_last()) * 10 + (s.last() as int - '0' as int)
    }
}

/// A non-empty string of decimal digits.
pub open spec fn all_digits(s: Seq<char>) -> bool {
    s.len() > 0 && forall|i: int| 0 <= i < s.len() ==> is_digit_char(#[trigger] s[i])
}

/// `s` begins with a sign character.
pub open spec fn has_sign(s: Seq<char>) -> bool {
    s.len() > 0 && (s[0] == '-' || s[0] == '+')
}

/// `s` without its sign character, if it has one.
pub open spec fn unsigned_part(s: Seq<char>) -> Seq<char> {
    if has_sign(s) {
        s.drop_first()
    } else {
        s
    }
}

/// The `i32` written in decimal by `s`: an optional `+` or `-` sign, then one
/// or more digits, with the value in range; `None` for anything else.
pub open spec fn decimal_i32(s: Seq<char>) -> Option<i32> {
    let v = if has_sign(s) && s[0] == '-' {
        -digits_value(unsigned_part(s))
    } else {
        digits_value(unsigned_part(s))
    };
    if all_digits(unsigned_part(s)) && i32::MIN <= v <= i32::MAX {
        Some(v as i32)
    } else {
        None
    }
}

/// A character with the Unicode `White_Space` property.
pub open spec fn is_white_space(c: char) -> bool {
    let u = c as u32;
    (0x9 <= u && u <= 0xd) || u == 0x20 || u == 0x85 || u == 0xa0 || u == 0x1680 || (0x2000 <= u
        && u <= 0x200a) || u == 0x2028 || u == 0x2029 || u == 0x202f || u == 0x205f || u == 0x3000
}

/// `s` without its leading white space.
pub open spec fn trimmed_start(s: Seq<char>) -> Seq<char>
    decreases s.len(),
{
    if s.len() > 0 && is_white_space(s[0]) {
        trimmed_start(s.drop_first())
    } else {
        s
    }
}

/// `s` without its trailing white space.
pub open spec fn trimmed_end(s: Seq<char>) -> Seq<char>
    decreases s.len(),
{
    if s.len() > 0 && is_white_space(s.last()) {
        trimmed_end(s.drop_last())
    } else {
        s
    }
}

/// `s` without its leading and trailing white space.
pub open spec fn trimmed(s: Seq<char>) -> Seq<char> {
    trimmed_end(trimmed_start(s))
}

/// Relies on str::trim: `s` without leading and trailing characters of the
/// Unicode `White_Space` property.
#[verifier::external_body]
fn trim_str(s: &str) -> (r: &str)
    ensures
        r@ == trimmed(s@),
{
    s.trim()
}

proof fn lemma_digits_value_nonneg(s: Seq<char>)
    requires
        forall|i: int| 0 <= i < s.len() ==> is_digit_char(#[trigger] s[i]),
    ensures
        digits_value(s) >= 0,
    decreases s.len(),
{
    if s.len() > 0 {
        lemma_digits_value_nonneg(s.drop_last());
    }
}

/// A longer digit string never has a smaller value.
proof fn lemma_digits_value_grows(s: Seq<char>, k: int)
    requires
        forall|i: int| 0 <= i < s.len() ==> is_digit_char(#[trigger] s[i]),
        0 <= k <= s.len(),
    ensures
        digits_value(s.subrange(0, k)) <= digits_value(s),
    decreases s.len(),
{
    if k < s.len() {
        lemma_digits_value_nonneg(s.drop_last());
        lemma_digits_value_grows(s.drop_last(), k);
        assert(s.drop_last().subrange(0, k) =~= s.subrange(0, k));
    } else {
        assert(s.subrange(0, k) =~= s);
    }
}

/// Parses an `i32` written in decimal, with an optional sign.
pub fn parse_decimal_i32(s: &str) -> (r: Option<i32>)
    ensures
        r == decimal_i32(s@),
{
    if !s.is_ascii() {
        proof {
            if decimal_i32(s@) is Some {
                let t = s@;
                let body = unsigned_part(t);
                assert forall|i: int| 0 <= i < t.len() implies '\0' <= #[trigger] t[i] <= '\u{7f}' by {
                    if has_sign(t) && i > 0 {
                        assert(t[i] == body[i - 1]);
                    }
                }
                assert(all_ascii(s@));
            }
        }
        return None;
    }
    assert(all_ascii(s@));
    let b = ascii_bytes(s);
    let n = b.len();
    let ghost t = s@;
    let negative = n > 0 && b[0] == 45;
    let signed = n > 0 && (b[0] == 45 || b[0] == 43);
    proof {
        if n > 0 {
            assert(b@[0] as char == t[0]);
        }
    }
    assert(signed == has_sign(t));
    assert(negative == (signed && t[0] == '-'));
    let start: usize = if signed { 1 } else { 0 };
    let ghost body = unsigned_part(t);
    assert(body =~= t.subrange(start as int, n as int));
    if start == n {
        return None;
    }
    let mut acc: i64 = 0;
    let mut i: usize = start;
    while i < n
        invariant
            n == t.len(),
            b@.len() == n,
            forall|k: int| 0 <= k < n ==> (#[trigger] b@[k]) as char == t[k],
            start <= i <= n,
            body =~= t.subrange(start as int, n as int),
            body == unsigned_part(t),
            t == s@,
            negative == (has_sign(t) && t[0] == '-'),
            forall|k: int| start <= k < i ==> is_digit_char(#[trigger] t[k]),
            acc == digits_value(t.subrange(start as int, i as int)),
            0 <= acc <= 2147483648,
        decreases n - i,
    {
        let c = b[i];
        assert(c as char == t[i as int]);
        if c < 48 || c > 57 {
            assert(body[i - start] == t[i as int]);
            assert(!is_digit_char(body[i - start]));
            assert(!all_digits(body));
            assert(decimal_i32(t) is None);
            return None;
        }
        let ghost before = t.subrange(start as int, i as int);
        assert(t.subrange(start as int, i + 1).drop_last() =~= before);
        let ghost next = t.subrange(start as int, i + 1);
        assert(next.last() == t[i as int]);
        assert(digits_value(next) == digits_value(before) * 10 + (t[i as int] as int - '0' as int));
        acc = acc * 10 + (c - 48) as i64;
        i = i + 1;
        assert(acc == digits_value(next));
        if acc > 2147483648 {
            proof {
                if all_digits(body) {
                    assert(t.subrange(start as int, i as int) =~= body.subrange(0, i - start));
                    lemma_digits_value_grows(body, i - start);
                    assert(digits_value(body) > 2147483648);
                }
                assert(decimal_i32(t) is None);
            }
            return None;
        }
    }
    assert(t.subrange(start as int, n as int) =~= body);
    if negative {
        Some((0 - acc) as i32)
    } else if acc > 2147483647 {
        None
    } else {
        Some(acc as i32)
    }
}

/// The process id recorded in a liveness record's text: the text without
/// surrounding whitespace, read as a decimal `i32`.
pub fn parse_pid(text: &str) -> (r: Option<i32>)
    ensures
        r == decimal_i32(trimmed(text@)),
{
    parse_decimal_i32(trim_str(text))
}

} // verus!
