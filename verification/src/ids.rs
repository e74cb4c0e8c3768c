//! User and profile identifiers: 128-bit UUID values, their canonical
//! hyphenated text form, and the trusted calls into the `uuid` crate for
//! parsing and generation.
use vstd::prelude::*;

use crate::twoface::{hex_digit, hex_digit_exec};
use crate::utils::chars_to_string;

verus! {

/// A name for what `uuid::Uuid::parse_str` accepts: the 128-bit value
/// (most significant byte first) of the textual UUID, or nothing when the
/// text is not a UUID. A function of the string alone.
pub uninterp spec fn parsed_uuid(s: Seq<char>) -> Option<u128>;

/// Relies on `uuid::Uuid::parse_str` and `Uuid::as_u128`: parses the
/// hyphenated, simple, braced or URN textual forms into the UUID's value.
#[verifier::external_body]
pub fn parse_uuid(s: &str) -> (r: Option<u128>)
    ensures
        r == parsed_uuid(s@),
{
    match uuid::Uuid::parse_str(s) {
        Ok(u) => Some(u.as_u128()),
        Err(_) => None,
    }
}

/// Relies on `uuid::Uuid::new_v4`: a freshly generated random UUID. Nothing
/// is promised of the value; two calls may and normally do differ. It panics
/// only if the operating system's random source fails, an environmental
/// condition independent of any input.
#[verifier::external_body]
pub fn fresh_uuid() -> u128 {
    uuid::Uuid::new_v4().as_u128()
}

/// The `k`-th hexadecimal digit of a UUID value, most significant first.
pub open spec fn uuid_nibble(u: u128, k: int) -> int
    recommends
        0 <= k < 32,
{
    ((u >> (((31 - k) * 4) as u128)) & 0xf) as int
}

/// The hex digits of a UUID value from position `a` (inclusive) to `b`.
pub open spec fn uuid_nibbles(u: u128, a: int, b: int) -> Seq<char>
    decreases b - a,
{
    if a >= b {
        Seq::empty()
    } else {
        seq![hex_digit(uuid_nibble(u, a))] + uuid_nibbles(u, a + 1, b)
    }
}

/// The canonical hyphenated lower-case form of a UUID value, as
/// `uuid::Uuid::to_string` renders it: five groups of 8, 4, 4, 4 and 12
/// hex digits.
pub open spec fn uuid_hyphenated(u: u128) -> Seq<char> {
    uuid_nibbles(u, 0, 8) + "-"@ + uuid_nibbles(u, 8, 12) + "-"@ + uuid_nibbles(u, 12, 16)
        + "-"@ + uuid_nibbles(u, 16, 20) + "-"@ + uuid_nibbles(u, 20, 32)
}

fn nibble_char(u: u128, k: usize) -> (c: char)
    requires
        k < 32,
    ensures
        c == hex_digit(uuid_nibble(u, k as int)),
{
    let sh: u128 = ((31 - k) * 4) as u128;
    let nib: u128 = (u >> sh) & 0xf;
    proof {
        assert((u >> sh) & 0xf < 16) by (bit_vector);
    }
    hex_digit_exec(nib as u8)
}

fn push_uuid_nibbles(u: u128, a: usize, b: usize, v: &mut Vec<char>)
    requires
        a <= b <= 32,
    ensures
        final(v)@ == old(v)@ + uuid_nibbles(u, a as int, b as int),
    decreases b - a,
{
    if a < b {
        let c = nibble_char(u, a);
        v.push(c);
        push_uuid_nibbles(u, a + 1, b, v);
    } else {
        proof {
            assert(v@ =~= v@ + Seq::<char>::empty());
        }
    }
}

/// Render a UUID value in its canonical hyphenated form; store keys are
/// derived this way from entity identifiers.
pub fn uuid_to_string(u: u128) -> (r: String)
    ensures
        r@ == uuid_hyphenated(u),
{
    let mut v: Vec<char> = Vec::new();
    push_uuid_nibbles(u, 0, 8, &mut v);
    v.push('-');
    push_uuid_nibbles(u, 8, 12, &mut v);
    v.push('-');
    push_uuid_nibbles(u, 12, 16, &mut v);
    v.push('-');
    push_uuid_nibbles(u, 16, 20, &mut v);
    v.push('-');
    push_uuid_nibbles(u, 20, 32, &mut v);
    proof {
        assert(seq!['-'] =~= "-"@) by {
            reveal_strlit("-");
        }
        assert(v@ =~= uuid_hyphenated(u));
    }
    chars_to_string(&v)
}

} // verus!
