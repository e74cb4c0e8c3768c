//! The storage wire format: a compact binary encoding used for values kept
//! in the key-value store. Integers are little-endian; strings are a 64-bit
//! character count followed by each character as a 32-bit scalar; an optional
//! string carries a one-byte presence tag. Decoding is strict: it accepts
//! exactly the encodings this module produces.
use vstd::prelude::*;

use vstd::bytes::{
    spec_u32_to_le_bytes, spec_u32_from_le_bytes, lemma_auto_spec_u32_to_from_le_bytes,
    u32_from_le_bytes, u32_to_le_bytes, spec_u64_to_le_bytes, spec_u64_from_le_bytes,
    lemma_auto_spec_u64_to_from_le_bytes, u64_from_le_bytes, u64_to_le_bytes,
    spec_u128_to_le_bytes, spec_u128_from_le_bytes, lemma_auto_spec_u128_to_from_le_bytes,
    u128_from_le_bytes, u128_to_le_bytes,
};
use vstd::slice::slice_subrange;
use vstd::utf8::{is_scalar, char_is_scalar, char_u32_cast};

verus! {

// ---------------------------------------------------------------------------
// Encoding, at the specification level.
// ---------------------------------------------------------------------------

pub open spec fn enc_u32(x: u32) -> Seq<u8> {
    spec_u32_to_le_bytes(x)
}

pub open spec fn enc_u64(x: u64) -> Seq<u8> {
    spec_u64_to_le_bytes(x)
}

pub open spec fn enc_u128(x: u128) -> Seq<u8> {
    spec_u128_to_le_bytes(x)
}

/// Each character as its 32-bit scalar value, in order.
pub open spec fn enc_chars(s: Seq<char>) -> Seq<u8>
    decreases s.len(),
{
    if s.len() == 0 {
        Seq::empty()
    } else {
        enc_u32(s[0] as u32) + enc_chars(s.drop_first())
    }
}

/// A string: its character count, then its characters.
pub open spec fn enc_str(s: Seq<char>) -> Seq<u8> {
    enc_u64(s.len() as u64) + enc_chars(s)
}

/// An optional string: a presence tag, then the string when present.
pub open spec fn enc_opt_str(o: Option<Seq<char>>) -> Seq<u8> {
    match o {
        Option::None => seq![0u8],
        Option::Some(s) => seq![1u8] + enc_str(s),
    }
}

// ---------------------------------------------------------------------------
// Decoding, at the specification level: each reader takes the bytes and a
// position, and yields the decoded value with the position after it.
// ---------------------------------------------------------------------------

pub open spec fn dec_u32(b: Seq<u8>, pos: int) -> Option<(u32, int)> {
    if 0 <= pos && pos + 4 <= b.len() {
        Some((spec_u32_from_le_bytes(b.subrange(pos, pos + 4)), pos + 4))
    } else {
        None
    }
}

pub open spec fn dec_u64(b: Seq<u8>, pos: int) -> Option<(u64, int)> {
    if 0 <= pos && pos + 8 <= b.len() {
        Some((spec_u64_from_le_bytes(b.subrange(pos, pos + 8)), pos + 8))
    } else {
        None
    }
}

pub open spec fn dec_u128(b: Seq<u8>, pos: int) -> Option<(u128, int)> {
    if 0 <= pos && pos + 16 <= b.len() {
        Some((spec_u128_from_le_bytes(b.subrange(pos, pos + 16)), pos + 16))
    } else {
        None
    }
}

pub open spec fn dec_char(b: Seq<u8>, pos: int) -> Option<(char, int)> {
    match dec_u32(b, pos) {
        Option::None => None,
        Option::Some((x, p)) => if is_scalar(x) {
            Some((x as char, p))
        } else {
            None
        },
    }
}

pub open spec fn dec_chars(b: Seq<u8>, pos: int, n: nat) -> Option<(Seq<char>, int)>
    decreases n,
{
    if n == 0 {
        Some((Seq::empty(), pos))
    } else {
        match dec_char(b, pos) {
            Option::None => None,
            Option::Some((c, p1)) => match dec_chars(b, p1, (n - 1) as nat) {
                Option::None => None,
                Option::Some((s, p2)) => Some((seq![c] + s, p2)),
            },
        }
    }
}

pub open spec fn dec_str(b: Seq<u8>, pos: int) -> Option<(Seq<char>, int)> {
    match dec_u64(b, pos) {
        Option::None => None,
        Option::Some((len, p1)) => dec_chars(b, p1, len as nat),
    }
}

pub open spec fn dec_opt_str(b: Seq<u8>, pos: int) -> Option<(Option<Seq<char>>, int)> {
    if 0 <= pos && pos < b.len() {
        if b[pos] == 0u8 {
            Some((None, pos + 1))
        } else if b[pos] == 1u8 {
            match dec_str(b, pos + 1) {
                Option::None => None,
                Option::Some((s, p)) => Some((Some(s), p)),
            }
        } else {
            None
        }
    } else {
        None
    }
}

// ---------------------------------------------------------------------------
// Round trips: decoding an encoding embedded in a larger byte sequence
// yields the encoded value and stops exactly after it.
// ---------------------------------------------------------------------------

pub proof fn lemma_subrange_split(b: Seq<u8>, pos: int, e1: Seq<u8>, e2: Seq<u8>)
    requires
        0 <= pos,
        pos + e1.len() + e2.len() <= b.len(),
        b.subrange(pos, pos + e1.len() + e2.len()) == e1 + e2,
    ensures
        b.subrange(pos, pos + e1.len() as int) == e1,
        b.subrange(pos + e1.len() as int, pos + e1.len() + e2.len()) == e2,
{
    assert(b.subrange(pos, pos + e1.len() as int) =~= e1);
    assert forall|i: int| 0 <= i < e2.len() implies b[pos + e1.len() + i] == e2[i] by {
        assert(b.subrange(pos, pos + e1.len() + e2.len())[e1.len() + i] == b[pos + e1.len()
            + i]);
        assert((e1 + e2)[e1.len() + i] == e2[i]);
    }
    assert(b.subrange(pos + e1.len() as int, pos + e1.len() + e2.len()) =~= e2);
}

pub proof fn lemma_dec_u32(b: Seq<u8>, pos: int, x: u32)
    requires
        0 <= pos,
        pos + 4 <= b.len(),
        b.subrange(pos, pos + 4) == enc_u32(x),
    ensures
        dec_u32(b, pos) == Some((x, pos + 4)),
{
    lemma_auto_spec_u32_to_from_le_bytes();
    assert(spec_u32_to_le_bytes(x).len() == 4);
    assert(spec_u32_from_le_bytes(spec_u32_to_le_bytes(x)) == x);
}

pub proof fn lemma_dec_u64(b: Seq<u8>, pos: int, x: u64)
    requires
        0 <= pos,
        pos + 8 <= b.len(),
        b.subrange(pos, pos + 8) == enc_u64(x),
    ensures
        dec_u64(b, pos) == Some((x, pos + 8)),
{
    lemma_auto_spec_u64_to_from_le_bytes();
}

pub proof fn lemma_dec_u128(b: Seq<u8>, pos: int, x: u128)
    requires
        0 <= pos,
        pos + 16 <= b.len(),
        b.subrange(pos, pos + 16) == enc_u128(x),
    ensures
        dec_u128(b, pos) == Some((x, pos + 16)),
{
    lemma_auto_spec_u128_to_from_le_bytes();
    assert(spec_u128_to_le_bytes(x).len() == 16);
    assert(spec_u128_from_le_bytes(spec_u128_to_le_bytes(x)) == x);
}

pub proof fn lemma_dec_chars(b: Seq<u8>, pos: int, s: Seq<char>)
    requires
        0 <= pos,
        pos + enc_chars(s).len() <= b.len(),
        b.subrange(pos, pos + enc_chars(s).len() as int) == enc_chars(s),
    ensures
        dec_chars(b, pos, s.len()) == Some((s, pos + enc_chars(s).len())),
    decreases s.len(),
{
    lemma_auto_spec_u32_to_from_le_bytes();
    if s.len() > 0 {
        let c = s[0];
        let rest = s.drop_first();
        let e1 = enc_u32(c as u32);
        let e2 = enc_chars(rest);
        assert(enc_chars(s) == e1 + e2);
        lemma_subrange_split(b, pos, e1, e2);
        lemma_dec_u32(b, pos, c as u32);
        char_is_scalar(c);
        char_u32_cast(c, c as u32);
        lemma_dec_chars(b, pos + 4, rest);
        assert(seq![c] + rest =~= s);
    }
}

pub proof fn lemma_dec_str(b: Seq<u8>, pos: int, s: Seq<char>)
    requires
        0 <= pos,
        s.len() <= u64::MAX,
        pos + enc_str(s).len() <= b.len(),
        b.subrange(pos, pos + enc_str(s).len() as int) == enc_str(s),
    ensures
        dec_str(b, pos) == Some((s, pos + enc_str(s).len())),
{
    let e1 = enc_u64(s.len() as u64);
    let e2 = enc_chars(s);
    lemma_auto_spec_u64_to_from_le_bytes();
    assert(enc_str(s) == e1 + e2);
    lemma_subrange_split(b, pos, e1, e2);
    lemma_dec_u64(b, pos, s.len() as u64);
    lemma_dec_chars(b, pos + 8, s);
    assert((s.len() as u64) as nat == s.len());
}

pub proof fn lemma_dec_opt_str(b: Seq<u8>, pos: int, o: Option<Seq<char>>)
    requires
        0 <= pos,
        (o matches Some(s) ==> s.len() <= u64::MAX),
        pos + enc_opt_str(o).len() <= b.len(),
        b.subrange(pos, pos + enc_opt_str(o).len() as int) == enc_opt_str(o),
    ensures
        dec_opt_str(b, pos) == Some((o, pos + enc_opt_str(o).len())),
{
    match o {
        Option::None => {
            assert(b[pos] == enc_opt_str(o)[0]);
        },
        Option::Some(s) => {
            let e1 = seq![1u8];
            let e2 = enc_str(s);
            assert(enc_opt_str(o) == e1 + e2);
            lemma_subrange_split(b, pos, e1, e2);
            assert(b[pos] == 1u8) by {
                assert(b.subrange(pos, pos + 1)[0] == b[pos]);
            }
            lemma_dec_str(b, pos + 1, s);
        },
    }
}

// ---------------------------------------------------------------------------
// Executable writers: each appends exactly the encoding of its value.
// ---------------------------------------------------------------------------

pub fn write_u32(v: &mut Vec<u8>, x: u32)
    ensures
        final(v)@ == old(v)@ + enc_u32(x),
{
    let mut b = u32_to_le_bytes(x);
    v.append(&mut b);
}

pub fn write_u64(v: &mut Vec<u8>, x: u64)
    ensures
        final(v)@ == old(v)@ + enc_u64(x),
{
    let mut b = u64_to_le_bytes(x);
    v.append(&mut b);
}

pub fn write_u128(v: &mut Vec<u8>, x: u128)
    ensures
        final(v)@ == old(v)@ + enc_u128(x),
{
    let mut b = u128_to_le_bytes(x);
    v.append(&mut b);
}

fn write_chars_from(v: &mut Vec<u8>, s: &Vec<char>, i: usize)
    requires
        i <= s@.len(),
    ensures
        final(v)@ == old(v)@ + enc_chars(s@.skip(i as int)),
    decreases s@.len() - i,
{
    if i < s.len() {
        let c = s[i];
        write_u32(v, c as u32);
        write_chars_from(v, s, i + 1);
        proof {
            let tail = s@.skip(i as int);
            assert(tail.drop_first() =~= s@.skip(i + 1));
            assert(tail[0] == s@[i as int]);
        }
    } else {
        proof {
            assert(s@.skip(i as int) =~= Seq::<char>::empty());
            assert(v@ =~= v@ + Seq::<u8>::empty());
        }
    }
}

/// Append the encoding of a string.
pub fn write_str(v: &mut Vec<u8>, chars: &Vec<char>)
    ensures
        final(v)@ == old(v)@ + enc_str(chars@),
{
    write_u64(v, chars.len() as u64);
    write_chars_from(v, chars, 0);
    proof {
        assert(chars@.skip(0) =~= chars@);
    }
}

/// Append the encoding of an optional string.
pub fn write_opt_str(v: &mut Vec<u8>, o: &Option<Vec<char>>)
    ensures
        final(v)@ == old(v)@ + enc_opt_str(match o {
            Option::None => None,
            Option::Some(chars) => Some(chars@),
        }),
{
    match o {
        Option::None => {
            v.push(0u8);
            proof {
                assert(v@ =~= old(v)@ + seq![0u8]);
            }
        },
        Option::Some(chars) => {
            v.push(1u8);
            write_str(v, chars);
            proof {
                assert(v@ =~= old(v)@ + (seq![1u8] + enc_str(chars@)));
            }
        },
    }
}

// ---------------------------------------------------------------------------
// Executable readers: each matches its specification-level decoder exactly.
// ---------------------------------------------------------------------------

/// Relies on `char::from_u32`: `Some` exactly on Unicode scalar values
/// (codes below the surrogate range or between it and 0x10FFFF), returning
/// the character with that value.
#[verifier::external_body]
pub(crate) fn u32_to_char(x: u32) -> (r: Option<char>)
    ensures
        r == (if is_scalar(x) {
            Some(x as char)
        } else {
            None::<char>
        }),
{
    char::from_u32(x)
}

pub fn read_u32(b: &Vec<u8>, pos: usize) -> (r: Option<(u32, usize)>)
    requires
        pos <= b@.len(),
    ensures
        match r {
            Option::Some((x, p)) => dec_u32(b@, pos as int) == Some((x, p as int)) && p
                <= b@.len(),
            Option::None => dec_u32(b@, pos as int) is None,
        },
{
    if b.len() - pos >= 4 {
        let sl = slice_subrange(b.as_slice(), pos, pos + 4);
        let x = u32_from_le_bytes(sl);
        Some((x, pos + 4))
    } else {
        None
    }
}

pub fn read_u64(b: &Vec<u8>, pos: usize) -> (r: Option<(u64, usize)>)
    requires
        pos <= b@.len(),
    ensures
        match r {
            Option::Some((x, p)) => dec_u64(b@, pos as int) == Some((x, p as int)) && p
                <= b@.len(),
            Option::None => dec_u64(b@, pos as int) is None,
        },
{
    if b.len() - pos >= 8 {
        let sl = slice_subrange(b.as_slice(), pos, pos + 8);
        let x = u64_from_le_bytes(sl);
        Some((x, pos + 8))
    } else {
        None
    }
}

pub fn read_u128(b: &Vec<u8>, pos: usize) -> (r: Option<(u128, usize)>)
    requires
        pos <= b@.len(),
    ensures
        match r {
            Option::Some((x, p)) => dec_u128(b@, pos as int) == Some((x, p as int)) && p
                <= b@.len(),
            Option::None => dec_u128(b@, pos as int) is None,
        },
{
    if b.len() - pos >= 16 {
        let sl = slice_subrange(b.as_slice(), pos, pos + 16);
        let x = u128_from_le_bytes(sl);
        Some((x, pos + 16))
    } else {
        None
    }
}

fn read_char(b: &Vec<u8>, pos: usize) -> (r: Option<(char, usize)>)
    requires
        pos <= b@.len(),
    ensures
        match r {
            Option::Some((c, p)) => dec_char(b@, pos as int) == Some((c, p as int)) && p
                <= b@.len(),
            Option::None => dec_char(b@, pos as int) is None,
        },
{
    match read_u32(b, pos) {
        Option::None => None,
        Option::Some((x, p)) => match u32_to_char(x) {
            Option::None => None,
            Option::Some(c) => Some((c, p)),
        },
    }
}

fn read_chars(b: &Vec<u8>, pos: usize, n: u64) -> (r: Option<(Vec<char>, usize)>)
    requires
        pos <= b@.len(),
    ensures
        match r {
            Option::Some((s, p)) => dec_chars(b@, pos as int, n as nat) == Some((s@, p as int))
                && p <= b@.len(),
            Option::None => dec_chars(b@, pos as int, n as nat) is None,
        },
{
    let mut acc: Vec<char> = Vec::new();
    let mut cur: usize = pos;
    let mut i: u64 = 0;
    while i < n
        invariant
            i <= n,
            cur <= b@.len(),
            dec_chars(b@, pos as int, n as nat) == (match dec_chars(
                b@,
                cur as int,
                (n - i) as nat,
            ) {
                Option::None => None::<(Seq<char>, int)>,
                Option::Some((s, p)) => Some((acc@ + s, p)),
            }),
        decreases n - i,
    {
        match read_char(b, cur) {
            Option::None => {
                return None;
            },
            Option::Some((c, p)) => {
                proof {
                    if let Some((s, p2)) = dec_chars(b@, p as int, (n - i - 1) as nat) {
                        assert(acc@ + (seq![c] + s) =~= (acc@ + seq![c]) + s);
                    }
                    assert(acc@.push(c) =~= acc@ + seq![c]);
                }
                acc.push(c);
                cur = p;
                i = i + 1;
            },
        }
    }
    proof {
        assert(acc@ + Seq::<char>::empty() =~= acc@);
    }
    Some((acc, cur))
}

/// Read a length-prefixed string, as a vector of its characters.
pub fn read_str(b: &Vec<u8>, pos: usize) -> (r: Option<(Vec<char>, usize)>)
    requires
        pos <= b@.len(),
    ensures
        match r {
            Option::Some((s, p)) => dec_str(b@, pos as int) == Some((s@, p as int)) && p
                <= b@.len(),
            Option::None => dec_str(b@, pos as int) is None,
        },
{
    match read_u64(b, pos) {
        Option::None => None,
        Option::Some((len, p1)) => read_chars(b, p1, len),
    }
}

/// Read an optional length-prefixed string.
pub fn read_opt_str(b: &Vec<u8>, pos: usize) -> (r: Option<(Option<Vec<char>>, usize)>)
    requires
        pos <= b@.len(),
    ensures
        match r {
            Option::Some((o, p)) => dec_opt_str(b@, pos as int) == Some(
                (
                    match o {
                        Option::None => None,
                        Option::Some(chars) => Some(chars@),
                    },
                    p as int,
                ),
            ) && p <= b@.len(),
            Option::None => dec_opt_str(b@, pos as int) is None,
        },
{
    if pos < b.len() {
        let tag = b[pos];
        if tag == 0 {
            Some((None, pos + 1))
        } else if tag == 1 {
            match read_str(b, pos + 1) {
                Option::None => None,
                Option::Some((s, p)) => Some((Some(s), p)),
            }
        } else {
            None
        }
    } else {
        None
    }
}

} // verus!
