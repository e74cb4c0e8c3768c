//! Small building blocks shared by the handlers: the plain HTTP response
//! value the core produces, string helpers, and decimal formatting.
use vstd::prelude::*;

verus! {

/// A plain HTTP response: status code, headers and body. The transport layer
/// turns this into whatever its host runtime expects on the wire.
#[derive(Debug)]
pub struct Response {
    pub status: u16,
    pub headers: Vec<(String, String)>,
    pub body: String,
}

/// Compare two string slices character by character.
pub fn str_eq(a: &str, b: &str) -> (r: bool)
    ensures
        r == (a@ == b@),
{
    let na = a.unicode_len();
    let nb = b.unicode_len();
    if na != nb {
        return false;
    }
    let mut i: usize = 0;
    while i < na
        invariant
            i <= na,
            na == a@.len(),
            nb == b@.len(),
            na == nb,
            forall|j: int| 0 <= j < i ==> a@[j] == b@[j],
        decreases na - i,
    {
        if a.get_char(i) != b.get_char(i) {
            return false;
        }
        i = i + 1;
    }
    proof {
        assert(a@ =~= b@);
    }
    true
}

/// Collect the characters of a string slice into a vector.
pub fn string_to_chars(s: &str) -> (r: Vec<char>)
    ensures
        r@ == s@,
{
    let n = s.unicode_len();
    let mut r: Vec<char> = Vec::new();
    let mut i: usize = 0;
    while i < n
        invariant
            i <= n,
            n == s@.len(),
            r@ =~= s@.subrange(0, i as int),
        decreases n - i,
    {
        r.push(s.get_char(i));
        i = i + 1;
    }
    proof {
        assert(r@ =~= s@);
    }
    r
}

/// Relies on `String`'s `FromIterator<char>`: collecting a vector of
/// characters yields the string of exactly those characters, in order.
#[verifier::external_body]
pub fn chars_to_string(v: &Vec<char>) -> (r: String)
    ensures
        r@ == v@,
{
    v.iter().collect()
}

/// The decimal digit for a value below ten.
pub open spec fn dec_digit(d: int) -> char {
    if d == 0 {
        '0'
    } else if d == 1 {
        '1'
    } else if d == 2 {
        '2'
    } else if d == 3 {
        '3'
    } else if d == 4 {
        '4'
    } else if d == 5 {
        '5'
    } else if d == 6 {
        '6'
    } else if d == 7 {
        '7'
    } else if d == 8 {
        '8'
    } else {
        '9'
    }
}

/// The usual base-ten rendering of a non-negative integer, no leading zeros.
pub open spec fn dec_str_of(n: int) -> Seq<char>
    recommends
        n >= 0,
    decreases n,
{
    if n < 10 {
        seq![dec_digit(n)]
    } else {
        dec_str_of(n / 10) + seq![dec_digit(n % 10)]
    }
}

fn push_dec_digits(n: u64, v: &mut Vec<char>)
    ensures
        final(v)@ == old(v)@ + dec_str_of(n as int),
    decreases n,
{
    if n < 10 {
        let d = dec_digit_exec(n);
        v.push(d);
    } else {
        push_dec_digits(n / 10, v);
        let d = dec_digit_exec(n % 10);
        v.push(d);
    }
}

fn dec_digit_exec(d: u64) -> (c: char)
    ensures
        c == dec_digit(d as int),
{
    if d == 0 {
        '0'
    } else if d == 1 {
        '1'
    } else if d == 2 {
        '2'
    } else if d == 3 {
        '3'
    } else if d == 4 {
        '4'
    } else if d == 5 {
        '5'
    } else if d == 6 {
        '6'
    } else if d == 7 {
        '7'
    } else if d == 8 {
        '8'
    } else {
        '9'
    }
}

/// Render a number in decimal, as `format!("{}")` would.
pub fn u64_to_dec(n: u64) -> (r: String)
    ensures
        r@ == dec_str_of(n as int),
{
    let mut v: Vec<char> = Vec::new();
    push_dec_digits(n, &mut v);
    chars_to_string(&v)
}

/// A character folded to lower case, for the ASCII range.
pub open spec fn lower_char(c: char) -> char {
    if 'A' <= c && c <= 'Z' {
        ((c as u32) + 32) as char
    } else {
        c
    }
}

/// Text folded to lower case, character by character, for the ASCII range.
pub open spec fn lower(s: Seq<char>) -> Seq<char> {
    Seq::new(s.len(), |i: int| lower_char(s[i]))
}

fn lower_char_exec(c: char) -> (r: char)
    ensures
        r == lower_char(c),
{
    let x = c as u32;
    if 65 <= x && x <= 90 {
        match crate::codec::u32_to_char(x + 32) {
            Option::Some(c2) => c2,
            Option::None => c,
        }
    } else {
        c
    }
}

/// The characters of a string slice, folded to lower case.
pub fn lower_chars(s: &str) -> (r: Vec<char>)
    ensures
        r@ == lower(s@),
{
    let cs = string_to_chars(s);
    let n = cs.len();
    let mut r: Vec<char> = Vec::new();
    let mut i: usize = 0;
    while i < n
        invariant
            i <= n,
            n == cs@.len(),
            cs@ == s@,
            r@.len() == i,
            forall|j: int| 0 <= j < i ==> r@[j] == lower_char(s@[j]),
        decreases n - i,
    {
        let lc = lower_char_exec(cs[i]);
        r.push(lc);
        i = i + 1;
    }
    proof {
        assert(r@ =~= lower(s@));
    }
    r
}

/// The single `location` header of a redirecting response.
pub fn redirect_headers(url: &str) -> (h: Vec<(String, String)>)
    ensures
        h@.len() == 1,
        h@[0].0@ == "location"@,
        h@[0].1@ == url@,
{
    let mut h: Vec<(String, String)> = Vec::new();
    h.push((String::from_str("location"), String::from_str(url)));
    h
}

/// A 200 response with the given body; with a `location` header when a
/// follow-up page is supplied.
pub fn success_response(body: &str, url: Option<String>) -> (r: Response)
    ensures
        r.status == 200,
        r.body@ == body@,
        match url {
            Option::None => r.headers@.len() == 0,
            Option::Some(u) => r.headers@.len() == 1 && r.headers@[0].0@ == "location"@
                && r.headers@[0].1@ == u@,
        },
{
    let headers: Vec<(String, String)> = match url {
        Option::None => Vec::new(),
        Option::Some(u) => redirect_headers(u.as_str()),
    };
    Response { status: 200, headers, body: String::from_str(body) }
}

} // verus!
