//! The dual-channel error type: an internal diagnostic for logs and an
//! external, user-safe payload for the wire. Only the external half is ever
//! written into a response body.
use vstd::prelude::*;

use crate::utils::{u64_to_dec, string_to_chars, chars_to_string, dec_str_of, Response};

verus! {

/// The user-facing half of an error: a safe message shown to the client.
#[derive(Debug)]
pub struct External {
    pub msg: String,
}

/// An error with two independent channels: `internal` is a diagnostic meant
/// only for logs, `external` holds the message the client may see, and
/// `status` is the HTTP status code the response will carry. `external.msg`
/// is supplied independently at each construction site and never derived
/// from `internal`.
#[derive(Debug)]
pub struct Error {
    pub internal: String,
    pub external: External,
    pub status: u16,
}

/// A computation that either succeeds or carries a dual-channel `Error`.
pub type Fallible<T> = Result<T, Error>;

/// The lower-case hexadecimal digit for a value below sixteen.
pub open spec fn hex_digit(d: int) -> char {
    if d == 0 {
        '0'
    } else if d == 1 {
        '1'
    } else if d == 2 {
        '2'
    } else if d == 3 {
        '3'
    } else if d == 4 {
        '4'
    } else if d == 5 {
        '5'
    } else if d == 6 {
        '6'
    } else if d == 7 {
        '7'
    } else if d == 8 {
        '8'
    } else if d == 9 {
        '9'
    } else if d == 10 {
        'a'
    } else if d == 11 {
        'b'
    } else if d == 12 {
        'c'
    } else if d == 13 {
        'd'
    } else if d == 14 {
        'e'
    } else {
        'f'
    }
}

pub fn hex_digit_exec(d: u8) -> (c: char)
    ensures
        c == hex_digit(d as int),
{
    if d == 0 {
        '0'
    } else if d == 1 {
        '1'
    } else if d == 2 {
        '2'
    } else if d == 3 {
        '3'
    } else if d == 4 {
        '4'
    } else if d == 5 {
        '5'
    } else if d == 6 {
        '6'
    } else if d == 7 {
        '7'
    } else if d == 8 {
        '8'
    } else if d == 9 {
        '9'
    } else if d == 10 {
        'a'
    } else if d == 11 {
        'b'
    } else if d == 12 {
        'c'
    } else if d == 13 {
        'd'
    } else if d == 14 {
        'e'
    } else {
        'f'
    }
}

/// How one character appears inside a JSON string literal: quotes and
/// backslashes are escaped, control characters use the `\u00XX` form, and
/// everything else stands as itself.
pub open spec fn json_escape_char(c: char) -> Seq<char> {
    if c == '"' {
        seq!['\\', '"']
    } else if c == '\\' {
        seq!['\\', '\\']
    } else if (c as u32) < 32 {
        seq!['\\', 'u', '0', '0', hex_digit((c as u32) as int / 16), hex_digit((c as u32) as int % 16)]
    } else {
        seq![c]
    }
}

/// A string escaped for inclusion in a JSON string literal.
pub open spec fn json_escape(s: Seq<char>) -> Seq<char>
    decreases s.len(),
{
    if s.len() == 0 {
        Seq::empty()
    } else {
        json_escape_char(s[0]) + json_escape(s.drop_first())
    }
}

/// The JSON object `{"msg": ...}` carrying a user-facing message: the only
/// shape an error body ever takes, a function of the external message alone.
pub open spec fn json_msg_body(msg: Seq<char>) -> Seq<char> {
    "{\"msg\":\""@ + json_escape(msg) + "\"}"@
}

fn push_json_escaped(c: char, v: &mut Vec<char>)
    ensures
        final(v)@ == old(v)@ + json_escape_char(c),
{
    if c == '"' {
        v.push('\\');
        v.push('"');
    } else if c == '\\' {
        v.push('\\');
        v.push('\\');
    } else {
        let x: u32 = c as u32;
        if x < 32 {
            v.push('\\');
            v.push('u');
            v.push('0');
            v.push('0');
            let hi = hex_digit_exec((x / 16) as u8);
            v.push(hi);
            let lo = hex_digit_exec((x % 16) as u8);
            v.push(lo);
        } else {
            v.push(c);
        }
    }
}

fn push_str_chars(s: &str, v: &mut Vec<char>)
    ensures
        final(v)@ == old(v)@ + s@,
{
    let chars = string_to_chars(s);
    let n = chars.len();
    let mut i: usize = 0;
    while i < n
        invariant
            i <= n,
            n == chars@.len(),
            chars@ == s@,
            v@ =~= old(v)@ + s@.subrange(0, i as int),
        decreases n - i,
    {
        v.push(chars[i]);
        i = i + 1;
    }
    proof {
        assert(s@.subrange(0, s@.len() as int) =~= s@);
    }
}

/// Build the JSON error body `{"msg":"..."}` for a user-facing message.
pub fn render_json_msg(msg: &str) -> (r: String)
    ensures
        r@ == json_msg_body(msg@),
{
    let mut v: Vec<char> = Vec::new();
    push_str_chars("{\"msg\":\"", &mut v);
    let chars = string_to_chars(msg);
    let n = chars.len();
    let mut i: usize = 0;
    while i < n
        invariant
            i <= n,
            n == chars@.len(),
            chars@ == msg@,
            v@ =~= "{\"msg\":\""@ + json_escape(msg@.subrange(0, i as int)),
        decreases n - i,
    {
        push_json_escaped(chars[i], &mut v);
        proof {
            lemma_json_escape_snoc(msg@, i as int);
        }
        i = i + 1;
    }
    push_str_chars("\"}", &mut v);
    proof {
        assert(msg@.subrange(0, msg@.len() as int) =~= msg@);
    }
    chars_to_string(&v)
}

proof fn lemma_json_escape_snoc(s: Seq<char>, i: int)
    requires
        0 <= i < s.len(),
    ensures
        json_escape(s.subrange(0, i + 1)) == json_escape(s.subrange(0, i)) + json_escape_char(s[i]),
    decreases i,
{
    let pre = s.subrange(0, i + 1);
    if i == 0 {
        assert(pre.drop_first() =~= Seq::<char>::empty());
        assert(json_escape(pre) == json_escape_char(s[0]) + json_escape(pre.drop_first()));
        assert(json_escape(s.subrange(0, 0)) == Seq::<char>::empty());
        assert(json_escape(s.subrange(0, 1)) =~= json_escape(s.subrange(0, 0)) + json_escape_char(s[0]));
    } else {
        lemma_json_escape_snoc(s.subrange(1, s.len() as int), i - 1);
        let t = s.subrange(1, s.len() as int);
        assert(pre.drop_first() =~= t.subrange(0, i));
        assert(s.subrange(0, i).drop_first() =~= t.subrange(0, i - 1));
        assert(t[i - 1] == s[i]);
        assert(json_escape(pre) == json_escape_char(s[0]) + json_escape(t.subrange(0, i)));
        assert(json_escape(s.subrange(0, i)) == json_escape_char(s[0]) + json_escape(t.subrange(0, i - 1)));
        assert(json_escape(t.subrange(0, i)) == json_escape(t.subrange(0, i - 1)) + json_escape_char(t[i - 1]));
        assert(json_escape(pre) =~= json_escape(s.subrange(0, i)) + json_escape_char(s[i]));
    }
}

/// A name for what `http::StatusCode::canonical_reason` returns for a code:
/// the canonical reason phrase of that status, or nothing for a code with
/// none. A fixed table, a function of the code alone.
pub uninterp spec fn reason_of(code: u16) -> Option<Seq<char>>;

/// Relies on `http::StatusCode::from_u16` and `canonical_reason`: the
/// canonical reason phrase of a status code, if it has one.
#[verifier::external_body]
fn status_reason(code: u16) -> (r: Option<String>)
    ensures
        match r {
            Option::Some(s) => reason_of(code) == Some(s@),
            Option::None => reason_of(code) is None,
        },
{
    match http::StatusCode::from_u16(code) {
        Ok(sc) => sc.canonical_reason().map(|s| s.to_owned()),
        Err(_) => None,
    }
}

/// The status line shown on error pages: the code in decimal, a space, and
/// the canonical reason phrase, with a fallback for unknown codes.
pub open spec fn status_line_of(code: u16) -> Seq<char> {
    dec_str_of(code as int) + " "@ + (match reason_of(code) {
        Option::Some(s) => s,
        Option::None => "Unknown Error"@,
    })
}

/// Render the status line of a status code, e.g. the code then its phrase.
pub fn status_line(code: u16) -> (r: String)
    ensures
        r@ == status_line_of(code),
{
    let mut r = u64_to_dec(code as u64);
    r.append(" ");
    match status_reason(code) {
        Option::Some(s) => {
            r.append(s.as_str());
        },
        Option::None => {
            r.append("Unknown Error");
        },
    }
    r
}

impl Error {
    /// Flatten this error into the response the client receives: the status
    /// it carries and a JSON body built from the external message alone. The
    /// internal diagnostic never reaches the result.
    pub fn into_response(self) -> (r: Response)
        ensures
            r.status == self.status,
            r.headers@.len() == 0,
            r.body@ == json_msg_body(self.external.msg@),
    {
        let body = render_json_msg(self.external.msg.as_str());
        Response { status: self.status, headers: Vec::new(), body }
    }

    /// The one-line rendering of this error, status line then external
    /// message; the internal diagnostic is not part of it.
    pub fn display_string(&self) -> (r: String)
        ensures
            r@ == "HTTP "@ + dec_str_of(self.status as int) + ": "@ + self.external.msg@,
    {
        let mut r = String::from_str("HTTP ");
        let num = u64_to_dec(self.status as u64);
        r.append(num.as_str());
        r.append(": ");
        r.append(self.external.msg.as_str());
        r
    }
}

} // verus!
