//! Profiles: the untrusted input shape, the validated domain entity with its
//! server-assigned identifier and join time, the validator with its
//! email-shape check, and the persistence planning for the profile record.
use vstd::prelude::*;

use crate::codec::{
    enc_str, enc_u64, enc_u128, dec_str, dec_u64, dec_u128, lemma_dec_str, lemma_dec_u64,
    lemma_dec_u128, lemma_subrange_split, write_str, write_u64, write_u128, read_str, read_u64,
    read_u128,
};
use crate::ids::{fresh_uuid, uuid_hyphenated, uuid_to_string};
use crate::models::{url_norm, parse_url};
use crate::twoface::{Error, External, json_msg_body};
use crate::utils::{Response, string_to_chars, chars_to_string, u64_to_dec, dec_str_of,
    success_response};

verus! {

/// A profile's username may have at most this many characters.
pub const MAX_USERNAME_LENGTH: usize = 32;

/// Untrusted new-profile input, decoded straight from a request body.
#[derive(Debug)]
pub struct NewProfile {
    pub username: String,
    pub pic: String,
    pub email: String,
}

/// A validated profile. `id` and `date_joined` are always server-assigned
/// at validation time, never taken from client input: the input shape has no
/// such fields, so a client cannot forge another user's identifier or join
/// date. The join time is kept as milliseconds since the Unix epoch.
#[derive(Debug)]
pub struct Profile {
    pub username: String,
    pub date_joined: i64,
    pub id: u128,
    pub pic: String,
    pub email: String,
}

/// The mathematical value of a `NewProfile`.
pub struct NewProfileV {
    pub username: Seq<char>,
    pub pic: Seq<char>,
    pub email: Seq<char>,
}

/// The mathematical value of a `Profile`.
pub struct ProfileV {
    pub username: Seq<char>,
    pub date_joined: i64,
    pub id: u128,
    pub pic: Seq<char>,
    pub email: Seq<char>,
}

impl View for NewProfile {
    type V = NewProfileV;

    open spec fn view(&self) -> NewProfileV {
        NewProfileV { username: self.username@, pic: self.pic@, email: self.email@ }
    }
}

impl View for Profile {
    type V = ProfileV;

    open spec fn view(&self) -> ProfileV {
        ProfileV {
            username: self.username@,
            date_joined: self.date_joined,
            id: self.id,
            pic: self.pic@,
            email: self.email@,
        }
    }
}

/// Relies on `chrono::Utc::now` and `DateTime::timestamp_millis`: the
/// current time in milliseconds since the Unix epoch. Nothing is promised
/// of the value; the clock is the environment's. It panics only if the
/// system clock reads before the epoch, an environmental condition
/// independent of any input.
#[verifier::external_body]
pub fn now_millis() -> i64 {
    chrono::Utc::now().timestamp_millis()
}

// ---------------------------------------------------------------------------
// The email-shape check: a conservative format test, not a deliverability
// check. It accepts text that begins with a local part of lower-case
// letters, digits, `_`, `+` and inner dots (not first or last), then `@`,
// then labels of letters and digits joined by single dots or hyphens, as
// soon as one dot is followed by at least two letters. Trailing text after
// such a match is allowed.
// ---------------------------------------------------------------------------

pub open spec fn is_lower(c: char) -> bool {
    'a' <= c && c <= 'z'
}

pub open spec fn is_digit(c: char) -> bool {
    '0' <= c && c <= '9'
}

pub open spec fn is_alnum(c: char) -> bool {
    is_lower(c) || is_digit(c)
}

pub open spec fn is_local_char(c: char) -> bool {
    is_alnum(c) || c == '_' || c == '+' || c == '.'
}

/// The first position at or after `i` that does not hold a local-part
/// character (or the end of the text).
pub open spec fn scan_local(s: Seq<char>, i: int) -> int
    decreases s.len() - i,
{
    if i < 0 || i >= s.len() {
        i
    } else if !is_local_char(s[i]) {
        i
    } else {
        scan_local(s, i + 1)
    }
}

/// The first position at or after `i` that does not hold a letter or digit
/// (or the end of the text).
pub open spec fn scan_alnum(s: Seq<char>, i: int) -> int
    decreases s.len() - i,
{
    if i < 0 || i >= s.len() {
        i
    } else if !is_alnum(s[i]) {
        i
    } else {
        scan_alnum(s, i + 1)
    }
}

/// Whether a domain with a top-level label of at least two letters starts at
/// `pos`: a label of letters and digits, then either a dot followed by two
/// letters (a match, whatever follows), or a single dot or hyphen and a
/// further label to continue with.
pub open spec fn domain_matches(s: Seq<char>, pos: int) -> bool
    decreases s.len() - pos,
{
    let j = scan_alnum(s, pos);
    if j <= pos || j >= s.len() {
        false
    } else if s[j] == '.' && j + 2 < s.len() && is_lower(s[j + 1]) && is_lower(s[j + 2]) {
        true
    } else if (s[j] == '.' || s[j] == '-') && j + 1 < s.len() && is_alnum(s[j + 1]) {
        domain_matches(s, j + 1)
    } else {
        false
    }
}

/// Whether the text has the accepted email shape: a non-empty local part
/// that neither starts nor ends with a dot, an `@`, and a matching domain.
pub open spec fn email_matches(s: Seq<char>) -> bool {
    let k = scan_local(s, 0);
    &&& k >= 1
    &&& k < s.len()
    &&& s[k] == '@'
    &&& s[0] != '.'
    &&& s[k - 1] != '.'
    &&& domain_matches(s, k + 1)
}

fn lower_exec(c: char) -> (r: bool)
    ensures
        r == is_lower(c),
{
    let x = c as u32;
    97 <= x && x <= 122
}

fn alnum_exec(c: char) -> (r: bool)
    ensures
        r == is_alnum(c),
{
    let x = c as u32;
    (97 <= x && x <= 122) || (48 <= x && x <= 57)
}

fn local_char_exec(c: char) -> (r: bool)
    ensures
        r == is_local_char(c),
{
    alnum_exec(c) || c == '_' || c == '+' || c == '.'
}

fn scan_local_exec(v: &Vec<char>, i: usize) -> (r: usize)
    requires
        i <= v@.len(),
    ensures
        r == scan_local(v@, i as int),
        i <= r <= v@.len(),
    decreases v@.len() - i,
{
    if i < v.len() && local_char_exec(v[i]) {
        scan_local_exec(v, i + 1)
    } else {
        i
    }
}

fn scan_alnum_exec(v: &Vec<char>, i: usize) -> (r: usize)
    requires
        i <= v@.len(),
    ensures
        r == scan_alnum(v@, i as int),
        i <= r <= v@.len(),
    decreases v@.len() - i,
{
    if i < v.len() && alnum_exec(v[i]) {
        scan_alnum_exec(v, i + 1)
    } else {
        i
    }
}

fn domain_check(v: &Vec<char>, pos: usize) -> (r: bool)
    requires
        pos <= v@.len(),
    ensures
        r == domain_matches(v@, pos as int),
    decreases v@.len() - pos,
{
    let j = scan_alnum_exec(v, pos);
    if j <= pos || j >= v.len() {
        return false;
    }
    let cj = v[j];
    if cj == '.' && v.len() - j > 2 && lower_exec(v[j + 1]) && lower_exec(v[j + 2]) {
        return true;
    }
    if (cj == '.' || cj == '-') && v.len() - j > 1 && alnum_exec(v[j + 1]) {
        return domain_check(v, j + 1);
    }
    false
}

/// Test whether text has the accepted email shape.
pub fn is_email(s: &str) -> (r: bool)
    ensures
        r == email_matches(s@),
{
    let v = string_to_chars(s);
    let k = scan_local_exec(&v, 0);
    if k < 1 || k >= v.len() {
        return false;
    }
    if v[k] != '@' {
        return false;
    }
    if v[0] == '.' {
        return false;
    }
    if v[k - 1] == '.' {
        return false;
    }
    domain_check(&v, k + 1)
}

// ---------------------------------------------------------------------------
// Validation.
// ---------------------------------------------------------------------------

/// When a `NewProfile` passes validation: username within the limit, picture
/// a parseable URL, email of the accepted shape.
pub open spec fn new_profile_valid(v: NewProfileV) -> bool {
    &&& v.username.len() <= MAX_USERNAME_LENGTH
    &&& url_norm(v.pic) is Some
    &&& email_matches(v.email)
}

/// The message an over-long username is rejected with: it names the limit
/// and the actual length.
pub open spec fn username_too_long_msg(len: nat) -> Seq<char> {
    "Usernames can only have 32 characters, but yours has "@ + dec_str_of(len as int)
}

/// The one message an invalid `NewProfile` is rejected with; the checks run
/// in order and the first failure wins.
pub open spec fn profile_err_msg(v: NewProfileV) -> Seq<char> {
    if v.username.len() > MAX_USERNAME_LENGTH {
        username_too_long_msg(v.username.len())
    } else if url_norm(v.pic) is None {
        "Your picture URL is invalid"@
    } else {
        "Your email address is invalid"@
    }
}

impl Profile {
    /// Validate a `NewProfile` into a `Profile`, or reject it with a
    /// user-safe message. On success the username, picture and email come
    /// from the input (the picture normalized); the identifier is freshly
    /// generated and the join time read from the clock, so neither is ever
    /// client-supplied.
    pub fn try_from(new: NewProfile) -> (r: Result<Profile, String>)
        ensures
            new_profile_valid(new@) ==> (r matches Ok(p) && p@.username == new@.username
                && p@.pic == url_norm(new@.pic)->Some_0 && p@.email == new@.email),
            !new_profile_valid(new@) ==> (r matches Err(m) && m@ == profile_err_msg(new@)),
    {
        let NewProfile { username, pic, email } = new;
        if username.as_str().unicode_len() > MAX_USERNAME_LENGTH {
            let mut m = String::from_str(
                "Usernames can only have 32 characters, but yours has ",
            );
            let n = u64_to_dec(username.as_str().unicode_len() as u64);
            m.append(n.as_str());
            return Err(m);
        }
        let id = fresh_uuid();
        let norm_pic = match parse_url(pic.as_str()) {
            Option::Some(u) => u,
            Option::None => {
                return Err(String::from_str("Your picture URL is invalid"));
            },
        };
        if !is_email(email.as_str()) {
            return Err(String::from_str("Your email address is invalid"));
        }
        Ok(Profile { username, date_joined: now_millis(), id, pic: norm_pic, email })
    }
}

// ---------------------------------------------------------------------------
// The stored form of a profile: username, join time, identifier, picture
// URL and email. The signed join time is stored shifted into an unsigned
// 64-bit value.
// ---------------------------------------------------------------------------

pub open spec fn date_to_u64(d: i64) -> u64 {
    (d + 0x8000_0000_0000_0000) as u64
}

pub open spec fn date_from_u64(u: u64) -> i64 {
    (u - 0x8000_0000_0000_0000) as i64
}

pub open spec fn enc_profile(p: ProfileV) -> Seq<u8> {
    enc_str(p.username) + enc_u64(date_to_u64(p.date_joined)) + enc_u128(p.id) + enc_str(p.pic)
        + enc_str(p.email)
}

/// The profile held in a stored value; nothing when the bytes are not
/// exactly an encoding this module produces.
pub open spec fn dec_profile(b: Seq<u8>) -> Option<ProfileV> {
    match dec_str(b, 0) {
        Option::None => None,
        Option::Some((username, p1)) => match dec_u64(b, p1) {
            Option::None => None,
            Option::Some((du, p2)) => match dec_u128(b, p2) {
                Option::None => None,
                Option::Some((id, p3)) => match dec_str(b, p3) {
                    Option::None => None,
                    Option::Some((pic, p4)) => match dec_str(b, p4) {
                        Option::None => None,
                        Option::Some((email, p5)) => if p5 == b.len() {
                            Some(
                                ProfileV {
                                    username,
                                    date_joined: date_from_u64(du),
                                    id,
                                    pic,
                                    email,
                                },
                            )
                        } else {
                            None
                        },
                    },
                },
            },
        },
    }
}

pub open spec fn profile_encodable(p: ProfileV) -> bool {
    &&& p.username.len() <= u64::MAX
    &&& p.pic.len() <= u64::MAX
    &&& p.email.len() <= u64::MAX
}

/// Round trip: the stored encoding of a profile decodes back to exactly
/// that profile, field for field.
pub proof fn lemma_profile_round_trip(p: ProfileV)
    requires
        profile_encodable(p),
    ensures
        dec_profile(enc_profile(p)) == Some(p),
{
    let b = enc_profile(p);
    let e1 = enc_str(p.username);
    let e2 = enc_u64(date_to_u64(p.date_joined));
    let e3 = enc_u128(p.id);
    let e4 = enc_str(p.pic);
    let e5 = enc_str(p.email);
    assert(e2.len() == 8) by {
        vstd::bytes::lemma_auto_spec_u64_to_from_le_bytes();
        assert(vstd::bytes::spec_u64_to_le_bytes(date_to_u64(p.date_joined)).len() == 8);
    }
    assert(e3.len() == 16) by {
        vstd::bytes::lemma_auto_spec_u128_to_from_le_bytes();
        assert(vstd::bytes::spec_u128_to_le_bytes(p.id).len() == 16);
    }
    assert(b == e1 + (e2 + (e3 + (e4 + e5)))) by {
        assert(e1 + e2 + e3 + e4 + e5 =~= e1 + (e2 + (e3 + (e4 + e5))));
    }
    assert(b.subrange(0, b.len() as int) =~= b);
    lemma_subrange_split(b, 0, e1, e2 + (e3 + (e4 + e5)));
    lemma_dec_str(b, 0, p.username);
    lemma_subrange_split(b, e1.len() as int, e2, e3 + (e4 + e5));
    lemma_dec_u64(b, e1.len() as int, date_to_u64(p.date_joined));
    lemma_subrange_split(b, e1.len() + e2.len() as int, e3, e4 + e5);
    lemma_dec_u128(b, e1.len() + e2.len() as int, p.id);
    lemma_subrange_split(b, e1.len() + e2.len() + e3.len() as int, e4, e5);
    lemma_dec_str(b, e1.len() + e2.len() + e3.len() as int, p.pic);
    lemma_dec_str(b, e1.len() + e2.len() + e3.len() + e4.len() as int, p.email);
    assert(date_from_u64(date_to_u64(p.date_joined)) == p.date_joined);
}

/// Encode a profile into its stored form.
pub fn encode_profile(p: &Profile) -> (r: Vec<u8>)
    ensures
        r@ == enc_profile(p@),
{
    let mut v: Vec<u8> = Vec::new();
    let username_chars = string_to_chars(p.username.as_str());
    write_str(&mut v, &username_chars);
    let shifted: i128 = (p.date_joined as i128) + 0x8000_0000_0000_0000i128;
    write_u64(&mut v, shifted as u64);
    write_u128(&mut v, p.id);
    let pic_chars = string_to_chars(p.pic.as_str());
    write_str(&mut v, &pic_chars);
    let email_chars = string_to_chars(p.email.as_str());
    write_str(&mut v, &email_chars);
    proof {
        assert(shifted as u64 == date_to_u64(p.date_joined));
        assert(v@ =~= enc_profile(p@));
    }
    v
}

/// Decode a stored value into the profile it holds; nothing when the bytes
/// are corrupt.
pub fn decode_profile(b: &Vec<u8>) -> (r: Option<Profile>)
    ensures
        match r {
            Option::Some(p) => dec_profile(b@) == Some(p@),
            Option::None => dec_profile(b@) is None,
        },
{
    let (username_chars, p1) = match read_str(b, 0) {
        Option::None => {
            return None;
        },
        Option::Some(x) => x,
    };
    let (du, p2) = match read_u64(b, p1) {
        Option::None => {
            return None;
        },
        Option::Some(x) => x,
    };
    let (id, p3) = match read_u128(b, p2) {
        Option::None => {
            return None;
        },
        Option::Some(x) => x,
    };
    let (pic_chars, p4) = match read_str(b, p3) {
        Option::None => {
            return None;
        },
        Option::Some(x) => x,
    };
    let (email_chars, p5) = match read_str(b, p4) {
        Option::None => {
            return None;
        },
        Option::Some(x) => x,
    };
    if p5 != b.len() {
        return None;
    }
    let shifted: i128 = (du as i128) - 0x8000_0000_0000_0000i128;
    let date_joined: i64 = shifted as i64;
    proof {
        assert(date_joined == date_from_u64(du));
    }
    Some(
        Profile {
            username: chars_to_string(&username_chars),
            date_joined,
            id,
            pic: chars_to_string(&pic_chars),
            email: chars_to_string(&email_chars),
        },
    )
}

impl Profile {
    /// Plan the store write for this profile: the key is the profile's own
    /// UUID in its hyphenated form, the value the profile's encoding.
    pub fn put(&self) -> (r: (String, Vec<u8>))
        ensures
            r.0@ == uuid_hyphenated(self.id),
            r.1@ == enc_profile(self@),
    {
        let key = uuid_to_string(self.id);
        let val = encode_profile(self);
        (key, val)
    }
}

// ---------------------------------------------------------------------------
// The handler.
// ---------------------------------------------------------------------------

/// A name for the `username`, `pic` and `email` members that `serde_json`
/// finds in a request body: nothing when the body is not a JSON object with
/// those three string members. A function of the body text alone.
pub uninterp spec fn json_profile_fields(s: Seq<char>) -> Option<(Seq<char>, Seq<char>, Seq<char>)>;

/// Relies on `serde_json::from_str` and `Value`'s accessors: decodes the
/// body into the three new-profile fields.
#[verifier::external_body]
fn decode_new_profile(body: &str) -> (r: Option<NewProfile>)
    ensures
        match r {
            Option::Some(np) => json_profile_fields(body@) == Some(
                (np@.username, np@.pic, np@.email),
            ),
            Option::None => json_profile_fields(body@) is None,
        },
{
    let v: serde_json::Value = serde_json::from_str(body).ok()?;
    let username = v.get("username")?.as_str()?.to_owned();
    let pic = v.get("pic")?.as_str()?.to_owned();
    let email = v.get("email")?.as_str()?.to_owned();
    Some(NewProfile { username, pic, email })
}

/// Decode and validate a new-profile request body. On success the caller
/// owns a validated `Profile` and proceeds to persistence; on failure this
/// is the 400 response the client receives, with the user-safe message in
/// the JSON body and the internal diagnostic dropped.
pub fn new_user_profile(body: &str) -> (r: Result<Profile, Response>)
    ensures
        match json_profile_fields(body@) {
            Option::None => r matches Err(resp) && resp.status == 400 && resp.headers@.len()
                == 0 && resp.body@ == json_msg_body("Your profile was malformed"@),
            Option::Some(f) => {
                let v = NewProfileV { username: f.0, pic: f.1, email: f.2 };
                if new_profile_valid(v) {
                    r matches Ok(p) && p@.username == v.username && p@.pic == url_norm(
                        v.pic,
                    )->Some_0 && p@.email == v.email
                } else {
                    r matches Err(resp) && resp.status == 400 && resp.headers@.len() == 0
                        && resp.body@ == json_msg_body(profile_err_msg(v))
                }
            },
        },
{
    let np = match decode_new_profile(body) {
        Option::Some(np) => np,
        Option::None => {
            let e = Error {
                internal: String::from_str("the request body did not decode as a new profile"),
                external: External { msg: String::from_str("Your profile was malformed") },
                status: 400,
            };
            return Err(e.into_response());
        },
    };
    match Profile::try_from(np) {
        Ok(p) => Ok(p),
        Err(m) => {
            let e = Error {
                internal: m.clone(),
                external: External { msg: m },
                status: 400,
            };
            Err(e.into_response())
        },
    }
}

/// Turn the store's answer to the profile write into the handler's final
/// result: a confirmation that redirects home on success, a 500 with a
/// retry message when the store failed.
pub fn profile_put_outcome(ok: bool) -> (r: Result<Response, Response>)
    ensures
        ok ==> (r matches Ok(resp) && resp.status == 200 && resp.body@ == "profile created"@
            && resp.headers@.len() == 1 && resp.headers@[0].0@ == "location"@
            && resp.headers@[0].1@ == "/"@),
        !ok ==> (r matches Err(resp) && resp.status == 500 && resp.headers@.len() == 0
            && resp.body@ == json_msg_body("Couldn't create user, please try again later"@)),
{
    if ok {
        Ok(success_response("profile created", Some(String::from_str("/"))))
    } else {
        let e = Error {
            internal: String::from_str("the store rejected the profile write"),
            external: External {
                msg: String::from_str("Couldn't create user, please try again later"),
            },
            status: 500,
        };
        Err(e.into_response())
    }
}

} // verus!
