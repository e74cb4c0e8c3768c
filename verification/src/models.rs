//! Posts: the untrusted input shape, the validated domain entity, the
//! validator, and the persistence planning for the per-user post list.
use vstd::prelude::*;

use crate::codec::{
    enc_str, enc_opt_str, enc_u64, enc_u128, dec_str, dec_opt_str, dec_u64, dec_u128,
    lemma_dec_str, lemma_dec_opt_str, lemma_dec_u64, lemma_dec_u128, lemma_subrange_split,
    write_str, write_opt_str, write_u64, write_u128, read_str, read_opt_str, read_u64,
    read_u128,
};
use crate::ids::{parsed_uuid, parse_uuid, uuid_hyphenated, uuid_to_string};
use crate::twoface::{Error, External, Fallible, json_msg_body};
use crate::utils::{Response, string_to_chars, chars_to_string, u64_to_dec, dec_str_of,
    success_response};

pub mod users;

verus! {

/// A post's text may have at most this many characters.
pub const MAX_POST_CHARS: usize = 1000;

/// Untrusted new-post input, decoded straight from a request body; any field
/// may be malformed.
#[derive(Debug)]
pub struct NewPost {
    /// All posts contain some text the user wrote.
    pub text: String,
    /// Posts can optionally link to something.
    pub link: Option<String>,
    /// User that created this post.
    pub user_id: String,
}

/// A validated post. Values of this type only arise from successful
/// validation of a `NewPost`: the text is within the limit, the link (when
/// present) is the normalized form of a URL that parsed, and the user id
/// parsed as a UUID.
#[derive(Debug)]
pub struct Post {
    /// All posts contain some text the user wrote.
    pub text: String,
    /// Posts can optionally link to something; normalized URL text.
    pub link: Option<String>,
    /// User that created this post.
    pub user_id: u128,
}

/// The mathematical value of a `NewPost`.
pub struct NewPostV {
    pub text: Seq<char>,
    pub link: Option<Seq<char>>,
    pub user_id: Seq<char>,
}

/// The mathematical value of a `Post`.
pub struct PostV {
    pub text: Seq<char>,
    pub link: Option<Seq<char>>,
    pub user_id: u128,
}

impl View for NewPost {
    type V = NewPostV;

    open spec fn view(&self) -> NewPostV {
        NewPostV {
            text: self.text@,
            link: match self.link {
                Option::Some(l) => Some(l@),
                Option::None => None,
            },
            user_id: self.user_id@,
        }
    }
}

impl View for Post {
    type V = PostV;

    open spec fn view(&self) -> PostV {
        PostV {
            text: self.text@,
            link: match self.link {
                Option::Some(l) => Some(l@),
                Option::None => None,
            },
            user_id: self.user_id,
        }
    }
}

/// A name for what `url::Url::parse` accepts: the serialized, normalized
/// form of the URL when the text parses as one, nothing otherwise. A
/// function of the text alone.
pub uninterp spec fn url_norm(s: Seq<char>) -> Option<Seq<char>>;

/// Relies on `url::Url::parse` and the `From<Url> for String` impl: parses
/// and normalizes absolute URL text.
#[verifier::external_body]
pub fn parse_url(s: &str) -> (r: Option<String>)
    ensures
        match r {
            Option::Some(u) => url_norm(s@) == Some(u@),
            Option::None => url_norm(s@) is None,
        },
{
    match url::Url::parse(s) {
        Ok(u) => Some(String::from(u)),
        Err(_) => None,
    }
}

/// A name for the `text`, `link` and `user_id` members that `serde_json`
/// finds in a request body: nothing when the body is not a JSON object with
/// a string `text`, a string `user_id`, and a `link` that is absent, null or
/// a string. A function of the body text alone.
pub uninterp spec fn json_post_fields(s: Seq<char>) -> Option<
    (Seq<char>, Option<Seq<char>>, Seq<char>),
>;

/// Relies on `serde_json::from_str` and `Value`'s accessors: decodes the
/// body into the three new-post fields.
#[verifier::external_body]
fn decode_new_post(body: &str) -> (r: Option<NewPost>)
    ensures
        match r {
            Option::Some(np) => json_post_fields(body@) == Some(
                (np@.text, np@.link, np@.user_id),
            ),
            Option::None => json_post_fields(body@) is None,
        },
{
    let v: serde_json::Value = serde_json::from_str(body).ok()?;
    let text = v.get("text")?.as_str()?.to_owned();
    let user_id = v.get("user_id")?.as_str()?.to_owned();
    let link = match v.get("link") {
        None => None,
        Some(l) if l.is_null() => None,
        Some(l) => Some(l.as_str()?.to_owned()),
    };
    Some(NewPost { text, link, user_id })
}

/// When a `NewPost` passes validation: text within the limit, user id a
/// UUID, link absent or a parseable URL.
pub open spec fn new_post_valid(v: NewPostV) -> bool {
    &&& v.text.len() <= MAX_POST_CHARS
    &&& parsed_uuid(v.user_id) is Some
    &&& (v.link matches Some(l) ==> url_norm(l) is Some)
}

/// The post a valid `NewPost` validates to.
pub open spec fn post_of(v: NewPostV) -> PostV
    recommends
        new_post_valid(v),
{
    PostV {
        text: v.text,
        link: match v.link {
            Option::Some(l) => Some(url_norm(l)->Some_0),
            Option::None => None,
        },
        user_id: parsed_uuid(v.user_id)->Some_0,
    }
}

/// The message a post that is too long is rejected with: it names the limit
/// and the actual length.
pub open spec fn too_long_msg(len: nat) -> Seq<char> {
    "Posts can only have 1000 characters, but yours has "@ + dec_str_of(len as int)
}

/// The message an unparseable user id is rejected with.
pub open spec fn invalid_user_id_msg(user_id: Seq<char>) -> Seq<char> {
    user_id + " is an invalid user ID"@
}

/// The one message an invalid `NewPost` is rejected with; the checks run in
/// order and the first failure wins.
pub open spec fn post_err_msg(v: NewPostV) -> Seq<char> {
    if v.text.len() > MAX_POST_CHARS {
        too_long_msg(v.text.len())
    } else if parsed_uuid(v.user_id) is None {
        invalid_user_id_msg(v.user_id)
    } else {
        "The URL is invalid"@
    }
}

impl Post {
    /// Validate a `NewPost` into a `Post`, or reject it with a user-safe
    /// message: exactly one of the three checks fails first, in the order
    /// text length, user id, link.
    pub fn try_from(new_post: NewPost) -> (r: Result<Post, String>)
        ensures
            new_post_valid(new_post@) ==> (r matches Ok(p) && p@ == post_of(new_post@)),
            !new_post_valid(new_post@) ==> (r matches Err(m) && m@ == post_err_msg(new_post@)),
    {
        let NewPost { text, link, user_id } = new_post;
        if text.as_str().unicode_len() > MAX_POST_CHARS {
            let mut m = String::from_str("Posts can only have 1000 characters, but yours has ");
            let n = u64_to_dec(text.as_str().unicode_len() as u64);
            m.append(n.as_str());
            return Err(m);
        }
        let uid: u128 = match parse_uuid(user_id.as_str()) {
            Option::Some(u) => u,
            Option::None => {
                let mut m = user_id;
                m.append(" is an invalid user ID");
                return Err(m);
            },
        };
        let norm_link: Option<String> = match link {
            Option::None => None,
            Option::Some(l) => match parse_url(l.as_str()) {
                Option::Some(u) => Some(u),
                Option::None => {
                    return Err(String::from_str("The URL is invalid"));
                },
            },
        };
        Ok(Post { text, link: norm_link, user_id: uid })
    }
}

/// Decode and validate a new-post request body. On success the caller owns a
/// validated `Post` and proceeds to persistence; on failure this is the
/// 400 response the client receives, with the user-safe message in the JSON
/// body and the internal diagnostic dropped.
pub fn new_post(body: &str) -> (r: Result<Post, Response>)
    ensures
        match json_post_fields(body@) {
            Option::None => r matches Err(resp) && resp.status == 400 && resp.headers@.len()
                == 0 && resp.body@ == json_msg_body("Your post was malformed"@),
            Option::Some(f) => {
                let v = NewPostV { text: f.0, link: f.1, user_id: f.2 };
                if new_post_valid(v) {
                    r matches Ok(p) && p@ == post_of(v)
                } else {
                    r matches Err(resp) && resp.status == 400 && resp.headers@.len() == 0
                        && resp.body@ == json_msg_body(post_err_msg(v))
                }
            },
        },
{
    let np = match decode_new_post(body) {
        Option::Some(np) => np,
        Option::None => {
            let e = Error {
                internal: String::from_str("the request body did not decode as a new post"),
                external: External { msg: String::from_str("Your post was malformed") },
                status: 400,
            };
            return Err(e.into_response());
        },
    };
    match Post::try_from(np) {
        Ok(p) => Ok(p),
        Err(m) => {
            let e = Error {
                internal: m.clone(),
                external: External { msg: m },
                status: 400,
            };
            Err(e.into_response())
        },
    }
}

// ---------------------------------------------------------------------------
// The stored form of a user's posts: a count, then each post as its text,
// optional link and owner id.
// ---------------------------------------------------------------------------

pub open spec fn enc_post(p: PostV) -> Seq<u8> {
    enc_str(p.text) + enc_opt_str(p.link) + enc_u128(p.user_id)
}

pub open spec fn enc_post_seq(s: Seq<PostV>) -> Seq<u8>
    decreases s.len(),
{
    if s.len() == 0 {
        Seq::empty()
    } else {
        enc_post(s[0]) + enc_post_seq(s.drop_first())
    }
}

pub open spec fn enc_posts(s: Seq<PostV>) -> Seq<u8> {
    enc_u64(s.len() as u64) + enc_post_seq(s)
}

pub open spec fn dec_post(b: Seq<u8>, pos: int) -> Option<(PostV, int)> {
    match dec_str(b, pos) {
        Option::None => None,
        Option::Some((text, p1)) => match dec_opt_str(b, p1) {
            Option::None => None,
            Option::Some((link, p2)) => match dec_u128(b, p2) {
                Option::None => None,
                Option::Some((uid, p3)) => Some((PostV { text, link, user_id: uid }, p3)),
            },
        },
    }
}

pub open spec fn dec_post_seq(b: Seq<u8>, pos: int, n: nat) -> Option<(Seq<PostV>, int)>
    decreases n,
{
    if n == 0 {
        Some((Seq::empty(), pos))
    } else {
        match dec_post(b, pos) {
            Option::None => None,
            Option::Some((p, p1)) => match dec_post_seq(b, p1, (n - 1) as nat) {
                Option::None => None,
                Option::Some((s, p2)) => Some((seq![p] + s, p2)),
            },
        }
    }
}

/// The posts held in a stored value; nothing when the bytes are not exactly
/// an encoding this module produces.
pub open spec fn dec_posts(b: Seq<u8>) -> Option<Seq<PostV>> {
    match dec_u64(b, 0) {
        Option::None => None,
        Option::Some((n, p1)) => match dec_post_seq(b, p1, n as nat) {
            Option::None => None,
            Option::Some((s, p2)) => if p2 == b.len() {
                Some(s)
            } else {
                None
            },
        },
    }
}

/// The views of a sequence of posts.
pub open spec fn posts_view(s: Seq<Post>) -> Seq<PostV> {
    Seq::new(s.len(), |i: int| s[i]@)
}

pub open spec fn post_encodable(p: PostV) -> bool {
    &&& p.text.len() <= u64::MAX
    &&& (p.link matches Some(l) ==> l.len() <= u64::MAX)
}

pub open spec fn posts_encodable(s: Seq<PostV>) -> bool {
    &&& s.len() <= u64::MAX
    &&& forall|i: int| 0 <= i < s.len() ==> post_encodable(#[trigger] s[i])
}

pub proof fn lemma_dec_post(b: Seq<u8>, pos: int, p: PostV)
    requires
        0 <= pos,
        post_encodable(p),
        pos + enc_post(p).len() <= b.len(),
        b.subrange(pos, pos + enc_post(p).len() as int) == enc_post(p),
    ensures
        dec_post(b, pos) == Some((p, pos + enc_post(p).len())),
{
    let e1 = enc_str(p.text);
    let e2 = enc_opt_str(p.link);
    let e3 = enc_u128(p.user_id);
    assert(e3.len() == 16) by {
        vstd::bytes::lemma_auto_spec_u128_to_from_le_bytes();
        assert(vstd::bytes::spec_u128_to_le_bytes(p.user_id).len() == 16);
    }
    assert(enc_post(p) == e1 + (e2 + e3)) by {
        assert(e1 + e2 + e3 =~= e1 + (e2 + e3));
    }
    lemma_subrange_split(b, pos, e1, e2 + e3);
    lemma_dec_str(b, pos, p.text);
    lemma_subrange_split(b, pos + e1.len(), e2, e3);
    lemma_dec_opt_str(b, pos + e1.len(), p.link);
    lemma_dec_u128(b, pos + e1.len() + e2.len(), p.user_id);
}

pub proof fn lemma_dec_post_seq(b: Seq<u8>, pos: int, s: Seq<PostV>)
    requires
        0 <= pos,
        posts_encodable(s),
        pos + enc_post_seq(s).len() <= b.len(),
        b.subrange(pos, pos + enc_post_seq(s).len() as int) == enc_post_seq(s),
    ensures
        dec_post_seq(b, pos, s.len()) == Some((s, pos + enc_post_seq(s).len())),
    decreases s.len(),
{
    if s.len() > 0 {
        let p = s[0];
        let rest = s.drop_first();
        let e1 = enc_post(p);
        let e2 = enc_post_seq(rest);
        assert(enc_post_seq(s) == e1 + e2);
        lemma_subrange_split(b, pos, e1, e2);
        lemma_dec_post(b, pos, p);
        assert(posts_encodable(rest)) by {
            assert(forall|i: int| 0 <= i < rest.len() ==> rest[i] == s[i + 1]);
        }
        lemma_dec_post_seq(b, pos + e1.len(), rest);
        assert(seq![p] + rest =~= s);
    }
}

/// Round trip: the stored encoding of a list of posts decodes back to
/// exactly that list, field for field.
pub proof fn lemma_posts_round_trip(s: Seq<PostV>)
    requires
        posts_encodable(s),
    ensures
        dec_posts(enc_posts(s)) == Some(s),
{
    let b = enc_posts(s);
    let e1 = enc_u64(s.len() as u64);
    let e2 = enc_post_seq(s);
    assert(e1.len() == 8) by {
        vstd::bytes::lemma_auto_spec_u64_to_from_le_bytes();
        assert(vstd::bytes::spec_u64_to_le_bytes(s.len() as u64).len() == 8);
    }
    assert(b.subrange(0, b.len() as int) =~= b);
    lemma_subrange_split(b, 0, e1, e2);
    lemma_dec_u64(b, 0, s.len() as u64);
    lemma_dec_post_seq(b, 8, s);
    assert((s.len() as u64) as nat == s.len());
}

fn write_post(v: &mut Vec<u8>, p: &Post)
    ensures
        final(v)@ == old(v)@ + enc_post(p@),
{
    let text_chars = string_to_chars(p.text.as_str());
    write_str(v, &text_chars);
    let link_chars: Option<Vec<char>> = match &p.link {
        Option::None => None,
        Option::Some(l) => Some(string_to_chars(l.as_str())),
    };
    write_opt_str(v, &link_chars);
    write_u128(v, p.user_id);
    proof {
        assert(v@ =~= old(v)@ + enc_post(p@));
    }
}

fn write_posts_from(v: &mut Vec<u8>, posts: &Vec<Post>, i: usize)
    requires
        i <= posts@.len(),
    ensures
        final(v)@ == old(v)@ + enc_post_seq(posts_view(posts@).skip(i as int)),
    decreases posts@.len() - i,
{
    if i < posts.len() {
        write_post(v, &posts[i]);
        write_posts_from(v, posts, i + 1);
        proof {
            let tail = posts_view(posts@).skip(i as int);
            assert(tail.drop_first() =~= posts_view(posts@).skip(i + 1));
            assert(tail[0] == posts@[i as int]@);
            assert(v@ =~= old(v)@ + enc_post_seq(tail));
        }
    } else {
        proof {
            assert(posts_view(posts@).skip(i as int) =~= Seq::<PostV>::empty());
            assert(v@ =~= v@ + Seq::<u8>::empty());
        }
    }
}

/// Encode a list of posts into its stored form.
pub fn encode_posts(posts: &Vec<Post>) -> (r: Vec<u8>)
    ensures
        r@ == enc_posts(posts_view(posts@)),
{
    let mut v: Vec<u8> = Vec::new();
    write_u64(&mut v, posts.len() as u64);
    write_posts_from(&mut v, posts, 0);
    proof {
        assert(posts_view(posts@).skip(0) =~= posts_view(posts@));
    }
    v
}

fn read_post(b: &Vec<u8>, pos: usize) -> (r: Option<(Post, usize)>)
    requires
        pos <= b@.len(),
    ensures
        match r {
            Option::Some((p, pp)) => dec_post(b@, pos as int) == Some((p@, pp as int)) && pp
                <= b@.len(),
            Option::None => dec_post(b@, pos as int) is None,
        },
{
    let (text_chars, p1) = match read_str(b, pos) {
        Option::None => {
            return None;
        },
        Option::Some(x) => x,
    };
    let (link_chars, p2) = match read_opt_str(b, p1) {
        Option::None => {
            return None;
        },
        Option::Some(x) => x,
    };
    let (uid, p3) = match read_u128(b, p2) {
        Option::None => {
            return None;
        },
        Option::Some(x) => x,
    };
    let text = chars_to_string(&text_chars);
    let link: Option<String> = match link_chars {
        Option::None => None,
        Option::Some(chars) => Some(chars_to_string(&chars)),
    };
    Some((Post { text, link, user_id: uid }, p3))
}

/// Decode a stored value into the list of posts it holds; nothing when the
/// bytes are corrupt.
pub fn decode_posts(b: &Vec<u8>) -> (r: Option<Vec<Post>>)
    ensures
        match r {
            Option::Some(ps) => dec_posts(b@) == Some(posts_view(ps@)),
            Option::None => dec_posts(b@) is None,
        },
{
    let (n, p1) = match read_u64(b, 0) {
        Option::None => {
            return None;
        },
        Option::Some(x) => x,
    };
    let mut acc: Vec<Post> = Vec::new();
    let mut cur: usize = p1;
    let mut i: u64 = 0;
    while i < n
        invariant
            i <= n,
            cur <= b@.len(),
            dec_post_seq(b@, p1 as int, n as nat) == (match dec_post_seq(
                b@,
                cur as int,
                (n - i) as nat,
            ) {
                Option::None => None::<(Seq<PostV>, int)>,
                Option::Some((s, p)) => Some((posts_view(acc@) + s, p)),
            }),
            dec_u64(b@, 0) == Some((n, p1 as int)),
        decreases n - i,
    {
        match read_post(b, cur) {
            Option::None => {
                return None;
            },
            Option::Some((p, pp)) => {
                proof {
                    if let Some((s, p2)) = dec_post_seq(b@, pp as int, (n - i - 1) as nat) {
                        assert(posts_view(acc@) + (seq![p@] + s) =~= (posts_view(acc@)
                            + seq![p@]) + s);
                    }
                    assert(posts_view(acc@.push(p)) =~= posts_view(acc@) + seq![p@]);
                }
                acc.push(p);
                cur = pp;
                i = i + 1;
            },
        }
    }
    if cur == b.len() {
        proof {
            assert(posts_view(acc@) + Seq::<PostV>::empty() =~= posts_view(acc@));
        }
        Some(acc)
    } else {
        None
    }
}

impl Post {
    /// Plan the store write for this post: the key is the owner's UUID in
    /// its hyphenated form, the value the encoding of the full per-user
    /// list with this post first, ahead of whatever history the caller
    /// fetched for that key. Corrupt history is reported, not overwritten.
    pub fn put_first(self, existing: Option<Vec<u8>>) -> (r: Fallible<(String, Vec<u8>)>)
        ensures
            match existing {
                Option::None => r matches Ok(kv) && kv.0@ == uuid_hyphenated(self.user_id)
                    && kv.1@ == enc_posts(seq![self@]),
                Option::Some(bytes) => match dec_posts(bytes@) {
                    Option::Some(prior) => r matches Ok(kv) && kv.0@ == uuid_hyphenated(
                        self.user_id,
                    ) && kv.1@ == enc_posts(seq![self@] + prior),
                    Option::None => r matches Err(e) && e.status == 500 && e.external.msg@
                        == "couldn't load posts from database"@,
                },
            },
    {
        let prior: Vec<Post> = match existing {
            Option::None => Vec::new(),
            Option::Some(bytes) => match decode_posts(&bytes) {
                Option::Some(ps) => ps,
                Option::None => {
                    return Err(
                        Error {
                            internal: String::from_str(
                                "stored posts for this user did not decode",
                            ),
                            external: External {
                                msg: String::from_str("couldn't load posts from database"),
                            },
                            status: 500,
                        },
                    );
                },
            },
        };
        let key = uuid_to_string(self.user_id);
        let ghost self_view = self@;
        let ghost prior_view = prior@;
        let mut all: Vec<Post> = Vec::new();
        all.push(self);
        let mut rest = prior;
        all.append(&mut rest);
        let val = encode_posts(&all);
        proof {
            assert forall|i: int| 0 <= i < all@.len() implies posts_view(all@)[i] == (seq![
                self_view,
            ] + posts_view(prior_view))[i] by {
                if i > 0 {
                    assert(all@[i] == prior_view[i - 1]);
                }
            }
            assert(posts_view(all@) =~= seq![self_view] + posts_view(prior_view));
        }
        Ok((key, val))
    }
}

/// The posts stored under a user's key, from what the caller fetched there:
/// an absent value is simply "no posts yet"; a corrupt value is an error.
#[allow(unused_variables)]
pub fn all_posts_by_user(user_id: u128, fetched: Option<Vec<u8>>) -> (r: Fallible<Vec<Post>>)
    ensures
        match fetched {
            Option::None => r matches Ok(ps) && ps@.len() == 0,
            Option::Some(bytes) => match dec_posts(bytes@) {
                Option::Some(s) => r matches Ok(ps) && posts_view(ps@) == s,
                Option::None => r matches Err(e) && e.status == 500 && e.external.msg@
                    == "couldn't load posts from database"@,
            },
        },
{
    match fetched {
        Option::None => Ok(Vec::new()),
        Option::Some(bytes) => match decode_posts(&bytes) {
            Option::Some(ps) => Ok(ps),
            Option::None => Err(
                Error {
                    internal: String::from_str("stored posts for this user did not decode"),
                    external: External {
                        msg: String::from_str("couldn't load posts from database"),
                    },
                    status: 500,
                },
            ),
        },
    }
}

/// Turn the store's answer to the posts write into the handler's final
/// result: the confirmation on success, a 500 with a retry message when the
/// store failed.
pub fn post_put_outcome(ok: bool) -> (r: Result<Response, Response>)
    ensures
        ok ==> (r matches Ok(resp) && resp.status == 200 && resp.headers@.len() == 0
            && resp.body@ == "you made a post"@),
        !ok ==> (r matches Err(resp) && resp.status == 500 && resp.headers@.len() == 0
            && resp.body@ == json_msg_body("Post unsuccessful, please try again later"@)),
{
    if ok {
        Ok(success_response("you made a post", None))
    } else {
        let e = Error {
            internal: String::from_str("the store rejected the posts write"),
            external: External {
                msg: String::from_str("Post unsuccessful, please try again later"),
            },
            status: 500,
        };
        Err(e.into_response())
    }
}

} // verus!
