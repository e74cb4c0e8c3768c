//! The response renderer: turns page data or a dual-channel error into the
//! HTTP response the client receives. Only the error's external channel ever
//! reaches a body, and a failure of the template engine itself becomes a
//! generic internal-error response, never a raw engine error on the wire.
use vstd::prelude::*;

use crate::models::{Post, PostV, posts_view, dec_posts, decode_posts};
use crate::templates::{Registry, TemplateName, hb_render_of, ctx_view};
use crate::twoface::{Error, External, status_line_of, status_line};
use crate::utils::Response;

verus! {

/// A response carrying exactly the one `content-type: text/html` header.
pub open spec fn html_header_only(r: Response) -> bool {
    &&& r.headers@.len() == 1
    &&& r.headers@[0].0@ == "content-type"@
    &&& r.headers@[0].1@ == "text/html"@
}

/// The plain response sent when the template engine itself failed: a
/// generic internal error, with nothing from the failed rendering in it.
pub open spec fn is_render_fallback(r: Response) -> bool {
    &&& r.status == 500
    &&& r.headers@.len() == 0
    &&& r.body@ == "Internal Server Error"@
}

/// The flat context of the error page: a fixed title, the user-safe message,
/// and the status line. The internal diagnostic is not among them.
pub open spec fn error_ctx(status: u16, msg: Seq<char>) -> Seq<(Seq<char>, Seq<char>)> {
    seq![
        ("title"@, "Error"@),
        ("error_message"@, msg),
        ("http_error"@, status_line_of(status)),
    ]
}

fn html_headers() -> (h: Vec<(String, String)>)
    ensures
        h@.len() == 1,
        h@[0].0@ == "content-type"@,
        h@[0].1@ == "text/html"@,
{
    let mut h: Vec<(String, String)> = Vec::new();
    h.push((String::from_str("content-type"), String::from_str("text/html")));
    h
}

fn render_fallback() -> (r: Response)
    ensures
        is_render_fallback(r),
{
    Response { status: 500, headers: Vec::new(), body: String::from_str("Internal Server Error") }
}

/// Render the HTML error page for an error: the status it carries, and a
/// body built from the error's status and external message alone; nothing
/// when the engine fails.
pub fn generate_error_response(error: &Error, reg: &Registry) -> (r: Option<Response>)
    ensures
        match r {
            Option::Some(resp) => resp.status == error.status && html_header_only(resp)
                && hb_render_of(reg.map(), "error"@, error_ctx(error.status, error.external.msg@))
                == Some(resp.body@),
            Option::None => hb_render_of(
                reg.map(),
                "error"@,
                error_ctx(error.status, error.external.msg@),
            ) is None,
        },
{
    let mut ctx: Vec<(String, String)> = Vec::new();
    ctx.push((String::from_str("title"), String::from_str("Error")));
    ctx.push((String::from_str("error_message"), error.external.msg.clone()));
    ctx.push((String::from_str("http_error"), status_line(error.status)));
    proof {
        assert(ctx_view(ctx@) =~= error_ctx(error.status, error.external.msg@));
    }
    let body = match reg.render(TemplateName::Error.name(), &ctx) {
        Option::Some(b) => b,
        Option::None => {
            return None;
        },
    };
    Some(Response { status: error.status, headers: html_headers(), body })
}

/// Turn an error into the response the client receives: its error page, or
/// the generic fallback when the engine itself fails.
pub fn render_error(error: Error, reg: &Registry) -> (r: Response)
    ensures
        match hb_render_of(reg.map(), "error"@, error_ctx(error.status, error.external.msg@)) {
            Option::Some(body) => r.status == error.status && html_header_only(r) && r.body@
                == body,
            Option::None => is_render_fallback(r),
        },
{
    match generate_error_response(&error, reg) {
        Option::Some(resp) => resp,
        Option::None => render_fallback(),
    }
}

/// The response for a request no handler accepts: 404 for an unknown path,
/// 405 for a known path with the wrong method. The client-visible message is
/// a generic "Page not found"; the method and path go only into the internal
/// diagnostic.
pub fn render_404(method: &str, path: &str, not_allowed: bool, reg: &Registry) -> (r: Response)
    ensures
        ({
            let status: u16 = if not_allowed {
                405
            } else {
                404
            };
            match hb_render_of(reg.map(), "error"@, error_ctx(status, "Page not found"@)) {
                Option::Some(body) => r.status == status && html_header_only(r) && r.body@
                    == body,
                Option::None => is_render_fallback(r),
            }
        }),
{
    let status: u16 = if not_allowed {
        405
    } else {
        404
    };
    let mut internal = String::from_str("method ");
    internal.append(method);
    internal.append(" not allowed for ");
    internal.append(path);
    let e = Error {
        internal,
        external: External { msg: String::from_str("Page not found") },
        status,
    };
    render_error(e, reg)
}

/// The flat context a single post is rendered with: its text and its link,
/// an absent link as empty text.
pub open spec fn post_ctx(p: PostV) -> Seq<(Seq<char>, Seq<char>)> {
    seq![
        ("text"@, p.text),
        ("link"@, match p.link {
            Option::Some(l) => l,
            Option::None => Seq::empty(),
        }),
    ]
}

/// The concatenation of the rendered post-list fragments, one per post in
/// order; nothing when any of them fails to render.
pub open spec fn posts_fragment(m: Map<Seq<char>, Seq<char>>, posts: Seq<PostV>) -> Option<
    Seq<char>,
>
    decreases posts.len(),
{
    if posts.len() == 0 {
        Some(Seq::empty())
    } else {
        match hb_render_of(m, "post_list"@, post_ctx(posts[0])) {
            Option::None => None,
            Option::Some(f) => match posts_fragment(m, posts.drop_first()) {
                Option::None => None,
                Option::Some(rest) => Some(f + rest),
            },
        }
    }
}

/// The flat context of the home page.
pub open spec fn home_ctx(fragment: Seq<char>) -> Seq<(Seq<char>, Seq<char>)> {
    seq![
        ("title"@, "quiet"@),
        ("parent"@, "base"@),
        ("posts"@, fragment),
        ("post_list_template"@, "post_list"@),
    ]
}

/// What the home page renders to from a list of posts: the post fragments
/// inside the home template, or the fallback when the engine fails.
pub open spec fn home_response_ok(m: Map<Seq<char>, Seq<char>>, posts: Seq<PostV>, r: Response) -> bool {
    match posts_fragment(m, posts) {
        Option::None => is_render_fallback(r),
        Option::Some(frag) => match hb_render_of(m, "home"@, home_ctx(frag)) {
            Option::None => is_render_fallback(r),
            Option::Some(body) => r.status == 200 && html_header_only(r) && r.body@ == body,
        },
    }
}

fn render_posts_fragment(posts: &Vec<Post>, reg: &Registry) -> (r: Option<String>)
    ensures
        match r {
            Option::Some(s) => posts_fragment(reg.map(), posts_view(posts@)) == Some(s@),
            Option::None => posts_fragment(reg.map(), posts_view(posts@)) is None,
        },
{
    let ghost views = posts_view(posts@);
    let mut frag = String::new();
    let n = posts.len();
    let mut i: usize = 0;
    proof {
        assert(views.skip(0) =~= views);
        if let Some(rest) = posts_fragment(reg.map(), views) {
            assert(frag@ + rest =~= rest);
        }
    }
    while i < n
        invariant
            i <= n,
            n == posts@.len(),
            views == posts_view(posts@),
            posts_fragment(reg.map(), views) == (match posts_fragment(
                reg.map(),
                views.skip(i as int),
            ) {
                Option::None => None::<Seq<char>>,
                Option::Some(rest) => Some(frag@ + rest),
            }),
        decreases n - i,
    {
        let p = &posts[i];
        let mut ctx: Vec<(String, String)> = Vec::new();
        ctx.push((String::from_str("text"), p.text.clone()));
        let link_text: String = match &p.link {
            Option::Some(l) => l.clone(),
            Option::None => String::new(),
        };
        ctx.push((String::from_str("link"), link_text));
        proof {
            assert(ctx_view(ctx@) =~= post_ctx(views.skip(i as int)[0]));
        }
        match reg.render(TemplateName::PostList.name(), &ctx) {
            Option::None => {
                return None;
            },
            Option::Some(f) => {
                proof {
                    let tail = views.skip(i as int);
                    assert(tail.drop_first() =~= views.skip(i + 1));
                    if let Some(rest) = posts_fragment(reg.map(), views.skip(i + 1)) {
                        assert(frag@ + (f@ + rest) =~= (frag@ + f@) + rest);
                    }
                }
                frag.append(f.as_str());
            },
        }
        i = i + 1;
    }
    proof {
        assert(views.skip(n as int) =~= Seq::<PostV>::empty());
        assert(frag@ + Seq::<char>::empty() =~= frag@);
    }
    Some(frag)
}

/// Render the home page from whatever the caller fetched under the posts
/// key: no stored value means no posts yet; a corrupt value becomes the
/// error page; otherwise the page lists the stored posts.
pub fn render_home(fetched: Option<Vec<u8>>, reg: &Registry) -> (r: Response)
    ensures
        match fetched {
            Option::None => home_response_ok(reg.map(), Seq::empty(), r),
            Option::Some(bytes) => match dec_posts(bytes@) {
                Option::Some(ps) => home_response_ok(reg.map(), ps, r),
                Option::None => match hb_render_of(
                    reg.map(),
                    "error"@,
                    error_ctx(500, "couldn't load posts from database"@),
                ) {
                    Option::Some(body) => r.status == 500 && html_header_only(r) && r.body@
                        == body,
                    Option::None => is_render_fallback(r),
                },
            },
        },
{
    let posts: Vec<Post> = match fetched {
        Option::None => Vec::new(),
        Option::Some(bytes) => match decode_posts(&bytes) {
            Option::Some(ps) => ps,
            Option::None => {
                let e = Error {
                    internal: String::from_str("stored posts for this user did not decode"),
                    external: External {
                        msg: String::from_str("couldn't load posts from database"),
                    },
                    status: 500,
                };
                return render_error(e, reg);
            },
        },
    };
    let frag = match render_posts_fragment(&posts, reg) {
        Option::Some(f) => f,
        Option::None => {
            return render_fallback();
        },
    };
    let mut ctx: Vec<(String, String)> = Vec::new();
    ctx.push((String::from_str("title"), String::from_str("quiet")));
    ctx.push((String::from_str("parent"), String::from_str("base")));
    ctx.push((String::from_str("posts"), frag));
    ctx.push((String::from_str("post_list_template"), String::from_str("post_list")));
    proof {
        assert(ctx_view(ctx@) =~= home_ctx(ctx@[2].1@));
    }
    let body = match reg.render(TemplateName::Home.name(), &ctx) {
        Option::Some(b) => b,
        Option::None => {
            return render_fallback();
        },
    };
    Response { status: 200, headers: html_headers(), body }
}

/// The flat context of the new-post form page.
pub open spec fn new_post_ctx() -> Seq<(Seq<char>, Seq<char>)> {
    seq![("title"@, "quiet. new post."@), ("parent"@, "base"@)]
}

/// Render the new-post form page.
pub fn render_new_post(reg: &Registry) -> (r: Response)
    ensures
        match hb_render_of(reg.map(), "new_post"@, new_post_ctx()) {
            Option::Some(body) => r.status == 200 && html_header_only(r) && r.body@ == body,
            Option::None => is_render_fallback(r),
        },
{
    let mut ctx: Vec<(String, String)> = Vec::new();
    ctx.push((String::from_str("title"), String::from_str("quiet. new post.")));
    ctx.push((String::from_str("parent"), String::from_str("base")));
    proof {
        assert(ctx_view(ctx@) =~= new_post_ctx());
    }
    let body = match reg.render(TemplateName::NewPost.name(), &ctx) {
        Option::Some(b) => b,
        Option::None => {
            return render_fallback();
        },
    };
    Response { status: 200, headers: html_headers(), body }
}

} // verus!
