//! Request-processing core of a small posting service: routing, validation of
//! untrusted input into domain entities, a binary storage codec, and a
//! dual-channel error model that keeps internal diagnostics away from clients.
use vstd::prelude::*;

pub mod codec;
pub mod ids;
pub mod models;
pub mod templates;
pub mod twoface;
pub mod utils;
pub mod view;

use crate::utils::{lower, lower_chars, chars_to_string, str_eq};

verus! {

/// The handler a request is dispatched to, chosen from its method and path.
#[derive(PartialEq, Eq, Structural, Debug)]
pub enum Route {
    /// `GET /`
    Home,
    /// `GET /post`
    NewPostForm,
    /// `POST /post`
    CreatePost,
    /// `POST /users`
    CreateProfile,
    /// Unknown first path segment: a 404.
    NotFound,
    /// Known path, but the method is not supported there: a 405.
    MethodNotAllowed,
}

/// The first position at or after `i` holding `c`, or the end of the text.
pub open spec fn find_char(s: Seq<char>, c: char, i: int) -> int
    decreases s.len() - i,
{
    if i < 0 || i >= s.len() {
        s.len() as int
    } else if s[i] == c {
        i
    } else {
        find_char(s, c, i + 1)
    }
}

/// The path's first segment: the text between the first slash and the next
/// (or the end), or nothing for a path without a slash.
pub open spec fn first_segment(p: Seq<char>) -> Option<Seq<char>> {
    let a = find_char(p, '/', 0);
    if a >= p.len() {
        None
    } else {
        Some(p.subrange(a + 1, find_char(p, '/', a + 1)))
    }
}

/// The one routing decision of the service, on the lower-cased method and
/// path: the root serves the home page to `GET`; `post` serves the form to
/// `GET` and creates to `POST`; `users` creates to `POST`. A known path with
/// another method is refused as such; everything else is unknown.
pub open spec fn route_spec(method: Seq<char>, path: Seq<char>) -> Route {
    let m = lower(method);
    match first_segment(lower(path)) {
        Option::None => Route::NotFound,
        Option::Some(seg) => if seg.len() == 0 {
            if m == "get"@ {
                Route::Home
            } else {
                Route::MethodNotAllowed
            }
        } else if seg == "post"@ {
            if m == "post"@ {
                Route::CreatePost
            } else if m == "get"@ {
                Route::NewPostForm
            } else {
                Route::MethodNotAllowed
            }
        } else if seg == "users"@ {
            if m == "post"@ {
                Route::CreateProfile
            } else {
                Route::MethodNotAllowed
            }
        } else {
            Route::NotFound
        },
    }
}

fn find_char_exec(v: &Vec<char>, c: char, i: usize) -> (r: usize)
    requires
        i <= v@.len(),
    ensures
        r == find_char(v@, c, i as int),
        i <= r <= v@.len(),
    decreases v@.len() - i,
{
    if i < v.len() {
        if v[i] == c {
            i
        } else {
            find_char_exec(v, c, i + 1)
        }
    } else {
        i
    }
}

/// Match a request's method and path to the handler that serves it.
pub fn route(method: &str, path: &str) -> (r: Route)
    ensures
        r == route_spec(method@, path@),
{
    let m_chars = lower_chars(method);
    let m = chars_to_string(&m_chars);
    let p = lower_chars(path);
    let n = p.len();
    let a = find_char_exec(&p, '/', 0);
    if a >= n {
        return Route::NotFound;
    }
    let b = find_char_exec(&p, '/', a + 1);
    let mut segv: Vec<char> = Vec::new();
    let mut j: usize = a + 1;
    while j < b
        invariant
            a + 1 <= j <= b,
            b <= p@.len(),
            p@ == lower(path@),
            segv@ =~= p@.subrange(a + 1, j as int),
        decreases b - j,
    {
        segv.push(p[j]);
        j = j + 1;
    }
    proof {
        assert(segv@ =~= lower(path@).subrange(a + 1, b as int));
    }
    let is_get = str_eq(m.as_str(), "get");
    let is_post_method = str_eq(m.as_str(), "post");
    if segv.len() == 0 {
        if is_get {
            Route::Home
        } else {
            Route::MethodNotAllowed
        }
    } else {
        let seg = chars_to_string(&segv);
        if str_eq(seg.as_str(), "post") {
            if is_post_method {
                Route::CreatePost
            } else if is_get {
                Route::NewPostForm
            } else {
                Route::MethodNotAllowed
            }
        } else if str_eq(seg.as_str(), "users") {
            if is_post_method {
                Route::CreateProfile
            } else {
                Route::MethodNotAllowed
            }
        } else {
            Route::NotFound
        }
    }
}

} // verus!
