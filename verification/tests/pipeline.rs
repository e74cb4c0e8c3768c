use std::collections::HashMap;

use quiet::ids::{parse_uuid, uuid_to_string};
use quiet::models::{new_post, post_put_outcome, all_posts_by_user};
use quiet::models::users::{new_user_profile, profile_put_outcome, decode_profile};
use quiet::templates::build_registry;
use quiet::twoface::{Error, External, status_line};
use quiet::utils::{success_response, redirect_headers, u64_to_dec};
use quiet::view::{generate_error_response, render_error, render_home};

const USER_ID: &str = "fc53b101-1756-4b8f-b5fe-b71d103e9f20";

#[test]
fn post_then_read_back() {
    // POST /post with a well-formed body: 200, confirmation, and the post
    // is under the user's key afterwards.
    let mut posts_ns: HashMap<String, Vec<u8>> = HashMap::new();
    let body = format!("{{\"text\":\"hello\",\"link\":null,\"user_id\":\"{}\"}}", USER_ID);

    let post = new_post(&body).unwrap();
    let uid = post.user_id;
    let (key, val) = post.put_first(posts_ns.get(&uuid_to_string(uid)).cloned()).unwrap();
    assert_eq!(key, USER_ID);
    posts_ns.insert(key.clone(), val);
    let resp = post_put_outcome(true).unwrap();
    assert_eq!(resp.status, 200);
    assert_eq!(resp.body, "you made a post");

    let stored = all_posts_by_user(uid, posts_ns.get(&key).cloned()).unwrap();
    assert_eq!(stored.len(), 1);
    assert_eq!(stored[0].text, "hello");
    assert_eq!(stored[0].link, None);
    assert_eq!(stored[0].user_id, uid);
}

#[test]
fn posting_twice_keeps_history_newest_first() {
    let mut posts_ns: HashMap<String, Vec<u8>> = HashMap::new();
    for text in ["first", "second"] {
        let body = format!("{{\"text\":\"{}\",\"user_id\":\"{}\"}}", text, USER_ID);
        let post = new_post(&body).unwrap();
        let key = uuid_to_string(post.user_id);
        let (key, val) = post.put_first(posts_ns.get(&key).cloned()).unwrap();
        posts_ns.insert(key, val);
    }
    let uid = parse_uuid(USER_ID).unwrap();
    let stored = all_posts_by_user(uid, posts_ns.get(USER_ID).cloned()).unwrap();
    assert_eq!(stored.len(), 2);
    assert_eq!(stored[0].text, "second");
    assert_eq!(stored[1].text, "first");
}

#[test]
fn bad_link_gives_400_with_exact_message() {
    // POST /post with an unparseable link: 400, and the external message is
    // exactly "The URL is invalid".
    let body = format!("{{\"text\":\"hello\",\"link\":\"not a url\",\"user_id\":\"{}\"}}", USER_ID);
    let resp = new_post(&body).unwrap_err();
    assert_eq!(resp.status, 400);
    assert_eq!(resp.body, "{\"msg\":\"The URL is invalid\"}");
}

#[test]
fn malformed_post_body_gives_400() {
    let resp = new_post("this is not json").unwrap_err();
    assert_eq!(resp.status, 400);
    assert_eq!(resp.body, "{\"msg\":\"Your post was malformed\"}");

    let resp = new_post("{\"text\":\"hello\"}").unwrap_err();
    assert_eq!(resp.status, 400);
    assert_eq!(resp.body, "{\"msg\":\"Your post was malformed\"}");
}

#[test]
fn store_failure_gives_500_retry_message() {
    let resp = post_put_outcome(false).unwrap_err();
    assert_eq!(resp.status, 500);
    assert_eq!(resp.body, "{\"msg\":\"Post unsuccessful, please try again later\"}");
}

#[test]
fn corrupt_stored_posts_give_500() {
    let uid = parse_uuid(USER_ID).unwrap();
    let err = all_posts_by_user(uid, Some(vec![1, 2, 3])).unwrap_err();
    assert_eq!(err.status, 500);
    assert_eq!(err.external.msg, "couldn't load posts from database");
}

#[test]
fn absent_stored_posts_are_no_posts() {
    let uid = parse_uuid(USER_ID).unwrap();
    let posts = all_posts_by_user(uid, None).unwrap();
    assert!(posts.is_empty());
}

#[test]
fn profile_created_end_to_end() {
    let mut users_ns: HashMap<String, Vec<u8>> = HashMap::new();
    let body = "{\"username\":\"quietfan\",\"pic\":\"https://example.com/me.png\",\"email\":\"a@example.com\"}";
    let profile = new_user_profile(body).unwrap();
    let (key, val) = profile.put();
    assert_eq!(key, uuid_to_string(profile.id));
    users_ns.insert(key.clone(), val);
    let resp = profile_put_outcome(true).unwrap();
    assert_eq!(resp.status, 200);
    assert_eq!(resp.body, "profile created");
    assert_eq!(resp.headers, vec![("location".to_string(), "/".to_string())]);

    let back = decode_profile(users_ns.get(&key).unwrap()).unwrap();
    assert_eq!(back.username, "quietfan");
    assert_eq!(back.id, profile.id);
}

#[test]
fn malformed_profile_body_gives_400() {
    let resp = new_user_profile("[]").unwrap_err();
    assert_eq!(resp.status, 400);
    assert_eq!(resp.body, "{\"msg\":\"Your profile was malformed\"}");
}

#[test]
fn profile_store_failure_gives_500() {
    let resp = profile_put_outcome(false).unwrap_err();
    assert_eq!(resp.status, 500);
    assert_eq!(resp.body, "{\"msg\":\"Couldn't create user, please try again later\"}");
}

#[test]
fn uuid_text_round_trips_through_the_uuid_crate() {
    let uid = parse_uuid(USER_ID).unwrap();
    assert_eq!(uuid_to_string(uid), USER_ID);
    assert_eq!(uid, uuid::Uuid::parse_str(USER_ID).unwrap().as_u128());
}

#[test]
fn status_lines_use_canonical_reasons() {
    assert_eq!(status_line(404), "404 Not Found");
    assert_eq!(status_line(405), "405 Method Not Allowed");
    assert_eq!(status_line(500), "500 Internal Server Error");
    assert_eq!(status_line(200), "200 OK");
    assert_eq!(status_line(999), "999 Unknown Error");
}

#[test]
fn error_response_carries_only_the_external_channel() {
    let e = Error {
        internal: "SECRET diagnostic detail".to_string(),
        external: External { msg: "couldn't load posts from database".to_string() },
        status: 500,
    };
    let reg = build_registry().unwrap();
    let resp = generate_error_response(&e, &reg).unwrap();
    assert_eq!(resp.status, 500);
    assert!(resp.body.contains("load posts from database"));
    assert!(resp.body.contains("500 Internal Server Error"));
    assert!(!resp.body.contains("SECRET"));

    let resp = render_error(e, &reg);
    assert_eq!(resp.status, 500);
    assert!(!resp.body.contains("SECRET"));
}

#[test]
fn json_error_bodies_escape_quotes() {
    let e = Error {
        internal: String::new(),
        external: External { msg: "a \"quoted\" msg\nwith a newline".to_string() },
        status: 400,
    };
    let resp = e.into_response();
    assert_eq!(resp.body, "{\"msg\":\"a \\\"quoted\\\" msg\\u000awith a newline\"}");
}

#[test]
fn home_page_shows_stored_posts() {
    let mut posts_ns: HashMap<String, Vec<u8>> = HashMap::new();
    let body = format!("{{\"text\":\"hello from the feed\",\"user_id\":\"{}\"}}", USER_ID);
    let post = new_post(&body).unwrap();
    let (key, val) = post.put_first(None).unwrap();
    posts_ns.insert(key, val);

    let reg = build_registry().unwrap();
    let resp = render_home(posts_ns.get(USER_ID).cloned(), &reg);
    assert_eq!(resp.status, 200);
    assert!(resp.body.contains("hello from the feed"));
}

#[test]
fn home_page_with_corrupt_store_is_an_error_page() {
    let reg = build_registry().unwrap();
    let resp = render_home(Some(vec![0, 1, 2]), &reg);
    assert_eq!(resp.status, 500);
    assert!(resp.body.contains("load posts from database"));
}

#[test]
fn helpers_build_expected_values() {
    assert_eq!(u64_to_dec(0), "0");
    assert_eq!(u64_to_dec(1000), "1000");
    assert_eq!(u64_to_dec(18446744073709551615), "18446744073709551615");
    let h = redirect_headers("/next");
    assert_eq!(h, vec![("location".to_string(), "/next".to_string())]);
    let r = success_response("done", None);
    assert_eq!(r.status, 200);
    assert_eq!(r.body, "done");
    assert!(r.headers.is_empty());
}

#[test]
fn error_display_uses_only_the_external_channel() {
    let e = Error {
        internal: "stack trace and such".to_string(),
        external: External { msg: "Page not found".to_string() },
        status: 404,
    };
    assert_eq!(e.display_string(), "HTTP 404: Page not found");
}
