use quiet::Route;
use quiet::route;
use quiet::templates::build_registry;
use quiet::view::{render_404, render_home};
use quiet::templates::TemplateName;

#[test]
fn get_root_routes_home() {
    assert_eq!(route("GET", "/"), Route::Home);
}

#[test]
fn routing_is_case_insensitive() {
    assert_eq!(route("GeT", "/"), Route::Home);
    assert_eq!(route("POST", "/POST"), Route::CreatePost);
}

#[test]
fn post_routes() {
    assert_eq!(route("GET", "/post"), Route::NewPostForm);
    assert_eq!(route("POST", "/post"), Route::CreatePost);
    assert_eq!(route("POST", "/post/extra"), Route::CreatePost);
}

#[test]
fn users_routes() {
    assert_eq!(route("POST", "/users"), Route::CreateProfile);
    assert_eq!(route("GET", "/users"), Route::MethodNotAllowed);
}

#[test]
fn delete_root_is_method_not_allowed() {
    assert_eq!(route("DELETE", "/"), Route::MethodNotAllowed);
}

#[test]
fn unknown_path_is_not_found() {
    assert_eq!(route("GET", "/nonexistent"), Route::NotFound);
    assert_eq!(route("GET", ""), Route::NotFound);
}

#[test]
fn method_not_allowed_response_is_405_with_safe_message() {
    let reg = build_registry().unwrap();
    let resp = render_404("delete", "/", true, &reg);
    assert_eq!(resp.status, 405);
    assert_eq!(resp.headers.len(), 1);
    assert_eq!(resp.headers[0].0, "content-type");
    assert_eq!(resp.headers[0].1, "text/html");
    assert!(resp.body.contains("Page not found"));
    assert!(resp.body.contains("405 Method Not Allowed"));
    // the internal diagnostic names the method and path; the body never does
    assert!(!resp.body.contains("method delete"));
}

#[test]
fn not_found_response_is_404_with_safe_message() {
    let reg = build_registry().unwrap();
    let resp = render_404("get", "/nonexistent", false, &reg);
    assert_eq!(resp.status, 404);
    assert!(resp.body.contains("Page not found"));
    assert!(resp.body.contains("404 Not Found"));
    assert!(!resp.body.contains("/nonexistent"));
}

#[test]
fn home_page_renders_html() {
    let reg = build_registry().unwrap();
    let resp = render_home(None, &reg);
    assert_eq!(resp.status, 200);
    assert_eq!(resp.headers.len(), 1);
    assert_eq!(resp.headers[0].0, "content-type");
    assert_eq!(resp.headers[0].1, "text/html");
    assert!(resp.body.contains("quiet"));
}

#[test]
fn template_names() {
    assert_eq!(TemplateName::Base.name(), "base");
    assert_eq!(TemplateName::Home.name(), "home");
    assert_eq!(TemplateName::Error.name(), "error");
    assert_eq!(TemplateName::NewPost.name(), "new_post");
    assert_eq!(TemplateName::PostList.name(), "post_list");
}
