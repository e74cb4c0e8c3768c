use quiet::models::{NewPost, Post};
use quiet::models::users::{NewProfile, Profile, is_email};

const USER_ID: &str = "fc53b101-1756-4b8f-b5fe-b71d103e9f20";

#[test]
fn valid_post_keeps_its_fields() {
    let post = Post::try_from(NewPost {
        text: "hello".to_string(),
        link: Some("https://example.com".to_string()),
        user_id: USER_ID.to_string(),
    })
    .unwrap();
    assert_eq!(post.text, "hello");
    // the link is stored in the URL's normalized form
    assert_eq!(post.link, Some("https://example.com/".to_string()));
    assert_eq!(post.user_id, uuid::Uuid::parse_str(USER_ID).unwrap().as_u128());
}

#[test]
fn valid_post_without_link() {
    let post = Post::try_from(NewPost {
        text: "hello".to_string(),
        link: None,
        user_id: USER_ID.to_string(),
    })
    .unwrap();
    assert_eq!(post.link, None);
}

#[test]
fn post_at_the_limit_is_accepted() {
    let text: String = "a".repeat(1000);
    let post = Post::try_from(NewPost {
        text: text.clone(),
        link: None,
        user_id: USER_ID.to_string(),
    })
    .unwrap();
    assert_eq!(post.text, text);
}

#[test]
fn too_long_post_names_limit_and_length() {
    let err = Post::try_from(NewPost {
        text: "a".repeat(1001),
        link: None,
        user_id: USER_ID.to_string(),
    })
    .unwrap_err();
    assert!(err.contains("1000"));
    assert!(err.contains("1001"));
    assert_eq!(err, "Posts can only have 1000 characters, but yours has 1001");
}

#[test]
fn bad_user_id_is_rejected() {
    let err = Post::try_from(NewPost {
        text: "hello".to_string(),
        link: None,
        user_id: "not-a-uuid".to_string(),
    })
    .unwrap_err();
    assert_eq!(err, "not-a-uuid is an invalid user ID");
}

#[test]
fn bad_link_is_rejected() {
    let err = Post::try_from(NewPost {
        text: "hello".to_string(),
        link: Some("not a url".to_string()),
        user_id: USER_ID.to_string(),
    })
    .unwrap_err();
    assert_eq!(err, "The URL is invalid");
}

#[test]
fn text_length_failure_wins_over_later_checks() {
    let err = Post::try_from(NewPost {
        text: "a".repeat(1001),
        link: Some("not a url".to_string()),
        user_id: "not-a-uuid".to_string(),
    })
    .unwrap_err();
    assert!(err.contains("1000"));
}

#[test]
fn valid_profile_keeps_its_fields() {
    let profile = Profile::try_from(NewProfile {
        username: "quietfan".to_string(),
        pic: "https://example.com/me.png".to_string(),
        email: "quiet_fan+feed@example.co.uk".to_string(),
    })
    .unwrap();
    assert_eq!(profile.username, "quietfan");
    assert_eq!(profile.pic, "https://example.com/me.png");
    assert_eq!(profile.email, "quiet_fan+feed@example.co.uk");
}

#[test]
fn too_long_username_names_limit_and_length() {
    let err = Profile::try_from(NewProfile {
        username: "u".repeat(33),
        pic: "https://example.com/me.png".to_string(),
        email: "a@example.com".to_string(),
    })
    .unwrap_err();
    assert!(err.contains("32"));
    assert!(err.contains("33"));
    assert_eq!(err, "Usernames can only have 32 characters, but yours has 33");
}

#[test]
fn bad_pic_url_is_rejected() {
    let err = Profile::try_from(NewProfile {
        username: "quietfan".to_string(),
        pic: "not a url".to_string(),
        email: "a@example.com".to_string(),
    })
    .unwrap_err();
    assert_eq!(err, "Your picture URL is invalid");
}

#[test]
fn bad_email_is_rejected() {
    let err = Profile::try_from(NewProfile {
        username: "quietfan".to_string(),
        pic: "https://example.com/me.png".to_string(),
        email: "not an email".to_string(),
    })
    .unwrap_err();
    assert_eq!(err, "Your email address is invalid");
}

#[test]
fn profile_ids_are_fresh_and_join_time_is_current() {
    let before = chrono::Utc::now().timestamp_millis();
    let make = || {
        Profile::try_from(NewProfile {
            username: "quietfan".to_string(),
            pic: "https://example.com/me.png".to_string(),
            email: "a@example.com".to_string(),
        })
        .unwrap()
    };
    let one = make();
    let two = make();
    let after = chrono::Utc::now().timestamp_millis();
    assert_ne!(one.id, two.id);
    assert!(before <= one.date_joined && one.date_joined <= after);
}

#[test]
fn email_shapes() {
    assert!(is_email("a@example.com"));
    assert!(is_email("a.b_c+d@sub-domain.example.co"));
    assert!(is_email("a9@x9.ab"));
    assert!(!is_email("a@b.c"));
    assert!(!is_email(".a@example.com"));
    assert!(!is_email("a.@example.com"));
    assert!(!is_email("a@example"));
    assert!(!is_email("A@example.com"));
    assert!(!is_email("@example.com"));
    assert!(!is_email("a@.com"));
    assert!(!is_email("aexample.com"));
}

#[test]
fn username_at_the_limit_is_accepted() {
    let name: String = "u".repeat(32);
    let profile = Profile::try_from(NewProfile {
        username: name.clone(),
        pic: "https://example.com/me.png".to_string(),
        email: "a@example.com".to_string(),
    })
    .unwrap();
    assert_eq!(profile.username, name);
}
