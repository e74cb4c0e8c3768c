use quiet::models::{Post, encode_posts, decode_posts};
use quiet::models::users::{Profile, encode_profile, decode_profile};

fn sample_posts() -> Vec<Post> {
    vec![
        Post {
            text: "first post, with some punctuation: \"quotes\" and a dash".to_string(),
            link: Some("https://example.com/a".to_string()),
            user_id: 0xfc53b101_1756_4b8f_b5fe_b71d103e9f20u128,
        },
        Post { text: String::new(), link: None, user_id: 7 },
        Post { text: "unicode: \u{00e9}\u{4e16}\u{754c}".to_string(), link: None, user_id: 7 },
    ]
}

#[test]
fn posts_round_trip() {
    let posts = sample_posts();
    let bytes = encode_posts(&posts);
    let back = decode_posts(&bytes).unwrap();
    assert_eq!(back.len(), posts.len());
    for (a, b) in posts.iter().zip(back.iter()) {
        assert_eq!(a.text, b.text);
        assert_eq!(a.link, b.link);
        assert_eq!(a.user_id, b.user_id);
    }
}

#[test]
fn empty_post_list_round_trips() {
    let posts: Vec<Post> = Vec::new();
    let bytes = encode_posts(&posts);
    let back = decode_posts(&bytes).unwrap();
    assert_eq!(back.len(), 0);
}

#[test]
fn truncated_posts_value_is_corrupt() {
    let posts = sample_posts();
    let mut bytes = encode_posts(&posts);
    bytes.pop();
    assert!(decode_posts(&bytes).is_none());
}

#[test]
fn trailing_garbage_is_corrupt() {
    let posts = sample_posts();
    let mut bytes = encode_posts(&posts);
    bytes.push(0);
    assert!(decode_posts(&bytes).is_none());
}

#[test]
fn arbitrary_bytes_are_corrupt() {
    let bytes = vec![9u8, 8, 7, 6, 5];
    assert!(decode_posts(&bytes).is_none());
}

#[test]
fn profile_round_trips() {
    let profile = Profile {
        username: "quietfan".to_string(),
        date_joined: 1_700_000_000_123,
        id: 0x550e8400_e29b_41d4_a716_446655440000u128,
        pic: "https://example.com/me.png".to_string(),
        email: "a@example.com".to_string(),
    };
    let bytes = encode_profile(&profile);
    let back = decode_profile(&bytes).unwrap();
    assert_eq!(back.username, profile.username);
    assert_eq!(back.date_joined, profile.date_joined);
    assert_eq!(back.id, profile.id);
    assert_eq!(back.pic, profile.pic);
    assert_eq!(back.email, profile.email);
}

#[test]
fn profile_with_negative_timestamp_round_trips() {
    let profile = Profile {
        username: "older than the epoch".to_string(),
        date_joined: -12345,
        id: 1,
        pic: "https://example.com/p".to_string(),
        email: "a@example.com".to_string(),
    };
    let bytes = encode_profile(&profile);
    let back = decode_profile(&bytes).unwrap();
    assert_eq!(back.date_joined, -12345);
}

#[test]
fn truncated_profile_is_corrupt() {
    let profile = Profile {
        username: "quietfan".to_string(),
        date_joined: 0,
        id: 2,
        pic: "https://example.com/p".to_string(),
        email: "a@example.com".to_string(),
    };
    let mut bytes = encode_profile(&profile);
    bytes.truncate(bytes.len() - 3);
    assert!(decode_profile(&bytes).is_none());
}
