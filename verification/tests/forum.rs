use std::collections::HashMap;

use rorm_lib::forum::{
    login, create, register, make_post, profile, thread_identifier, thread_posts,
    unknown_thread, get, ApiError, CreateThreadRequest, PostRow, RegisterRequest, StarsAmount, UserRole,
};
use rorm_lib::max_str::{MaxStr, NumBytes};

fn bad_request(e: ApiError) -> String {
    match e {
        ApiError::BadRequest(m) => m,
    }
}

#[test]
fn stars_range_from_zero_to_five() {
    assert!(StarsAmount::new(-1).is_none());
    assert!(StarsAmount::new(6).is_none());
    for value in 0..=5 {
        assert_eq!(StarsAmount::new(value).unwrap().get(), value);
    }
}

#[test]
fn roles_display_and_parse() {
    assert_eq!(UserRole::User.to_string(), "user");
    assert_eq!(UserRole::Moderator.to_string(), "moderator");
    assert_eq!(UserRole::Admin.to_string(), "admin");
    for role in [UserRole::User, UserRole::Moderator, UserRole::Admin] {
        assert_eq!(UserRole::from_str(&role.to_string()), Ok(role));
    }
    assert_eq!(UserRole::from_str("Admin"), Err(()));
    assert_eq!(UserRole::from_str(""), Err(()));
}

#[test]
fn threads_are_identified_by_lowercase_name() {
    assert_eq!(thread_identifier("Cats"), "cats");
    let thread = create(CreateThreadRequest { name: "Cats".to_string() }, false).ok().unwrap();
    assert_eq!(thread.identifier, "cats");
    assert_eq!(thread.name, "Cats");
    let err = create(CreateThreadRequest { name: "Cats".to_string() }, true).err().unwrap();
    assert_eq!(bad_request(err), "Please choose another name");
}

#[test]
fn posting_checks_thread_reply_and_length() {
    assert_eq!(bad_request(make_post(false, None, "hi".to_string()).err().unwrap()), "Unknown thread");
    assert_eq!(bad_request(make_post(true, Some(false), "hi".to_string()).err().unwrap()), "Unknown post");
    let long = "x".repeat(256);
    assert_eq!(bad_request(make_post(true, Some(true), long).err().unwrap()), "Post's message is too long");
    assert_eq!(make_post(true, None, "hi".to_string()).ok().unwrap().as_str(), "hi");
    assert_eq!(make_post(true, Some(true), "x".repeat(255)).ok().unwrap().len(), 255);
}

#[test]
fn reading_an_unknown_thread() {
    assert_eq!(bad_request(unknown_thread()), "unknown thread");
}

#[test]
fn thread_posts_name_their_authors() {
    let mut users = HashMap::new();
    users.insert(1i64, "alice".to_string());
    let rows = vec![
        PostRow { uuid: 10u128, message: MaxStr::new("hello".to_string()).unwrap(), user: Some(1), posted_at: 100i64 },
        PostRow { uuid: 11u128, message: MaxStr::new("bye".to_string()).unwrap(), user: None, posted_at: 200i64 },
    ];
    let posts = thread_posts(rows, &users);
    assert_eq!(posts.len(), 2);
    assert_eq!(posts[0].uuid, 10);
    assert_eq!(posts[0].user.as_deref(), Some("alice"));
    assert_eq!(posts[0].message, "hello");
    assert_eq!(posts[0].replies, 0);
    assert_eq!(posts[1].user, None);
    assert_eq!(posts[1].posted_at, 200);
}

#[test]
fn registering_takes_free_usernames() {
    let request = || RegisterRequest {
        username: MaxStr::<255, NumBytes, String>::new("alice".to_string()).unwrap(),
        password: "password".to_string(),
    };
    let user = register(request(), false).ok().unwrap();
    assert_eq!(user.username.as_str(), "alice");
    assert_eq!(user.role, UserRole::User);
    let err = register(request(), true).err().unwrap();
    assert_eq!(bad_request(err), "The username `alice` is already taken");
}

#[test]
fn login_and_profile() {
    assert_eq!(login(Some(3)).ok(), Some(3));
    assert_eq!(bad_request(login(None).err().unwrap()), "Invalid password or username");
    let response = profile("alice".to_string(), Some(UserRole::User), 2).ok().unwrap();
    assert_eq!(response.username, "alice");
    assert_eq!(response.role, "user");
    assert_eq!(response.posts, 2);
    let err = profile("bob".to_string(), None, 0).err().unwrap();
    assert_eq!(bad_request(err), "Unknown user: bob");
}

#[test]
fn get_reads_a_known_thread() {
    let users: HashMap<i64, String> = HashMap::new();
    let rows = vec![PostRow { uuid: 1u8, message: MaxStr::new("m".to_string()).unwrap(), user: None, posted_at: 5u32 }];
    let response = get("cats".to_string(), Some(("Cats".to_string(), 3u32)), rows, &users).ok().unwrap();
    assert_eq!(response.identifier, "cats");
    assert_eq!(response.name, "Cats");
    assert_eq!(response.opened_at, 3);
    assert_eq!(response.posts.len(), 1);
    let err = get::<u8, u32>("dogs".to_string(), None, vec![], &users).err().unwrap();
    assert_eq!(bad_request(err), "unknown thread");
}
