//! The example forum server's models and the decisions its request handlers take
//! between their database queries.
use vstd::prelude::*;
use std::collections::HashMap;

use crate::max_str::{LenImpl, MaxStr, NumBytes};
use crate::naming::{ascii_lowercase, make_ascii_lowercase, str_equals};

verus! {

broadcast use vstd::std_specs::hash::group_hash_axioms;

/// Newtype to represent the number of stars a user gave a post
///
/// It ranges from 0 to 5 (inclusive).
#[derive(Copy, Clone, Debug)]
pub struct StarsAmount(i16);

impl StarsAmount {
    /// The number of stars.
    pub closed spec fn value(&self) -> i16 {
        self.0
    }

    #[verifier::type_invariant]
    closed spec fn in_range(&self) -> bool {
        0 <= self.0 <= 5
    }

    /// The amount `value`, if it is between 0 and 5.
    pub fn new(value: i16) -> (r: Option<Self>)
        ensures
            r is Some <==> 0 <= value <= 5,
            r matches Some(s) ==> s.value() == value,
    {
        if 0 <= value && value <= 5 {
            Some(StarsAmount(value))
        } else {
            None
        }
    }

    /// The number of stars.
    pub fn get(self) -> (r: i16)
        ensures
            r == self.value(),
            0 <= r <= 5,
    {
        proof {
            use_type_invariant(&self);
        }
        self.0
    }
}

/// What are the user's permissions and responsibilities?
#[derive(Copy, Clone, Debug, PartialEq, Eq, Structural)]
pub enum UserRole {
    User,
    Moderator,
    Admin,
}

/// The text of a role.
pub open spec fn role_text(role: UserRole) -> Seq<char> {
    match role {
        UserRole::User => "user"@,
        UserRole::Moderator => "moderator"@,
        UserRole::Admin => "admin"@,
    }
}

impl UserRole {
    /// The role's text: `user`, `moderator` or `admin`.
    pub fn to_string(&self) -> (r: String)
        ensures
            r@ == role_text(*self),
    {
        match self {
            UserRole::User => String::from_str("user"),
            UserRole::Moderator => String::from_str("moderator"),
            UserRole::Admin => String::from_str("admin"),
        }
    }

    /// The role with the text `s`.
    pub fn from_str(s: &str) -> (r: Result<Self, ()>)
        ensures
            r matches Ok(role) ==> role_text(role) == s@,
            r is Err ==> forall|role: UserRole| role_text(role) != s@,
    {
        if str_equals(s, "user") {
            Ok(UserRole::User)
        } else if str_equals(s, "moderator") {
            Ok(UserRole::Moderator)
        } else if str_equals(s, "admin") {
            Ok(UserRole::Admin)
        } else {
            Err(())
        }
    }
}

/// Distinct roles have distinct texts.
pub proof fn lemma_role_text_injective(a: UserRole, b: UserRole)
    ensures
        role_text(a) == role_text(b) ==> a == b,
{
    reveal_strlit("user");
    reveal_strlit("moderator");
    reveal_strlit("admin");
    if a != b {
        assert(role_text(a).len() != role_text(b).len() || role_text(a)[0] != role_text(b)[0]);
    }
}

/// Reading a role's text gives the role back.
pub proof fn lemma_role_text_round_trip(role: UserRole, parsed: UserRole)
    requires
        role_text(parsed) == role_text(role),
    ensures
        parsed == role,
{
    lemma_role_text_injective(role, parsed);
}

/// An error answered to a request.
#[derive(Debug)]
pub enum ApiError {
    /// The request can not be served as it stands; the message says why.
    BadRequest(String),
}

/// Request to open a thread.
pub struct CreateThreadRequest {
    pub name: String,
}

/// A thread to insert.
pub struct NewThread {
    pub identifier: String,
    pub name: String,
}

/// The identifier of a thread with the name `name`: its ASCII lower case.
pub fn thread_identifier(name: &str) -> (r: String)
    ensures
        r@ == ascii_lowercase(name@),
{
    let mut identifier = String::from_str(name);
    make_ascii_lowercase(&mut identifier);
    identifier
}

/// The message answered when a thread's identifier is taken.
pub open spec fn name_taken_message() -> Seq<char> {
    "Please choose another name"@
}

/// Decides on a request to open a thread, given whether a thread with its
/// identifier exists already.
pub fn create(request: CreateThreadRequest, identifier_taken: bool) -> (r: Result<
    NewThread,
    ApiError,
>)
    ensures
        r is Ok <==> !identifier_taken,
        r matches Ok(t) ==> t.identifier@ == ascii_lowercase(request.name@) && t.name@
            == request.name@,
        r matches Err(ApiError::BadRequest(m)) ==> m@ == name_taken_message(),
{
    if identifier_taken {
        return Err(ApiError::BadRequest(String::from_str("Please choose another name")));
    }
    let identifier = thread_identifier(request.name.as_str());
    Ok(NewThread { identifier, name: request.name })
}

/// Request to post a message in a thread, optionally replying to a post (by its uuid).
pub struct MakePostRequest {
    pub message: String,
    pub reply_to: Option<u128>,
}

/// The message answered when a thread is unknown.
pub open spec fn unknown_thread_message() -> Seq<char> {
    "Unknown thread"@
}

/// The message answered when the post replied to is unknown.
pub open spec fn unknown_post_message() -> Seq<char> {
    "Unknown post"@
}

/// The message answered when a post's message is too long.
pub open spec fn message_too_long_message() -> Seq<char> {
    "Post's message is too long"@
}

/// Decides on a request to post a message, given whether the thread exists and,
/// when the request replies to a post, whether that post exists in the thread.
/// On success gives the message to store.
pub fn make_post(thread_exists: bool, reply_exists: Option<bool>, message: String) -> (r:
    Result<MaxStr<255, NumBytes, String>, ApiError>)
    ensures
        r is Ok <==> thread_exists && reply_exists != Some(false)
            && NumBytes::spec_len(message@) <= 255,
        r matches Ok(m) ==> m.string()@ == message@,
        r matches Err(ApiError::BadRequest(e)) ==> e@ == if !thread_exists {
            unknown_thread_message()
        } else if reply_exists == Some(false) {
            unknown_post_message()
        } else {
            message_too_long_message()
        },
{
    if !thread_exists {
        return Err(ApiError::BadRequest(String::from_str("Unknown thread")));
    }
    if let Some(false) = reply_exists {
        return Err(ApiError::BadRequest(String::from_str("Unknown post")));
    }
    match MaxStr::<255, NumBytes, String>::new(message) {
        Ok(m) => Ok(m),
        Err(_) => Err(ApiError::BadRequest(String::from_str("Post's message is too long"))),
    }
}

/// A post as read from the database: uuid, message, author's id and time of posting.
pub struct PostRow<U, D> {
    pub uuid: U,
    pub message: MaxStr<255, NumBytes, String>,
    pub user: Option<i64>,
    pub posted_at: D,
}

/// A post as answered when a thread is read.
pub struct ThreadPost<U, D> {
    pub uuid: U,
    /// The author's username, unless the author's account was deleted.
    pub user: Option<String>,
    pub message: String,
    pub posted_at: D,
    pub replies: i64,
}

/// The error answered when a thread to read is unknown.
pub fn unknown_thread() -> (r: ApiError)
    ensures
        r matches ApiError::BadRequest(m) && m@ == ascii_lowercase(unknown_thread_message()),
{
    let mut m = String::from_str("Unknown thread");
    make_ascii_lowercase(&mut m);
    ApiError::BadRequest(m)
}

/// Whether `p` answers the row `row`, with the author's name taken from `users`.
pub open spec fn answers_row<U, D>(
    row: PostRow<U, D>,
    users: Map<i64, String>,
    p: ThreadPost<U, D>,
) -> bool {
    &&& p.uuid == row.uuid
    &&& p.message@ == row.message.string()@
    &&& p.posted_at == row.posted_at
    &&& p.replies == 0
    &&& match row.user {
        Some(k) => p.user matches Some(name) && name@ == users[k]@,
        None => p.user is None,
    }
}

/// Turns the posts of a thread into the answered form, naming each author by the
/// username `users` maps the author's id to.
pub fn thread_posts<U, D>(rows: Vec<PostRow<U, D>>, users: &HashMap<i64, String>) -> (r: Vec<
    ThreadPost<U, D>,
>)
    requires
        forall|i: int|
            0 <= i < rows@.len() ==> ((#[trigger] rows@[i]).user matches Some(k)
                ==> users@.contains_key(k)),
    ensures
        r@.len() == rows@.len(),
        forall|i: int| 0 <= i < rows@.len() ==> answers_row(rows@[i], users@, #[trigger] r@[i]),
{
    let ghost all = rows@;
    let mut posts: Vec<ThreadPost<U, D>> = Vec::new();
    broadcast use vstd::std_specs::vec::axiom_spec_into_iter;
    for row in it: rows
        invariant
            it.seq() == all,
            posts@.len() == it.index(),
            forall|j: int|
                0 <= j < all.len() ==> ((#[trigger] all[j]).user matches Some(k)
                    ==> users@.contains_key(k)),
            forall|j: int| 0 <= j < it.index() ==> answers_row(all[j], users@, #[trigger] posts@[j]),
    {
        assert(row == all[it.index() as int]);
        let PostRow { uuid, message, user, posted_at } = row;
        let user = match user {
            Some(k) => {
                let name = users.get(&k);
                match name {
                    Some(name) => Some(name.clone()),
                    None => {
                        proof {
                            assert(false);
                        }
                        None
                    },
                }
            },
            None => None,
        };
        posts.push(ThreadPost { uuid, user, message: message.into_inner(), posted_at, replies: 0 });
    }
    posts
}

/// The answer to reading a thread: its identifier, name, opening time and posts.
pub struct GetResponse<U, D> {
    pub identifier: String,
    pub name: String,
    pub opened_at: D,
    pub posts: Vec<ThreadPost<U, D>>,
}

/// Answers a request to read the thread `thread`, given its name and opening time if it
/// exists, its posts in order and the usernames of all users by id.
pub fn get<U, D>(
    thread: String,
    found: Option<(String, D)>,
    rows: Vec<PostRow<U, D>>,
    users: &HashMap<i64, String>,
) -> (r: Result<GetResponse<U, D>, ApiError>)
    requires
        forall|i: int|
            0 <= i < rows@.len() ==> ((#[trigger] rows@[i]).user matches Some(k)
                ==> users@.contains_key(k)),
    ensures
        r is Ok <==> found is Some,
        r matches Err(ApiError::BadRequest(m)) ==> m@ == ascii_lowercase(unknown_thread_message()),
        r matches Ok(g) ==> {
            &&& g.identifier@ == thread@
            &&& g.name@ == found.unwrap().0@
            &&& g.opened_at == found.unwrap().1
            &&& g.posts@.len() == rows@.len()
            &&& forall|i: int|
                0 <= i < rows@.len() ==> answers_row(rows@[i], users@, #[trigger] g.posts@[i])
        },
{
    match found {
        None => Err(unknown_thread()),
        Some((name, opened_at)) => {
            let posts = thread_posts(rows, users);
            Ok(GetResponse { identifier: thread, name, opened_at, posts })
        },
    }
}

/// Request to create an account.
pub struct RegisterRequest {
    pub username: MaxStr<255, NumBytes, String>,
    pub password: String,
}

/// A user to insert.
pub struct NewUser {
    pub username: MaxStr<255, NumBytes, String>,
    pub password: String,
    pub role: UserRole,
}

/// The message answered when a username is taken.
pub open spec fn username_taken_message(username: Seq<char>) -> Seq<char> {
    "The username `"@ + username + "` is already taken"@
}

/// Decides on a request to create an account, given whether its username is taken.
/// New accounts get the role [`UserRole::User`].
pub fn register(request: RegisterRequest, username_taken: bool) -> (r: Result<NewUser, ApiError>)
    ensures
        r is Ok <==> !username_taken,
        r matches Ok(u) ==> u.username.string()@ == request.username.string()@ && u.password@
            == request.password@ && u.role == UserRole::User,
        r matches Err(ApiError::BadRequest(m)) ==> m@ == username_taken_message(
            request.username.string()@,
        ),
{
    if username_taken {
        let mut m = String::from_str("The username `");
        m.append(request.username.as_str());
        m.append("` is already taken");
        return Err(ApiError::BadRequest(m));
    }
    Ok(NewUser { username: request.username, password: request.password, role: UserRole::User })
}

/// Request to log in.
pub struct LoginRequest {
    pub username: String,
    pub password: String,
}

/// The message answered when a login fails.
pub open spec fn invalid_login_message() -> Seq<char> {
    "Invalid password or username"@
}

/// Decides on a login, given the id of the user with the requested username and
/// password, if there is one: that id is stored in the session.
pub fn login(found: Option<i64>) -> (r: Result<i64, ApiError>)
    ensures
        match found {
            Some(id) => r == Ok::<i64, ApiError>(id),
            None => r matches Err(ApiError::BadRequest(m)) && m@ == invalid_login_message(),
        },
{
    match found {
        Some(id) => Ok(id),
        None => Err(ApiError::BadRequest(String::from_str("Invalid password or username"))),
    }
}

/// A user's profile.
pub struct ProfileResponse {
    pub username: String,
    pub role: String,
    pub posts: i64,
}

/// The message answered when a profile's user is unknown.
pub open spec fn unknown_user_message(username: Seq<char>) -> Seq<char> {
    "Unknown user: "@ + username
}

/// Answers a request for `username`'s profile, given the user's role if the user exists,
/// and the number of their posts.
pub fn profile(username: String, role: Option<UserRole>, posts: i64) -> (r: Result<
    ProfileResponse,
    ApiError,
>)
    ensures
        r is Ok <==> role is Some,
        r matches Ok(p) ==> p.username@ == username@ && p.role@ == role_text(role->0) && p.posts
            == posts,
        r matches Err(ApiError::BadRequest(m)) ==> m@ == unknown_user_message(username@),
{
    match role {
        None => {
            let mut m = String::from_str("Unknown user: ");
            m.append(username.as_str());
            Err(ApiError::BadRequest(m))
        },
        Some(role) => Ok(ProfileResponse { username, role: role.to_string(), posts }),
    }
}

} // verus!
