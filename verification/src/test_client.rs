//! The decisions of the forum server's test client: log in (registering first if the
//! login is refused), check the profile, find or open the test thread, and post to it.
use vstd::prelude::*;

use crate::naming::str_equals;

verus! {

/// The user the test client logs in as.
pub open spec fn test_username() -> Seq<char> {
    "alice"@
}

/// The role the test client's user must have.
pub open spec fn test_role() -> Seq<char> {
    "user"@
}

/// The name of the thread the test client posts to.
pub open spec fn test_thread_name() -> Seq<char> {
    "Cats"@
}

/// The message the test client posts.
pub open spec fn test_message() -> Seq<char> {
    "Look at this cute cat picture I found"@
}

/// Where the test client is.
#[derive(Copy, Clone, Debug, PartialEq, Eq, Structural)]
pub enum ClientStep {
    /// Waiting for the answer to logging in
    Login,
    /// Waiting for the answer to registering
    Register,
    /// Waiting for the user's profile
    Profile,
    /// Waiting for the list of threads
    ListThreads,
    /// Waiting for the identifier of the created thread
    CreateThread,
    /// Waiting for the answer to posting
    Post,
    /// Finished, successfully or not
    Done,
}

/// What the test client learned from its last request.
#[derive(Debug)]
pub enum ClientEvent {
    /// The HTTP status of the answer
    Status(u16),
    /// The user's profile
    Profile { username: String, role: String },
    /// The threads, each as its name and identifier
    Threads(Vec<(String, String)>),
    /// The identifier of the created thread
    Created(String),
    /// The post was accepted
    Sent,
}

/// What the test client does next.
#[derive(Debug)]
pub enum ClientAction {
    /// Log in as the test user
    SendLogin,
    /// Register the test user
    SendRegister,
    /// Read the test user's profile
    GetProfile,
    /// List the threads
    GetThreads,
    /// Open a thread named `name`
    CreateThread { name: String },
    /// Post `message` to the thread with the identifier `thread`
    SendPost { thread: String, message: String },
    /// Stop: the server did not behave as expected
    Fail,
    /// Stop: everything went as expected
    Finish,
}

/// The index of the first thread named `name`, if there is one.
pub open spec fn first_thread_named(threads: Seq<(String, String)>, name: Seq<char>) -> Option<
    int,
> {
    if exists|i: int| 0 <= i < threads.len() && #[trigger] threads[i].0@ == name {
        Some(
            choose|i: int|
                0 <= i < threads.len() && #[trigger] threads[i].0@ == name && forall|k: int|
                    0 <= k < i ==> threads[k].0@ != name,
        )
    } else {
        None
    }
}

/// Whether `a` posts the test message to the thread with the identifier `thread`.
pub open spec fn posts_to(a: ClientAction, thread: Seq<char>) -> bool {
    a matches ClientAction::SendPost { thread: t, message: m } && t@ == thread && m@
        == test_message()
}

/// Whether `r` is the next step and action after `event` at `step`.
pub open spec fn next_step(step: ClientStep, event: ClientEvent, r: (ClientStep, ClientAction)) -> bool {
    match (step, event) {
        (ClientStep::Login, ClientEvent::Status(s)) => if 500 <= s <= 599 {
            r.0 == ClientStep::Done && r.1 is Fail
        } else if 400 <= s <= 499 {
            r.0 == ClientStep::Register && r.1 is SendRegister
        } else {
            r.0 == ClientStep::Profile && r.1 is GetProfile
        },
        (ClientStep::Register, ClientEvent::Status(_)) => r.0 == ClientStep::Profile && r.1 is GetProfile,
        (ClientStep::Profile, ClientEvent::Profile { username, role }) => if username@
            == test_username() && role@ == test_role() {
            r.0 == ClientStep::ListThreads && r.1 is GetThreads
        } else {
            r.0 == ClientStep::Done && r.1 is Fail
        },
        (ClientStep::ListThreads, ClientEvent::Threads(threads)) => match first_thread_named(
            threads@,
            test_thread_name(),
        ) {
            Some(i) => r.0 == ClientStep::Post && posts_to(r.1, threads@[i].1@),
            None => r.0 == ClientStep::CreateThread && (r.1 matches ClientAction::CreateThread {
                name,
            } && name@ == test_thread_name()),
        },
        (ClientStep::CreateThread, ClientEvent::Created(id)) => r.0 == ClientStep::Post && posts_to(
            r.1,
            id@,
        ),
        (ClientStep::Post, ClientEvent::Sent) => r.0 == ClientStep::Done && r.1 is Finish,
        _ => r.0 == ClientStep::Done && r.1 is Fail,
    }
}

/// Where the test client starts: logging in.
pub fn test_client_start() -> (r: (ClientStep, ClientAction))
    ensures
        r.0 == ClientStep::Login,
        r.1 is SendLogin,
{
    (ClientStep::Login, ClientAction::SendLogin)
}

fn post_action(thread: String) -> (a: ClientAction)
    ensures
        posts_to(a, thread@),
{
    ClientAction::SendPost {
        thread,
        message: String::from_str("Look at this cute cat picture I found"),
    }
}

/// Finds the first thread named `name`.
fn find_thread(threads: &Vec<(String, String)>, name: &str) -> (r: Option<usize>)
    ensures
        match first_thread_named(threads@, name@) {
            Some(i) => r matches Some(k) && k == i,
            None => r is None,
        },
        r matches Some(i) ==> i < threads@.len() && threads@[i as int].0@ == name@,
{
    let mut i: usize = 0;
    while i < threads.len()
        invariant
            i <= threads@.len(),
            forall|k: int| 0 <= k < i ==> threads@[k].0@ != name@,
        decreases threads@.len() - i,
    {
        if str_equals(threads[i].0.as_str(), name) {
            proof {
                let j = choose|j: int|
                    0 <= j < threads@.len() && #[trigger] threads@[j].0@ == name@ && forall|k: int|
                        0 <= k < j ==> threads@[k].0@ != name@;
                assert(threads@[i as int].0@ == name@);
                assert(0 <= j < threads@.len() && threads@[j].0@ == name@);
                if j < i {
                    assert(threads@[j].0@ != name@);
                }
                if j > i {
                    assert(threads@[i as int].0@ != name@);
                }
            }
            return Some(i);
        }
        i = i + 1;
    }
    assert(!(exists|j: int| 0 <= j < threads@.len() && #[trigger] threads@[j].0@ == name@));
    None
}

/// The test client's next step and action after `event` happened at `step`.
pub fn test_client_step(step: ClientStep, event: ClientEvent) -> (r: (ClientStep, ClientAction))
    ensures
        next_step(step, event, r),
{
    match (step, event) {
        (ClientStep::Login, ClientEvent::Status(s)) => {
            if 500 <= s && s <= 599 {
                (ClientStep::Done, ClientAction::Fail)
            } else if 400 <= s && s <= 499 {
                (ClientStep::Register, ClientAction::SendRegister)
            } else {
                (ClientStep::Profile, ClientAction::GetProfile)
            }
        },
        (ClientStep::Register, ClientEvent::Status(_)) => (
            ClientStep::Profile,
            ClientAction::GetProfile,
        ),
        (ClientStep::Profile, ClientEvent::Profile { username, role }) => {
            if str_equals(username.as_str(), "alice") && str_equals(role.as_str(), "user") {
                (ClientStep::ListThreads, ClientAction::GetThreads)
            } else {
                (ClientStep::Done, ClientAction::Fail)
            }
        },
        (ClientStep::ListThreads, ClientEvent::Threads(threads)) => {
            match find_thread(&threads, "Cats") {
                Some(i) => {
                    let thread = threads[i].1.clone();
                    assert(thread@ == threads@[i as int].1@);
                    assert(first_thread_named(threads@, test_thread_name()) == Some(i as int));
                    (ClientStep::Post, post_action(thread))
                },
                None => (
                    ClientStep::CreateThread,
                    ClientAction::CreateThread { name: String::from_str("Cats") },
                ),
            }
        },
        (ClientStep::CreateThread, ClientEvent::Created(id)) => (ClientStep::Post, post_action(id)),
        (ClientStep::Post, ClientEvent::Sent) => (ClientStep::Done, ClientAction::Finish),
        _ => (ClientStep::Done, ClientAction::Fail),
    }
}

/// A refused login (any client error status, 400 to 499) makes the client register,
/// a server error (500 to 599) makes it fail, and every other status counts as logged in.
pub proof fn lemma_login_answer(s: u16, r: (ClientStep, ClientAction))
    requires
        next_step(ClientStep::Login, ClientEvent::Status(s), r),
    ensures
        400 <= s <= 499 ==> r.0 == ClientStep::Register && r.1 is SendRegister,
        500 <= s <= 599 ==> r.0 == ClientStep::Done && r.1 is Fail,
        !(400 <= s <= 599) ==> r.0 == ClientStep::Profile && r.1 is GetProfile,
{
}

/// From the thread list, the client posts the test message to the first thread named
/// like the test thread; only if there is none does it create that thread.
pub proof fn lemma_listing_picks_the_first_test_thread(
    threads: Vec<(String, String)>,
    r: (ClientStep, ClientAction),
    i: int,
)
    requires
        next_step(ClientStep::ListThreads, ClientEvent::Threads(threads), r),
        0 <= i < threads@.len(),
        threads@[i].0@ == test_thread_name(),
        forall|k: int| 0 <= k < i ==> threads@[k].0@ != test_thread_name(),
    ensures
        r.0 == ClientStep::Post,
        r.1 matches ClientAction::SendPost { thread, message } && thread@ == threads@[i].1@
            && message@ == test_message(),
{
    let j = choose|j: int|
        0 <= j < threads@.len() && #[trigger] threads@[j].0@ == test_thread_name() && forall|
            k: int,
        | 0 <= k < j ==> threads@[k].0@ != test_thread_name();
    assert(threads@[i].0@ == test_thread_name());
    assert(0 <= j < threads@.len() && threads@[j].0@ == test_thread_name());
    if j < i {
        assert(threads@[j].0@ != test_thread_name());
    }
    if i < j {
        assert(threads@[i].0@ != test_thread_name());
    }
}

/// Without a thread named like the test thread, the client creates it.
pub proof fn lemma_listing_creates_a_missing_test_thread(
    threads: Vec<(String, String)>,
    r: (ClientStep, ClientAction),
)
    requires
        next_step(ClientStep::ListThreads, ClientEvent::Threads(threads), r),
        forall|k: int| 0 <= k < threads@.len() ==> threads@[k].0@ != test_thread_name(),
    ensures
        r.0 == ClientStep::CreateThread,
        r.1 matches ClientAction::CreateThread { name } && name@ == test_thread_name(),
{
    assert(!(exists|k: int| 0 <= k < threads@.len() && #[trigger] threads@[k].0@ == test_thread_name()));
}

} // verus!
