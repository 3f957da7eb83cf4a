use rorm_lib::test_client::{test_client_start, test_client_step, ClientAction, ClientEvent, ClientStep};

fn profile(username: &str, role: &str) -> ClientEvent {
    ClientEvent::Profile { username: username.to_string(), role: role.to_string() }
}

#[test]
fn starts_by_logging_in() {
    let (step, action) = test_client_start();
    assert_eq!(step, ClientStep::Login);
    assert!(matches!(action, ClientAction::SendLogin));
}

#[test]
fn login_answers() {
    let (s, a) = test_client_step(ClientStep::Login, ClientEvent::Status(500));
    assert_eq!(s, ClientStep::Done);
    assert!(matches!(a, ClientAction::Fail));
    let (s, a) = test_client_step(ClientStep::Login, ClientEvent::Status(401));
    assert_eq!(s, ClientStep::Register);
    assert!(matches!(a, ClientAction::SendRegister));
    let (s, a) = test_client_step(ClientStep::Login, ClientEvent::Status(200));
    assert_eq!(s, ClientStep::Profile);
    assert!(matches!(a, ClientAction::GetProfile));
    let (s, _) = test_client_step(ClientStep::Register, ClientEvent::Status(200));
    assert_eq!(s, ClientStep::Profile);
}

#[test]
fn profile_must_be_the_test_user() {
    let (s, a) = test_client_step(ClientStep::Profile, profile("alice", "user"));
    assert_eq!(s, ClientStep::ListThreads);
    assert!(matches!(a, ClientAction::GetThreads));
    let (s, a) = test_client_step(ClientStep::Profile, profile("alice", "admin"));
    assert_eq!(s, ClientStep::Done);
    assert!(matches!(a, ClientAction::Fail));
    let (_, a) = test_client_step(ClientStep::Profile, profile("bob", "user"));
    assert!(matches!(a, ClientAction::Fail));
}

#[test]
fn posts_to_the_first_existing_thread() {
    let threads = vec![
        ("Dogs".to_string(), "dogs".to_string()),
        ("Cats".to_string(), "cats".to_string()),
        ("Cats".to_string(), "cats2".to_string()),
    ];
    let (s, a) = test_client_step(ClientStep::ListThreads, ClientEvent::Threads(threads));
    assert_eq!(s, ClientStep::Post);
    match a {
        ClientAction::SendPost { thread, message } => {
            assert_eq!(thread, "cats");
            assert_eq!(message, "Look at this cute cat picture I found");
        }
        _ => panic!("expected a post"),
    }
}

#[test]
fn creates_a_missing_thread_then_posts() {
    let (s, a) = test_client_step(ClientStep::ListThreads, ClientEvent::Threads(vec![]));
    assert_eq!(s, ClientStep::CreateThread);
    assert!(matches!(a, ClientAction::CreateThread { ref name } if name == "Cats"));
    let (s, a) = test_client_step(ClientStep::CreateThread, ClientEvent::Created("cats".to_string()));
    assert_eq!(s, ClientStep::Post);
    assert!(matches!(a, ClientAction::SendPost { ref thread, .. } if thread == "cats"));
    let (s, a) = test_client_step(ClientStep::Post, ClientEvent::Sent);
    assert_eq!(s, ClientStep::Done);
    assert!(matches!(a, ClientAction::Finish));
}

#[test]
fn unexpected_events_fail() {
    let (s, a) = test_client_step(ClientStep::Login, ClientEvent::Sent);
    assert_eq!(s, ClientStep::Done);
    assert!(matches!(a, ClientAction::Fail));
    let (_, a) = test_client_step(ClientStep::Done, ClientEvent::Status(200));
    assert!(matches!(a, ClientAction::Fail));
}
