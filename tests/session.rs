use meshcore_cli::contact::{Contact, ContactType};
use meshcore_cli::error::CliError;
use meshcore_cli::events::{wait_step, Event, WaitStep};
use meshcore_cli::session::{LoginOutcome, Notice, SessionState};

fn contact(name: &str, key: Vec<u8>) -> Contact {
    Contact {
        name: name.to_string(),
        public_key: key,
        device_type: ContactType::Node,
        flags: 0,
        out_path_len: 0,
        out_path: Vec::new(),
        last_advert: 0,
        last_modified: 0,
        adv_lat: 0,
        adv_lon: 0,
    }
}

#[test]
fn test_session_state_new() {
    let state = SessionState::new();
    assert!(state.current_contact.is_none());
    assert!(state.previous_contact.is_none());
    assert!(state.last_sender.is_none());
}

#[test]
fn test_session_state_set_contact() {
    let mut state = SessionState::new();
    state.set_contact(Some("Alice".to_string()));
    assert_eq!(state.current_contact, Some("Alice".to_string()));
    assert!(state.previous_contact.is_none());

    state.set_contact(Some("Bob".to_string()));
    assert_eq!(state.current_contact, Some("Bob".to_string()));
    assert_eq!(state.previous_contact, Some("Alice".to_string()));
}

#[test]
fn test_session_state_swap_contacts() {
    let mut state = SessionState::new();
    state.set_contact(Some("Alice".to_string()));
    state.set_contact(Some("Bob".to_string()));

    state.swap_contacts();
    assert_eq!(state.current_contact, Some("Alice".to_string()));
    assert_eq!(state.previous_contact, Some("Bob".to_string()));
}

#[test]
fn test_session_state_logged_in() {
    let mut state = SessionState::new();
    assert!(!state.is_logged_in("repeater1"));

    state.set_logged_in("repeater1", true);
    assert!(state.is_logged_in("repeater1"));

    state.set_logged_in("repeater1", false);
    assert!(!state.is_logged_in("repeater1"));
}

#[test]
fn test_session_state_timeout() {
    let mut state = SessionState::new();
    assert_eq!(state.get_timeout("contact1", 30), 30);

    state.contact_timeouts.insert("contact1".to_string(), 60);
    assert_eq!(state.get_timeout("contact1", 30), 60);
}

#[test]
fn test_session_state_pending() {
    let mut state = SessionState::new();
    assert!(state.pending_contacts.is_empty());

    state.add_pending("abc123".to_string(), Some("Alice".to_string()));
    assert_eq!(state.pending_contacts.len(), 1);
    assert!(state.pending_contacts.contains_key("abc123"));

    state.clear_pending();
    assert!(state.pending_contacts.is_empty());
}

#[test]
fn set_contact_to_same_keeps_previous() {
    let mut state = SessionState::new();
    state.set_contact(Some("Alice".to_string()));
    state.set_contact(Some("Bob".to_string()));
    state.set_contact(Some("Bob".to_string()));
    assert_eq!(state.current_contact, Some("Bob".to_string()));
    assert_eq!(state.previous_contact, Some("Alice".to_string()));
    state.set_contact(None);
    assert_eq!(state.current_contact, None);
    assert_eq!(state.previous_contact, Some("Bob".to_string()));
}

#[test]
fn swap_twice_restores_pair() {
    let mut state = SessionState::new();
    state.set_contact(Some("Alice".to_string()));
    state.set_contact(Some("Bob".to_string()));
    state.swap_contacts();
    state.swap_contacts();
    assert_eq!(state.current_contact, Some("Bob".to_string()));
    assert_eq!(state.previous_contact, Some("Alice".to_string()));
}

#[test]
fn add_then_remove_pending_and_clear_count() {
    let mut state = SessionState::new();
    state.add_pending("k1".to_string(), None);
    state.add_pending("k2".to_string(), Some("Bob".to_string()));
    state.remove_pending("k1");
    assert!(!state.pending_contacts.contains_key("k1"));
    assert!(state.pending_contacts.contains_key("k2"));
    state.add_pending("k3".to_string(), None);
    assert_eq!(state.clear_pending(), 2);
    assert!(state.pending_contacts.is_empty());
    assert_eq!(state.clear_pending(), 0);
}

#[test]
fn add_pending_keeps_full_record() {
    let mut state = SessionState::new();
    state.add_pending_contact(contact("Carol", vec![0xab, 0xcd]));
    assert!(state.pending_contacts.contains_key("abcd"));
    state.add_pending("abcd".to_string(), None);
    assert_eq!(state.pending_contacts.len(), 1);
    let p = state.find_pending("abcd").ok().unwrap();
    assert_eq!(p.name, None);
    assert_eq!(p.contact.as_ref().unwrap().name, "Carol");
}

#[test]
fn find_pending_errors() {
    let mut state = SessionState::new();
    state.add_pending("ff00".to_string(), Some("Dave".to_string()));
    assert!(matches!(state.find_pending("zz"), Err(CliError::ContactNotFound(_))));
    assert!(matches!(state.find_pending("dave"), Err(CliError::InvalidArgument(_))));
    assert!(matches!(state.find_pending("ff"), Err(CliError::InvalidArgument(_))));
}

#[test]
fn timeouts_and_login_replies() {
    let mut state = SessionState::new();
    state.set_timeout("rpt", 90);
    assert_eq!(state.get_timeout("rpt", 30), 90);
    assert_eq!(state.get_timeout("other", 30), 30);
    assert_eq!(state.note_login_reply("rpt", &Ok(Event::LoginFailed)), LoginOutcome::Failed);
    assert!(!state.is_logged_in("rpt"));
    assert_eq!(state.note_login_reply("rpt", &Err(CliError::Timeout("event".to_string()))), LoginOutcome::TimedOut);
    assert!(!state.is_logged_in("rpt"));
    assert_eq!(state.note_login_reply("rpt", &Ok(Event::LoginSuccess)), LoginOutcome::Success);
    assert!(state.is_logged_in("rpt"));
}

#[test]
fn send_then_ack_timeout_keeps_last_sender() {
    let mut state = SessionState::new();
    let sent = Event::MessageSent { expected_ack: 7, timeout_ms: 5000 };
    assert!(state.note_send_reply("Bob", &sent).is_ok());
    assert_eq!(state.last_sender, Some("Bob".to_string()));
    // No acknowledgement within the five seconds.
    match wait_step(false, false, true) {
        WaitStep::Fail(CliError::Timeout(_)) => {}
        other => panic!("expected a timeout, got {:?}", other),
    }
    assert_eq!(state.last_sender, Some("Bob".to_string()));
}

#[test]
fn send_reply_error_is_command_error() {
    let mut state = SessionState::new();
    let r = state.note_send_reply("Bob", &Event::Error { message: "full".to_string() });
    match r {
        Err(CliError::Command(m)) => assert_eq!(m, "full"),
        other => panic!("unexpected {:?}", other),
    }
    assert_eq!(state.last_sender, None);
}

#[test]
fn background_events_update_state() {
    let mut state = SessionState::new();
    let dir = vec![contact("Alice", vec![0xde, 0xad, 0xbe, 0xef])];
    let n = state.apply_background_event(
        Event::ContactMessage { sender_prefix: vec![0xde, 0xad], text: "hi".to_string(), is_command: false },
        &dir,
    );
    match n {
        Notice::Message { sender, text } => {
            assert_eq!(sender, "Alice");
            assert_eq!(text, "hi");
        }
        other => panic!("unexpected {:?}", other),
    }
    assert_eq!(state.last_sender, Some("Alice".to_string()));
    let n = state.apply_background_event(Event::Advertisement { public_key: vec![0x01, 0x02] }, &dir);
    match n {
        Notice::Advert { key } => assert_eq!(key, "0102"),
        other => panic!("unexpected {:?}", other),
    }
    assert!(state.pending_contacts.contains_key("0102"));
    let n = state.apply_background_event(Event::NewContactAdvert(contact("Eve", vec![0x0a])), &dir);
    assert!(matches!(n, Notice::NewContact { .. }));
    assert!(state.pending_contacts.contains_key("0a"));
    assert!(matches!(state.apply_background_event(Event::MessagesWaiting, &dir), Notice::MessagesWaiting));
    assert_eq!(state.pending_contacts.len(), 2);
}

#[test]
fn prompt_shows_contact_and_scope() {
    let mut state = SessionState::new();
    assert_eq!(state.prompt(), "meshcore-cli-rs> ");
    state.device_name = Some("node1".to_string());
    assert_eq!(state.prompt(), "node1> ");
    state.set_contact(Some("Bob".to_string()));
    state.flood_scope = Some("west".to_string());
    assert_eq!(state.prompt(), "Bob%west> ");
}
