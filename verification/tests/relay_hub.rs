use shared_clipboard::relay::{MessageKind, RelayState};
use shared_clipboard::snapshot::{ClipboardData, ContentType};

fn text_snap(content: &str, timestamp: u64) -> ClipboardData {
    ClipboardData::new(String::from(content), None, None, None, timestamp)
}

#[test]
fn read_endpoint_answers_empty_default_before_any_update() {
    let relay = RelayState::new();
    let got = relay.get_clipboard();
    assert_eq!(got.content, "");
    assert_eq!(got.content_type, ContentType::Text);
    assert_eq!(got.timestamp, 0);
    assert!(got.html.is_none() && got.rtf.is_none() && got.image.is_none());
}

#[test]
fn post_then_get_returns_snapshot_unchanged() {
    let mut relay = RelayState::new();
    let s = ClipboardData::new(
        String::from("payload"),
        Some(String::from("<p>payload</p>")),
        None,
        None,
        42,
    );
    relay.set_clipboard(s.clone());
    let got = relay.get_clipboard();
    assert_eq!(got.content, "payload");
    assert_eq!(got.html.as_deref(), Some("<p>payload</p>"));
    assert_eq!(got.content_type, ContentType::Html);
    assert_eq!(got.timestamp, 42);
}

#[test]
fn late_joiner_receives_current_snapshot_immediately() {
    let mut relay = RelayState::new();
    let s = text_snap("current", 7);
    relay.set_clipboard(s);
    let (_, welcome) = relay.register_session();
    let welcome = welcome.expect("a late joiner must be welcomed with the current snapshot");
    assert_eq!(welcome.content, "current");
    assert_eq!(welcome.timestamp, 7);
}

#[test]
fn early_joiner_gets_no_welcome_message() {
    let mut relay = RelayState::new();
    let (_, welcome) = relay.register_session();
    assert!(welcome.is_none());
}

#[test]
fn fanout_reaches_every_session_including_the_ingesting_one() {
    let mut relay = RelayState::new();
    let (a, _) = relay.register_session();
    let (b, _) = relay.register_session();
    let (c, _) = relay.register_session();
    assert_ne!(a, b);
    assert_ne!(b, c);
    assert_ne!(a, c);
    let recipients = relay.set_clipboard(text_snap("x", 1));
    assert_eq!(recipients.len(), 3);
    assert!(recipients.contains(&a) && recipients.contains(&b) && recipients.contains(&c));
}

#[test]
fn disconnected_session_no_longer_receives() {
    let mut relay = RelayState::new();
    let (a, _) = relay.register_session();
    let (b, _) = relay.register_session();
    relay.unregister_session(a);
    let recipients = relay.set_clipboard(text_snap("x", 1));
    assert_eq!(recipients, vec![b]);
    // Removing an unknown id is harmless.
    relay.unregister_session(a);
    assert_eq!(relay.set_clipboard(text_snap("y", 2)).len(), 1);
}

#[test]
fn session_set_message_replaces_state_and_fans_out() {
    let mut relay = RelayState::new();
    let (a, _) = relay.register_session();
    let r = relay.handle_session_message(MessageKind::ClipboardSet, text_snap("via ws", 9));
    let recipients = r.expect("a clipboard_set message must be fanned out");
    assert_eq!(recipients, vec![a]);
    assert_eq!(relay.get_clipboard().content, "via ws");
}

#[test]
fn other_session_messages_leave_relay_unchanged() {
    let mut relay = RelayState::new();
    relay.set_clipboard(text_snap("kept", 1));
    let r = relay.handle_session_message(MessageKind::ClipboardUpdate, text_snap("noise", 2));
    assert!(r.is_none());
    assert_eq!(relay.get_clipboard().content, "kept");
}

#[test]
fn last_write_wins() {
    let mut relay = RelayState::new();
    relay.set_clipboard(text_snap("first", 1));
    relay.set_clipboard(text_snap("second", 2));
    assert_eq!(relay.get_clipboard().content, "second");
    assert_eq!(relay.get_clipboard().timestamp, 2);
}
