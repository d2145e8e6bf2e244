use shared_clipboard::codec::json_of_message;
use shared_clipboard::relay::{MessageKind, RelayState};
use shared_clipboard::snapshot::ClipboardData;
use shared_clipboard::sync::{ClientSyncLoop, PollAction};

/// Decodes a framed update the way a receiving client would.
fn parse_wire(json: &str) -> (MessageKind, ClipboardData) {
    let v: serde_json::Value = serde_json::from_str(json).expect("well-formed frame");
    let kind = match v["type"].as_str().expect("a kind") {
        "clipboard_update" => MessageKind::ClipboardUpdate,
        _ => MessageKind::ClipboardSet,
    };
    let d = &v["data"];
    let data = ClipboardData::new(
        d["content"].as_str().expect("content").to_string(),
        d["html"].as_str().map(|s| s.to_string()),
        d["rtf"].as_str().map(|s| s.to_string()),
        d["image"].as_str().map(|s| s.to_string()),
        d["timestamp"].as_u64().expect("timestamp"),
    );
    (kind, data)
}

#[test]
fn hello_propagates_once_and_only_once() {
    let mut relay = RelayState::new();
    let mut client_a = ClientSyncLoop::new();
    let mut client_b = ClientSyncLoop::new();
    let (a_id, a_welcome) = relay.register_session();
    let (b_id, b_welcome) = relay.register_session();
    assert!(a_welcome.is_none() && b_welcome.is_none());

    // Client A's poll sees "hello" and pushes it to the relay.
    let hello = ClipboardData::new("hello".to_string(), None, None, None, 100);
    assert_eq!(client_a.poll_tick(&hello, 0), PollAction::Push);
    let recipients = relay.set_clipboard(hello);
    assert!(recipients.contains(&a_id) && recipients.contains(&b_id));
    let frame = json_of_message(MessageKind::ClipboardUpdate, &relay.get_clipboard());

    // A receives its own change back from the fan-out and drops it.
    let (kind, data) = parse_wire(&frame);
    assert_eq!(data.content, "hello");
    assert_eq!(data.timestamp, 100);
    assert!(!client_a.should_apply_remote(kind, &data));

    // B has never seen it: it applies the update, reads the actual clipboard
    // back, and anchors that read.
    let (kind, data) = parse_wire(&frame);
    assert!(client_b.should_apply_remote(kind, &data));
    let read_back = ClipboardData::new("hello".to_string(), None, None, None, 102);
    client_b.record_server_apply(&read_back, data.timestamp);

    // B's next poll reads the value it just wrote and does not re-push it.
    let polled = ClipboardData::new("hello".to_string(), None, None, None, 103);
    assert_eq!(client_b.poll_tick(&polled, 0), PollAction::Ignore);
}

#[test]
fn late_joiner_converges_through_the_welcome_frame() {
    let mut relay = RelayState::new();
    relay.set_clipboard(ClipboardData::new("state".to_string(), None, None, None, 50));
    let (_, welcome) = relay.register_session();
    let frame = json_of_message(
        MessageKind::ClipboardUpdate,
        &welcome.expect("late joiner is welcomed"),
    );
    let (kind, data) = parse_wire(&frame);
    let mut joiner = ClientSyncLoop::new();
    assert!(joiner.should_apply_remote(kind, &data));
    assert_eq!(data.content, "state");
    joiner.record_server_apply(&data, data.timestamp);
    assert_eq!(
        joiner.poll_tick(&ClipboardData::new("state".to_string(), None, None, None, 53), 0),
        PollAction::Ignore
    );
}
