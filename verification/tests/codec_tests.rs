use shared_clipboard::codec::{json_of_message, json_of_snapshot};
use shared_clipboard::relay::MessageKind;
use shared_clipboard::snapshot::ClipboardData;

fn text_snap(content: &str, timestamp: u64) -> ClipboardData {
    ClipboardData::new(String::from(content), None, None, None, timestamp)
}

#[test]
fn snapshot_renders_in_fixed_field_order() {
    let json = json_of_snapshot(&text_snap("hello", 100));
    assert_eq!(
        json,
        "{\"content\":\"hello\",\"html\":null,\"rtf\":null,\"image\":null,\
         \"content_type\":\"text\",\"timestamp\":100}"
    );
}

#[test]
fn message_envelope_carries_kind_and_data() {
    let json = json_of_message(MessageKind::ClipboardUpdate, &text_snap("x", 7));
    assert_eq!(
        json,
        "{\"type\":\"clipboard_update\",\"data\":{\"content\":\"x\",\"html\":null,\
         \"rtf\":null,\"image\":null,\"content_type\":\"text\",\"timestamp\":7}}"
    );
    let set = json_of_message(MessageKind::ClipboardSet, &text_snap("x", 7));
    assert!(set.starts_with("{\"type\":\"clipboard_set\","));
}

#[test]
fn rendering_escapes_special_characters() {
    let json = json_of_snapshot(&text_snap("a\"b\\c\nd\te\r\u{1}", 0));
    assert_eq!(
        json,
        "{\"content\":\"a\\\"b\\\\c\\nd\\te\\r\\u0001\",\"html\":null,\"rtf\":null,\
         \"image\":null,\"content_type\":\"text\",\"timestamp\":0}"
    );
}

#[test]
fn rendered_json_parses_back_to_the_same_snapshot() {
    let snap = ClipboardData::new(
        String::from("line1\nline2 \"quoted\""),
        Some(String::from("<p>line1<br>line2</p>")),
        None,
        Some(String::from("2:1:AQIDBAUG")),
        1234567890,
    );
    let json = json_of_snapshot(&snap);
    let v: serde_json::Value = serde_json::from_str(&json).expect("library output is valid JSON");
    assert_eq!(v["content"], "line1\nline2 \"quoted\"");
    assert_eq!(v["html"], "<p>line1<br>line2</p>");
    assert_eq!(v["rtf"], serde_json::Value::Null);
    assert_eq!(v["image"], "2:1:AQIDBAUG");
    assert_eq!(v["content_type"], "mixed");
    assert_eq!(v["timestamp"], 1234567890u64);
}

#[test]
fn control_characters_render_as_unicode_escapes() {
    let json = json_of_snapshot(&text_snap("\u{1f}", 0));
    let v: serde_json::Value = serde_json::from_str(&json).expect("valid JSON");
    assert_eq!(v["content"], "\u{1f}");
    assert!(json.contains("\\u001f"));
}
