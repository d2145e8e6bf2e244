use shared_clipboard::backend::{ClipboardBackend, LinuxClipboardManager, WindowsClipboardManager};
use shared_clipboard::classifier::ClipboardManager;
use shared_clipboard::snapshot::{ClipboardData, ContentType};

fn text_snap(content: &str, timestamp: u64) -> ClipboardData {
    ClipboardData::new(String::from(content), None, None, None, timestamp)
}

#[test]
fn linux_backend_classifies_like_the_core() {
    let mut backend = LinuxClipboardManager::new();
    let a = text_snap("hello", 100);
    assert!(backend.has_content_changed(&a, false, None));
    assert!(!backend.has_content_changed(&a, false, None));
    backend.mark_content_as_sent(&a);
    assert!(backend.is_own_content_returned(&a));
    assert!(!backend.is_own_content_returned(&text_snap("other", 100)));
}

#[test]
fn windows_backend_classifies_like_the_core() {
    let mut backend = WindowsClipboardManager::new();
    let remote = text_snap("X", 100);
    assert!(backend.has_content_changed(&remote, true, Some(100)));
    backend.record_server_apply(&remote, 100);
    // The anchored value does not come back as a local change.
    assert!(!backend.has_content_changed(&text_snap("X", 103), false, None));
}

#[test]
fn the_classifier_is_itself_a_backend() {
    let mut core = ClipboardManager::new();
    let a = text_snap("value", 9);
    assert!(ClipboardBackend::has_content_changed(&mut core, &a, false, None));
    ClipboardBackend::mark_content_as_sent(&mut core, &a);
    assert!(ClipboardBackend::is_own_content_returned(&core, &a));
}

#[test]
fn backends_share_one_hash_notion() {
    let a = text_snap("same value", 5);
    assert_eq!(
        LinuxClipboardManager::calculate_content_hash(&a),
        WindowsClipboardManager::calculate_content_hash(&a)
    );
    assert_eq!(
        LinuxClipboardManager::calculate_content_hash(&a),
        ClipboardManager::calculate_content_hash(&a)
    );
}

#[test]
fn snapshot_clone_is_field_equal() {
    let a = ClipboardData::new(
        String::from("text"),
        Some(String::from("<b>text</b>")),
        Some(String::from("{\\rtf1}")),
        None,
        77,
    );
    let b = a.clone();
    assert_eq!(b.content, a.content);
    assert_eq!(b.html, a.html);
    assert_eq!(b.rtf, a.rtf);
    assert_eq!(b.image, a.image);
    assert_eq!(b.content_type, a.content_type);
    assert_eq!(b.timestamp, a.timestamp);
}

#[test]
fn default_snapshot_is_the_empty_one() {
    let d = ClipboardData::default();
    assert_eq!(d.content, "");
    assert!(d.html.is_none() && d.rtf.is_none() && d.image.is_none());
    assert_eq!(d.content_type, ContentType::Text);
    assert_eq!(d.timestamp, 0);
}
