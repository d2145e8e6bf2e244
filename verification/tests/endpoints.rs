use shared_clipboard::gui::{AppState, ClipboardApp, Config, ConnectionStatus};
use shared_clipboard::lifecycle::{api_url_of, prepare_session_url, ws_url_of, Command, ConnectionManager, Event};
use shared_clipboard::image_info::{dec_digits_of, image_info_of, parse_dim, parse_image_info, split_image_info};
use shared_clipboard::snapshot::{ClipboardData, ContentType};

#[test]
fn ws_url_strips_http_scheme() {
    assert_eq!(ws_url_of("http://127.0.0.1:8080"), "ws://127.0.0.1:8080/ws");
    assert_eq!(ws_url_of("https://relay.example"), "ws://relay.example/ws");
    assert_eq!(ws_url_of("relay.example:9"), "ws://relay.example:9/ws");
}

#[test]
fn api_url_trims_trailing_slashes() {
    assert_eq!(api_url_of("http://h:8080"), "http://h:8080/api/clipboard");
    assert_eq!(api_url_of("http://h:8080/"), "http://h:8080/api/clipboard");
    assert_eq!(api_url_of("http://h:8080//"), "http://h:8080/api/clipboard");
}

#[test]
fn session_url_accepts_well_formed_base() {
    let u = prepare_session_url("http://127.0.0.1:8080").expect("valid base URL");
    assert_eq!(u, "ws://127.0.0.1:8080/ws");
}

#[test]
fn session_url_rejects_malformed_base() {
    assert!(prepare_session_url("not a url").is_none());
}

#[test]
fn url_changes_are_deduplicated() {
    let mut m = ConnectionManager::new(String::from("http://a"));
    assert!(!m.set_url(String::from("http://a")));
    assert!(m.set_url(String::from("http://b")));
    assert_eq!(m.url, "http://b");
}

#[test]
fn commands_produce_expected_events() {
    let mut m = ConnectionManager::new(String::from("http://a"));
    assert_eq!(m.handle_command(Command::SetUrl(String::from("http://a"))), None);
    assert_eq!(
        m.handle_command(Command::SetUrl(String::from("http://b"))),
        Some(Event::UrlChanged)
    );
    assert_eq!(m.handle_command(Command::Quit), Some(Event::Disconnected));
    assert_eq!(m.url, "http://b");
}

#[test]
fn content_type_is_derived_from_populated_fields() {
    let text = ClipboardData::new(String::from("t"), None, None, None, 1);
    assert_eq!(text.content_type, ContentType::Text);
    let html = ClipboardData::new(String::from("t"), Some(String::from("<b>t</b>")), None, None, 1);
    assert_eq!(html.content_type, ContentType::Html);
    let rtf = ClipboardData::new(String::from("t"), None, Some(String::from("{\\rtf1}")), None, 1);
    assert_eq!(rtf.content_type, ContentType::Rtf);
    let image = ClipboardData::new(String::from(""), None, None, Some(String::from("0:0:")), 1);
    assert_eq!(image.content_type, ContentType::Image);
    let mixed = ClipboardData::new(
        String::from("t"),
        Some(String::from("<b>t</b>")),
        Some(String::from("{\\rtf1}")),
        None,
        1,
    );
    assert_eq!(mixed.content_type, ContentType::Mixed);
}

#[test]
fn first_run_starts_in_setup() {
    let app = ClipboardApp::new(Config::new(String::from("http://a"), false, true));
    assert_eq!(app.state, AppState::FirstTimeSetup);
    assert!(!app.should_exit());
}

#[test]
fn configured_run_starts_hidden() {
    let app = ClipboardApp::new(Config::new(String::from("http://a"), false, false));
    assert_eq!(app.state, AppState::Running);
    assert_eq!(app.config().server_url, "http://a");
}

#[test]
fn connection_test_validates_url_input() {
    let mut app = ClipboardApp::new(Config::new(String::from("http://a"), false, true));
    app.begin_connection_test();
    assert!(matches!(app.connection_status, ConnectionStatus::Success));
    app.server_url_input = String::from("not a url");
    app.begin_connection_test();
    assert!(matches!(app.connection_status, ConnectionStatus::Failed(_)));
    assert!(app.error_message.is_some());
}

#[test]
fn save_requires_successful_test() {
    let mut app = ClipboardApp::new(Config::new(String::from("http://a"), false, true));
    assert!(!app.save_and_continue());
    app.server_url_input = String::from("http://b:8080");
    app.begin_connection_test();
    assert!(app.save_and_continue());
    assert_eq!(app.config().server_url, "http://b:8080");
    assert!(!app.config().first_run);
    assert_eq!(app.state, AppState::Running);
}

#[test]
fn async_test_result_saves_or_reports() {
    let mut app = ClipboardApp::new(Config::new(String::from("http://a"), false, true));
    app.server_url_input = String::from("http://c:1");
    app.handle_connection_test_result(Ok(()));
    assert_eq!(app.config().server_url, "http://c:1");
    assert_eq!(app.state, AppState::Running);

    let mut other = ClipboardApp::new(Config::new(String::from("http://a"), false, true));
    other.handle_connection_test_result(Err(String::from("connection refused")));
    assert!(matches!(other.connection_status, ConnectionStatus::Failed(_)));
    assert_eq!(other.error_message.as_deref(), Some("connection refused"));
    assert_eq!(other.state, AppState::FirstTimeSetup);
}

#[test]
fn settings_dialog_transitions() {
    let mut app = ClipboardApp::new(Config::new(String::from("http://a"), false, false));
    app.show();
    assert_eq!(app.state, AppState::Settings);
    app.change_server_url();
    assert_eq!(app.state, AppState::ChangingUrl);
    app.server_url_input = String::from("garbage");
    app.cancel_url_change();
    assert_eq!(app.state, AppState::Running);
    assert_eq!(app.server_url_input, "http://a");
    app.show();
    app.close_settings();
    assert_eq!(app.state, AppState::Running);
}

#[test]
fn window_close_hides_while_running_and_exits_during_setup() {
    let mut running = ClipboardApp::new(Config::new(String::from("http://a"), false, false));
    assert!(!running.on_exit_event());
    assert!(!running.should_exit());

    let mut setup = ClipboardApp::new(Config::new(String::from("http://a"), false, true));
    assert!(setup.on_exit_event());
    assert!(setup.should_exit());
}

#[test]
fn exit_can_be_requested_directly() {
    let mut app = ClipboardApp::new(Config::new(String::from("http://a"), false, false));
    app.request_exit();
    assert!(app.should_exit());
}

#[test]
fn sync_pause_toggles() {
    let mut app = ClipboardApp::new(Config::new(String::from("http://a"), false, false));
    assert!(app.toggle_sync());
    assert!(app.config().sync_paused);
    assert!(!app.toggle_sync());
    assert!(!app.config().sync_paused);
}

#[test]
fn decimal_formatting_and_parsing() {
    assert_eq!(dec_digits_of(0), "0");
    assert_eq!(dec_digits_of(7), "7");
    assert_eq!(dec_digits_of(1080), "1080");
    assert_eq!(dec_digits_of(4294967295), "4294967295");
    assert_eq!(parse_dim(&"0".chars().collect()), Some(0));
    assert_eq!(parse_dim(&"1080".chars().collect()), Some(1080));
    assert_eq!(parse_dim(&"007".chars().collect()), Some(7));
    assert_eq!(parse_dim(&"4294967295".chars().collect()), Some(4294967295));
    assert_eq!(parse_dim(&"4294967296".chars().collect()), None);
    assert_eq!(parse_dim(&"".chars().collect()), None);
    assert_eq!(parse_dim(&"12a".chars().collect()), None);
}

#[test]
fn image_payload_round_trip() {
    let payload = image_info_of(2, 3, &[1, 2, 3]);
    assert_eq!(payload, "2:3:AQID");
    let (w, h, bytes) = parse_image_info(&payload).expect("own payload must parse");
    assert_eq!((w, h), (2, 3));
    assert_eq!(bytes, vec![1, 2, 3]);
}

#[test]
fn empty_image_payload_round_trip() {
    let payload = image_info_of(10, 20, &[]);
    assert_eq!(payload, "10:20:");
    let (w, h, bytes) = parse_image_info(&payload).expect("empty pixel data is valid");
    assert_eq!((w, h), (10, 20));
    assert!(bytes.is_empty());
}

#[test]
fn image_payload_rejects_malformed_input() {
    assert!(parse_image_info("no colons").is_none());
    assert!(parse_image_info("1:2").is_none());
    assert!(parse_image_info(":2:abc").is_none());
    assert!(parse_image_info("1:x:abc").is_none());
    assert!(parse_image_info("1:2:not base64!").is_none());
}

#[test]
fn image_payload_split_keeps_colons_in_data() {
    let (w, h, payload) = split_image_info("4:5:ab:cd").expect("only the first two colons split");
    assert_eq!((w, h), (4, 5));
    assert_eq!(payload, "ab:cd");
}
