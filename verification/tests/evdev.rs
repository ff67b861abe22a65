use evdev::{BusType, EventType, KeyCode};
use wayland_ptt::args::Config;
use wayland_ptt::evdev::{
    classify_listen_key_event, configure_evdev, first_listen_key_state_in, open_device, format_input_device_metadata, resolve_listen_key,
    supports_key, ConfigureEvdevError, InputEvent, InputId, ListenKeyState,
};

fn make_config(path: String) -> Config {
    Config {
        verbose: false,
        listen_key: "MOUSE5".to_string(),
        send_key: "MOUSE5".to_string(),
        mouse_button: Some(5),
        input_device_path: path,
    }
}

#[test]
fn evdev_resolves_valid_listen_key_name() {
    let key = resolve_listen_key("KEY_LEFTMETA").unwrap();

    assert_eq!(key, KeyCode::KEY_LEFTMETA.0);
}

#[test]
fn evdev_rejects_invalid_listen_key_name() {
    let err = resolve_listen_key("INVALID_KEY").unwrap_err();

    match err {
        ConfigureEvdevError::InvalidListenKey { key } => assert_eq!(key, "INVALID_KEY"),
        other => panic!("expected InvalidListenKey, got {other:?}"),
    }
}

#[test]
fn classifies_matching_listen_key_press() {
    let event = InputEvent::new(EventType::KEY.0, KeyCode::KEY_LEFTMETA.0, 1);

    assert_eq!(
        classify_listen_key_event(event, KeyCode::KEY_LEFTMETA.0),
        Some(ListenKeyState::Pressed)
    );
}

#[test]
fn classifies_matching_listen_key_release() {
    let event = InputEvent::new(EventType::KEY.0, KeyCode::KEY_LEFTMETA.0, 0);

    assert_eq!(
        classify_listen_key_event(event, KeyCode::KEY_LEFTMETA.0),
        Some(ListenKeyState::Released)
    );
}

#[test]
fn ignores_matching_listen_key_autorepeat() {
    let event = InputEvent::new(EventType::KEY.0, KeyCode::KEY_LEFTMETA.0, 2);

    assert_eq!(classify_listen_key_event(event, KeyCode::KEY_LEFTMETA.0), None);
}

#[test]
fn ignores_other_key_events() {
    let event = InputEvent::new(EventType::KEY.0, KeyCode::KEY_A.0, 1);

    assert_eq!(classify_listen_key_event(event, KeyCode::KEY_LEFTMETA.0), None);
}

#[test]
fn ignores_non_key_events() {
    let event = InputEvent::new(EventType::RELATIVE.0, 0, 1);

    assert_eq!(classify_listen_key_event(event, KeyCode::KEY_LEFTMETA.0), None);
}

#[test]
fn ignores_non_key_events_with_the_listen_code() {
    let event = InputEvent::new(EventType::RELATIVE.0, KeyCode::KEY_LEFTMETA.0, 1);

    assert_eq!(classify_listen_key_event(event, KeyCode::KEY_LEFTMETA.0), None);
}

#[test]
fn ignores_negative_key_values() {
    let event = InputEvent::new(EventType::KEY.0, KeyCode::KEY_LEFTMETA.0, -1);

    assert_eq!(classify_listen_key_event(event, KeyCode::KEY_LEFTMETA.0), None);
}

#[test]
fn rejects_missing_input_device_path() {
    let config = make_config("/invalid/device".to_string());
    match configure_evdev(&config) {
        Err(ConfigureEvdevError::OpenDevice { path, .. }) => {
            assert_eq!(path, "/invalid/device");
        }
        Ok(_) => panic!("expected OpenDevice"),
        Err(other) => panic!("expected OpenDevice, got {other:?}"),
    }
}

#[test]
fn rejects_invalid_listen_key_on_missing_device() {
    let mut config = make_config("/invalid/device".to_string());
    config.listen_key = "INVALID_KEY".to_string();

    match configure_evdev(&config) {
        Err(ConfigureEvdevError::OpenDevice { .. }) => {}
        Ok(_) => panic!("expected an error"),
        Err(other) => panic!("expected OpenDevice, got {other:?}"),
    }
}

#[test]
fn formats_input_device_metadata_like_cpp_output() {
    let lines = format_input_device_metadata(
        Some("Test Keyboard"),
        InputId::new(BusType::BUS_USB.0, 0x1234, 0x5678, 0x1111),
    );

    assert_eq!(lines[0], "Input device name: \"Test Keyboard\"");
    assert_eq!(lines[1], "Input device ID: bus 0x3 vendor 0x1234 product 0x5678");
}

#[test]
fn formats_unknown_input_device_name() {
    let lines = format_input_device_metadata(
        None,
        InputId::new(BusType::BUS_BLUETOOTH.0, 0xabcd, 0xef01, 0x2222),
    );

    assert_eq!(lines[0], "Input device name: \"unknown\"");
    assert_eq!(lines[1], "Input device ID: bus 0x5 vendor 0xabcd product 0xef01");
}

#[test]
fn formats_zero_and_largest_identifiers() {
    let lines = format_input_device_metadata(Some(""), InputId::new(0, 0xffff, 0x10, 7));

    assert_eq!(lines[0], "Input device name: \"\"");
    assert_eq!(lines[1], "Input device ID: bus 0x0 vendor 0xffff product 0x10");
}

#[test]
fn supports_key_needs_reported_keys() {
    assert!(!supports_key(&None, 125));
    assert!(!supports_key(&Some(vec![]), 125));
    assert!(!supports_key(&Some(vec![1, 2, 3]), 125));
    assert!(supports_key(&Some(vec![1, 125, 3]), 125));
}

#[test]
fn resolves_button_names() {
    assert_eq!(resolve_listen_key("BTN_EXTRA").unwrap(), 0x114);
    assert_eq!(resolve_listen_key("KEY_F13").unwrap(), 183);
}

#[test]
fn messages_name_the_key_and_path() {
    let invalid = ConfigureEvdevError::InvalidListenKey { key: "NOPE".to_string() };
    assert_eq!(invalid.message(), "Key code not found: NOPE");

    let unsupported = ConfigureEvdevError::UnsupportedListenKey {
        path: "/dev/x".to_string(),
        key: "KEY_A".to_string(),
    };
    assert_eq!(
        unsupported.message(),
        "Input device /dev/x is not capable of sending listen key KEY_A"
    );
}

#[test]
fn open_failure_message_names_the_path() {
    let config = make_config("/invalid/device".to_string());
    let err = match configure_evdev(&config) {
        Err(err) => err,
        Ok(_) => panic!("expected an error"),
    };
    assert!(err.message().starts_with("Failed to open device /invalid/device: "));
}

#[test]
fn first_listen_key_state_takes_the_first_counting_event() {
    let code = KeyCode::KEY_LEFTMETA.0;
    let events = vec![
        InputEvent::new(EventType::RELATIVE.0, code, 1),
        InputEvent::new(EventType::KEY.0, code, 2),
        InputEvent::new(EventType::KEY.0, KeyCode::KEY_A.0, 0),
        InputEvent::new(EventType::KEY.0, code, 0),
        InputEvent::new(EventType::KEY.0, code, 1),
    ];
    assert_eq!(first_listen_key_state_in(&events, code), Some(ListenKeyState::Released));
    assert_eq!(first_listen_key_state_in(&events[..3].to_vec(), code), None);
    assert_eq!(first_listen_key_state_in(&Vec::new(), code), None);
}

#[test]
fn open_device_reports_the_path() {
    match open_device("/invalid/device") {
        Err(ConfigureEvdevError::OpenDevice { path, .. }) => assert_eq!(path, "/invalid/device"),
        Ok(_) => panic!("expected OpenDevice"),
        Err(other) => panic!("expected OpenDevice, got {other:?}"),
    }
}

#[test]
fn message_with_source_text_puts_the_text_last() {
    let config = make_config("/invalid/device".to_string());
    let err = match configure_evdev(&config) {
        Err(err) => err,
        Ok(_) => panic!("expected an error"),
    };
    assert_eq!(
        err.message_with_source_text("No such file or directory (os error 2)"),
        "Failed to open device /invalid/device: No such file or directory (os error 2)"
    );
}
