use evdev::{BusType, KeyCode};
use wayland_ptt::args::Config;
use wayland_ptt::evdev::InputId;
use wayland_ptt::setup_evdev::{
    format_input_device_metadata, resolve_listen_key, setup_evdev, SetupEvdevError,
};

#[test]
fn setup_evdev_resolves_valid_listen_key_name() {
    let key = resolve_listen_key("KEY_LEFTMETA").unwrap();

    assert_eq!(key, KeyCode::KEY_LEFTMETA.0);
}

#[test]
fn setup_evdev_rejects_invalid_listen_key_name() {
    let err = resolve_listen_key("INVALID_KEY").unwrap_err();

    match err {
        SetupEvdevError::InvalidListenKey { key } => assert_eq!(key, "INVALID_KEY"),
        other => panic!("expected InvalidListenKey, got {other:?}"),
    }
}

#[test]
fn setup_rejects_missing_device_before_checking_key() {
    let config = Config {
        verbose: false,
        listen_key: "INVALID_KEY".to_string(),
        send_key: "Super_L".to_string(),
        mouse_button: None,
        input_device_path: "/invalid/device".to_string(),
    };
    match setup_evdev(&config) {
        Err(SetupEvdevError::OpenDevice { path, .. }) => assert_eq!(path, "/invalid/device"),
        Ok(_) => panic!("expected an error"),
        Err(other) => panic!("expected OpenDevice, got {other:?}"),
    }
}

#[test]
fn setup_formats_device_metadata() {
    let lines = format_input_device_metadata(
        Some("Mouse"),
        InputId::new(BusType::BUS_USB.0, 0x46d, 0xc52b, 0x111),
    );

    assert_eq!(lines[0], "Input device name: \"Mouse\"");
    assert_eq!(lines[1], "Input device ID: bus 0x3 vendor 0x46d product 0xc52b");
}

#[test]
fn setup_messages() {
    let err = SetupEvdevError::UnsupportedListenKey {
        path: "/dev/y".to_string(),
        key: "BTN_EXTRA".to_string(),
    };
    assert_eq!(
        err.message(),
        "Input device /dev/y is not capable of sending listen key BTN_EXTRA"
    );
}
