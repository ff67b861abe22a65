use wayland_ptt::args::{parse_args_from, usage, Config};

fn args(values: &[&str]) -> Vec<String> {
    values.iter().map(|value| value.to_string()).collect()
}

#[test]
fn parses_defaults_with_device_path() {
    let parsed = parse_args_from(args(&["wayland-ptt", "/dev/input/by-id/test-kbd"])).unwrap();

    assert_eq!(
        parsed,
        Config {
            verbose: false,
            listen_key: "KEY_LEFTMETA".to_string(),
            send_key: "Super_L".to_string(),
            mouse_button: None,
            input_device_path: "/dev/input/by-id/test-kbd".to_string(),
        }
    );
}

#[test]
fn parses_all_supported_flags() {
    let parsed = parse_args_from(args(&[
        "wayland-ptt",
        "-v",
        "-l",
        "KEY_F13",
        "-s",
        "F24",
        "/dev/input/by-id/test-kbd",
    ]))
    .unwrap();

    assert_eq!(
        parsed,
        Config {
            verbose: true,
            listen_key: "KEY_F13".to_string(),
            send_key: "F24".to_string(),
            mouse_button: None,
            input_device_path: "/dev/input/by-id/test-kbd".to_string(),
        }
    );
}

#[test]
fn parses_mouse_target() {
    let parsed = parse_args_from(args(&[
        "wayland-ptt",
        "-s",
        "MOUSE5",
        "/dev/input/by-id/test-mouse",
    ]))
    .unwrap();

    assert_eq!(
        parsed,
        Config {
            verbose: false,
            listen_key: "KEY_LEFTMETA".to_string(),
            send_key: "MOUSE5".to_string(),
            mouse_button: Some(5),
            input_device_path: "/dev/input/by-id/test-mouse".to_string(),
        }
    );
}

#[test]
fn rejects_invalid_mouse_target() {
    let err = parse_args_from(args(&[
        "wayland-ptt",
        "-s",
        "MOUSEabc",
        "/dev/input/by-id/test-mouse",
    ]))
    .unwrap_err();

    assert_eq!(err, "Invalid mouse_button value: MOUSEabc");
}

#[test]
fn rejects_missing_device_path() {
    let err = parse_args_from(args(&["wayland-ptt", "-v"])).unwrap_err();

    assert_eq!(err, usage("wayland-ptt"));
}

#[test]
fn rejects_unknown_flag() {
    let err =
        parse_args_from(args(&["wayland-ptt", "-x", "/dev/input/by-id/test-kbd"])).unwrap_err();

    assert_eq!(err, usage("wayland-ptt"));
}

#[test]
fn rejects_multiple_device_paths() {
    let err = parse_args_from(args(&[
        "wayland-ptt",
        "/dev/input/by-id/one",
        "/dev/input/by-id/two",
    ]))
    .unwrap_err();

    assert_eq!(err, usage("wayland-ptt"));
}

#[test]
fn usage_names_the_program() {
    assert_eq!(
        usage("ptt"),
        "Usage: ptt [-v] [-l listen_key] [-s send_key] /dev/input/by-id/<device-name>"
    );
}

#[test]
fn empty_command_line_uses_default_program_name() {
    let err = parse_args_from(Vec::new()).unwrap_err();

    assert_eq!(err, usage("wayland-ptt"));
}

#[test]
fn rejects_mouse_button_zero() {
    let err = parse_args_from(args(&["ptt", "-s", "MOUSE00", "/dev/x"])).unwrap_err();

    assert_eq!(err, "Invalid mouse_button value: MOUSE0");
}

#[test]
fn rejects_bare_mouse_prefix() {
    let err = parse_args_from(args(&["ptt", "-s", "MOUSE", "/dev/x"])).unwrap_err();

    assert_eq!(err, "Invalid mouse_button value: MOUSE");
}

#[test]
fn rejects_mouse_button_beyond_u32() {
    let err = parse_args_from(args(&["ptt", "-s", "MOUSE4294967296", "/dev/x"])).unwrap_err();

    assert_eq!(err, "Invalid mouse_button value: MOUSE4294967296");
}

#[test]
fn accepts_largest_mouse_button_and_plus_sign() {
    let parsed = parse_args_from(args(&["ptt", "-s", "MOUSE4294967295", "/dev/x"])).unwrap();
    assert_eq!(parsed.mouse_button, Some(4294967295));

    let parsed = parse_args_from(args(&["ptt", "-s", "MOUSE+07", "/dev/x"])).unwrap();
    assert_eq!(parsed.mouse_button, Some(7));
    assert_eq!(parsed.send_key, "MOUSE+07");
}

#[test]
fn rejects_signed_mouse_button() {
    let err = parse_args_from(args(&["ptt", "-s", "MOUSE-1", "/dev/x"])).unwrap_err();

    assert_eq!(err, "Invalid mouse_button value: MOUSE-1");
}

#[test]
fn later_send_key_replaces_mouse_button() {
    let parsed =
        parse_args_from(args(&["ptt", "-s", "MOUSE3", "-s", "Control_L", "/dev/x"])).unwrap();

    assert_eq!(parsed.mouse_button, None);
    assert_eq!(parsed.send_key, "Control_L");
}

#[test]
fn rejects_flags_missing_their_value() {
    assert_eq!(parse_args_from(args(&["ptt", "/dev/x", "-l"])).unwrap_err(), usage("ptt"));
    assert_eq!(parse_args_from(args(&["ptt", "/dev/x", "-s"])).unwrap_err(), usage("ptt"));
}

#[test]
fn flag_values_may_start_with_dash() {
    let parsed = parse_args_from(args(&["ptt", "-l", "-v", "/dev/x"])).unwrap();

    assert!(!parsed.verbose);
    assert_eq!(parsed.listen_key, "-v");
}

#[test]
fn device_path_may_come_first() {
    let parsed = parse_args_from(args(&["ptt", "/dev/x", "-v"])).unwrap();

    assert!(parsed.verbose);
    assert_eq!(parsed.input_device_path, "/dev/x");
}
