use wayland_ptt::x11::{
    connect_failure, xtest_extension_outcome, xtest_version_outcome, ConfigureX11Error,
};
use x11rb::errors::{ConnectError, ConnectionError, DisplayParsingError, ReplyError};

#[test]
fn formats_default_display_connection_error() {
    let err = ConfigureX11Error::Connect {
        display_name: None,
        source: ConnectError::DisplayParsingError(DisplayParsingError::Unknown),
    };

    assert_eq!(
        err.message(),
        "Failed to connect to the default X11 display: Unknown error while parsing a $DISPLAY address"
    );
}

#[test]
fn formats_named_display_connection_error() {
    let err = ConfigureX11Error::Connect {
        display_name: Some(":9".to_string()),
        source: ConnectError::DisplayParsingError(DisplayParsingError::Unknown),
    };

    assert_eq!(
        err.message(),
        "Failed to connect to X11 display :9: Unknown error while parsing a $DISPLAY address"
    );
}

#[test]
fn connect_failure_keeps_display_name() {
    match connect_failure(Some(":3"), ConnectError::InvalidScreen) {
        ConfigureX11Error::Connect { display_name, .. } => {
            assert_eq!(display_name, Some(":3".to_string()))
        }
        other => panic!("expected Connect, got {other:?}"),
    }
}

#[test]
fn missing_xtest_is_reported() {
    match xtest_extension_outcome(Ok(None)) {
        Err(ConfigureX11Error::MissingXtestExtension) => {}
        other => panic!("expected MissingXtestExtension, got {other:?}"),
    }
    match xtest_extension_outcome(Err(ConnectionError::UnsupportedExtension)) {
        Err(ConfigureX11Error::MissingXtestExtension) => {}
        other => panic!("expected MissingXtestExtension, got {other:?}"),
    }
    assert_eq!(
        ConfigureX11Error::MissingXtestExtension.message(),
        "X11 server does not support the XTEST extension"
    );
}

#[test]
fn other_connection_errors_fail_the_version_query() {
    match xtest_version_outcome(Err(ConnectionError::InsufficientMemory)) {
        Err(err @ ConfigureX11Error::QueryXtestVersion { .. }) => {
            assert_eq!(err.message(), "Failed to query XTEST version: Insufficient memory")
        }
        other => panic!("expected QueryXtestVersion, got {other:?}"),
    }
    match xtest_version_outcome(Ok(Err(ReplyError::ConnectionError(
        ConnectionError::UnknownError,
    )))) {
        Err(ConfigureX11Error::QueryXtestVersion { .. }) => {}
        other => panic!("expected QueryXtestVersion, got {other:?}"),
    }
    assert_eq!(xtest_version_outcome(Ok(Ok((2, 2)))).unwrap(), (2, 2));
}

#[test]
fn message_with_source_text_per_variant() {
    let named = ConfigureX11Error::Connect {
        display_name: Some(":1".to_string()),
        source: ConnectError::InvalidScreen,
    };
    assert_eq!(named.message_with_source_text("boom"), "Failed to connect to X11 display :1: boom");
    assert_eq!(named.message(), "Failed to connect to X11 display :1: Invalid screen");
    let query = ConfigureX11Error::QueryXtestVersion {
        source: ReplyError::ConnectionError(ConnectionError::UnknownError),
    };
    assert_eq!(query.message_with_source_text("x"), "Failed to query XTEST version: x");
    assert_eq!(query.message(), "Failed to query XTEST version: Unknown connection error");
}
