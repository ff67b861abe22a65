//! The evdev set-up that the program runs at start: open the input device,
//! resolve the listen key, check that the device can send it, and describe
//! the device.

use vstd::prelude::*;

use crate::args::Config;
use crate::evdev::{
    device_id_line, device_input_id, device_input_id_of, device_name, device_name_line,
    device_name_of, device_reports_key, invalid_key_text, io_error_text, key_code_from_name,
    key_code_named, name_view, open_failure_text, open_input_device, supported_key_codes,
    supports_key, unsupported_key_text, ConfigureEvdevError, InputId,
};

verus! {

/// An open input device and the code of the key to listen for.
pub struct EvdevSetup {
    pub device: ::evdev::Device,
    pub listen_key_code: u16,
}

/// Why the set-up failed.
#[derive(Debug)]
pub enum SetupEvdevError {
    /// The device at `path` could not be opened.
    OpenDevice { path: String, source: std::io::Error },
    /// No key has the name `key`.
    InvalidListenKey { key: String },
    /// The device at `path` cannot send the key `key`.
    UnsupportedListenKey { path: String, key: String },
}

/// The result of opening the device at `path` with the outcome `opened`: the
/// opened device, or `OpenDevice` with that path and the operating system's
/// error.
pub fn opened_device(opened: Result<::evdev::Device, std::io::Error>, path: &str) -> (r: Result<
    ::evdev::Device,
    SetupEvdevError,
>)
    ensures
        opened matches Ok(device) ==> (r matches Ok(d) && d == device),
        opened matches Err(e) ==> (r matches Err(SetupEvdevError::OpenDevice { path: p, source })
            && p@ == path@ && source == e),
{
    match opened {
        Ok(device) => Ok(device),
        Err(source) => Err(SetupEvdevError::OpenDevice { path: path.to_owned(), source }),
    }
}

/// Opens the input device at `path`; a failure is `OpenDevice` with that
/// path and the operating system's error.
pub fn open_device(path: &str) -> (r: Result<::evdev::Device, SetupEvdevError>)
    ensures
        r is Ok || (r matches Err(SetupEvdevError::OpenDevice { path: p, .. }) && p@ == path@),
{
    opened_device(open_input_device(path), path)
}

/// The code of the key named `key`; `InvalidListenKey` with that name where
/// no key has it.
pub fn resolve_listen_key(key: &str) -> (r: Result<u16, SetupEvdevError>)
    ensures
        match r {
            Ok(code) => key_code_named(key@) == Some(code),
            Err(e) => key_code_named(key@) is None && (e matches SetupEvdevError::InvalidListenKey {
                key: k,
            } && k@ == key@),
        },
{
    match key_code_from_name(key) {
        Some(code) => Ok(code),
        None => Err(SetupEvdevError::InvalidListenKey { key: key.to_owned() }),
    }
}

/// Succeeds where the keys that `device` reports include `listen_key_code`;
/// else `UnsupportedListenKey` with `path` and `key`.
pub fn ensure_device_supports_key(
    device: &::evdev::Device,
    listen_key_code: u16,
    path: &str,
    key: &str,
) -> (r: Result<(), SetupEvdevError>)
    ensures
        (r is Ok) == device_reports_key(*device, listen_key_code),
        r is Ok || (r matches Err(SetupEvdevError::UnsupportedListenKey { path: p, key: k }) && p@
            == path@ && k@ == key@),
{
    let keys = supported_key_codes(device);
    proof {
        if keys is Some {
            let v = keys->Some_0@;
            assert(v.contains(listen_key_code) == v.to_set().contains(listen_key_code));
        }
    }
    if supports_key(&keys, listen_key_code) {
        Ok(())
    } else {
        Err(SetupEvdevError::UnsupportedListenKey { path: path.to_owned(), key: key.to_owned() })
    }
}

/// Finishes the set-up once the device at `config.input_device_path` has
/// been opened (or has failed to open) with the outcome `opened`: a failure
/// to open comes first, then an unknown listen key, then a device that
/// cannot send the key.
pub fn evdev_setup_from(opened: Result<::evdev::Device, std::io::Error>, config: &Config) -> (r:
    Result<EvdevSetup, SetupEvdevError>)
    ensures
        opened matches Err(e) ==> (r matches Err(SetupEvdevError::OpenDevice { path, source })
            && path@ == config.input_device_path@ && source == e),
        opened is Ok && key_code_named(config.listen_key@) is None ==> (r matches Err(
            SetupEvdevError::InvalidListenKey { key },
        ) && key@ == config.listen_key@),
        opened matches Ok(device) ==> (key_code_named(config.listen_key@) matches Some(code) ==> ((
        r matches Ok(s) && s.device == device && s.listen_key_code == code) || (r matches Err(
            SetupEvdevError::UnsupportedListenKey { path, key },
        ) && path@ == config.input_device_path@ && key@ == config.listen_key@))),
        opened matches Ok(device) ==> (key_code_named(config.listen_key@) matches Some(code) ==> ((
        r is Ok) <==> device_reports_key(device, code))),
{
    let device = match opened {
        Ok(device) => device,
        Err(source) => {
            return Err(
                SetupEvdevError::OpenDevice { path: config.input_device_path.clone(), source },
            );
        },
    };
    let listen_key_code: u16 = match resolve_listen_key(config.listen_key.as_str()) {
        Ok(code) => code,
        Err(e) => {
            return Err(e);
        },
    };
    match ensure_device_supports_key(
        &device,
        listen_key_code,
        config.input_device_path.as_str(),
        config.listen_key.as_str(),
    ) {
        Ok(()) => Ok(EvdevSetup { device, listen_key_code }),
        Err(e) => Err(e),
    }
}

/// Opens the input device that `config` names, resolves its listen key and
/// checks that the device can send it.
pub fn setup_evdev(config: &Config) -> (r: Result<EvdevSetup, SetupEvdevError>)
    ensures
        r matches Err(SetupEvdevError::OpenDevice { path, .. }) ==> path@
            == config.input_device_path@,
        r matches Err(SetupEvdevError::InvalidListenKey { key }) ==> key@ == config.listen_key@
            && key_code_named(config.listen_key@) is None,
        r matches Err(SetupEvdevError::UnsupportedListenKey { path, key }) ==> path@
            == config.input_device_path@ && key@ == config.listen_key@ && key_code_named(
            config.listen_key@,
        ) is Some,
        r matches Ok(s) ==> key_code_named(config.listen_key@) == Some(s.listen_key_code)
            && device_reports_key(s.device, s.listen_key_code),
        key_code_named(config.listen_key@) is None ==> (r matches Err(
            SetupEvdevError::OpenDevice { .. },
        ) || r matches Err(SetupEvdevError::InvalidListenKey { .. })),
{
    let opened = open_input_device(config.input_device_path.as_str());
    evdev_setup_from(opened, config)
}

/// Describes a device by its name (`unknown` where it has none) and its bus
/// type, vendor and product in hexadecimal.
pub fn format_input_device_metadata(name: Option<&str>, input_id: InputId) -> (r: [String; 2])
    ensures
        r@[0]@ == device_name_line(name_view(name)),
        r@[1]@ == device_id_line(input_id),
{
    crate::evdev::format_input_device_metadata(name, input_id)
}

/// Describes the device as `format_input_device_metadata` does, with the
/// name and identity that the device reports.
pub fn input_device_metadata(device: &::evdev::Device) -> (r: [String; 2])
    ensures
        r@[0]@ == device_name_line(device_name_of(*device)),
        r@[1]@ == device_id_line(device_input_id_of(*device)),
{
    let name = device_name(device);
    let id = device_input_id(device);
    format_input_device_metadata(name, id)
}

impl SetupEvdevError {
    /// The message for this error, given the text `source` that stands for
    /// the underlying I/O error (unused by the other variants).
    pub open spec fn text_with_source(&self, source: Seq<char>) -> Seq<char> {
        match self {
            SetupEvdevError::OpenDevice { path, .. } => open_failure_text(path@, source),
            SetupEvdevError::InvalidListenKey { key } => invalid_key_text(key@),
            SetupEvdevError::UnsupportedListenKey { path, key } => unsupported_key_text(path@, key@),
        }
    }

    /// The error as a message for the user, with `source_text` as the text of
    /// the underlying I/O error.
    pub fn message_with_source_text(&self, source_text: &str) -> (r: String)
        ensures
            r@ == self.text_with_source(source_text@),
    {
        match self {
            SetupEvdevError::OpenDevice { path, .. } => {
                let mut r = String::from_str("Failed to open device ");
                r.append(path.as_str());
                r.append(": ");
                r.append(source_text);
                r
            },
            SetupEvdevError::InvalidListenKey { key } => {
                let mut r = String::from_str("Key code not found: ");
                r.append(key.as_str());
                r
            },
            SetupEvdevError::UnsupportedListenKey { path, key } => {
                let mut r = String::from_str("Input device ");
                r.append(path.as_str());
                r.append(" is not capable of sending listen key ");
                r.append(key.as_str());
                r
            },
        }
    }

    /// The error as a message for the user, with the operating system's
    /// description of an I/O error at its end.
    pub fn message(&self) -> (r: String)
        ensures
            self matches SetupEvdevError::OpenDevice { path, .. } ==> exists|t: Seq<char>|
                r@ == #[trigger] open_failure_text(path@, t),
            self matches SetupEvdevError::InvalidListenKey { key } ==> r@ == invalid_key_text(
                key@,
            ),
            self matches SetupEvdevError::UnsupportedListenKey { path, key } ==> r@
                == unsupported_key_text(path@, key@),
    {
        match self {
            SetupEvdevError::OpenDevice { source, .. } => {
                let text = io_error_text(source);
                self.message_with_source_text(text.as_str())
            },
            _ => self.message_with_source_text(""),
        }
    }
}

/// The two set-up errors say the same thing: the same variant with the same
/// path and key.
pub open spec fn same_failure(a: SetupEvdevError, b: ConfigureEvdevError) -> bool {
    match (a, b) {
        (
            SetupEvdevError::OpenDevice { path: p1, .. },
            ConfigureEvdevError::OpenDevice { path: p2, .. },
        ) => p1@ == p2@,
        (
            SetupEvdevError::InvalidListenKey { key: k1 },
            ConfigureEvdevError::InvalidListenKey { key: k2 },
        ) => k1@ == k2@,
        (
            SetupEvdevError::UnsupportedListenKey { path: p1, key: k1 },
            ConfigureEvdevError::UnsupportedListenKey { path: p2, key: k2 },
        ) => p1@ == p2@ && k1@ == k2@,
        _ => false,
    }
}

/// Errors of the two set-ups that say the same thing have the same message
/// for the same text of the underlying I/O error.
pub proof fn lemma_same_failure_same_text(a: SetupEvdevError, b: ConfigureEvdevError, source: Seq<
    char,
>)
    requires
        same_failure(a, b),
    ensures
        a.text_with_source(source) == b.text_with_source(source),
{
}

} // verus!
