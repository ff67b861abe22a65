//! The evdev side: opening the input device, resolving the listen key,
//! checking that the device can send it, describing the device, and telling
//! presses and releases of the listen key apart from every other event.

use vstd::prelude::*;

use crate::args::Config;
use crate::text::{
    all_hex_digits, append_hex, hex_digits, hex_text, hex_value, lemma_hex_digits_are_digits,
    lemma_hex_digits_round_trip,
};

verus! {

/// An evdev input device, as the `evdev` crate opens it.
#[verifier::external_type_specification]
#[verifier::external_body]
pub struct ExDevice(::evdev::Device);

/// An I/O error from the operating system.
#[verifier::external_type_specification]
#[verifier::external_body]
pub struct ExIoError(std::io::Error);

/// The key code that the `evdev` crate gives a key name (such as
/// `KEY_LEFTMETA` or `BTN_EXTRA`), or none where the name is not in its
/// table.
pub uninterp spec fn key_code_named(name: Seq<char>) -> Option<u16>;

/// The event type of key events (`EV_KEY`).
pub const EV_KEY: u16 = 1;

/// An input event as plain values: its type, its code and its value.
#[derive(Debug, Clone, Copy, PartialEq, Eq, Structural)]
pub struct InputEvent {
    pub event_type: u16,
    pub code: u16,
    pub value: i32,
}

impl InputEvent {
    /// An event of type `type_` with code `code` and value `value`.
    pub fn new(type_: u16, code: u16, value: i32) -> (r: InputEvent)
        ensures
            r.event_type == type_,
            r.code == code,
            r.value == value,
    {
        InputEvent { event_type: type_, code, value }
    }

    /// The event's type.
    pub fn event_type(&self) -> (r: u16)
        ensures
            r == self.event_type,
    {
        self.event_type
    }

    /// The event's code.
    pub fn code(&self) -> (r: u16)
        ensures
            r == self.code,
    {
        self.code
    }

    /// The event's value.
    pub fn value(&self) -> (r: i32)
        ensures
            r == self.value,
    {
        self.value
    }
}

/// The identity of an input device: bus type, vendor, product and version.
#[derive(Debug, Clone, Copy, PartialEq, Eq, Structural)]
pub struct InputId {
    pub bus_type: u16,
    pub vendor: u16,
    pub product: u16,
    pub version: u16,
}

impl InputId {
    /// The identity with the given bus type, vendor, product and version.
    pub fn new(bus_type: u16, vendor: u16, product: u16, version: u16) -> (r: InputId)
        ensures
            r.bus_type == bus_type,
            r.vendor == vendor,
            r.product == product,
            r.version == version,
    {
        InputId { bus_type, vendor, product, version }
    }

    /// The bus type.
    pub fn bus_type(&self) -> (r: u16)
        ensures
            r == self.bus_type,
    {
        self.bus_type
    }

    /// The vendor.
    pub fn vendor(&self) -> (r: u16)
        ensures
            r == self.vendor,
    {
        self.vendor
    }

    /// The product.
    pub fn product(&self) -> (r: u16)
        ensures
            r == self.product,
    {
        self.product
    }

    /// The version.
    pub fn version(&self) -> (r: u16)
        ensures
            r == self.version,
    {
        self.version
    }
}

/// An open input device and the code of the key to listen for.
pub struct EvdevConfig {
    pub device: ::evdev::Device,
    pub listen_key_code: u16,
}

/// Whether the listen key went down or up.
#[derive(Debug, Copy, Clone, PartialEq, Eq, Structural)]
pub enum ListenKeyState {
    Pressed,
    Released,
}

/// Why the evdev side could not be set up.
#[derive(Debug)]
pub enum ConfigureEvdevError {
    /// The device at `path` could not be opened.
    OpenDevice { path: String, source: std::io::Error },
    /// No key has the name `key`.
    InvalidListenKey { key: String },
    /// The device at `path` cannot send the key `key`.
    UnsupportedListenKey { path: String, key: String },
}

/// Opens the input device at `path` with `evdev::Device::open`. Whether it
/// opens, and which error comes back, depends on the file system, so nothing
/// is stated of the result.
#[verifier::external_body]
pub(crate) fn open_input_device(path: &str) -> (r: Result<::evdev::Device, std::io::Error>) {
    ::evdev::Device::open(path)
}

/// `evdev::KeyCode::from_str`: looks `name` up in the crate's table of key
/// names. The result is the code of the entry named exactly `name`, or none;
/// it depends on the name alone.
#[verifier::external_body]
pub(crate) fn key_code_from_name(name: &str) -> (r: Option<u16>)
    ensures
        r == key_code_named(name@),
{
    <::evdev::KeyCode as std::str::FromStr>::from_str(name).ok().map(|k| k.0)
}

/// The set of key codes that `evdev::Device::supported_keys` hands out for a
/// device, or none where it reports no keys at all. The source shows that the
/// call reads the set the device holds (read from the kernel when it was
/// opened) and changes nothing, so it is a function of the device value.
pub uninterp spec fn reported_key_codes(device: ::evdev::Device) -> Option<Set<u16>>;

/// `evdev::Device::supported_keys`: the codes of the keys that the device
/// reports it can send (the set handed out code by code), or none where it
/// reports no keys at all. The codes handed out are those of the set that
/// `reported_key_codes` names; their order is left unsaid.
#[verifier::external_body]
pub(crate) fn supported_key_codes(device: &::evdev::Device) -> (r: Option<Vec<u16>>)
    ensures
        match r {
            Some(v) => reported_key_codes(*device) == Some(v@.to_set()),
            None => reported_key_codes(*device) is None,
        },
{
    match device.supported_keys() {
        Some(keys) => Some(keys.iter().map(|k| k.0).collect()),
        None => None,
    }
}

/// Whether the device reports that it can send the key `code`: only where it
/// reports keys at all, and `code` among them.
pub open spec fn device_reports_key(device: ::evdev::Device, code: u16) -> bool {
    match reported_key_codes(device) {
        Some(keys) => keys.contains(code),
        None => false,
    }
}

/// The name that `evdev::Device::name` gives for a device, if any. The
/// source shows that the call reads the name the device holds (read from the
/// kernel when it was opened) and changes nothing, so it is a function of the
/// device value.
pub uninterp spec fn device_name_of(device: ::evdev::Device) -> Option<Seq<char>>;

/// The bus type, vendor, product and version that `evdev::Device::input_id`
/// gives for a device. The source shows that the call reads the identity the
/// device holds (read from the kernel when it was opened) and changes
/// nothing, so it is a function of the device value.
pub uninterp spec fn device_input_id_of(device: ::evdev::Device) -> InputId;

/// `evdev::Device::name`: the name the kernel reports for the device, if
/// any; it is the one that `device_name_of` names.
#[verifier::external_body]
pub(crate) fn device_name(device: &::evdev::Device) -> (r: Option<&str>)
    ensures
        name_view(r) == device_name_of(*device),
{
    device.name()
}

/// `evdev::Device::input_id`: the bus type, vendor, product and version the
/// kernel reports for the device, read out of the returned `evdev::InputId`
/// field by field; they are the ones that `device_input_id_of` names.
#[verifier::external_body]
pub(crate) fn device_input_id(device: &::evdev::Device) -> (r: InputId)
    ensures
        r == device_input_id_of(*device),
{
    let id = device.input_id();
    InputId { bus_type: id.bus_type().0, vendor: id.vendor(), product: id.product(), version: id.version() }
}

/// `evdev::InputEvent::destructure` on the event that `evdev::InputEvent::new`
/// builds from type `event_type`, code `code` and value `value`: the source
/// shows that an event of type `EV_KEY`
/// becomes `EventSummary::Key` with that code and value, and that every other
/// type becomes another variant.
#[verifier::external_body]
pub(crate) fn key_event_parts(event_type: u16, code: u16, value: i32) -> (r: Option<(u16, i32)>)
    ensures
        r == (if event_type == EV_KEY {
            Some((code, value))
        } else {
            None
        }),
{
    match ::evdev::InputEvent::new(event_type, code, value).destructure() {
        ::evdev::EventSummary::Key(_, key, key_value) => Some((key.0, key_value)),
        _ => None,
    }
}

/// The operating system's description of an I/O error. It depends on the
/// platform, so nothing is stated of it.
#[verifier::external_body]
pub(crate) fn io_error_text(error: &std::io::Error) -> (r: String) {
    format!("{}", error)
}

/// What an event says of the listen key `listen_key_code`: a key event of
/// that code with value 1 is a press, with value 0 a release; anything else,
/// autorepeat (value 2) included, says nothing.
pub open spec fn listen_key_state_of(event: InputEvent, listen_key_code: u16) -> Option<ListenKeyState> {
    if event.event_type == EV_KEY && event.code == listen_key_code {
        if event.value == 1 {
            Some(ListenKeyState::Pressed)
        } else if event.value == 0 {
            Some(ListenKeyState::Released)
        } else {
            None
        }
    } else {
        None
    }
}

/// Only key events of the listen key itself are classified; among them a
/// press is exactly an event with value 1 and a release exactly one with
/// value 0.
pub proof fn lemma_only_listen_key_events_count(event: InputEvent, listen_key_code: u16)
    ensures
        listen_key_state_of(event, listen_key_code) is Some ==> event.event_type == EV_KEY
            && event.code == listen_key_code,
        listen_key_state_of(event, listen_key_code) == Some(ListenKeyState::Pressed) <==> (
        event.event_type == EV_KEY && event.code == listen_key_code && event.value == 1),
        listen_key_state_of(event, listen_key_code) == Some(ListenKeyState::Released) <==> (
        event.event_type == EV_KEY && event.code == listen_key_code && event.value == 0),
{
}

/// Classifies `event` with respect to the listen key.
pub fn classify_listen_key_event(event: InputEvent, listen_key_code: u16) -> (r: Option<
    ListenKeyState,
>)
    ensures
        r == listen_key_state_of(event, listen_key_code),
{
    match key_event_parts(event.event_type, event.code, event.value) {
        Some((code, value)) => {
            if code == listen_key_code && value == 1 {
                Some(ListenKeyState::Pressed)
            } else if code == listen_key_code && value == 0 {
                Some(ListenKeyState::Released)
            } else {
                None
            }
        },
        None => None,
    }
}

/// The first line of the device description.
pub open spec fn device_name_line(name: Option<Seq<char>>) -> Seq<char> {
    "Input device name: \""@ + match name {
        Some(n) => n,
        None => "unknown"@,
    } + "\""@
}

/// The second line of the device description.
pub open spec fn device_id_line(id: InputId) -> Seq<char> {
    "Input device ID: bus "@ + hex_text(id.bus_type as nat) + " vendor "@ + hex_text(
        id.vendor as nat,
    ) + " product "@ + hex_text(id.product as nat)
}

/// The identity line reads back to the identity: it is the fixed words with
/// `0x` and a run of lowercase hexadecimal digits after `bus`, `vendor` and
/// `product`, and each run denotes exactly the bus type, vendor and product.
pub proof fn lemma_device_id_line_reads_back(id: InputId)
    ensures
        exists|bus: Seq<char>, vendor: Seq<char>, product: Seq<char>|
            {
                &&& device_id_line(id) == "Input device ID: bus "@ + seq!['0', 'x'] + bus
                    + " vendor "@ + seq!['0', 'x'] + vendor + " product "@ + seq!['0', 'x'] + product
                &&& all_hex_digits(bus) && bus.len() >= 1 && #[trigger] hex_value(bus) == id.bus_type
                &&& all_hex_digits(vendor) && vendor.len() >= 1 && #[trigger] hex_value(vendor)
                    == id.vendor
                &&& all_hex_digits(product) && product.len() >= 1 && #[trigger] hex_value(product)
                    == id.product
            },
{
    let bus = hex_digits(id.bus_type as nat);
    let vendor = hex_digits(id.vendor as nat);
    let product = hex_digits(id.product as nat);
    lemma_hex_digits_round_trip(id.bus_type as nat);
    lemma_hex_digits_round_trip(id.vendor as nat);
    lemma_hex_digits_round_trip(id.product as nat);
    lemma_hex_digits_are_digits(id.bus_type as nat);
    lemma_hex_digits_are_digits(id.vendor as nat);
    lemma_hex_digits_are_digits(id.product as nat);
    assert(device_id_line(id) =~= "Input device ID: bus "@ + seq!['0', 'x'] + bus + " vendor "@
        + seq!['0', 'x'] + vendor + " product "@ + seq!['0', 'x'] + product);
}

/// The optional name as plain characters.
pub open spec fn name_view(name: Option<&str>) -> Option<Seq<char>> {
    match name {
        Some(n) => Some(n@),
        None => None,
    }
}

/// Describes a device by its name (`unknown` where it has none) and its bus
/// type, vendor and product in hexadecimal.
pub fn format_input_device_metadata(name: Option<&str>, input_id: InputId) -> (r: [String; 2])
    ensures
        r@[0]@ == device_name_line(name_view(name)),
        r@[1]@ == device_id_line(input_id),
{
    let mut first = String::from_str("Input device name: \"");
    match name {
        Some(n) => first.append(n),
        None => first.append("unknown"),
    }
    first.append("\"");
    let mut second = String::from_str("Input device ID: bus ");
    append_hex(&mut second, input_id.bus_type);
    second.append(" vendor ");
    append_hex(&mut second, input_id.vendor);
    second.append(" product ");
    append_hex(&mut second, input_id.product);
    [first, second]
}

/// Describes the device as `format_input_device_metadata` does, with the
/// name and identity that the device reports.
pub fn input_device_metadata(device: &::evdev::Device) -> (r: [String; 2])
    ensures
        r@[0]@ == device_name_line(device_name_of(*device)),
        r@[1]@ == device_id_line(device_input_id_of(*device)),
{
    let name = device_name(device);
    let id = device_input_id(device);
    format_input_device_metadata(name, id)
}


/// The reported key codes as plain values.
pub open spec fn keys_view(keys: &Option<Vec<u16>>) -> Option<Seq<u16>> {
    match keys {
        Some(k) => Some(k@),
        None => None,
    }
}

/// Whether a device that reports the keys `keys` can send the key `code`:
/// only where it reports keys at all, and `code` among them.
pub open spec fn reports_key(keys: Option<Seq<u16>>, code: u16) -> bool {
    match keys {
        Some(k) => k.contains(code),
        None => false,
    }
}

/// Whether the reported keys `keys` include `code`.
pub fn supports_key(keys: &Option<Vec<u16>>, code: u16) -> (r: bool)
    ensures
        r == reports_key(keys_view(keys), code),
{
    match keys {
        None => false,
        Some(k) => {
            let n: usize = k.len();
            let mut i: usize = 0;
            assert(keys_view(keys) == Some(k@));
            while i < n
                invariant
                    keys_view(keys) == Some(k@),
                    n == k@.len(),
                    i <= n,
                    forall|j: int| 0 <= j < i ==> k@[j] != code,
                decreases n - i,
            {
                if k[i] == code {
                    assert(k@[i as int] == code);
                    assert(k@.contains(code));
                    return true;
                }
                i += 1;
            }
            false
        },
    }
}

/// The result of opening the device at `path` with the outcome `opened`: the
/// opened device, or `OpenDevice` with that path and the operating system's
/// error.
pub fn opened_device(opened: Result<::evdev::Device, std::io::Error>, path: &str) -> (r: Result<
    ::evdev::Device,
    ConfigureEvdevError,
>)
    ensures
        opened matches Ok(device) ==> (r matches Ok(d) && d == device),
        opened matches Err(e) ==> (r matches Err(ConfigureEvdevError::OpenDevice { path: p, source })
            && p@ == path@ && source == e),
{
    match opened {
        Ok(device) => Ok(device),
        Err(source) => Err(ConfigureEvdevError::OpenDevice { path: path.to_owned(), source }),
    }
}

/// Opens the input device at `path`; a failure is `OpenDevice` with that
/// path and the operating system's error.
pub fn open_device(path: &str) -> (r: Result<::evdev::Device, ConfigureEvdevError>)
    ensures
        r is Ok || (r matches Err(ConfigureEvdevError::OpenDevice { path: p, .. }) && p@ == path@),
{
    opened_device(open_input_device(path), path)
}

/// The code of the key named `key`; `InvalidListenKey` with that name where
/// no key has it.
pub fn resolve_listen_key(key: &str) -> (r: Result<u16, ConfigureEvdevError>)
    ensures
        match r {
            Ok(code) => key_code_named(key@) == Some(code),
            Err(e) => key_code_named(key@) is None && (e matches ConfigureEvdevError::InvalidListenKey {
                key: k,
            } && k@ == key@),
        },
{
    match key_code_from_name(key) {
        Some(code) => Ok(code),
        None => Err(ConfigureEvdevError::InvalidListenKey { key: key.to_owned() }),
    }
}

/// Succeeds where the keys that `device` reports include `listen_key_code`;
/// else `UnsupportedListenKey` with `path` and `key`.
pub fn ensure_device_supports_key(
    device: &::evdev::Device,
    listen_key_code: u16,
    path: &str,
    key: &str,
) -> (r: Result<(), ConfigureEvdevError>)
    ensures
        (r is Ok) == device_reports_key(*device, listen_key_code),
        r is Ok || (r matches Err(ConfigureEvdevError::UnsupportedListenKey { path: p, key: k })
            && p@ == path@ && k@ == key@),
{
    let keys = supported_key_codes(device);
    proof {
        if keys is Some {
            let v = keys->Some_0@;
            assert(v.contains(listen_key_code) == v.to_set().contains(listen_key_code));
        }
    }
    if supports_key(&keys, listen_key_code) {
        Ok(())
    } else {
        Err(ConfigureEvdevError::UnsupportedListenKey { path: path.to_owned(), key: key.to_owned() })
    }
}

/// Finishes the set-up once the device at `config.input_device_path` has
/// been opened (or has failed to open) with the outcome `opened`: a failure
/// to open comes first, then an unknown listen key, then a device that
/// cannot send the key.
pub fn evdev_config_from(opened: Result<::evdev::Device, std::io::Error>, config: &Config) -> (r:
    Result<EvdevConfig, ConfigureEvdevError>)
    ensures
        opened matches Err(e) ==> (r matches Err(ConfigureEvdevError::OpenDevice { path, source })
            && path@ == config.input_device_path@ && source == e),
        opened is Ok && key_code_named(config.listen_key@) is None ==> (r matches Err(
            ConfigureEvdevError::InvalidListenKey { key },
        ) && key@ == config.listen_key@),
        opened matches Ok(device) ==> (key_code_named(config.listen_key@) matches Some(code) ==> ((
        r matches Ok(c) && c.device == device && c.listen_key_code == code) || (r matches Err(
            ConfigureEvdevError::UnsupportedListenKey { path, key },
        ) && path@ == config.input_device_path@ && key@ == config.listen_key@))),
        opened matches Ok(device) ==> (key_code_named(config.listen_key@) matches Some(code) ==> ((
        r is Ok) <==> device_reports_key(device, code))),
{
    let device = match opened {
        Ok(device) => device,
        Err(source) => {
            return Err(
                ConfigureEvdevError::OpenDevice { path: config.input_device_path.clone(), source },
            );
        },
    };
    let listen_key_code: u16 = match resolve_listen_key(config.listen_key.as_str()) {
        Ok(code) => code,
        Err(e) => {
            return Err(e);
        },
    };
    match ensure_device_supports_key(
        &device,
        listen_key_code,
        config.input_device_path.as_str(),
        config.listen_key.as_str(),
    ) {
        Ok(()) => Ok(EvdevConfig { device, listen_key_code }),
        Err(e) => Err(e),
    }
}

/// Opens the input device that `config` names, resolves its listen key and
/// checks that the device can send it.
pub fn configure_evdev(config: &Config) -> (r: Result<EvdevConfig, ConfigureEvdevError>)
    ensures
        r matches Err(ConfigureEvdevError::OpenDevice { path, .. }) ==> path@
            == config.input_device_path@,
        r matches Err(ConfigureEvdevError::InvalidListenKey { key }) ==> key@ == config.listen_key@
            && key_code_named(config.listen_key@) is None,
        r matches Err(ConfigureEvdevError::UnsupportedListenKey { path, key }) ==> path@
            == config.input_device_path@ && key@ == config.listen_key@ && key_code_named(
            config.listen_key@,
        ) is Some,
        r matches Ok(c) ==> key_code_named(config.listen_key@) == Some(c.listen_key_code)
            && device_reports_key(c.device, c.listen_key_code),
        key_code_named(config.listen_key@) is None ==> (r matches Err(
            ConfigureEvdevError::OpenDevice { .. },
        ) || r matches Err(ConfigureEvdevError::InvalidListenKey { .. })),
{
    let opened = open_input_device(config.input_device_path.as_str());
    evdev_config_from(opened, config)
}

/// The text of an open failure, given the operating system's description
/// `source` of the error.
pub open spec fn open_failure_text(path: Seq<char>, source: Seq<char>) -> Seq<char> {
    "Failed to open device "@ + path + ": "@ + source
}

/// The text of an unknown key name.
pub open spec fn invalid_key_text(key: Seq<char>) -> Seq<char> {
    "Key code not found: "@ + key
}

/// The text of a key that the device cannot send.
pub open spec fn unsupported_key_text(path: Seq<char>, key: Seq<char>) -> Seq<char> {
    "Input device "@ + path + " is not capable of sending listen key "@ + key
}

impl ConfigureEvdevError {
    /// The message for this error, given the text `source` that stands for
    /// the underlying I/O error (unused by the other variants).
    pub open spec fn text_with_source(&self, source: Seq<char>) -> Seq<char> {
        match self {
            ConfigureEvdevError::OpenDevice { path, .. } => open_failure_text(path@, source),
            ConfigureEvdevError::InvalidListenKey { key } => invalid_key_text(key@),
            ConfigureEvdevError::UnsupportedListenKey { path, key } => unsupported_key_text(
                path@,
                key@,
            ),
        }
    }

    /// The error as a message for the user, with `source_text` as the text of
    /// the underlying I/O error.
    pub fn message_with_source_text(&self, source_text: &str) -> (r: String)
        ensures
            r@ == self.text_with_source(source_text@),
    {
        match self {
            ConfigureEvdevError::OpenDevice { path, .. } => {
                let mut r = String::from_str("Failed to open device ");
                r.append(path.as_str());
                r.append(": ");
                r.append(source_text);
                r
            },
            ConfigureEvdevError::InvalidListenKey { key } => {
                let mut r = String::from_str("Key code not found: ");
                r.append(key.as_str());
                r
            },
            ConfigureEvdevError::UnsupportedListenKey { path, key } => {
                let mut r = String::from_str("Input device ");
                r.append(path.as_str());
                r.append(" is not capable of sending listen key ");
                r.append(key.as_str());
                r
            },
        }
    }

    /// The error as a message for the user, with the operating system's
    /// description of an I/O error at its end.
    pub fn message(&self) -> (r: String)
        ensures
            self matches ConfigureEvdevError::OpenDevice { path, .. } ==> exists|t: Seq<char>|
                r@ == #[trigger] open_failure_text(path@, t),
            self matches ConfigureEvdevError::InvalidListenKey { key } ==> r@ == invalid_key_text(
                key@,
            ),
            self matches ConfigureEvdevError::UnsupportedListenKey { path, key } ==> r@
                == unsupported_key_text(path@, key@),
    {
        match self {
            ConfigureEvdevError::OpenDevice { source, .. } => {
                let text = io_error_text(source);
                self.message_with_source_text(text.as_str())
            },
            _ => self.message_with_source_text(""),
        }
    }
}

/// The first event of `events` that says something of the listen key, and
/// what it says; none where no event does.
pub open spec fn first_listen_key_state(events: Seq<InputEvent>, listen_key_code: u16) -> Option<
    ListenKeyState,
>
    decreases events.len(),
{
    if events.len() == 0 {
        None
    } else {
        match listen_key_state_of(events[0], listen_key_code) {
            Some(state) => Some(state),
            None => first_listen_key_state(events.drop_first(), listen_key_code),
        }
    }
}

/// What scanning a batch answers: where the event at `k` is the first one that
/// says something of the listen key, the answer is what that event says; and
/// the answer is none exactly where no event of the batch says anything.
pub proof fn lemma_first_listen_key_state(events: Seq<InputEvent>, listen_key_code: u16, k: int)
    ensures
        0 <= k < events.len() && listen_key_state_of(events[k], listen_key_code) is Some && (forall|
            j: int,
        |
            0 <= j < k ==> #[trigger] listen_key_state_of(events[j], listen_key_code) is None)
            ==> first_listen_key_state(events, listen_key_code) == listen_key_state_of(
            events[k],
            listen_key_code,
        ),
        first_listen_key_state(events, listen_key_code) is None <==> (forall|j: int|
            0 <= j < events.len() ==> #[trigger] listen_key_state_of(events[j], listen_key_code)
                is None),
    decreases events.len(),
{
    if events.len() > 0 {
        let rest = events.drop_first();
        lemma_first_listen_key_state(rest, listen_key_code, k - 1);
        assert forall|j: int| 0 <= j < rest.len() implies rest[j] == events[j + 1] by {}
        if listen_key_state_of(events[0], listen_key_code) is None {
            if (forall|j: int|
                0 <= j < rest.len() ==> #[trigger] listen_key_state_of(rest[j], listen_key_code)
                    is None) {
                assert forall|j: int|
                    0 <= j < events.len() implies #[trigger] listen_key_state_of(
                    events[j],
                    listen_key_code,
                ) is None by {
                    if j > 0 {
                        assert(events[j] == rest[j - 1]);
                    }
                }
            } else {
                let j0 = choose|j: int|
                    0 <= j < rest.len() && !(#[trigger] listen_key_state_of(
                        rest[j],
                        listen_key_code,
                    ) is None);
                assert(listen_key_state_of(events[j0 + 1], listen_key_code) is Some);
            }
            if 0 < k < events.len() && (forall|j: int|
                0 <= j < k ==> #[trigger] listen_key_state_of(events[j], listen_key_code) is None) {
                assert forall|j: int| 0 <= j < k - 1 implies #[trigger] listen_key_state_of(
                    rest[j],
                    listen_key_code,
                ) is None by {
                    assert(listen_key_state_of(events[j + 1], listen_key_code) is None);
                }
                assert(rest[k - 1] == events[k]);
            }
        }
    }
}

/// Scans a batch of events in order for the first press or release of the
/// listen key.
pub fn first_listen_key_state_in(events: &Vec<InputEvent>, listen_key_code: u16) -> (r: Option<
    ListenKeyState,
>)
    ensures
        r == first_listen_key_state(events@, listen_key_code),
{
    let n: usize = events.len();
    let mut i: usize = 0;
    assert(events@.skip(0) =~= events@);
    while i < n
        invariant
            n == events@.len(),
            i <= n,
            first_listen_key_state(events@.skip(i as int), listen_key_code) == first_listen_key_state(
                events@,
                listen_key_code,
            ),
        decreases n - i,
    {
        let ghost rest = events@.skip(i as int);
        assert(rest[0] == events@[i as int]);
        assert(rest.drop_first() =~= events@.skip(i + 1));
        if let Some(state) = classify_listen_key_event(events[i], listen_key_code) {
            return Some(state);
        }
        i += 1;
    }
    assert(events@.skip(n as int).len() == 0);
    None
}

} // verus!
