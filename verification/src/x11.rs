//! The X11 side: the decisions taken while connecting to the display and
//! making sure that the server offers the XTEST extension, through which key
//! and button events are sent, and the errors of that set-up.

use vstd::prelude::*;


verus! {

/// Why a connection to an X11 server could not be made.
#[verifier::external_type_specification]
#[verifier::external_body]
pub struct ExConnectError(x11rb::errors::ConnectError);

/// A failure on an established X11 connection.
#[verifier::external_type_specification]
#[verifier::external_body]
pub struct ExConnectionError(x11rb::errors::ConnectionError);

/// A failure to get the reply to an X11 request.
#[verifier::external_type_specification]
#[verifier::external_body]
pub struct ExReplyError(x11rb::errors::ReplyError);

/// What the server reports of an extension it offers.
#[verifier::external_type_specification]
#[verifier::external_body]
pub struct ExExtensionInformation(x11rb::x11_utils::ExtensionInformation);

/// The XTEST version that the client asks for.
pub const XTEST_MAJOR_VERSION: u8 = 2;

/// The XTEST minor version that the client asks for.
pub const XTEST_MINOR_VERSION: u16 = 2;

/// Why the X11 side could not be set up.
#[derive(Debug)]
pub enum ConfigureX11Error {
    /// No connection could be made to the display `display_name` (the
    /// default display where it is none).
    Connect { display_name: Option<String>, source: x11rb::errors::ConnectError },
    /// The server does not offer XTEST.
    MissingXtestExtension,
    /// The XTEST version could not be queried.
    QueryXtestVersion { source: x11rb::errors::ReplyError },
}

/// Whether a connection error is the variant
/// `ConnectionError::UnsupportedExtension`; a function of the error alone.
pub uninterp spec fn is_unsupported_extension_error(error: x11rb::errors::ConnectionError) -> bool;

/// The reply error `ReplyError::ConnectionError(error)`; a function of the
/// error alone.
pub uninterp spec fn reply_error_wrapping(error: x11rb::errors::ConnectionError) -> x11rb::errors::ReplyError;

/// Tells the variant `ConnectionError::UnsupportedExtension` apart from the
/// others: the answer is whether `error` is that variant.
#[verifier::external_body]
fn is_unsupported_extension(error: &x11rb::errors::ConnectionError) -> (r: bool)
    ensures
        r == is_unsupported_extension_error(*error),
{
    match error {
        x11rb::errors::ConnectionError::UnsupportedExtension => true,
        _ => false,
    }
}

/// `ReplyError::ConnectionError`: a connection error as a reply error.
#[verifier::external_body]
fn reply_error_from_connection_error(error: x11rb::errors::ConnectionError) -> (r:
    x11rb::errors::ReplyError)
    ensures
        r == reply_error_wrapping(error),
{
    x11rb::errors::ReplyError::ConnectionError(error)
}

/// The `Display` text of a connect error. It may hold an operating system
/// message, so nothing is stated of it.
#[verifier::external_body]
fn connect_error_text(error: &x11rb::errors::ConnectError) -> (r: String) {
    format!("{}", error)
}

/// The `Display` text of a reply error. It may hold an operating system
/// message, so nothing is stated of it.
#[verifier::external_body]
fn reply_error_text(error: &x11rb::errors::ReplyError) -> (r: String) {
    format!("{}", error)
}

/// Maps a failure on the connection to the set-up error: an unsupported
/// extension means that XTEST is missing; any other failure is a failed
/// version query.
pub fn connection_error_to_configure_x11_error(source: x11rb::errors::ConnectionError) -> (r:
    ConfigureX11Error)
    ensures
        r is MissingXtestExtension <==> is_unsupported_extension_error(source),
        !is_unsupported_extension_error(source) ==> (r matches ConfigureX11Error::QueryXtestVersion {
            source: s,
        } && s == reply_error_wrapping(source)),
{
    if is_unsupported_extension(&source) {
        ConfigureX11Error::MissingXtestExtension
    } else {
        ConfigureX11Error::QueryXtestVersion { source: reply_error_from_connection_error(source) }
    }
}

/// Decides from what the server reported of XTEST (`found`) whether the
/// set-up may go on: it may where XTEST is present; its absence is
/// `MissingXtestExtension`; a failure to ask is mapped by
/// `connection_error_to_configure_x11_error`.
pub fn xtest_extension_outcome(
    found: Result<Option<x11rb::x11_utils::ExtensionInformation>, x11rb::errors::ConnectionError>,
) -> (r: Result<(), ConfigureX11Error>)
    ensures
        found matches Ok(info) ==> (info is Some ==> r is Ok) && (info is None ==> r matches Err(
            ConfigureX11Error::MissingXtestExtension,
        )),
        found matches Err(ce) ==> (is_unsupported_extension_error(ce) ==> r matches Err(
            ConfigureX11Error::MissingXtestExtension,
        )),
        found matches Err(ce) ==> (!is_unsupported_extension_error(ce) ==> (r matches Err(
            ConfigureX11Error::QueryXtestVersion { source: s },
        ) && s == reply_error_wrapping(ce))),
{
    match found {
        Ok(Some(_)) => Ok(()),
        Ok(None) => Err(ConfigureX11Error::MissingXtestExtension),
        Err(e) => Err(connection_error_to_configure_x11_error(e)),
    }
}

/// The optional display name as plain characters.
pub open spec fn display_name_view(name: Option<&str>) -> Option<Seq<char>> {
    match name {
        Some(n) => Some(n@),
        None => None,
    }
}

/// The optional owned display name as plain characters.
pub open spec fn owned_display_name_view(name: Option<String>) -> Option<Seq<char>> {
    match name {
        Some(n) => Some(n@),
        None => None,
    }
}

/// The error for a failed connection to the display `display_name` (the
/// default display where it is none): `Connect` with that name and `source`.
pub fn connect_failure(display_name: Option<&str>, source: x11rb::errors::ConnectError) -> (r:
    ConfigureX11Error)
    ensures
        r matches ConfigureX11Error::Connect { display_name: d, source: s } && owned_display_name_view(
            d,
        ) == display_name_view(display_name) && s == source,
{
    let owned = match display_name {
        Some(name) => Some(name.to_owned()),
        None => None,
    };
    ConfigureX11Error::Connect { display_name: owned, source }
}

/// Decides from the outcome of the XTEST version query what the set-up
/// yields: the version the server reports; a failed reply is
/// `QueryXtestVersion` with its error; a failure to send the request is
/// mapped by `connection_error_to_configure_x11_error`.
pub fn xtest_version_outcome(
    outcome: Result<Result<(u8, u16), x11rb::errors::ReplyError>, x11rb::errors::ConnectionError>,
) -> (r: Result<(u8, u16), ConfigureX11Error>)
    ensures
        outcome matches Ok(Ok(version)) ==> r == Ok::<(u8, u16), ConfigureX11Error>(version),
        outcome matches Ok(Err(e)) ==> (r matches Err(ConfigureX11Error::QueryXtestVersion { source })
            && source == e),
        outcome matches Err(ce) ==> (is_unsupported_extension_error(ce) ==> r matches Err(
            ConfigureX11Error::MissingXtestExtension,
        )),
        outcome matches Err(ce) ==> (!is_unsupported_extension_error(ce) ==> (r matches Err(
            ConfigureX11Error::QueryXtestVersion { source: s },
        ) && s == reply_error_wrapping(ce))),
{
    match outcome {
        Ok(Ok(version)) => Ok(version),
        Ok(Err(source)) => Err(ConfigureX11Error::QueryXtestVersion { source }),
        Err(e) => Err(connection_error_to_configure_x11_error(e)),
    }
}

/// The text of a failed connection to a named display, given the text
/// `source` of the error.
pub open spec fn named_connect_failure_text(display_name: Seq<char>, source: Seq<char>) -> Seq<
    char,
> {
    "Failed to connect to X11 display "@ + display_name + ": "@ + source
}

/// The text of a failed connection to the default display.
pub open spec fn default_connect_failure_text(source: Seq<char>) -> Seq<char> {
    "Failed to connect to the default X11 display: "@ + source
}

/// The text of a failed version query.
pub open spec fn query_failure_text(source: Seq<char>) -> Seq<char> {
    "Failed to query XTEST version: "@ + source
}

impl ConfigureX11Error {
    /// The message for this error, given the text `source` that stands for
    /// the underlying connect or reply error (unused where there is none).
    pub open spec fn text_with_source(&self, source: Seq<char>) -> Seq<char> {
        match self {
            ConfigureX11Error::Connect { display_name: Some(d), .. } => named_connect_failure_text(
                d@,
                source,
            ),
            ConfigureX11Error::Connect { display_name: None, .. } => default_connect_failure_text(
                source,
            ),
            ConfigureX11Error::MissingXtestExtension => "X11 server does not support the XTEST extension"@,
            ConfigureX11Error::QueryXtestVersion { .. } => query_failure_text(source),
        }
    }

    /// The error as a message for the user, with `source_text` as the text of
    /// the underlying connect or reply error.
    pub fn message_with_source_text(&self, source_text: &str) -> (r: String)
        ensures
            r@ == self.text_with_source(source_text@),
    {
        match self {
            ConfigureX11Error::Connect { display_name, .. } => {
                match display_name {
                    Some(name) => {
                        let mut r = String::from_str("Failed to connect to X11 display ");
                        r.append(name.as_str());
                        r.append(": ");
                        r.append(source_text);
                        r
                    },
                    None => {
                        let mut r = String::from_str(
                            "Failed to connect to the default X11 display: ",
                        );
                        r.append(source_text);
                        r
                    },
                }
            },
            ConfigureX11Error::MissingXtestExtension => String::from_str(
                "X11 server does not support the XTEST extension",
            ),
            ConfigureX11Error::QueryXtestVersion { .. } => {
                let mut r = String::from_str("Failed to query XTEST version: ");
                r.append(source_text);
                r
            },
        }
    }

    /// The error as a message for the user, with the `Display` text of the
    /// underlying connect or reply error at its end.
    pub fn message(&self) -> (r: String)
        ensures
            self matches ConfigureX11Error::Connect { display_name: Some(d), .. } ==> exists|
                t: Seq<char>,
            | r@ == #[trigger] named_connect_failure_text(d@, t),
            self matches ConfigureX11Error::Connect { display_name: None, .. } ==> exists|
                t: Seq<char>,
            | r@ == #[trigger] default_connect_failure_text(t),
            self is MissingXtestExtension ==> r@
                == "X11 server does not support the XTEST extension"@,
            self is QueryXtestVersion ==> exists|t: Seq<char>| r@ == #[trigger] query_failure_text(
                t,
            ),
    {
        match self {
            ConfigureX11Error::Connect { source, .. } => {
                let text = connect_error_text(source);
                self.message_with_source_text(text.as_str())
            },
            ConfigureX11Error::MissingXtestExtension => self.message_with_source_text(""),
            ConfigureX11Error::QueryXtestVersion { source } => {
                let text = reply_error_text(source);
                self.message_with_source_text(text.as_str())
            },
        }
    }
}

} // verus!
