//! Error types.
use vstd::prelude::*;
use vstd::string::to_string_from_display_ensures;

use crate::text::prefixed;

verus! {

/// `wayland_client::ConnectError`, carried unread inside [`Error`].
#[verifier::external_type_specification]
#[verifier::external_body]
pub struct ExConnectError(wayland_client::ConnectError);

/// `wayland_client::DispatchError`, carried unread inside [`Error`].
#[verifier::external_type_specification]
#[verifier::external_body]
pub struct ExDispatchError(wayland_client::DispatchError);

/// Errors that can occur during IME operations
#[derive(Debug)]
pub enum Error {
    /// Failed to connect to the display server
    ConnectionFailed(String),
    /// The required protocol is not supported by the compositor/system
    ProtocolNotSupported(String),
    /// IME registration failed
    RegistrationFailed(String),
    /// IME is not active
    NotActive,
    /// Failed to create popup surface
    PopupCreationFailed(String),
    /// Text commit failed
    CommitFailed(String),
    /// Platform not supported
    PlatformNotSupported,
    /// Wayland specific error
    Wayland(wayland_client::ConnectError),
    /// Wayland dispatch error
    WaylandDispatch(wayland_client::DispatchError),
    /// IBus D-Bus error
    IBus(String),
}

impl Error {
    /// Whether `text` is what a user is shown for this error.
    pub open spec fn shown_as(self, text: Seq<char>) -> bool {
        match self {
            Error::ConnectionFailed(msg) => text
                == "Failed to connect to display server: "@ + msg@,
            Error::ProtocolNotSupported(msg) => text == "Protocol not supported: "@ + msg@,
            Error::RegistrationFailed(msg) => text == "IME registration failed: "@ + msg@,
            Error::NotActive => text == "IME is not active"@,
            Error::PopupCreationFailed(msg) => text == "Failed to create popup surface: "@ + msg@,
            Error::CommitFailed(msg) => text == "Failed to commit text: "@ + msg@,
            Error::PlatformNotSupported => text == "Platform not supported"@,
            Error::Wayland(e) => exists|shown: String|
                #![trigger to_string_from_display_ensures(&e, shown)]
                to_string_from_display_ensures(&e, shown) && text == "Wayland error: "@ + shown@,
            Error::WaylandDispatch(e) => exists|shown: String|
                #![trigger to_string_from_display_ensures(&e, shown)]
                to_string_from_display_ensures(&e, shown) && text == "Wayland dispatch error: "@
                    + shown@,
            Error::IBus(msg) => text == "IBus error: "@ + msg@,
        }
    }

    /// The text that a user is shown for this error.
    pub fn message(&self) -> (r: String)
        ensures
            self.shown_as(r@),
    {
        match self {
            Error::ConnectionFailed(msg) => prefixed("Failed to connect to display server: ", msg),
            Error::ProtocolNotSupported(msg) => prefixed("Protocol not supported: ", msg),
            Error::RegistrationFailed(msg) => prefixed("IME registration failed: ", msg),
            Error::NotActive => "IME is not active".to_string(),
            Error::PopupCreationFailed(msg) => prefixed("Failed to create popup surface: ", msg),
            Error::CommitFailed(msg) => prefixed("Failed to commit text: ", msg),
            Error::PlatformNotSupported => "Platform not supported".to_string(),
            Error::Wayland(e) => {
                let shown = e.to_string();
                prefixed("Wayland error: ", &shown)
            },
            Error::WaylandDispatch(e) => {
                let shown = e.to_string();
                prefixed("Wayland dispatch error: ", &shown)
            },
            Error::IBus(msg) => prefixed("IBus error: ", msg),
        }
    }
}

/// What becomes of sending text: a failure is reported as a failed commit,
/// with the text of its cause.
pub fn commit_outcome(result: Result<(), String>) -> (r: Result<(), Error>)
    ensures
        match result {
            Ok(_) => r is Ok,
            Err(text) => r == Err::<(), Error>(Error::CommitFailed(text)),
        },
{
    match result {
        Ok(_) => Ok(()),
        Err(text) => Err(Error::CommitFailed(text)),
    }
}

/// What becomes of a request to the display server: a failure is reported as a
/// failed connection, with the text of its cause.
pub fn connection_outcome<T>(result: Result<T, String>) -> (r: Result<T, Error>)
    ensures
        match result {
            Ok(value) => r == Ok::<T, Error>(value),
            Err(text) => r == Err::<T, Error>(Error::ConnectionFailed(text)),
        },
{
    match result {
        Ok(value) => Ok(value),
        Err(text) => Err(Error::ConnectionFailed(text)),
    }
}

impl From<wayland_client::ConnectError> for Error {
    fn from(e: wayland_client::ConnectError) -> (r: Self) {
        Error::Wayland(e)
    }
}

impl vstd::std_specs::convert::FromSpecImpl<wayland_client::ConnectError> for Error {
    open spec fn obeys_from_spec() -> bool {
        true
    }

    open spec fn from_spec(e: wayland_client::ConnectError) -> Error {
        Error::Wayland(e)
    }
}

impl From<wayland_client::DispatchError> for Error {
    fn from(e: wayland_client::DispatchError) -> (r: Self) {
        Error::WaylandDispatch(e)
    }
}

impl vstd::std_specs::convert::FromSpecImpl<wayland_client::DispatchError> for Error {
    open spec fn obeys_from_spec() -> bool {
        true
    }

    open spec fn from_spec(e: wayland_client::DispatchError) -> Error {
        Error::WaylandDispatch(e)
    }
}

/// What a user is shown for an error begins with what went wrong, and ends with
/// the text of the cause where there is one.
pub proof fn messages_name_the_failure_and_its_cause(e: Error, text: Seq<char>)
    requires
        e.shown_as(text),
    ensures
        match e {
            Error::ConnectionFailed(cause) => {
                text == "Failed to connect to display server: "@ + cause@
            },
            Error::ProtocolNotSupported(cause) => text == "Protocol not supported: "@ + cause@,
            Error::RegistrationFailed(cause) => text == "IME registration failed: "@ + cause@,
            Error::NotActive => text == "IME is not active"@,
            Error::PopupCreationFailed(cause) => {
                text == "Failed to create popup surface: "@ + cause@
            },
            Error::CommitFailed(cause) => text == "Failed to commit text: "@ + cause@,
            Error::PlatformNotSupported => text == "Platform not supported"@,
            Error::Wayland(_) => text.take("Wayland error: "@.len() as int) == "Wayland error: "@,
            Error::WaylandDispatch(_) => text.take("Wayland dispatch error: "@.len() as int)
                == "Wayland dispatch error: "@,
            Error::IBus(cause) => text == "IBus error: "@ + cause@,
        },
{
}

} // verus!
