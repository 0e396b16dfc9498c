//! IBus input method logic.
//!
//! IBus serves where the Wayland protocol is not available. Events are those of
//! the focus that the input method itself sets; text is typed through XTest.
use std::collections::VecDeque;

use vstd::prelude::*;

use crate::deletion::DeletionPlan;
use crate::error::Error;
use crate::linux_xtest::{FakeKey, XK_BACKSPACE, XK_DELETE, XTestWriter, text_keys};
use crate::text::prefixed;
use crate::types::{InputMethodEvent, InputMethodState, Status};

verus! {

/// A D-Bus method call
#[derive(Debug)]
pub struct MethodCall<'a> {
    /// Bus name
    pub destination: &'a str,
    /// Object path
    pub path: &'a str,
    /// Interface
    pub interface: &'a str,
    /// Method
    pub method: &'a str,
    /// The argument, if it takes one
    pub argument: Option<&'a str>,
}

impl<'a> MethodCall<'a> {
    /// Whether this is a call of a method of an object, without argument.
    pub open spec fn calls(
        &self,
        destination: Seq<char>,
        path: Seq<char>,
        interface: Seq<char>,
        method: Seq<char>,
    ) -> bool {
        &&& self.destination@ == destination
        &&& self.path@ == path
        &&& self.interface@ == interface
        &&& self.method@ == method
        &&& self.argument is None
    }

    /// Whether this is a call of a method of an object, with one argument.
    pub open spec fn calls_with(
        &self,
        destination: Seq<char>,
        path: Seq<char>,
        interface: Seq<char>,
        method: Seq<char>,
        argument: Seq<char>,
    ) -> bool {
        &&& self.destination@ == destination
        &&& self.path@ == path
        &&& self.interface@ == interface
        &&& self.method@ == method
        &&& self.argument matches Some(given) && given@ == argument
    }
}

/// What became of a D-Bus method call
#[derive(Debug)]
pub enum Reply<T> {
    /// It answered with a value
    Value(T),
    /// It answered with something else, described here
    Undecodable(String),
    /// It failed, for the reason described here
    Failed(String),
}

/// An IBus input method
#[derive(Debug)]
pub struct InputMethod {
    input_context_path: Option<String>,
    state: InputMethodState,
    events: VecDeque<InputMethodEvent>,
    serial: u32,
    xtest: Option<XTestWriter>,
}

/// An IBus input method, as contracts see it.
#[verifier::ext_equal]
pub struct IBusModel {
    /// Object path of the input context, once there is one
    pub input_context_path: Option<String>,
    /// What the program sees
    pub state: InputMethodState,
    /// Events that the program has not taken yet, oldest first
    pub events: Seq<InputMethodEvent>,
    /// How often the input context got the focus
    pub serial: u32,
    /// Types text, where there is an X server
    pub xtest: Option<XTestWriter>,
}

impl View for InputMethod {
    type V = IBusModel;

    closed spec fn view(&self) -> IBusModel {
        IBusModel {
            input_context_path: self.input_context_path,
            state: self.state,
            events: self.events@,
            serial: self.serial,
            xtest: self.xtest,
        }
    }
}

impl IBusModel {
    /// Before the input context is made.
    pub open spec fn initial(xtest: Option<XTestWriter>) -> IBusModel {
        IBusModel {
            input_context_path: None,
            state: InputMethodState::initial(),
            events: Seq::empty(),
            serial: 0,
            xtest,
        }
    }

    /// After the input context got the focus.
    pub open spec fn focused(self) -> IBusModel {
        let serial = (self.serial + 1) as u32;
        IBusModel {
            state: InputMethodState { active: true, serial, ..self.state },
            events: self.events.push(InputMethodEvent::Activate { serial }),
            serial,
            ..self
        }
    }

    /// After the input context lost the focus.
    pub open spec fn unfocused(self) -> IBusModel {
        IBusModel {
            state: InputMethodState { active: false, ..self.state },
            events: self.events.push(InputMethodEvent::Deactivate),
            ..self
        }
    }

    /// Whether keysyms can be looked up, where text can be typed.
    pub open spec fn mapping_wf(self) -> bool {
        self.xtest matches Some(xtest) ==> xtest.mapping.wf()
    }
}

/// Whether `r` is an IBus error with a text.
pub open spec fn failed_with<T>(r: Result<T, Error>, text: Seq<char>) -> bool {
    r matches Err(Error::IBus(shown)) && shown@ == text
}

/// The session bus was connected to, or could not be.
pub fn session_outcome(connected: Result<(), String>) -> (r: Result<(), Error>)
    ensures
        match connected {
            Ok(_) => r is Ok,
            Err(cause) => failed_with(r, "Failed to connect to D-Bus session bus: "@ + cause@),
        },
{
    match connected {
        Ok(_) => Ok(()),
        Err(cause) => Err(
            Error::IBus(prefixed("Failed to connect to D-Bus session bus: ", &cause)),
        ),
    }
}

/// The call that asks whether IBus is running.
pub fn service_call() -> (r: MethodCall<'static>)
    ensures
        r.calls_with(
            "org.freedesktop.DBus"@,
            "/org/freedesktop/DBus"@,
            "org.freedesktop.DBus"@,
            "NameHasOwner"@,
            "org.freedesktop.IBus"@,
        ),
{
    MethodCall {
        destination: "org.freedesktop.DBus",
        path: "/org/freedesktop/DBus",
        interface: "org.freedesktop.DBus",
        method: "NameHasOwner",
        argument: Some("org.freedesktop.IBus"),
    }
}

/// The answer to whether IBus is running.
pub fn check_service(reply: Reply<bool>) -> (r: Result<(), Error>)
    ensures
        match reply {
            Reply::Value(true) => r is Ok,
            Reply::Value(false) => failed_with(r, "IBus service is not running"@),
            Reply::Undecodable(cause) => failed_with(r, "Failed to check IBus service: "@ + cause@),
            Reply::Failed(cause) => failed_with(r, "Failed to query D-Bus: "@ + cause@),
        },
{
    match reply {
        Reply::Value(has_owner) => {
            if has_owner {
                Ok(())
            } else {
                Err(Error::IBus("IBus service is not running".to_string()))
            }
        },
        Reply::Undecodable(cause) => Err(
            Error::IBus(prefixed("Failed to check IBus service: ", &cause)),
        ),
        Reply::Failed(cause) => Err(Error::IBus(prefixed("Failed to query D-Bus: ", &cause))),
    }
}

/// The call that makes an input context.
pub fn create_call() -> (r: MethodCall<'static>)
    ensures
        r.calls_with(
            "org.freedesktop.IBus"@,
            "/org/freedesktop/IBus"@,
            "org.freedesktop.IBus"@,
            "CreateInputContext"@,
            "imekit"@,
        ),
{
    MethodCall {
        destination: "org.freedesktop.IBus",
        path: "/org/freedesktop/IBus",
        interface: "org.freedesktop.IBus",
        method: "CreateInputContext",
        argument: Some("imekit"),
    }
}

/// Whether `call` is a call of a focus method of the input context, where there
/// is one.
pub open spec fn is_focus_call(
    call: Option<MethodCall<'_>>,
    path: Option<String>,
    method: Seq<char>,
) -> bool {
    match path {
        Some(path) => call matches Some(call) && call.calls(
            "org.freedesktop.IBus"@,
            path@,
            "org.freedesktop.IBus.InputContext"@,
            method,
        ),
        None => call is None,
    }
}

impl InputMethod {
    /// An input method before its input context is made. It can do without a
    /// writer, but then cannot type.
    pub fn new(xtest: Result<XTestWriter, Error>) -> (r: Self)
        ensures
            r@ == IBusModel::initial(
                match xtest {
                    Ok(xtest) => Some(xtest),
                    Err(_) => None,
                },
            ),
    {
        InputMethod {
            input_context_path: None,
            state: InputMethodState::new(),
            events: VecDeque::new(),
            serial: 0,
            xtest: xtest.ok(),
        }
    }

    /// Whether keysyms can be looked up in the keyboard mapping of the writer,
    /// if there is one.
    pub fn has_valid_mapping(&self) -> (r: bool)
        ensures
            r == self@.mapping_wf(),
    {
        match &self.xtest {
            Some(xtest) => xtest.mapping.is_well_formed(),
            None => true,
        }
    }

    /// The input context was made, or could not be.
    pub fn create_input_context(&mut self, reply: Reply<String>) -> (r: Result<(), Error>)
        ensures
            match reply {
                Reply::Value(path) => r is Ok && final(self)@ == (IBusModel {
                    input_context_path: Some(path),
                    ..old(self)@
                }),
                Reply::Undecodable(cause) => final(self)@ == old(self)@ && failed_with(
                    r,
                    "Failed to parse input context path: "@ + cause@,
                ),
                Reply::Failed(cause) => final(self)@ == old(self)@ && failed_with(
                    r,
                    "Failed to create input context: "@ + cause@,
                ),
            },
    {
        match reply {
            Reply::Value(path) => {
                self.input_context_path = Some(path);
                Ok(())
            },
            Reply::Undecodable(cause) => Err(
                Error::IBus(prefixed("Failed to parse input context path: ", &cause)),
            ),
            Reply::Failed(cause) => Err(
                Error::IBus(prefixed("Failed to create input context: ", &cause)),
            ),
        }
    }

    /// The call that gives the input context the focus.
    pub fn focus_in_call(&self) -> (r: Option<MethodCall<'_>>)
        ensures
            is_focus_call(r, self@.input_context_path, "FocusIn"@),
    {
        match &self.input_context_path {
            Some(path) => Some(
                MethodCall {
                    destination: "org.freedesktop.IBus",
                    path: path.as_str(),
                    interface: "org.freedesktop.IBus.InputContext",
                    method: "FocusIn",
                    argument: None,
                },
            ),
            None => None,
        }
    }

    /// The call that takes the focus from the input context.
    pub fn focus_out_call(&self) -> (r: Option<MethodCall<'_>>)
        ensures
            is_focus_call(r, self@.input_context_path, "FocusOut"@),
    {
        match &self.input_context_path {
            Some(path) => Some(
                MethodCall {
                    destination: "org.freedesktop.IBus",
                    path: path.as_str(),
                    interface: "org.freedesktop.IBus.InputContext",
                    method: "FocusOut",
                    argument: None,
                },
            ),
            None => None,
        }
    }

    /// The input context got the focus, or the call failed. Without an input
    /// context there was no call, and nothing happens.
    pub fn focus_in(&mut self, called: Result<(), String>) -> (r: Result<(), Error>)
        requires
            old(self)@.input_context_path is Some && called is Ok ==> old(self)@.serial < u32::MAX,
        ensures
            if old(self)@.input_context_path is None {
                r is Ok && final(self)@ == old(self)@
            } else {
                match called {
                    Ok(_) => r is Ok && final(self)@ == old(self)@.focused(),
                    Err(cause) => final(self)@ == old(self)@ && failed_with(
                        r,
                        "Failed to focus in: "@ + cause@,
                    ),
                }
            },
    {
        if self.input_context_path.is_some() {
            match called {
                Ok(_) => {},
                Err(cause) => {
                    return Err(Error::IBus(prefixed("Failed to focus in: ", &cause)));
                },
            }
            self.state.active = true;
            self.serial = self.serial + 1;
            self.state.serial = self.serial;
            self.events.push_back(InputMethodEvent::Activate { serial: self.serial });
        }
        Ok(())
    }

    /// The input context lost the focus, or the call failed. Without an input
    /// context there was no call, and nothing happens.
    pub fn focus_out(&mut self, called: Result<(), String>) -> (r: Result<(), Error>)
        ensures
            if old(self)@.input_context_path is None {
                r is Ok && final(self)@ == old(self)@
            } else {
                match called {
                    Ok(_) => r is Ok && final(self)@ == old(self)@.unfocused(),
                    Err(cause) => final(self)@ == old(self)@ && failed_with(
                        r,
                        "Failed to focus out: "@ + cause@,
                    ),
                }
            },
    {
        if self.input_context_path.is_some() {
            match called {
                Ok(_) => {},
                Err(cause) => {
                    return Err(Error::IBus(prefixed("Failed to focus out: ", &cause)));
                },
            }
            self.state.active = false;
            self.events.push_back(InputMethodEvent::Deactivate);
        }
        Ok(())
    }

    /// Takes the oldest event that waits.
    pub fn next_event(&mut self) -> (r: Option<InputMethodEvent>)
        ensures
            if old(self)@.events.len() == 0 {
                r is None && final(self)@ == old(self)@
            } else {
                r == Some(old(self)@.events[0]) && final(self)@ == (IBusModel {
                    events: old(self)@.events.drop_first(),
                    ..old(self)@
                })
            },
    {
        self.events.pop_front()
    }

    /// Check if the input method is active.
    pub fn is_active(&self) -> (r: bool)
        ensures
            r == self@.state.active,
    {
        self.state.active
    }

    /// Returns the current operational status.
    pub fn status(&self) -> (r: Status)
        ensures
            r == (if self@.state.active {
                Status::Active
            } else {
                Status::Inactive
            }),
    {
        if self.state.active {
            Status::Active
        } else {
            Status::Inactive
        }
    }

    /// Commit text through XTest (IBus itself only takes text from registered
    /// engines).
    pub fn commit_string(&self, text: &str) -> (r: Result<Vec<FakeKey>, Error>)
        requires
            self@.mapping_wf(),
        ensures
            match self@.xtest {
                Some(xtest) => r matches Ok(keys) && keys@ == text_keys(&xtest.mapping, text@),
                None => r matches Err(Error::ProtocolNotSupported(shown)) && shown@
                    == "XTest not available; IBus text commit requires an X11 display"@,
            },
    {
        match &self.xtest {
            Some(xtest) => Ok(xtest.commit_string(text)),
            None => Err(
                Error::ProtocolNotSupported(
                    "XTest not available; IBus text commit requires an X11 display".to_string(),
                ),
            ),
        }
    }

    /// Composing text has no place in XTest: nothing is done.
    pub fn set_preedit_string(&self, _text: &str, _cursor_begin: i32, _cursor_end: i32) -> (r:
        Result<(), Error>)
        ensures
            r is Ok,
    {
        Ok(())
    }

    /// Delete surrounding text by sending backspace/delete keys
    pub fn delete_surrounding_text(&self, before: u32, after: u32) -> (r: Result<
        DeletionPlan<u8>,
        Error,
    >)
        requires
            self@.mapping_wf(),
        ensures
            match self@.xtest {
                Some(xtest) => r == Ok::<DeletionPlan<u8>, Error>(
                    DeletionPlan {
                        backspace: xtest.mapping.key_or(XK_BACKSPACE, 22),
                        before,
                        delete: xtest.mapping.key_or(XK_DELETE, 119),
                        after,
                    },
                ),
                None => r matches Err(Error::ProtocolNotSupported(shown)) && shown@
                    == "XTest not available; IBus text deletion requires an X11 display"@,
            },
    {
        match &self.xtest {
            Some(xtest) => Ok(xtest.delete_surrounding_text(before, after)),
            None => Err(
                Error::ProtocolNotSupported(
                    "XTest not available; IBus text deletion requires an X11 display".to_string(),
                ),
            ),
        }
    }

    /// Commit changes (nothing to do, as commits are immediate)
    pub fn commit(&self, _serial: u32) -> (r: Result<(), Error>)
        ensures
            r is Ok,
    {
        Ok(())
    }

    /// Get the current state.
    pub fn state(&self) -> (r: InputMethodState)
        ensures
            r == self@.state,
    {
        self.state.clone()
    }
}

/// Getting and losing the focus announces an activation with the next serial
/// and then a deactivation, and the state shows that serial afterwards.
pub proof fn focus_round_trip(m: IBusModel)
    requires
        m.serial < u32::MAX,
    ensures
        ({
            let serial = (m.serial + 1) as u32;
            let left = m.focused().unfocused();
            &&& m.focused().state.active
            &&& !left.state.active
            &&& left.serial == serial
            &&& left.state.serial == serial
            &&& left.events == m.events.push(InputMethodEvent::Activate { serial }).push(
                InputMethodEvent::Deactivate,
            )
        }),
{
}

/// Changes of focus keep the input context, the writer and everything of the
/// state but whether it is active and its serial; losing the focus keeps the
/// serial too.
pub proof fn focus_keeps_the_rest(m: IBusModel)
    requires
        m.serial < u32::MAX,
    ensures
        m.focused().input_context_path == m.input_context_path,
        m.unfocused().input_context_path == m.input_context_path,
        m.focused().xtest == m.xtest,
        m.unfocused().xtest == m.xtest,
        m.focused().state == (InputMethodState {
            active: true,
            serial: (m.serial + 1) as u32,
            ..m.state
        }),
        m.unfocused().state == (InputMethodState { active: false, ..m.state }),
        m.focused().serial == m.serial + 1,
        m.unfocused().serial == m.serial,
        m.focused().events.drop_last() == m.events,
        m.unfocused().events.drop_last() == m.events,
        m.focused().events.last() == (InputMethodEvent::Activate {
            serial: (m.serial + 1) as u32,
        }),
        m.unfocused().events.last() == InputMethodEvent::Deactivate,
{
}

/// A focus call goes to the input context of the IBus service, and there is one
/// exactly if there is an input context.
pub proof fn focus_calls_name_the_context(
    call: Option<MethodCall<'_>>,
    path: Option<String>,
    method: Seq<char>,
)
    requires
        is_focus_call(call, path, method),
    ensures
        call is Some <==> path is Some,
        call matches Some(call) ==> {
            &&& call.destination@ == "org.freedesktop.IBus"@
            &&& call.path@ == path->0@
            &&& call.interface@ == "org.freedesktop.IBus.InputContext"@
            &&& call.method@ == method
            &&& call.argument is None
        },
{
}

/// A call names its destination, path, interface and method, and its argument
/// where it has one.
pub proof fn calls_name_their_parts(
    call: MethodCall<'_>,
    destination: Seq<char>,
    path: Seq<char>,
    interface: Seq<char>,
    method: Seq<char>,
    argument: Seq<char>,
)
    requires
        call.calls_with(destination, path, interface, method, argument),
    ensures
        call.destination@ == destination,
        call.path@ == path,
        call.interface@ == interface,
        call.method@ == method,
        call.argument matches Some(given) && given@ == argument,
{
}

/// A failure is an IBus error that a user is shown with its text.
pub proof fn failures_are_ibus_errors<T>(r: Result<T, Error>, text: Seq<char>)
    requires
        failed_with(r, text),
    ensures
        r is Err,
        r matches Err(Error::IBus(shown)) && shown@ == text,
{
}

/// A new input method keeps the writer that it was given, and has no input
/// context, no focus and nothing to tell.
pub proof fn new_input_method_is_idle(xtest: Option<XTestWriter>)
    ensures
        ({
            let m = IBusModel::initial(xtest);
            &&& m.xtest == xtest
            &&& m.input_context_path is None
            &&& m.serial == 0
            &&& !m.state.active
            &&& m.state.serial == 0
            &&& m.events.len() == 0
        }),
{
}

} // verus!
