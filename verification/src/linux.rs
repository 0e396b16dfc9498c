//! The input method for Linux: picks a backend and hands everything on to it.
use vstd::prelude::*;

use crate::deletion::DeletionPlan;
use crate::error::Error;
use crate::ibus;
use crate::linux_xtest::{FakeKey, XK_BACKSPACE, XK_DELETE, text_keys};
use crate::types::{InputMethodEvent, InputMethodState, Status};
use crate::wayland;
use crate::wayland::input_method::{
    InputMethodModel, InputMethodRequest, RequestModel, first_with_name,
};
use crate::x11;
use crate::x11::{NextStep, Polled, refused_without_mapping};

verus! {

/// The display server being used on Linux
#[derive(Debug, Clone, Copy, PartialEq, Eq, Structural)]
pub enum DisplayServer {
    /// Wayland display server
    Wayland,
    /// X11 display server
    X11,
}

impl DisplayServer {
    /// The display server that a program runs under, where the arguments say
    /// whether the environment has `WAYLAND_DISPLAY` and whether it has
    /// `DISPLAY`. Wayland goes first.
    pub fn detect(wayland_display: bool, display: bool) -> (r: Option<Self>)
        ensures
            r == (if wayland_display {
                Some(DisplayServer::Wayland)
            } else if display {
                Some(DisplayServer::X11)
            } else {
                None
            }),
    {
        if wayland_display {
            Some(DisplayServer::Wayland)
        } else if display {
            Some(DisplayServer::X11)
        } else {
            None
        }
    }
}

/// The display server whose backend is tried first.
pub fn first_backend(server: Option<DisplayServer>) -> (r: Result<DisplayServer, Error>)
    ensures
        match server {
            Some(server) => r == Ok::<DisplayServer, Error>(server),
            None => r matches Err(Error::ConnectionFailed(text)) && text@
                == "No display server detected (set WAYLAND_DISPLAY or DISPLAY)"@,
        },
{
    match server {
        Some(server) => Ok(server),
        None => Err(
            Error::ConnectionFailed(
                "No display server detected (set WAYLAND_DISPLAY or DISPLAY)".to_string(),
            ),
        ),
    }
}

/// What to do after the backend of the display server was tried
#[derive(Debug)]
pub enum Attempt<T> {
    /// Use it
    Ready(T),
    /// Fall back to IBus
    TryIBus,
    /// Give up
    Failed(Error),
}

/// Whether IBus stands in for the backend of a display server that failed: for
/// Wayland whatever the failure, for X11 if the server lacks the extension.
pub open spec fn falls_back(server: DisplayServer, failure: Error) -> bool {
    match server {
        DisplayServer::Wayland => true,
        DisplayServer::X11 => failure is ProtocolNotSupported,
    }
}

/// What to do after the backend of a display server was tried: fall back to
/// IBus, where that is enabled, or give up.
pub fn after_attempt<T>(
    server: DisplayServer,
    tried: Result<T, Error>,
    ibus_enabled: bool,
) -> (r: Attempt<T>)
    ensures
        r == match tried {
            Ok(im) => Attempt::Ready(im),
            Err(e) => if ibus_enabled && falls_back(server, e) {
                Attempt::TryIBus
            } else {
                Attempt::Failed(e)
            },
        },
{
    match tried {
        Ok(im) => Attempt::Ready(im),
        Err(e) => {
            let fallback = match server {
                DisplayServer::Wayland => true,
                DisplayServer::X11 => matches!(e, Error::ProtocolNotSupported(_)),
            };
            if ibus_enabled && fallback {
                Attempt::TryIBus
            } else {
                Attempt::Failed(e)
            }
        },
    }
}

/// Whether `r` is what starting up comes to, once the backend of `server` was
/// tried with the outcome `tried`: `ibus` is called for IBus, and only where it
/// stands in.
pub open spec fn settles<T, I: FnOnce() -> Result<T, Error>>(
    server: DisplayServer,
    tried: Result<T, Error>,
    ibus_enabled: bool,
    ibus: I,
    r: Result<T, Error>,
) -> bool {
    match tried {
        Ok(_) => r == tried,
        Err(e) => if ibus_enabled && falls_back(server, e) {
            call_ensures(ibus, (), r)
        } else {
            r == tried
        },
    }
}

/// What a backend does to reach the focused application
#[derive(Debug)]
pub enum Action {
    /// Send a request to the Wayland input method object
    Request(InputMethodRequest),
    /// Fake keys
    Keys(Vec<FakeKey>),
    /// Fake the keys of a deletion
    Deletion(DeletionPlan<u8>),
    /// Nothing
    Nothing,
}

/// Linux input method
#[derive(Debug)]
pub enum InputMethod {
    /// Wayland input method
    Wayland(wayland::InputMethod),
    /// X11 input method
    X11(x11::InputMethod),
    /// IBus input method (fallback when Wayland protocol unavailable)
    IBus(ibus::InputMethod),
}

/// Whether `r` is an answer of the Wayland backend, as an action.
pub open spec fn answers_with_action(
    data: InputMethodModel,
    r: Result<Action, Error>,
    request: RequestModel,
) -> bool {
    if data.input_method is Some {
        r matches Ok(Action::Request(sent)) && sent@ == request
    } else {
        r == Err::<Action, Error>(Error::NotActive)
    }
}

/// An answer of the Wayland backend, as an action.
fn request_action(answer: Result<InputMethodRequest, Error>) -> (r: Result<Action, Error>)
    ensures
        match answer {
            Ok(request) => r == Ok::<Action, Error>(Action::Request(request)),
            Err(e) => r == Err::<Action, Error>(e),
        },
{
    match answer {
        Ok(request) => Ok(Action::Request(request)),
        Err(e) => Err(e),
    }
}

/// Keys of an XTest backend, as an action.
fn keys_action(answer: Result<Vec<FakeKey>, Error>) -> (r: Result<Action, Error>)
    ensures
        match answer {
            Ok(keys) => r == Ok::<Action, Error>(Action::Keys(keys)),
            Err(e) => r == Err::<Action, Error>(e),
        },
{
    match answer {
        Ok(keys) => Ok(Action::Keys(keys)),
        Err(e) => Err(e),
    }
}

/// A deletion of an XTest backend, as an action.
fn deletion_action(answer: Result<DeletionPlan<u8>, Error>) -> (r: Result<Action, Error>)
    ensures
        match answer {
            Ok(plan) => r == Ok::<Action, Error>(Action::Deletion(plan)),
            Err(e) => r == Err::<Action, Error>(e),
        },
{
    match answer {
        Ok(plan) => Ok(Action::Deletion(plan)),
        Err(e) => Err(e),
    }
}

impl InputMethod {
    /// Whether keysyms can be looked up, where text is typed.
    pub open spec fn mapping_wf(&self) -> bool {
        match self {
            InputMethod::Wayland(_) => true,
            InputMethod::X11(im) => im@.mapping_wf(),
            InputMethod::IBus(im) => im@.mapping_wf(),
        }
    }

    /// What the program sees.
    pub open spec fn shown_state(&self) -> InputMethodState {
        match self {
            InputMethod::Wayland(im) => im@.state,
            InputMethod::X11(im) => im@.state,
            InputMethod::IBus(im) => im@.state,
        }
    }

    /// Whether keysyms can be looked up, where text is typed.
    pub fn has_valid_mapping(&self) -> (r: bool)
        ensures
            r == self.mapping_wf(),
    {
        match self {
            InputMethod::Wayland(_) => true,
            InputMethod::X11(im) => im.has_valid_mapping(),
            InputMethod::IBus(im) => im.has_valid_mapping(),
        }
    }

    /// Create a new input method for the display server that was detected: with
    /// its own backend, or with IBus where that stands in. The last three
    /// arguments start the backends; the one of the other display server is never
    /// called. They hand out this type, or one that holds it next to its
    /// connection.
    pub fn new<T, W, X, I>(
        server: Option<DisplayServer>,
        ibus_enabled: bool,
        wayland: W,
        x11: X,
        ibus: I,
    ) -> (r: Result<T, Error>) where
        W: FnOnce() -> Result<T, Error>,
        X: FnOnce() -> Result<T, Error>,
        I: FnOnce() -> Result<T, Error>,

        requires
            server == Some(DisplayServer::Wayland) ==> call_requires(wayland, ()),
            server == Some(DisplayServer::X11) ==> call_requires(x11, ()),
            server == Some(DisplayServer::Wayland) && ibus_enabled ==> forall|
                tried: Result<T, Error>,
            | #[trigger]
                call_ensures(wayland, (), tried) ==> (tried matches Err(e) ==> falls_back(
                    DisplayServer::Wayland,
                    e,
                ) ==> call_requires(ibus, ())),
            server == Some(DisplayServer::X11) && ibus_enabled ==> forall|
                tried: Result<T, Error>,
            | #[trigger]
                call_ensures(x11, (), tried) ==> (tried matches Err(e) ==> falls_back(
                    DisplayServer::X11,
                    e,
                ) ==> call_requires(ibus, ())),
        ensures
            match server {
                Some(DisplayServer::Wayland) => exists|tried: Result<T, Error>| #[trigger]
                    call_ensures(wayland, (), tried) && settles(
                        DisplayServer::Wayland,
                        tried,
                        ibus_enabled,
                        ibus,
                        r,
                    ),
                Some(DisplayServer::X11) => exists|tried: Result<T, Error>| #[trigger]
                    call_ensures(x11, (), tried) && settles(
                        DisplayServer::X11,
                        tried,
                        ibus_enabled,
                        ibus,
                        r,
                    ),
                None => r matches Err(Error::ConnectionFailed(text)) && text@
                    == "No display server detected (set WAYLAND_DISPLAY or DISPLAY)"@,
            },
    {
        let server = match first_backend(server) {
            Ok(server) => server,
            Err(e) => {
                return Err(e);
            },
        };
        let tried = match server {
            DisplayServer::Wayland => wayland(),
            DisplayServer::X11 => x11(),
        };
        match after_attempt(server, tried, ibus_enabled) {
            Attempt::Ready(im) => Ok(im),
            Attempt::TryIBus => ibus(),
            Attempt::Failed(e) => Err(e),
        }
    }

    /// Create a Wayland input method explicitly
    pub fn wayland(data: wayland::InputMethodData) -> (r: Result<Self, Error>)
        ensures
            if !data@.manager {
                r matches Err(Error::ProtocolNotSupported(text)) && text@
                    == "zwp_input_method_manager_v2 not available"@
            } else if data@.seats.len() == 0 {
                r matches Err(Error::ConnectionFailed(text)) && text@ == "No seat found"@
            } else {
                r matches Ok(InputMethod::Wayland(im)) && im@ == data@.on_seat(
                    data@.seats[0].global,
                )
            },
    {
        match wayland::InputMethod::new(data) {
            Ok(im) => Ok(InputMethod::Wayland(im)),
            Err(e) => Err(e),
        }
    }

    /// Create a Wayland input method on a seat with a name
    pub fn wayland_for_seat(data: wayland::InputMethodData, seat_name: &str) -> (r: Result<
        Self,
        Error,
    >)
        ensures
            !data@.manager ==> (r matches Err(Error::ProtocolNotSupported(text)) && text@
                == "zwp_input_method_manager_v2 not available"@),
            data@.manager ==> (forall|i: int| #[trigger]
                first_with_name(data@.seats, seat_name@, i) ==> (r matches Ok(
                    InputMethod::Wayland(im),
                ) && im@ == data@.on_seat(data@.seats[i].global))),
            data@.manager && (forall|i: int|
                0 <= i < data@.seats.len() ==> (#[trigger] data@.seats[i]).name != Some(seat_name@))
                ==> (r matches Err(Error::ConnectionFailed(text)) && text@ == "seat '"@
                + seat_name@ + "' not found"@),
    {
        match wayland::InputMethod::new_for_seat(data, seat_name) {
            Ok(im) => Ok(InputMethod::Wayland(im)),
            Err(e) => Err(e),
        }
    }

    /// Create an X11 input method explicitly
    pub fn x11(started: Result<x11::InputMethod, Error>) -> (r: Result<Self, Error>)
        ensures
            match started {
                Ok(im) => r == Ok::<InputMethod, Error>(InputMethod::X11(im)),
                Err(e) => r == Err::<InputMethod, Error>(e),
            },
    {
        match started {
            Ok(im) => Ok(InputMethod::X11(im)),
            Err(e) => Err(e),
        }
    }

    /// Create an IBus input method explicitly
    pub fn ibus(started: Result<ibus::InputMethod, Error>) -> (r: Result<Self, Error>)
        ensures
            match started {
                Ok(im) => r == Ok::<InputMethod, Error>(InputMethod::IBus(im)),
                Err(e) => r == Err::<InputMethod, Error>(e),
            },
    {
        match started {
            Ok(im) => Ok(InputMethod::IBus(im)),
            Err(e) => Err(e),
        }
    }

    /// One step towards the next event. Only the X11 backend polls.
    pub fn next_event(&mut self, polled: Polled) -> (r: NextStep)
        requires
            *old(self) matches InputMethod::X11(im) ==> (polled matches Polled::Event(event)
                ==> im@.activates(event) ==> im@.serial < u32::MAX),
        ensures
            match (*old(self), *final(self)) {
                (InputMethod::Wayland(before), InputMethod::Wayland(after)) => {
                    if before@.events.len() == 0 {
                        r == NextStep::Return(None) && after@ == before@
                    } else {
                        r == NextStep::Return(Some(before@.events[0])) && after@ == (
                        InputMethodModel { events: before@.events.drop_first(), ..before@ })
                    }
                },
                (InputMethod::X11(before), InputMethod::X11(after)) => {
                    match polled {
                        Polled::NotYet => after@ == before@.taken() && r == (
                        match before@.oldest() {
                            Some(event) => NextStep::Return(Some(event)),
                            None => NextStep::Poll,
                        }),
                        Polled::Event(event) => after@ == before@.after(event) && r == (
                        match before@.told(event) {
                            Some(event) => NextStep::Return(Some(event)),
                            None => NextStep::Poll,
                        }),
                        Polled::Nothing | Polled::Failed => after@ == before@.taken() && r
                            == NextStep::Return(before@.oldest()),
                    }
                },
                (InputMethod::IBus(before), InputMethod::IBus(after)) => {
                    if before@.events.len() == 0 {
                        r == NextStep::Return(None) && after@ == before@
                    } else {
                        r == NextStep::Return(Some(before@.events[0])) && after@ == (
                        ibus::IBusModel { events: before@.events.drop_first(), ..before@ })
                    }
                },
                _ => false,
            },
    {
        match self {
            InputMethod::Wayland(im) => NextStep::Return(im.next_event()),
            InputMethod::X11(im) => im.next_event(polled),
            InputMethod::IBus(im) => NextStep::Return(im.next_event()),
        }
    }

    /// Check if active
    pub fn is_active(&self) -> (r: bool)
        ensures
            r == self.shown_state().active,
    {
        match self {
            InputMethod::Wayland(im) => im.is_active(),
            InputMethod::X11(im) => im.is_active(),
            InputMethod::IBus(im) => im.is_active(),
        }
    }

    /// Returns the current operational status. Only a Wayland compositor
    /// withdraws input methods.
    pub fn status(&self) -> (r: Status)
        ensures
            r == (if *self matches InputMethod::Wayland(im) && im@.unavailable {
                Status::Unavailable
            } else if self.shown_state().active {
                Status::Active
            } else {
                Status::Inactive
            }),
    {
        match self {
            InputMethod::Wayland(im) => im.status(),
            InputMethod::X11(im) => im.status(),
            InputMethod::IBus(im) => im.status(),
        }
    }

    /// Commit text
    pub fn commit_string(&self, text: &str) -> (r: Result<Action, Error>)
        requires
            self.mapping_wf(),
        ensures
            match *self {
                InputMethod::Wayland(im) => answers_with_action(
                    im@,
                    r,
                    RequestModel::CommitString { text: text@ },
                ),
                InputMethod::X11(im) => match im@.keyboard_mapping {
                    Some(mapping) => r matches Ok(Action::Keys(keys)) && keys@ == text_keys(
                        &mapping,
                        text@,
                    ),
                    None => refused_without_mapping(r),
                },
                InputMethod::IBus(im) => match im@.xtest {
                    Some(xtest) => r matches Ok(Action::Keys(keys)) && keys@ == text_keys(
                        &xtest.mapping,
                        text@,
                    ),
                    None => r matches Err(Error::ProtocolNotSupported(shown)) && shown@
                        == "XTest not available; IBus text commit requires an X11 display"@,
                },
            },
    {
        match self {
            InputMethod::Wayland(im) => request_action(im.commit_string(text)),
            InputMethod::X11(im) => keys_action(im.commit_string(text)),
            InputMethod::IBus(im) => keys_action(im.commit_string(text)),
        }
    }

    /// Set preedit string
    pub fn set_preedit_string(
        &self,
        text: &str,
        cursor_begin: i32,
        cursor_end: i32,
    ) -> (r: Result<Action, Error>)
        ensures
            match *self {
                InputMethod::Wayland(im) => answers_with_action(
                    im@,
                    r,
                    RequestModel::SetPreeditString { text: text@, cursor_begin, cursor_end },
                ),
                _ => r == Ok::<Action, Error>(Action::Nothing),
            },
    {
        match self {
            InputMethod::Wayland(im) => request_action(
                im.set_preedit_string(text, cursor_begin, cursor_end),
            ),
            InputMethod::X11(im) => match im.set_preedit_string(text, cursor_begin, cursor_end) {
                Ok(_) => Ok(Action::Nothing),
                Err(e) => Err(e),
            },
            InputMethod::IBus(im) => match im.set_preedit_string(text, cursor_begin, cursor_end) {
                Ok(_) => Ok(Action::Nothing),
                Err(e) => Err(e),
            },
        }
    }

    /// Delete surrounding text
    pub fn delete_surrounding_text(&self, before: u32, after: u32) -> (r: Result<Action, Error>)
        requires
            self.mapping_wf(),
        ensures
            match *self {
                InputMethod::Wayland(im) => answers_with_action(
                    im@,
                    r,
                    RequestModel::DeleteSurroundingText {
                        before_length: before,
                        after_length: after,
                    },
                ),
                InputMethod::X11(im) => match im@.keyboard_mapping {
                    Some(mapping) => r == Ok::<Action, Error>(
                        Action::Deletion(
                            DeletionPlan {
                                backspace: mapping.key_or(XK_BACKSPACE, 22),
                                before,
                                delete: mapping.key_or(XK_DELETE, 119),
                                after,
                            },
                        ),
                    ),
                    None => refused_without_mapping(r),
                },
                InputMethod::IBus(im) => match im@.xtest {
                    Some(xtest) => r == Ok::<Action, Error>(
                        Action::Deletion(
                            DeletionPlan {
                                backspace: xtest.mapping.key_or(XK_BACKSPACE, 22),
                                before,
                                delete: xtest.mapping.key_or(XK_DELETE, 119),
                                after,
                            },
                        ),
                    ),
                    None => r matches Err(Error::ProtocolNotSupported(shown)) && shown@
                        == "XTest not available; IBus text deletion requires an X11 display"@,
                },
            },
    {
        match self {
            InputMethod::Wayland(im) => request_action(im.delete_surrounding_text(before, after)),
            InputMethod::X11(im) => deletion_action(im.delete_surrounding_text(before, after)),
            InputMethod::IBus(im) => deletion_action(im.delete_surrounding_text(before, after)),
        }
    }

    /// Commit changes
    pub fn commit(&self, serial: u32) -> (r: Result<Action, Error>)
        ensures
            match *self {
                InputMethod::Wayland(im) => answers_with_action(
                    im@,
                    r,
                    RequestModel::Commit { serial },
                ),
                _ => r == Ok::<Action, Error>(Action::Nothing),
            },
    {
        match self {
            InputMethod::Wayland(im) => request_action(im.commit(serial)),
            InputMethod::X11(im) => match im.commit(serial) {
                Ok(_) => Ok(Action::Nothing),
                Err(e) => Err(e),
            },
            InputMethod::IBus(im) => match im.commit(serial) {
                Ok(_) => Ok(Action::Nothing),
                Err(e) => Err(e),
            },
        }
    }

    /// Check if this is a Wayland input method
    pub fn is_wayland(&self) -> (r: bool)
        ensures
            r == (*self is Wayland),
    {
        matches!(self, InputMethod::Wayland(_))
    }

    /// Check if this is an X11 input method
    pub fn is_x11(&self) -> (r: bool)
        ensures
            r == (*self is X11),
    {
        matches!(self, InputMethod::X11(_))
    }

    /// Check if this is an IBus input method
    pub fn is_ibus(&self) -> (r: bool)
        ensures
            r == (*self is IBus),
    {
        matches!(self, InputMethod::IBus(_))
    }

    /// Get the current state
    pub fn state(&self) -> (r: InputMethodState)
        ensures
            r == self.shown_state(),
    {
        match self {
            InputMethod::Wayland(im) => im.state(),
            InputMethod::X11(im) => im.state(),
            InputMethod::IBus(im) => im.state(),
        }
    }
}

/// IBus stands in for Wayland whatever the failure, and for X11 only if the
/// server does not support what is needed.
pub proof fn fallback_depends_on_the_server(failure: Error)
    ensures
        falls_back(DisplayServer::Wayland, failure),
        falls_back(DisplayServer::X11, failure) <==> failure is ProtocolNotSupported,
{
}

/// A backend that started is used, and without IBus a failure is handed on. Where
/// IBus stands in, what starting it comes to is what counts.
pub proof fn start_is_settled<T, I: FnOnce() -> Result<T, Error>>(
    server: DisplayServer,
    tried: Result<T, Error>,
    ibus_enabled: bool,
    ibus: I,
    r: Result<T, Error>,
)
    requires
        settles(server, tried, ibus_enabled, ibus, r),
    ensures
        tried is Ok ==> r == tried,
        !ibus_enabled ==> r == tried,
        tried is Err && ibus_enabled && server == DisplayServer::Wayland ==> call_ensures(
            ibus,
            (),
            r,
        ),
        tried is Err && ibus_enabled && server == DisplayServer::X11 ==> if tried->Err_0
            is ProtocolNotSupported {
            call_ensures(ibus, (), r)
        } else {
            r == tried
        },
{
}

/// An action of the Wayland backend is the request that was asked for.
pub proof fn actions_are_requests(
    data: InputMethodModel,
    r: Result<Action, Error>,
    request: RequestModel,
)
    requires
        answers_with_action(data, r, request),
    ensures
        data.input_method is Some ==> (r matches Ok(Action::Request(sent)) && sent@ == request),
        data.input_method is None ==> (r matches Err(Error::NotActive)),
{
}

/// What the program sees is what the backend shows.
pub proof fn state_is_that_of_the_backend(im: InputMethod)
    ensures
        im matches InputMethod::Wayland(backend) ==> im.shown_state() == backend@.state,
        im matches InputMethod::X11(backend) ==> im.shown_state() == backend@.state,
        im matches InputMethod::IBus(backend) ==> im.shown_state() == backend@.state,
{
}

} // verus!
