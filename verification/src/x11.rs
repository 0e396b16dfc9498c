//! X11 input method logic.
//!
//! An X11 input method follows the input focus and types text through the
//! XTest extension.
use std::collections::VecDeque;

use vstd::prelude::*;

use crate::deletion::DeletionPlan;
use crate::error::Error;
use crate::linux_xtest::{
    CachedKeyboardMapping, FakeKey, XK_BACKSPACE, XK_DELETE, commit_string,
    delete_surrounding_text, text_keys,
};
use crate::types::{InputMethodEvent, InputMethodState, Status};

verus! {

/// Events of the X server, as far as an input method reads them
#[derive(Debug)]
pub enum X11Event {
    /// A window got the focus
    FocusIn {
        /// The window
        window: u32,
    },
    /// A window lost the focus
    FocusOut {
        /// The window
        window: u32,
    },
    /// A key was pressed
    KeyPress,
    /// A property of a window changed
    PropertyNotify,
    /// The keyboard mapping changed
    MappingNotify {
        /// The new mapping, if it could be loaded
        mapping: Option<CachedKeyboardMapping>,
    },
    /// Any other event
    Other,
}

/// What polling the X server came to
#[derive(Debug)]
pub enum Polled {
    /// Nothing was polled yet
    NotYet,
    /// An event arrived
    Event(X11Event),
    /// No event is there
    Nothing,
    /// The connection failed
    Failed,
}

/// What to do next for the next event
#[derive(Debug)]
pub enum NextStep {
    /// Answer with this
    Return(Option<InputMethodEvent>),
    /// Poll the X server
    Poll,
}

/// An X11 input method
#[derive(Debug)]
pub struct InputMethod {
    root_window: u32,
    serial: u32,
    keyboard_mapping: Option<CachedKeyboardMapping>,
    events: VecDeque<InputMethodEvent>,
    state: InputMethodState,
    focused_window: Option<u32>,
}

/// An X11 input method, as contracts see it.
#[verifier::ext_equal]
pub struct X11Model {
    /// The root window
    pub root_window: u32,
    /// How many activations there were
    pub serial: u32,
    /// The keyboard mapping, once it is loaded
    pub keyboard_mapping: Option<CachedKeyboardMapping>,
    /// Events that the program has not taken yet, oldest first
    pub events: Seq<InputMethodEvent>,
    /// What the program sees
    pub state: InputMethodState,
    /// The window that has the focus
    pub focused_window: Option<u32>,
}

impl View for InputMethod {
    type V = X11Model;

    closed spec fn view(&self) -> X11Model {
        X11Model {
            root_window: self.root_window,
            serial: self.serial,
            keyboard_mapping: self.keyboard_mapping,
            events: self.events@,
            state: self.state,
            focused_window: self.focused_window,
        }
    }
}

/// The window that a focus answer names: 0 stands for no window, and 1 for
/// whatever the pointer is on.
pub open spec fn focus_window(focus: u32) -> Option<u32> {
    if focus > 1 {
        Some(focus)
    } else {
        None
    }
}

impl X11Model {
    /// Right after connecting.
    pub open spec fn initial(root_window: u32) -> X11Model {
        X11Model {
            root_window,
            serial: 0,
            keyboard_mapping: None,
            events: Seq::empty(),
            state: InputMethodState::initial(),
            focused_window: None,
        }
    }

    /// Becoming active, with the next serial.
    pub open spec fn activated(self) -> X11Model {
        let serial = (self.serial + 1) as u32;
        X11Model {
            serial,
            state: InputMethodState { active: true, serial, ..self.state },
            ..self
        }
    }

    /// Becoming inactive.
    pub open spec fn deactivated(self) -> X11Model {
        X11Model { state: InputMethodState { active: false, ..self.state }, ..self }
    }

    /// Whether `check_focus` finds an inactive input method with a newly
    /// focused window.
    pub open spec fn focus_activates(self, focus: u32) -> bool {
        focus_window(focus) != self.focused_window && focus_window(focus) is Some
            && !self.state.active
    }

    /// After asking the X server for the focus.
    pub open spec fn focus_checked(self, focus: u32) -> X11Model {
        let focused = X11Model { focused_window: focus_window(focus), ..self };
        if self.focus_activates(focus) {
            let active = focused.activated();
            X11Model {
                events: active.events.push(InputMethodEvent::Activate { serial: active.serial }),
                ..active
            }
        } else if focus_window(focus) != self.focused_window && focus_window(focus) is None
            && self.state.active {
            let inactive = focused.deactivated();
            X11Model { events: inactive.events.push(InputMethodEvent::Deactivate), ..inactive }
        } else {
            focused
        }
    }

    /// Whether an event makes the input method active.
    pub open spec fn activates(self, event: X11Event) -> bool {
        event is FocusIn && !self.state.active
    }

    /// After an event of the X server.
    pub open spec fn after(self, event: X11Event) -> X11Model {
        match event {
            X11Event::FocusIn { window } => {
                let focused = X11Model { focused_window: Some(window), ..self };
                if self.state.active {
                    focused
                } else {
                    focused.activated()
                }
            },
            X11Event::FocusOut { .. } => if self.state.active {
                self.deactivated()
            } else {
                self
            },
            X11Event::MappingNotify { mapping: Some(mapping) } => X11Model {
                keyboard_mapping: Some(mapping),
                ..self
            },
            _ => self,
        }
    }

    /// What the program is told of an event of the X server.
    pub open spec fn told(self, event: X11Event) -> Option<InputMethodEvent> {
        match event {
            X11Event::FocusIn { .. } => if self.state.active {
                None
            } else {
                Some(InputMethodEvent::Activate { serial: (self.serial + 1) as u32 })
            },
            X11Event::FocusOut { .. } => if self.state.active {
                Some(InputMethodEvent::Deactivate)
            } else {
                None
            },
            _ => None,
        }
    }

    /// Without the oldest event that waits.
    pub open spec fn taken(self) -> X11Model {
        if self.events.len() == 0 {
            self
        } else {
            X11Model { events: self.events.drop_first(), ..self }
        }
    }

    /// The oldest event that waits.
    pub open spec fn oldest(self) -> Option<InputMethodEvent> {
        if self.events.len() == 0 {
            None
        } else {
            Some(self.events[0])
        }
    }

    /// Whether keysyms can be looked up, once a mapping is loaded.
    pub open spec fn mapping_wf(self) -> bool {
        self.keyboard_mapping matches Some(mapping) ==> mapping.wf()
    }
}

/// Whether `r` is the refusal of an input method without keyboard mapping.
pub open spec fn refused_without_mapping<T>(r: Result<T, Error>) -> bool {
    r matches Err(Error::ConnectionFailed(text)) && text@ == "No keyboard mapping"@
}

impl InputMethod {
    /// An input method right after connecting: still without keyboard mapping
    /// and without focus.
    pub fn new(root_window: u32) -> (r: Self)
        ensures
            r@ == X11Model::initial(root_window),
    {
        InputMethod {
            root_window,
            serial: 0,
            keyboard_mapping: None,
            events: VecDeque::new(),
            state: InputMethodState::new(),
            focused_window: None,
        }
    }

    /// The root window.
    pub fn root_window(&self) -> (r: u32)
        ensures
            r == self@.root_window,
    {
        self.root_window
    }

    /// Whether keysyms can be looked up in the keyboard mapping, if there is
    /// one.
    pub fn has_valid_mapping(&self) -> (r: bool)
        ensures
            r == self@.mapping_wf(),
    {
        match &self.keyboard_mapping {
            Some(mapping) => mapping.is_well_formed(),
            None => true,
        }
    }

    /// A keyboard mapping was loaded, or could not be. The mapping from before
    /// is kept on failure.
    pub fn refresh_keyboard_mapping(
        &mut self,
        loaded: Result<CachedKeyboardMapping, Error>,
    ) -> (r: Result<(), Error>)
        ensures
            match loaded {
                Ok(mapping) => r is Ok && final(self)@ == (X11Model {
                    keyboard_mapping: Some(mapping),
                    ..old(self)@
                }),
                Err(e) => r == Err::<(), Error>(e) && final(self)@ == old(self)@,
            },
    {
        match loaded {
            Ok(mapping) => {
                self.keyboard_mapping = Some(mapping);
                Ok(())
            },
            Err(e) => Err(e),
        }
    }

    /// The X server was asked for the focus.
    pub fn check_focus(&mut self, focus: u32)
        requires
            old(self)@.focus_activates(focus) ==> old(self)@.serial < u32::MAX,
        ensures
            final(self)@ == old(self)@.focus_checked(focus),
    {
        let new_focus = if focus > 1 {
            Some(focus)
        } else {
            None
        };
        let changed = match (new_focus, self.focused_window) {
            (Some(new), Some(known)) => new != known,
            (None, None) => false,
            _ => true,
        };
        if changed {
            self.focused_window = new_focus;
            if new_focus.is_some() && !self.state.active {
                self.serial = self.serial + 1;
                self.state.active = true;
                self.state.serial = self.serial;
                self.events.push_back(InputMethodEvent::Activate { serial: self.serial });
            } else if new_focus.is_none() && self.state.active {
                self.state.active = false;
                self.events.push_back(InputMethodEvent::Deactivate);
            }
        }
    }

    /// One step towards the next event: events that wait come first, then the X
    /// server is polled until it brings an event for the program or has none.
    pub fn next_event(&mut self, polled: Polled) -> (r: NextStep)
        requires
            polled matches Polled::Event(event) ==> old(self)@.activates(event)
                ==> old(self)@.serial < u32::MAX,
        ensures
            match polled {
                Polled::NotYet => final(self)@ == old(self)@.taken() && r == (match old(
                    self,
                )@.oldest() {
                    Some(event) => NextStep::Return(Some(event)),
                    None => NextStep::Poll,
                }),
                Polled::Event(event) => final(self)@ == old(self)@.after(event) && r == (match old(
                    self,
                )@.told(event) {
                    Some(event) => NextStep::Return(Some(event)),
                    None => NextStep::Poll,
                }),
                Polled::Nothing | Polled::Failed => final(self)@ == old(self)@.taken() && r
                    == NextStep::Return(old(self)@.oldest()),
            },
    {
        match polled {
            Polled::NotYet => match self.events.pop_front() {
                Some(event) => NextStep::Return(Some(event)),
                None => NextStep::Poll,
            },
            Polled::Event(event) => match self.process_x11_event(event) {
                Some(event) => NextStep::Return(Some(event)),
                None => NextStep::Poll,
            },
            Polled::Nothing | Polled::Failed => NextStep::Return(self.events.pop_front()),
        }
    }

    /// An event of the X server: what the program is told of it, if anything.
    pub fn process_x11_event(&mut self, event: X11Event) -> (r: Option<InputMethodEvent>)
        requires
            old(self)@.activates(event) ==> old(self)@.serial < u32::MAX,
        ensures
            final(self)@ == old(self)@.after(event),
            r == old(self)@.told(event),
    {
        match event {
            X11Event::FocusIn { window } => {
                self.focused_window = Some(window);
                if !self.state.active {
                    self.serial = self.serial + 1;
                    self.state.active = true;
                    self.state.serial = self.serial;
                    return Some(InputMethodEvent::Activate { serial: self.serial });
                }
            },
            X11Event::FocusOut { window: _ } => {
                if self.state.active {
                    self.state.active = false;
                    return Some(InputMethodEvent::Deactivate);
                }
            },
            X11Event::MappingNotify { mapping } => {
                if let Some(mapping) = mapping {
                    self.keyboard_mapping = Some(mapping);
                }
            },
            X11Event::KeyPress => {},
            X11Event::PropertyNotify => {},
            X11Event::Other => {},
        }
        None
    }

    /// The X server was waited on: queues what the program is told.
    pub fn dispatch(&mut self, waited: Result<X11Event, String>) -> (r: Result<(), Error>)
        requires
            waited matches Ok(event) ==> old(self)@.activates(event) ==> old(self)@.serial
                < u32::MAX,
        ensures
            match waited {
                Ok(event) => {
                    &&& r is Ok
                    &&& final(self)@ == ({
                        let after = old(self)@.after(event);
                        match old(self)@.told(event) {
                            Some(told) => X11Model { events: after.events.push(told), ..after },
                            None => after,
                        }
                    })
                },
                Err(text) => r == Err::<(), Error>(Error::ConnectionFailed(text)) && final(self)@
                    == old(self)@,
            },
    {
        match waited {
            Ok(event) => {
                if let Some(told) = self.process_x11_event(event) {
                    self.events.push_back(told);
                }
                Ok(())
            },
            Err(text) => Err(Error::ConnectionFailed(text)),
        }
    }

    /// Check if the input method is active.
    pub fn is_active(&self) -> (r: bool)
        ensures
            r == self@.state.active,
    {
        self.state.active
    }

    /// Returns the current operational status.
    pub fn status(&self) -> (r: Status)
        ensures
            r == (if self@.state.active {
                Status::Active
            } else {
                Status::Inactive
            }),
    {
        if self.state.active {
            Status::Active
        } else {
            Status::Inactive
        }
    }

    /// Commit text to the focused window using XTest extension
    pub fn commit_string(&self, text: &str) -> (r: Result<Vec<FakeKey>, Error>)
        requires
            self@.mapping_wf(),
        ensures
            match self@.keyboard_mapping {
                Some(mapping) => r matches Ok(keys) && keys@ == text_keys(&mapping, text@),
                None => refused_without_mapping(r),
            },
    {
        match &self.keyboard_mapping {
            Some(mapping) => Ok(commit_string(mapping, text)),
            None => Err(Error::ConnectionFailed("No keyboard mapping".to_string())),
        }
    }

    /// Composing text has no place in XTest: nothing is done.
    pub fn set_preedit_string(&self, _text: &str, _cursor_begin: i32, _cursor_end: i32) -> (r:
        Result<(), Error>)
        ensures
            r is Ok,
    {
        Ok(())
    }

    /// Delete surrounding text by sending backspace/delete keys
    pub fn delete_surrounding_text(&self, before: u32, after: u32) -> (r: Result<
        DeletionPlan<u8>,
        Error,
    >)
        requires
            self@.mapping_wf(),
        ensures
            match self@.keyboard_mapping {
                Some(mapping) => r == Ok::<DeletionPlan<u8>, Error>(
                    DeletionPlan {
                        backspace: mapping.key_or(XK_BACKSPACE, 22),
                        before,
                        delete: mapping.key_or(XK_DELETE, 119),
                        after,
                    },
                ),
                None => refused_without_mapping(r),
            },
    {
        match &self.keyboard_mapping {
            Some(mapping) => Ok(delete_surrounding_text(mapping, before, after)),
            None => Err(Error::ConnectionFailed("No keyboard mapping".to_string())),
        }
    }

    /// Commit changes (nothing to do, as commits are immediate)
    pub fn commit(&self, _serial: u32) -> (r: Result<(), Error>)
        ensures
            r is Ok,
    {
        Ok(())
    }

    /// The keyboard cannot be grabbed.
    pub fn grab_keyboard(&mut self) -> (r: Result<(), Error>)
        ensures
            final(self)@ == old(self)@,
            r matches Err(Error::ProtocolNotSupported(text)) && text@
                == "Keyboard grab not supported in X11 XTest mode"@,
    {
        Err(
            Error::ProtocolNotSupported(
                "Keyboard grab not supported in X11 XTest mode".to_string(),
            ),
        )
    }

    /// Get the current state.
    pub fn state(&self) -> (r: InputMethodState)
        ensures
            r == self@.state,
    {
        self.state.clone()
    }
}

impl X11Model {
    /// After a row of events of the X server.
    pub open spec fn after_all(self, events: Seq<X11Event>) -> X11Model
        decreases events.len(),
    {
        if events.len() == 0 {
            self
        } else {
            self.after_all(events.drop_last()).after(events.last())
        }
    }

    /// What the program is told of a row of events of the X server.
    pub open spec fn told_all(self, events: Seq<X11Event>) -> Seq<InputMethodEvent>
        decreases events.len(),
    {
        if events.len() == 0 {
            Seq::empty()
        } else {
            let before = self.told_all(events.drop_last());
            match self.after_all(events.drop_last()).told(events.last()) {
                Some(event) => before.push(event),
                None => before,
            }
        }
    }
}

/// Activations and deactivations alternate, an inactive input method is
/// activated first, and each activation bears the serial after that of the
/// activation before it.
pub proof fn activations_alternate(m: X11Model, events: Seq<X11Event>)
    requires
        m.serial + events.len() <= u32::MAX,
    ensures
        ({
            let told = m.told_all(events);
            &&& told.len() <= events.len()
            &&& forall|i: int|
                0 <= i < told.len() ==> #[trigger] told[i] == if (i % 2 == 0) != m.state.active {
                    InputMethodEvent::Activate { serial: (m.serial + i / 2 + 1) as u32 }
                } else {
                    InputMethodEvent::Deactivate
                }
            &&& m.after_all(events).state.active == if told.len() % 2 == 0 {
                m.state.active
            } else {
                !m.state.active
            }
            &&& m.after_all(events).serial == m.serial + (if m.state.active {
                told.len() / 2
            } else {
                (told.len() + 1) / 2
            })
        }),
    decreases events.len(),
{
    if events.len() > 0 {
        activations_alternate(m, events.drop_last());
    }
}

/// The state shows the serial of the last activation.
pub proof fn state_shows_serial(m: X11Model, events: Seq<X11Event>)
    requires
        m.state.serial == m.serial,
    ensures
        m.after_all(events).state.serial == m.after_all(events).serial,
    decreases events.len(),
{
    if events.len() > 0 {
        state_shows_serial(m, events.drop_last());
    }
}

/// Asking for the focus again, with the same answer, changes nothing.
pub proof fn checking_focus_twice_is_checking_once(m: X11Model, focus: u32)
    ensures
        m.focus_checked(focus).focus_checked(focus) == m.focus_checked(focus),
{
}

/// Whether an event brings a keyboard mapping.
pub open spec fn brings_mapping(event: X11Event) -> bool {
    event matches X11Event::MappingNotify { mapping: Some(_) }
}

/// The keyboard mapping is the one that the last event brought, whatever mapping
/// there was before.
pub proof fn mapping_is_the_last_brought(m: X11Model, events: Seq<X11Event>, i: int)
    requires
        0 <= i < events.len(),
        brings_mapping(events[i]),
        forall|j: int| i < j < events.len() ==> !brings_mapping(#[trigger] events[j]),
    ensures
        events[i] matches X11Event::MappingNotify { mapping } && m.after_all(
            events,
        ).keyboard_mapping == mapping,
    decreases events.len(),
{
    let less = events.drop_last();
    if i < less.len() {
        assert(less[i] == events[i]);
        assert(forall|j: int| i < j < less.len() ==> #[trigger] less[j] == events[j]);
        assert(!brings_mapping(events[events.len() - 1]));
        mapping_is_the_last_brought(m, less, i);
    }
}

/// Where no event brings a keyboard mapping, the one from before stays. Events of
/// the X server never queue anything themselves, and keep the root window.
pub proof fn mapping_stays(m: X11Model, events: Seq<X11Event>)
    ensures
        (forall|j: int| 0 <= j < events.len() ==> !brings_mapping(#[trigger] events[j]))
            ==> m.after_all(events).keyboard_mapping == m.keyboard_mapping,
        m.after_all(events).events == m.events,
        m.after_all(events).root_window == m.root_window,
    decreases events.len(),
{
    if events.len() > 0 {
        let less = events.drop_last();
        mapping_stays(m, less);
        assert(forall|j: int| 0 <= j < less.len() ==> #[trigger] less[j] == events[j]);
        assert(events.last() == events[events.len() - 1]);
    }
}

/// The input method is active exactly if the last focus event was a window that
/// got the focus, and that window is the focused one.
pub proof fn last_focus_event_decides(m: X11Model, events: Seq<X11Event>, i: int)
    requires
        0 <= i < events.len(),
        events[i] is FocusIn || events[i] is FocusOut,
        forall|j: int|
            i < j < events.len() ==> !(#[trigger] events[j] is FocusIn) && !(events[j] is FocusOut),
    ensures
        m.after_all(events).state.active <==> events[i] is FocusIn,
        events[i] matches X11Event::FocusIn { window } ==> m.after_all(events).focused_window
            == Some(window),
    decreases events.len(),
{
    let less = events.drop_last();
    if i < less.len() {
        assert(less[i] == events[i]);
        assert(forall|j: int| i < j < less.len() ==> #[trigger] less[j] == events[j]);
        let last = events[events.len() - 1];
        assert(!(last is FocusIn) && !(last is FocusOut));
        last_focus_event_decides(m, less, i);
    }
}

/// An event is told exactly if it changes whether the input method is active: a
/// window that gets the focus as an activation with the next serial, one that
/// loses it as a deactivation. The rest of the state stays.
pub proof fn changes_of_focus_are_told(m: X11Model, event: X11Event)
    requires
        m.serial < u32::MAX,
    ensures
        ({
            let after = m.after(event);
            &&& m.told(event) is Some <==> after.state.active != m.state.active
            &&& event is FocusIn ==> after.state.active
            &&& event is FocusOut ==> !after.state.active
            &&& !(event is FocusIn) && !(event is FocusOut) ==> after.state == m.state
                && after.serial == m.serial && after.focused_window == m.focused_window
            &&& m.told(event) matches Some(told) ==> (if after.state.active {
                told == (InputMethodEvent::Activate { serial: (m.serial + 1) as u32 })
                    && after.serial == m.serial + 1 && after.state.serial == m.serial + 1
            } else {
                told == InputMethodEvent::Deactivate && after.serial == m.serial
                    && after.state.serial == m.state.serial
            })
            &&& after.state.surrounding_text == m.state.surrounding_text
            &&& after.state.content_purpose == m.state.content_purpose
        }),
{
}

/// Asking for the focus gives the window that has it, where 0 and 1 stand for
/// none. If that is news, the input method is active exactly if there is such a
/// window, and a change of that is queued; if it is no news, nothing changes.
pub proof fn asked_focus_decides(m: X11Model, focus: u32)
    requires
        m.serial < u32::MAX,
    ensures
        ({
            let after = m.focus_checked(focus);
            let news = m.focused_window != if focus > 1 {
                Some(focus)
            } else {
                None
            };
            &&& after.focused_window == if focus > 1 {
                Some(focus)
            } else {
                None
            }
            &&& news ==> after.state.active == (focus > 1)
            &&& !news ==> after == m
            &&& after.state.active == m.state.active ==> after.events == m.events && after.serial
                == m.serial
            &&& after.state.active && !m.state.active ==> after.serial == m.serial + 1
                && after.state.serial == after.serial && after.events == m.events.push(
                InputMethodEvent::Activate { serial: after.serial },
            )
            &&& !after.state.active && m.state.active ==> after.serial == m.serial && after.events
                == m.events.push(InputMethodEvent::Deactivate)
            &&& after.keyboard_mapping == m.keyboard_mapping
        }),
{
}

/// Events are taken oldest first, and taking one changes nothing else.
pub proof fn oldest_event_is_taken(m: X11Model)
    ensures
        m.events.len() == 0 <==> m.oldest() is None,
        m.oldest() matches Some(event) ==> seq![event] + m.taken().events == m.events,
        m.events.len() == 0 ==> m.taken() == m,
        m.taken().state == m.state,
        m.taken().serial == m.serial,
        m.taken().keyboard_mapping == m.keyboard_mapping,
        m.taken().focused_window == m.focused_window,
{
}

/// A new input method is for its root window, and has no mapping, no focus and
/// nothing to tell.
pub proof fn new_input_method_is_idle(root_window: u32)
    ensures
        ({
            let m = X11Model::initial(root_window);
            &&& m.root_window == root_window
            &&& m.serial == 0
            &&& !m.state.active
            &&& m.state.serial == 0
            &&& m.keyboard_mapping is None
            &&& m.focused_window is None
            &&& m.events.len() == 0
        }),
{
}

} // verus!
