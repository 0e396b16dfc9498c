//! The client side of the `zwp_input_method_v2` protocol.
//!
//! [`InputMethodData`] holds what the compositor has told so far and queues
//! events for the program; [`InputMethod`] answers the program and says which
//! requests to send. Seats are known by their number in the registry.
use std::collections::VecDeque;

use vstd::prelude::*;

use crate::error::Error;
use crate::text::{prefixed, same_text};
use crate::types::{
    ChangeCause, ContentHint, ContentPurpose, InputMethodEvent, InputMethodState, KeyState,
    Modifiers, Status,
};

verus! {

/// A seat of the compositor
#[derive(Debug)]
pub struct Seat {
    /// Its number in the registry
    pub global: u32,
    /// Its name, once the compositor has told it
    pub name: Option<String>,
}

/// A seat, as contracts see it.
#[verifier::ext_equal]
pub struct SeatModel {
    /// Its number in the registry
    pub global: u32,
    /// Its name
    pub name: Option<Seq<char>>,
}

impl View for Seat {
    type V = SeatModel;

    open spec fn view(&self) -> SeatModel {
        SeatModel {
            global: self.global,
            name: match self.name {
                Some(name) => Some(name@),
                None => None,
            },
        }
    }
}

/// Interfaces of the registry that an input method binds
#[derive(Debug, Clone, Copy, PartialEq, Eq, Structural)]
pub enum Interface {
    /// `zwp_input_method_manager_v2`
    InputMethodManager,
    /// `wl_seat`
    Seat,
    /// `wl_compositor`
    Compositor,
    /// `zwp_virtual_keyboard_manager_v1`
    VirtualKeyboardManager,
}

/// A global of the registry to bind
#[derive(Debug, Clone, Copy, PartialEq, Eq, Structural)]
pub struct Binding {
    /// As which interface
    pub interface: Interface,
    /// In which version
    pub version: u32,
}

/// Events of a `zwp_input_method_v2` object, with enumerations as numbers
#[derive(Debug)]
pub enum ProtocolEvent {
    /// A text field got the focus
    Activate,
    /// No text field has the focus
    Deactivate,
    /// The text around the cursor
    SurroundingText {
        /// The text
        text: String,
        /// Cursor position in bytes
        cursor: u32,
        /// Anchor position in bytes
        anchor: u32,
    },
    /// What changed the text
    TextChangeCause {
        /// A `zwp_text_input_v3.change_cause`
        cause: u32,
    },
    /// What the text field is for
    ContentType {
        /// A `zwp_text_input_v3.content_hint`
        hint: u32,
        /// A `zwp_text_input_v3.content_purpose`
        purpose: u32,
    },
    /// All events before this one belong together
    Done,
    /// The compositor withdraws the input method
    Unavailable,
}

/// Requests to a `zwp_input_method_v2` object
#[derive(Debug)]
pub enum InputMethodRequest {
    /// Insert text
    CommitString {
        /// The text
        text: String,
    },
    /// Show composing text
    SetPreeditString {
        /// The text
        text: String,
        /// Where the cursor begins, in bytes
        cursor_begin: i32,
        /// Where the cursor ends, in bytes
        cursor_end: i32,
    },
    /// Delete text around the cursor
    DeleteSurroundingText {
        /// How much before the cursor
        before_length: u32,
        /// How much after the cursor
        after_length: u32,
    },
    /// Apply the requests before this one
    Commit {
        /// Number of `done` events seen
        serial: u32,
    },
}

/// A request, as contracts see it.
#[verifier::ext_equal]
pub enum RequestModel {
    /// Insert text
    CommitString {
        /// The text
        text: Seq<char>,
    },
    /// Show composing text
    SetPreeditString {
        /// The text
        text: Seq<char>,
        /// Where the cursor begins, in bytes
        cursor_begin: i32,
        /// Where the cursor ends, in bytes
        cursor_end: i32,
    },
    /// Delete text around the cursor
    DeleteSurroundingText {
        /// How much before the cursor
        before_length: u32,
        /// How much after the cursor
        after_length: u32,
    },
    /// Apply the requests before this one
    Commit {
        /// Number of `done` events seen
        serial: u32,
    },
}

impl View for InputMethodRequest {
    type V = RequestModel;

    open spec fn view(&self) -> RequestModel {
        match *self {
            InputMethodRequest::CommitString { text } => RequestModel::CommitString { text: text@ },
            InputMethodRequest::SetPreeditString { text, cursor_begin, cursor_end } => {
                RequestModel::SetPreeditString { text: text@, cursor_begin, cursor_end }
            },
            InputMethodRequest::DeleteSurroundingText { before_length, after_length } => {
                RequestModel::DeleteSurroundingText { before_length, after_length }
            },
            InputMethodRequest::Commit { serial } => RequestModel::Commit { serial },
        }
    }
}

impl InputMethodRequest {
    /// Whether the connection is flushed after this request: the requests before
    /// a commit wait for it.
    pub fn needs_flush(&self) -> (r: bool)
        ensures
            r == (self@ is Commit),
    {
        matches!(self, InputMethodRequest::Commit { .. })
    }
}

/// The `key` request to a virtual keyboard
#[derive(Debug, Clone, Copy, PartialEq, Eq, Structural)]
pub struct VirtualKey {
    /// Time of the key event, in milliseconds
    pub time: u32,
    /// Key code
    pub key: u32,
    /// 1 for a press, 0 for a release
    pub state: u32,
}

/// The `modifiers` request to a virtual keyboard
#[derive(Debug, Clone, Copy, PartialEq, Eq, Structural)]
pub struct VirtualModifiers {
    /// Modifiers that are held
    pub mods_depressed: u32,
    /// Modifiers that are latched
    pub mods_latched: u32,
    /// Modifiers that are locked
    pub mods_locked: u32,
    /// Keyboard layout
    pub group: u32,
}

/// The `keymap` request to a virtual keyboard, next to the file descriptor
#[derive(Debug, Clone, Copy, PartialEq, Eq, Structural)]
pub struct VirtualKeymap {
    /// Keymap format
    pub format: u32,
    /// Size of the keymap in bytes
    pub size: u32,
}

/// The masks to update an XKB state with
#[derive(Debug, Clone, Copy, PartialEq, Eq, Structural)]
pub struct XkbMask {
    /// Modifiers that are held
    pub depressed_mods: u32,
    /// Modifiers that are latched
    pub latched_mods: u32,
    /// Modifiers that are locked
    pub locked_mods: u32,
    /// Layout that is held
    pub depressed_layout: u32,
    /// Layout that is latched
    pub latched_layout: u32,
    /// Layout that is locked
    pub locked_layout: u32,
}

/// Events of a grabbed keyboard, as contracts see them, with what the keymap
/// says of them.
#[verifier::ext_equal]
pub enum GrabEvent {
    /// A keymap
    Keymap {
        /// Whether it could be compiled
        compiled: bool,
        /// Whether its file descriptor was duplicated
        duplicated: bool,
    },
    /// A key
    Key {
        /// Time in milliseconds
        time: u32,
        /// Key code
        key: u32,
        /// A `wl_keyboard.key_state`
        key_state: u32,
        /// Keysym under the keymap
        keysym: u32,
    },
    /// The modifiers changed
    Modifiers {
        /// The modifiers that are in effect under the keymap
        effective: Modifiers,
    },
    /// Key repeat settings
    RepeatInfo {
        /// Repeats per second
        rate: i32,
        /// Milliseconds before the first repeat
        delay: i32,
    },
}

/// Events of all the protocol objects, as contracts see them.
#[verifier::ext_equal]
pub enum SessionEvent {
    /// An event of the input method object
    InputMethod(ProtocolEvent),
    /// An event of the grabbed keyboard
    Keyboard(GrabEvent),
    /// A popup surface was placed
    Popup {
        /// X position relative to cursor
        x: i32,
        /// Y position relative to cursor
        y: i32,
        /// Width of the text cursor area
        width: i32,
        /// Height of the text cursor area
        height: i32,
    },
    /// A global of the registry was bound
    Global {
        /// As which interface
        interface: Interface,
        /// Its number in the registry
        global: u32,
    },
    /// A seat told its name
    SeatName {
        /// Its number in the registry
        seat: u32,
        /// The name
        name: Seq<char>,
    },
}

/// A request that takes a popup surface away
#[derive(Debug, Clone, Copy, PartialEq, Eq, Structural)]
pub enum PopupRequest {
    /// Destroy the popup object
    DestroyPopup,
    /// Destroy the surface under it
    DestroySurface,
}

/// A popup surface for rendering candidate windows. The compositor sends its
/// position. Dropping this value sends nothing: who owns the protocol objects
/// sends what [`destroy`](PopupSurface::destroy) gives.
#[derive(Debug)]
pub struct PopupSurface {
    alive: bool,
}

impl PopupSurface {
    /// Whether the popup was not destroyed yet.
    pub closed spec fn is_alive(&self) -> bool {
        self.alive
    }

    /// The requests that destroy the popup, in order: the popup goes before the
    /// surface that it was made for. A popup is destroyed once.
    pub fn destroy(&mut self) -> (r: Vec<PopupRequest>)
        ensures
            !final(self).is_alive(),
            r@ == (if old(self).is_alive() {
                seq![PopupRequest::DestroyPopup, PopupRequest::DestroySurface]
            } else {
                Seq::empty()
            }),
    {
        let mut requests: Vec<PopupRequest> = Vec::new();
        if self.alive {
            self.alive = false;
            requests.push(PopupRequest::DestroyPopup);
            requests.push(PopupRequest::DestroySurface);
        }
        requests
    }
}

/// What to do with the keymap of a grabbed keyboard
#[derive(Debug, Clone, Copy, PartialEq, Eq, Structural)]
pub struct KeymapPlan {
    /// Duplicate its file descriptor for the virtual keyboard
    pub duplicate: bool,
    /// Compile it
    pub compile: bool,
}

/// Data of an input method
#[derive(Debug)]
pub struct InputMethodData {
    manager: bool,
    seats: Vec<Seat>,
    input_method: Option<u32>,
    keyboard_grab: bool,
    state: InputMethodState,
    events: VecDeque<InputMethodEvent>,
    done_serial: u32,
    pending_activate: bool,
    unavailable: bool,
    compositor: bool,
    keymap_loaded: bool,
    current_modifiers: Modifiers,
    last_key_time: u32,
    virtual_keyboard_manager: bool,
    virtual_keyboard: Option<u32>,
    keymap_sent_to_vkb: bool,
}

/// The data of an input method, as contracts see it.
#[verifier::ext_equal]
pub struct InputMethodModel {
    /// Whether the compositor has an input method manager
    pub manager: bool,
    /// The seats, in the order in which the compositor announced them
    pub seats: Seq<SeatModel>,
    /// The seat of the input method object, once there is one
    pub input_method: Option<u32>,
    /// Whether the keyboard is grabbed
    pub keyboard_grab: bool,
    /// What the program sees of the text field
    pub state: InputMethodState,
    /// Events that the program has not taken yet, oldest first
    pub events: Seq<InputMethodEvent>,
    /// How many `done` events there were
    pub done_serial: u32,
    /// Whether an activation waits for its `done` event
    pub pending_activate: bool,
    /// Whether the compositor withdrew the input method
    pub unavailable: bool,
    /// Whether the compositor can make surfaces
    pub compositor: bool,
    /// Whether a keymap was compiled
    pub keymap_loaded: bool,
    /// The modifiers of the grabbed keyboard
    pub current_modifiers: Modifiers,
    /// Time of the last key of the grabbed keyboard
    pub last_key_time: u32,
    /// Whether the compositor has virtual keyboards
    pub virtual_keyboard_manager: bool,
    /// The seat of the virtual keyboard, once there is one
    pub virtual_keyboard: Option<u32>,
    /// Whether the virtual keyboard has a keymap
    pub keymap_sent_to_vkb: bool,
}

/// The key state that a number of the protocol stands for.
pub open spec fn key_state_of(raw: u32) -> KeyState {
    if raw == 1 {
        KeyState::Pressed
    } else {
        KeyState::Released
    }
}

/// The change cause that a number of the protocol stands for.
pub open spec fn change_cause_of(raw: u32) -> ChangeCause {
    if raw == 0 {
        ChangeCause::InputMethod
    } else {
        ChangeCause::Other
    }
}

/// The hints that a bit set of the protocol stands for.
pub open spec fn content_hint_of(raw: u32) -> ContentHint {
    ContentHint {
        completion: raw & 0x1 != 0,
        spellcheck: raw & 0x2 != 0,
        auto_capitalization: raw & 0x4 != 0,
        lowercase: raw & 0x8 != 0,
        uppercase: raw & 0x10 != 0,
        titlecase: raw & 0x20 != 0,
        hidden_text: raw & 0x40 != 0,
        sensitive_data: raw & 0x80 != 0,
        latin: raw & 0x100 != 0,
        multiline: raw & 0x200 != 0,
    }
}

/// The purpose that a number of the protocol stands for. Unknown numbers stand
/// for normal text.
pub open spec fn content_purpose_of(raw: u32) -> ContentPurpose {
    if raw == 1 {
        ContentPurpose::Alpha
    } else if raw == 2 {
        ContentPurpose::Digits
    } else if raw == 3 {
        ContentPurpose::Number
    } else if raw == 4 {
        ContentPurpose::Phone
    } else if raw == 5 {
        ContentPurpose::Url
    } else if raw == 6 {
        ContentPurpose::Email
    } else if raw == 7 {
        ContentPurpose::Name
    } else if raw == 8 {
        ContentPurpose::Password
    } else if raw == 9 {
        ContentPurpose::Pin
    } else if raw == 10 {
        ContentPurpose::Date
    } else if raw == 11 {
        ContentPurpose::Time
    } else if raw == 12 {
        ContentPurpose::Datetime
    } else if raw == 13 {
        ContentPurpose::Terminal
    } else {
        ContentPurpose::Normal
    }
}

/// The interface with a name, and the highest version of it that is bound.
pub open spec fn interface_named(name: Seq<char>) -> Option<(Interface, u32)> {
    if name == "zwp_input_method_manager_v2"@ {
        Some((Interface::InputMethodManager, 1u32))
    } else if name == "wl_seat"@ {
        Some((Interface::Seat, 8u32))
    } else if name == "wl_compositor"@ {
        Some((Interface::Compositor, 5u32))
    } else if name == "zwp_virtual_keyboard_manager_v1"@ {
        Some((Interface::VirtualKeyboardManager, 1u32))
    } else {
        None
    }
}

/// Whether `i` is the first seat with a number in the registry.
pub open spec fn first_with_global(seats: Seq<SeatModel>, global: u32, i: int) -> bool {
    &&& 0 <= i < seats.len()
    &&& seats[i].global == global
    &&& forall|j: int| 0 <= j < i ==> (#[trigger] seats[j]).global != global
}

/// Whether `i` is the first seat with a name.
pub open spec fn first_with_name(seats: Seq<SeatModel>, name: Seq<char>, i: int) -> bool {
    &&& 0 <= i < seats.len()
    &&& seats[i].name == Some(name)
    &&& forall|j: int| 0 <= j < i ==> (#[trigger] seats[j]).name != Some(name)
}

impl InputMethodModel {
    /// Before anything was heard from the compositor.
    pub open spec fn initial() -> InputMethodModel {
        InputMethodModel {
            manager: false,
            seats: Seq::empty(),
            input_method: None,
            keyboard_grab: false,
            state: InputMethodState::initial(),
            events: Seq::empty(),
            done_serial: 0,
            pending_activate: false,
            unavailable: false,
            compositor: false,
            keymap_loaded: false,
            current_modifiers: Modifiers::inactive(),
            last_key_time: 0,
            virtual_keyboard_manager: false,
            virtual_keyboard: None,
            keymap_sent_to_vkb: false,
        }
    }

    /// After a global was bound.
    pub open spec fn bound(self, interface: Interface, global: u32) -> InputMethodModel {
        match interface {
            Interface::InputMethodManager => InputMethodModel { manager: true, ..self },
            Interface::Seat => InputMethodModel {
                seats: self.seats.push(SeatModel { global, name: None }),
                ..self
            },
            Interface::Compositor => InputMethodModel { compositor: true, ..self },
            Interface::VirtualKeyboardManager => InputMethodModel {
                virtual_keyboard_manager: true,
                ..self
            },
        }
    }

    /// After the first seat with a number in the registry told its name.
    pub open spec fn seat_named(self, seat: u32, name: Seq<char>) -> InputMethodModel {
        InputMethodModel {
            seats: Seq::new(
                self.seats.len(),
                |i: int|
                    if first_with_global(self.seats, seat, i) {
                        SeatModel { global: seat, name: Some(name) }
                    } else {
                        self.seats[i]
                    },
            ),
            ..self
        }
    }

    /// After the objects for a seat were made: the input method, and a virtual
    /// keyboard where the compositor has them.
    pub open spec fn on_seat(self, global: u32) -> InputMethodModel {
        InputMethodModel {
            input_method: Some(global),
            virtual_keyboard: if self.virtual_keyboard_manager {
                Some(global)
            } else {
                self.virtual_keyboard
            },
            ..self
        }
    }

    /// With one more event for the program.
    pub open spec fn queued(self, event: InputMethodEvent) -> InputMethodModel {
        InputMethodModel { events: self.events.push(event), ..self }
    }

    /// After an event of the input method object.
    pub open spec fn after(self, event: ProtocolEvent) -> InputMethodModel {
        match event {
            ProtocolEvent::Activate => InputMethodModel {
                state: InputMethodState { active: true, ..self.state },
                pending_activate: true,
                ..self
            },
            ProtocolEvent::Deactivate => InputMethodModel {
                state: self.state.after_reset(),
                pending_activate: false,
                ..self
            }.queued(InputMethodEvent::Deactivate),
            ProtocolEvent::SurroundingText { text, cursor, anchor } => InputMethodModel {
                state: InputMethodState {
                    surrounding_text: Some(text),
                    cursor,
                    anchor,
                    ..self.state
                },
                ..self
            }.queued(InputMethodEvent::SurroundingText { text, cursor, anchor }),
            ProtocolEvent::TextChangeCause { cause } => InputMethodModel {
                state: InputMethodState { change_cause: change_cause_of(cause), ..self.state },
                ..self
            }.queued(InputMethodEvent::TextChangeCause(change_cause_of(cause))),
            ProtocolEvent::ContentType { hint, purpose } => InputMethodModel {
                state: InputMethodState {
                    content_hint: content_hint_of(hint),
                    content_purpose: content_purpose_of(purpose),
                    ..self.state
                },
                ..self
            }.queued(
                InputMethodEvent::ContentType {
                    hint: content_hint_of(hint),
                    purpose: content_purpose_of(purpose),
                },
            ),
            ProtocolEvent::Done => {
                let serial = (self.done_serial + 1) as u32;
                let counted = InputMethodModel {
                    state: InputMethodState { serial, ..self.state },
                    done_serial: serial,
                    pending_activate: false,
                    ..self
                };
                if self.pending_activate {
                    counted.queued(InputMethodEvent::Activate { serial }).queued(
                        InputMethodEvent::Done,
                    )
                } else {
                    counted.queued(InputMethodEvent::Done)
                }
            },
            ProtocolEvent::Unavailable => InputMethodModel { unavailable: true, ..self }.queued(
                InputMethodEvent::Unavailable,
            ),
        }
    }

    /// After an event of the grabbed keyboard. Keys are told once there is a
    /// keymap, and a keymap goes to the virtual keyboard where there is one.
    pub open spec fn after_grab(self, event: GrabEvent) -> InputMethodModel {
        match event {
            GrabEvent::Keymap { compiled, duplicated } => InputMethodModel {
                keymap_loaded: self.keymap_loaded || compiled,
                keymap_sent_to_vkb: self.keymap_sent_to_vkb || (self.virtual_keyboard is Some
                    && duplicated),
                ..self
            },
            GrabEvent::Key { time, key, key_state, keysym } => {
                let timed = InputMethodModel { last_key_time: time, ..self };
                if self.keymap_loaded {
                    timed.queued(
                        InputMethodEvent::KeyEvent {
                            keycode: key,
                            keysym,
                            state: key_state_of(key_state),
                            modifiers: self.current_modifiers,
                        },
                    )
                } else {
                    timed
                }
            },
            GrabEvent::Modifiers { effective } => InputMethodModel {
                current_modifiers: if self.keymap_loaded {
                    effective
                } else {
                    self.current_modifiers
                },
                ..self
            },
            GrabEvent::RepeatInfo { rate, delay } => self.queued(
                InputMethodEvent::RepeatInfo { rate, delay },
            ),
        }
    }

    /// After an event of any of the protocol objects.
    #[verifier::opaque]
    pub open spec fn heard(self, event: SessionEvent) -> InputMethodModel {
        match event {
            SessionEvent::InputMethod(event) => self.after(event),
            SessionEvent::Keyboard(event) => self.after_grab(event),
            SessionEvent::Popup { x, y, width, height } => self.queued(
                InputMethodEvent::PopupSurfaceCreated { x, y, width, height },
            ),
            SessionEvent::Global { interface, global } => self.bound(interface, global),
            SessionEvent::SeatName { seat, name } => self.seat_named(seat, name),
        }
    }

    /// After a row of events of all the protocol objects, in any mix.
    pub open spec fn heard_all(self, events: Seq<SessionEvent>) -> InputMethodModel
        decreases events.len(),
    {
        if events.len() == 0 {
            self
        } else {
            self.heard_all(events.drop_last()).heard(events.last())
        }
    }

    /// Whether keys can be forwarded to the application.
    pub open spec fn forwards_keys(self) -> bool {
        self.virtual_keyboard is Some && self.keymap_sent_to_vkb
    }

    /// The operational status.
    pub open spec fn status(self) -> Status {
        if self.unavailable {
            Status::Unavailable
        } else if self.state.active {
            Status::Active
        } else {
            Status::Inactive
        }
    }
}

/// The hints that a bit set of the protocol stands for.
pub fn parse_content_hint(hint_raw: u32) -> (r: ContentHint)
    ensures
        r == content_hint_of(hint_raw),
{
    ContentHint {
        completion: hint_raw & 0x1 != 0,
        spellcheck: hint_raw & 0x2 != 0,
        auto_capitalization: hint_raw & 0x4 != 0,
        lowercase: hint_raw & 0x8 != 0,
        uppercase: hint_raw & 0x10 != 0,
        titlecase: hint_raw & 0x20 != 0,
        hidden_text: hint_raw & 0x40 != 0,
        sensitive_data: hint_raw & 0x80 != 0,
        latin: hint_raw & 0x100 != 0,
        multiline: hint_raw & 0x200 != 0,
    }
}

/// The purpose that a number of the protocol stands for.
pub fn parse_content_purpose(purpose: u32) -> (r: ContentPurpose)
    ensures
        r == content_purpose_of(purpose),
{
    match purpose {
        1 => ContentPurpose::Alpha,
        2 => ContentPurpose::Digits,
        3 => ContentPurpose::Number,
        4 => ContentPurpose::Phone,
        5 => ContentPurpose::Url,
        6 => ContentPurpose::Email,
        7 => ContentPurpose::Name,
        8 => ContentPurpose::Password,
        9 => ContentPurpose::Pin,
        10 => ContentPurpose::Date,
        11 => ContentPurpose::Time,
        12 => ContentPurpose::Datetime,
        13 => ContentPurpose::Terminal,
        _ => ContentPurpose::Normal,
    }
}

/// The change cause that a number of the protocol stands for.
pub fn parse_change_cause(cause: u32) -> (r: ChangeCause)
    ensures
        r == change_cause_of(cause),
{
    match cause {
        0 => ChangeCause::InputMethod,
        _ => ChangeCause::Other,
    }
}

/// The key state that a number of the protocol stands for: 1 is pressed, and
/// anything else released.
pub fn parse_key_state(state: u32) -> (r: KeyState)
    ensures
        r == key_state_of(state),
{
    match state {
        1 => KeyState::Pressed,
        _ => KeyState::Released,
    }
}

/// Seats, as contracts see them.
#[verifier::opaque]
pub closed spec fn seat_models(seats: Seq<Seat>) -> Seq<SeatModel> {
    Seq::new(seats.len(), |i: int| seats[i]@)
}

impl View for InputMethodData {
    type V = InputMethodModel;

    closed spec fn view(&self) -> InputMethodModel {
        InputMethodModel {
            manager: self.manager,
            seats: seat_models(self.seats@),
            input_method: self.input_method,
            keyboard_grab: self.keyboard_grab,
            state: self.state,
            events: self.events@,
            done_serial: self.done_serial,
            pending_activate: self.pending_activate,
            unavailable: self.unavailable,
            compositor: self.compositor,
            keymap_loaded: self.keymap_loaded,
            current_modifiers: self.current_modifiers,
            last_key_time: self.last_key_time,
            virtual_keyboard_manager: self.virtual_keyboard_manager,
            virtual_keyboard: self.virtual_keyboard,
            keymap_sent_to_vkb: self.keymap_sent_to_vkb,
        }
    }
}

impl Default for InputMethodData {
    fn default() -> (r: Self)
        ensures
            r@ == InputMethodModel::initial(),
    {
        let r = InputMethodData {
            manager: false,
            seats: Vec::new(),
            input_method: None,
            keyboard_grab: false,
            state: InputMethodState::new(),
            events: VecDeque::new(),
            done_serial: 0,
            pending_activate: false,
            unavailable: false,
            compositor: false,
            keymap_loaded: false,
            current_modifiers: Modifiers::default(),
            last_key_time: 0,
            virtual_keyboard_manager: false,
            virtual_keyboard: None,
            keymap_sent_to_vkb: false,
        };
        proof {
            reveal(seat_models);
        }
        assert(r@ =~= InputMethodModel::initial());
        r
    }
}

impl InputMethodData {
    /// A global of the registry was announced: says how to bind it, if at all.
    pub fn registry_event(&mut self, name: u32, interface: &str, version: u32) -> (r: Option<
        Binding,
    >)
        ensures
            match interface_named(interface@) {
                Some(known) => {
                    &&& r == Some(
                        Binding {
                            interface: known.0,
                            version: if version < known.1 {
                                version
                            } else {
                                known.1
                            },
                        },
                    )
                    &&& final(self)@ == old(self)@.bound(known.0, name)
                },
                None => r is None && final(self)@ == old(self)@,
            },
    {
        let bound = if same_text(interface, "zwp_input_method_manager_v2") {
            self.manager = true;
            Some((Interface::InputMethodManager, 1u32))
        } else if same_text(interface, "wl_seat") {
            self.seats.push(Seat { global: name, name: None });
            Some((Interface::Seat, 8u32))
        } else if same_text(interface, "wl_compositor") {
            self.compositor = true;
            Some((Interface::Compositor, 5u32))
        } else if same_text(interface, "zwp_virtual_keyboard_manager_v1") {
            self.virtual_keyboard_manager = true;
            Some((Interface::VirtualKeyboardManager, 1u32))
        } else {
            None
        };
        proof {
            reveal(seat_models);
            match interface_named(interface@) {
                Some(known) => {
                    assert(self@.seats =~= old(self)@.bound(known.0, name).seats);
                },
                None => {},
            }
        }
        match bound {
            Some((interface, highest)) => {
                let version = if version < highest {
                    version
                } else {
                    highest
                };
                Some(Binding { interface, version })
            },
            None => None,
        }
    }

    /// A seat told its name.
    pub fn seat_event(&mut self, seat: u32, name: String)
        ensures
            final(self)@ == old(self)@.seat_named(seat, name@),
    {
        proof {
            reveal(seat_models);
        }
        let mut i: usize = 0;
        while i < self.seats.len()
            invariant
                i <= self.seats@.len(),
                *self == *old(self),
                self@.seats == Seq::new(self.seats@.len(), |k: int| self.seats@[k]@),
                forall|j: int| 0 <= j < i ==> (#[trigger] old(self)@.seats[j]).global != seat,
            decreases self.seats.len() - i,
        {
            if self.seats[i].global == seat {
                proof {
                    assert(old(self)@.seats[i as int].global == seat);
                    assert forall|k: int| #[trigger]
                        first_with_global(old(self)@.seats, seat, k) implies k == i by {
                        if k < i {
                            assert(old(self)@.seats[k].global == seat);
                        }
                    }
                }
                let ghost told = SeatModel { global: seat, name: Some(name@) };
                self.seats.set(i, Seat { global: seat, name: Some(name) });
                proof {
                    reveal(seat_models);
                }
                assert(self@.seats =~= old(self)@.seats.update(i as int, told));
                return;
            }
            assert(old(self)@.seats[i as int].global != seat);
            i = i + 1;
        }
    }

    /// An event of the input method object.
    pub fn event(&mut self, event: ProtocolEvent)
        requires
            event is Done ==> old(self)@.done_serial < u32::MAX,
        ensures
            final(self)@ == old(self)@.after(event),
    {
        match event {
            ProtocolEvent::Activate => self.activate(),
            ProtocolEvent::Deactivate => self.deactivate(),
            ProtocolEvent::SurroundingText { text, cursor, anchor } => self.surrounding_text(
                text,
                cursor,
                anchor,
            ),
            ProtocolEvent::TextChangeCause { cause } => self.text_change_cause(cause),
            ProtocolEvent::ContentType { hint, purpose } => self.content_type(hint, purpose),
            ProtocolEvent::Done => self.done(),
            ProtocolEvent::Unavailable => self.withdrawn(),
        }
    }

    fn activate(&mut self)
        ensures
            final(self)@ == old(self)@.after(ProtocolEvent::Activate),
    {
        self.state.active = true;
        self.pending_activate = true;
    }

    fn deactivate(&mut self)
        ensures
            final(self)@ == old(self)@.after(ProtocolEvent::Deactivate),
    {
        self.state.active = false;
        self.pending_activate = false;
        self.state.reset();
        self.events.push_back(InputMethodEvent::Deactivate);
    }

    fn surrounding_text(&mut self, text: String, cursor: u32, anchor: u32)
        ensures
            final(self)@ == old(self)@.after(
                ProtocolEvent::SurroundingText { text, cursor, anchor },
            ),
    {
        self.state.surrounding_text = Some(text.clone());
        self.state.cursor = cursor;
        self.state.anchor = anchor;
        self.events.push_back(InputMethodEvent::SurroundingText { text, cursor, anchor });
    }

    fn text_change_cause(&mut self, cause: u32)
        ensures
            final(self)@ == old(self)@.after(ProtocolEvent::TextChangeCause { cause }),
    {
        let cause = parse_change_cause(cause);
        self.state.change_cause = cause;
        self.events.push_back(InputMethodEvent::TextChangeCause(cause));
    }

    fn content_type(&mut self, hint: u32, purpose: u32)
        ensures
            final(self)@ == old(self)@.after(ProtocolEvent::ContentType { hint, purpose }),
    {
        let content_hint = parse_content_hint(hint);
        let content_purpose = parse_content_purpose(purpose);
        self.state.content_hint = content_hint;
        self.state.content_purpose = content_purpose;
        self.events.push_back(
            InputMethodEvent::ContentType { hint: content_hint, purpose: content_purpose },
        );
    }

    fn done(&mut self)
        requires
            old(self)@.done_serial < u32::MAX,
        ensures
            final(self)@ == old(self)@.after(ProtocolEvent::Done),
    {
        self.done_serial = self.done_serial + 1;
        self.state.serial = self.done_serial;
        if self.pending_activate {
            self.pending_activate = false;
            self.events.push_back(InputMethodEvent::Activate { serial: self.done_serial });
        }
        self.events.push_back(InputMethodEvent::Done);
    }

    fn withdrawn(&mut self)
        ensures
            final(self)@ == old(self)@.after(ProtocolEvent::Unavailable),
    {
        self.unavailable = true;
        self.events.push_back(InputMethodEvent::Unavailable);
    }

    /// A popup surface was placed.
    pub fn popup_surface_event(&mut self, x: i32, y: i32, width: i32, height: i32)
        ensures
            final(self)@ == old(self)@.queued(
                InputMethodEvent::PopupSurfaceCreated { x, y, width, height },
            ),
    {
        self.events.push_back(InputMethodEvent::PopupSurfaceCreated { x, y, width, height });
    }

    /// A keymap of the grabbed keyboard arrived; `xkb_v1` says whether it is in
    /// the XKB text format.
    pub fn keymap_plan(&self, xkb_v1: bool) -> (r: KeymapPlan)
        ensures
            r == (KeymapPlan { duplicate: self@.virtual_keyboard is Some, compile: xkb_v1 }),
    {
        KeymapPlan { duplicate: self.virtual_keyboard.is_some(), compile: xkb_v1 }
    }

    /// A keymap of the grabbed keyboard was worked on as planned: `compiled` and
    /// `duplicated` say what succeeded. The virtual keyboard gets the keymap
    /// where there is one and the file descriptor could be duplicated; 1 is the
    /// number of the XKB text format.
    pub fn keymap_event(&mut self, compiled: bool, duplicated: bool, size: u32) -> (r: Option<
        VirtualKeymap,
    >)
        ensures
            r == (if old(self)@.virtual_keyboard is Some && duplicated {
                Some(VirtualKeymap { format: 1, size })
            } else {
                None
            }),
            final(self)@ == old(self)@.after_grab(GrabEvent::Keymap { compiled, duplicated }),
    {
        if compiled {
            self.keymap_loaded = true;
        }
        if self.virtual_keyboard.is_some() && duplicated {
            self.keymap_sent_to_vkb = true;
            Some(VirtualKeymap { format: 1, size })
        } else {
            None
        }
    }

    /// The XKB keycode to look a key of the grabbed keyboard up with, once a
    /// keymap is loaded. Wayland keycodes are evdev codes; XKB adds 8.
    pub fn xkb_keycode(&self, key: u32) -> (r: Option<u32>)
        requires
            self@.keymap_loaded ==> key <= u32::MAX - 8,
        ensures
            r == (if self@.keymap_loaded {
                Some((key + 8) as u32)
            } else {
                None
            }),
    {
        if self.keymap_loaded {
            Some(key + 8)
        } else {
            None
        }
    }

    /// A key of the grabbed keyboard changed; `keysym` is what the keymap makes
    /// of it. Without a keymap only the time is kept.
    pub fn key_event(&mut self, time: u32, key: u32, key_state: u32, keysym: u32)
        ensures
            final(self)@ == old(self)@.after_grab(
                GrabEvent::Key { time, key, key_state, keysym },
            ),
    {
        self.last_key_time = time;
        if self.keymap_loaded {
            let state = parse_key_state(key_state);
            self.events.push_back(
                InputMethodEvent::KeyEvent {
                    keycode: key,
                    keysym,
                    state,
                    modifiers: self.current_modifiers,
                },
            );
        }
    }

    /// The modifiers of the grabbed keyboard changed: the masks to update the
    /// XKB state with, once a keymap is loaded.
    pub fn xkb_mask(
        &self,
        mods_depressed: u32,
        mods_latched: u32,
        mods_locked: u32,
        group: u32,
    ) -> (r: Option<XkbMask>)
        ensures
            r == (if self@.keymap_loaded {
                Some(
                    XkbMask {
                        depressed_mods: mods_depressed,
                        latched_mods: mods_latched,
                        locked_mods: mods_locked,
                        depressed_layout: 0,
                        latched_layout: 0,
                        locked_layout: group,
                    },
                )
            } else {
                None
            }),
    {
        if self.keymap_loaded {
            Some(
                XkbMask {
                    depressed_mods: mods_depressed,
                    latched_mods: mods_latched,
                    locked_mods: mods_locked,
                    depressed_layout: 0,
                    latched_layout: 0,
                    locked_layout: group,
                },
            )
        } else {
            None
        }
    }

    /// The modifiers of the grabbed keyboard changed; `effective` is what the
    /// XKB state makes of them. Says what to tell the virtual keyboard.
    pub fn modifiers_event(
        &mut self,
        effective: Modifiers,
        mods_depressed: u32,
        mods_latched: u32,
        mods_locked: u32,
        group: u32,
    ) -> (r: Option<VirtualModifiers>)
        ensures
            final(self)@ == old(self)@.after_grab(GrabEvent::Modifiers { effective }),
            r == (if old(self)@.forwards_keys() {
                Some(VirtualModifiers { mods_depressed, mods_latched, mods_locked, group })
            } else {
                None
            }),
    {
        if self.keymap_loaded {
            self.current_modifiers = effective;
        }
        if self.virtual_keyboard.is_some() && self.keymap_sent_to_vkb {
            Some(VirtualModifiers { mods_depressed, mods_latched, mods_locked, group })
        } else {
            None
        }
    }

    /// The key repeat of the grabbed keyboard changed.
    pub fn repeat_info_event(&mut self, rate: i32, delay: i32)
        ensures
            final(self)@ == old(self)@.after_grab(GrabEvent::RepeatInfo { rate, delay }),
    {
        self.events.push_back(InputMethodEvent::RepeatInfo { rate, delay });
    }

    /// Makes the objects for the seat at `index`.
    fn use_seat(&mut self, index: usize)
        requires
            index < old(self)@.seats.len(),
        ensures
            final(self)@ == old(self)@.on_seat(old(self)@.seats[index as int].global),
    {
        proof {
            reveal(seat_models);
        }
        let global = self.seats[index].global;
        self.input_method = Some(global);
        if self.virtual_keyboard_manager {
            self.virtual_keyboard = Some(global);
        }
    }

    /// The request to insert text.
    fn commit_string(&self, text: &str) -> (r: Result<InputMethodRequest, Error>)
        ensures
            answers(self@, r, RequestModel::CommitString { text: text@ }),
    {
        if self.input_method.is_some() {
            Ok(InputMethodRequest::CommitString { text: text.to_string() })
        } else {
            Err(Error::NotActive)
        }
    }

    /// The request to show composing text.
    fn set_preedit_string(&self, text: &str, cursor_begin: i32, cursor_end: i32) -> (r: Result<
        InputMethodRequest,
        Error,
    >)
        ensures
            answers(
                self@,
                r,
                RequestModel::SetPreeditString { text: text@, cursor_begin, cursor_end },
            ),
    {
        if self.input_method.is_some() {
            Ok(
                InputMethodRequest::SetPreeditString {
                    text: text.to_string(),
                    cursor_begin,
                    cursor_end,
                },
            )
        } else {
            Err(Error::NotActive)
        }
    }

    /// The request to delete text.
    fn delete_surrounding_text(&self, before_length: u32, after_length: u32) -> (r: Result<
        InputMethodRequest,
        Error,
    >)
        ensures
            answers(
                self@,
                r,
                RequestModel::DeleteSurroundingText { before_length, after_length },
            ),
    {
        if self.input_method.is_some() {
            Ok(InputMethodRequest::DeleteSurroundingText { before_length, after_length })
        } else {
            Err(Error::NotActive)
        }
    }

    /// The request to apply the requests before it.
    fn commit(&self, serial: u32) -> (r: Result<InputMethodRequest, Error>)
        ensures
            answers(self@, r, RequestModel::Commit { serial }),
    {
        if self.input_method.is_some() {
            Ok(InputMethodRequest::Commit { serial })
        } else {
            Err(Error::NotActive)
        }
    }
}

/// Whether `r` is the request to send, or the refusal where there is no input
/// method object to send it to.
pub open spec fn answers(
    data: InputMethodModel,
    r: Result<InputMethodRequest, Error>,
    request: RequestModel,
) -> bool {
    if data.input_method is Some {
        r matches Ok(sent) && sent@ == request
    } else {
        r == Err::<InputMethodRequest, Error>(Error::NotActive)
    }
}

/// Whether `r` is the refusal of a compositor without input methods.
pub open spec fn refused_without_manager(r: Result<InputMethod, Error>) -> bool {
    r matches Err(Error::ProtocolNotSupported(text)) && text@
        == "zwp_input_method_manager_v2 not available"@
}

/// An input method on a Wayland seat
#[derive(Debug)]
pub struct InputMethod {
    /// What the compositor has told
    pub data: InputMethodData,
}

impl View for InputMethod {
    type V = InputMethodModel;

    open spec fn view(&self) -> InputMethodModel {
        self.data@
    }
}

impl InputMethod {
    /// An input method on the first seat. `data` holds the globals that the
    /// compositor announced.
    pub fn new(data: InputMethodData) -> (r: Result<Self, Error>)
        ensures
            if !data@.manager {
                refused_without_manager(r)
            } else if data@.seats.len() == 0 {
                r matches Err(Error::ConnectionFailed(text)) && text@ == "No seat found"@
            } else {
                r matches Ok(im) && im@ == data@.on_seat(data@.seats[0].global)
            },
    {
        let mut data = data;
        proof {
            reveal(seat_models);
        }
        if !data.manager {
            return Err(
                Error::ProtocolNotSupported("zwp_input_method_manager_v2 not available".to_string()),
            );
        }
        if data.seats.len() == 0 {
            return Err(Error::ConnectionFailed("No seat found".to_string()));
        }
        data.use_seat(0);
        Ok(InputMethod { data })
    }

    /// An input method on the seat with a name. `data` holds the globals that
    /// the compositor announced and the names that the seats told.
    pub fn new_for_seat(data: InputMethodData, seat_name: &str) -> (r: Result<Self, Error>)
        ensures
            !data@.manager ==> refused_without_manager(r),
            data@.manager ==> (forall|i: int| #[trigger]
                first_with_name(data@.seats, seat_name@, i) ==> (r matches Ok(im) && im@
                    == data@.on_seat(data@.seats[i].global))),
            data@.manager && (forall|i: int|
                0 <= i < data@.seats.len() ==> (#[trigger] data@.seats[i]).name != Some(seat_name@))
                ==> (r matches Err(Error::ConnectionFailed(text)) && text@ == "seat '"@
                + seat_name@ + "' not found"@),
    {
        let mut data = data;
        proof {
            reveal(seat_models);
        }
        if !data.manager {
            return Err(
                Error::ProtocolNotSupported("zwp_input_method_manager_v2 not available".to_string()),
            );
        }
        let ghost seats = data@.seats;
        let mut i: usize = 0;
        while i < data.seats.len()
            invariant
                i <= data.seats@.len(),
                seats == Seq::new(data.seats@.len(), |k: int| data.seats@[k]@),
                forall|j: int| 0 <= j < i ==> (#[trigger] seats[j]).name != Some(seat_name@),
                data@.seats == seats,
            ensures
                i < seats.len() ==> seats[i as int].name == Some(seat_name@),
                i <= seats.len(),
            decreases data.seats.len() - i,
        {
            let found = match &data.seats[i].name {
                Some(name) => same_text(name, seat_name),
                None => false,
            };
            assert(found == (seats[i as int].name == Some(seat_name@)));
            if found {
                break;
            }
            i = i + 1;
        }
        if i == data.seats.len() {
            let mut text = prefixed("seat '", seat_name);
            text.append("' not found");
            return Err(Error::ConnectionFailed(text));
        }
        assert forall|k: int| #[trigger] first_with_name(seats, seat_name@, k) implies k == i by {
            if k < i {
                assert(seats[k].name != Some(seat_name@));
            } else if k > i {
                assert(seats[i as int].name != Some(seat_name@));
            }
        }
        data.use_seat(i);
        Ok(InputMethod { data })
    }

    /// The seat that the input method object is for.
    pub fn seat(&self) -> (r: Option<u32>)
        ensures
            r == self@.input_method,
    {
        self.data.input_method
    }

    /// The seat that the virtual keyboard is for.
    pub fn virtual_keyboard_seat(&self) -> (r: Option<u32>)
        ensures
            r == self@.virtual_keyboard,
    {
        self.data.virtual_keyboard
    }

    /// Takes the oldest event that waits.
    pub fn next_event(&mut self) -> (r: Option<InputMethodEvent>)
        ensures
            if old(self)@.events.len() == 0 {
                r is None && final(self)@ == old(self)@
            } else {
                r == Some(old(self)@.events[0]) && final(self)@ == (InputMethodModel {
                    events: old(self)@.events.drop_first(),
                    ..old(self)@
                })
            },
    {
        self.data.events.pop_front()
    }

    /// Create a popup surface for rendering candidate windows: where this
    /// succeeds, make a surface and give it the role of a popup. When it is no
    /// longer needed, send the requests of [`PopupSurface::destroy`].
    pub fn create_popup_surface(&mut self) -> (r: Result<PopupSurface, Error>)
        ensures
            final(self)@ == old(self)@,
            if !old(self)@.compositor {
                r matches Err(Error::ProtocolNotSupported(text)) && text@
                    == "wl_compositor not available"@
            } else if old(self)@.input_method is None {
                r == Err::<PopupSurface, Error>(Error::NotActive)
            } else {
                r matches Ok(popup) && popup.is_alive()
            },
    {
        if !self.data.compositor {
            return Err(Error::ProtocolNotSupported("wl_compositor not available".to_string()));
        }
        if self.data.input_method.is_none() {
            return Err(Error::NotActive);
        }
        Ok(PopupSurface { alive: true })
    }

    /// Grabs the keyboard, whose keys are then delivered as
    /// [`InputMethodEvent::KeyEvent`].
    pub fn grab_keyboard(&mut self) -> (r: Result<(), Error>)
        ensures
            if old(self)@.input_method is Some {
                r is Ok && final(self)@ == (InputMethodModel { keyboard_grab: true, ..old(self)@ })
            } else {
                r == Err::<(), Error>(Error::NotActive) && final(self)@ == old(self)@
            },
    {
        if self.data.input_method.is_some() {
            self.data.keyboard_grab = true;
            return Ok(());
        }
        Err(Error::NotActive)
    }

    /// Forwards a grabbed key to the focused application: needs a virtual
    /// keyboard that has a keymap, and bears the time of the last key event.
    pub fn forward_key(&self, keycode: u32, state: KeyState) -> (r: Result<VirtualKey, Error>)
        ensures
            if self@.forwards_keys() {
                r == Ok::<VirtualKey, Error>(
                    VirtualKey {
                        time: self@.last_key_time,
                        key: keycode,
                        state: if state == KeyState::Pressed {
                            1
                        } else {
                            0
                        },
                    },
                )
            } else {
                r == Err::<VirtualKey, Error>(Error::NotActive)
            },
    {
        if self.data.virtual_keyboard.is_none() {
            return Err(Error::NotActive);
        }
        if !self.data.keymap_sent_to_vkb {
            return Err(Error::NotActive);
        }
        let state: u32 = match state {
            KeyState::Pressed => 1,
            KeyState::Released => 0,
        };
        Ok(VirtualKey { time: self.data.last_key_time, key: keycode, state })
    }

    /// Check if the input method is active.
    pub fn is_active(&self) -> (r: bool)
        ensures
            r == self@.state.active,
    {
        self.data.state.active
    }

    /// Commit text to the client.
    pub fn commit_string(&self, text: &str) -> (r: Result<InputMethodRequest, Error>)
        ensures
            answers(self@, r, RequestModel::CommitString { text: text@ }),
    {
        self.data.commit_string(text)
    }

    /// Set preedit text (composing text shown to user).
    pub fn set_preedit_string(
        &self,
        text: &str,
        cursor_begin: i32,
        cursor_end: i32,
    ) -> (r: Result<InputMethodRequest, Error>)
        ensures
            answers(
                self@,
                r,
                RequestModel::SetPreeditString { text: text@, cursor_begin, cursor_end },
            ),
    {
        self.data.set_preedit_string(text, cursor_begin, cursor_end)
    }

    /// Delete surrounding text.
    pub fn delete_surrounding_text(&self, before_length: u32, after_length: u32) -> (r: Result<
        InputMethodRequest,
        Error,
    >)
        ensures
            answers(
                self@,
                r,
                RequestModel::DeleteSurroundingText { before_length, after_length },
            ),
    {
        self.data.delete_surrounding_text(before_length, after_length)
    }

    /// Commit all pending changes.
    pub fn commit(&self, serial: u32) -> (r: Result<InputMethodRequest, Error>)
        ensures
            answers(self@, r, RequestModel::Commit { serial }),
    {
        self.data.commit(serial)
    }

    /// Get the current state.
    pub fn state(&self) -> (r: InputMethodState)
        ensures
            r == self@.state,
    {
        self.data.state.clone()
    }

    /// Returns true if the compositor has withdrawn this input method.
    pub fn is_unavailable(&self) -> (r: bool)
        ensures
            r == self@.unavailable,
    {
        self.data.unavailable
    }

    /// Returns the current operational status.
    pub fn status(&self) -> (r: Status)
        ensures
            r == self@.status(),
    {
        if self.data.unavailable {
            Status::Unavailable
        } else if self.data.state.active {
            Status::Active
        } else {
            Status::Inactive
        }
    }

    /// Get a handle that only commits.
    pub fn handle(&self) -> (r: InputMethodHandle<'_>)
        ensures
            r@ == self@,
    {
        InputMethodHandle { data: &self.data }
    }
}

/// A handle to commit text with, for threads that do not receive events
#[derive(Debug, Clone, Copy)]
pub struct InputMethodHandle<'a> {
    data: &'a InputMethodData,
}

impl<'a> View for InputMethodHandle<'a> {
    type V = InputMethodModel;

    closed spec fn view(&self) -> InputMethodModel {
        self.data@
    }
}

impl<'a> InputMethodHandle<'a> {
    /// Commit text to the client.
    pub fn commit_string(&self, text: &str) -> (r: Result<InputMethodRequest, Error>)
        ensures
            answers(self@, r, RequestModel::CommitString { text: text@ }),
    {
        self.data.commit_string(text)
    }

    /// Set preedit text (composing text shown to user).
    pub fn set_preedit_string(
        &self,
        text: &str,
        cursor_begin: i32,
        cursor_end: i32,
    ) -> (r: Result<InputMethodRequest, Error>)
        ensures
            answers(
                self@,
                r,
                RequestModel::SetPreeditString { text: text@, cursor_begin, cursor_end },
            ),
    {
        self.data.set_preedit_string(text, cursor_begin, cursor_end)
    }

    /// Delete surrounding text.
    pub fn delete_surrounding_text(&self, before_length: u32, after_length: u32) -> (r: Result<
        InputMethodRequest,
        Error,
    >)
        ensures
            answers(
                self@,
                r,
                RequestModel::DeleteSurroundingText { before_length, after_length },
            ),
    {
        self.data.delete_surrounding_text(before_length, after_length)
    }

    /// Commit all pending changes.
    pub fn commit(&self, serial: u32) -> (r: Result<InputMethodRequest, Error>)
        ensures
            answers(self@, r, RequestModel::Commit { serial }),
    {
        self.data.commit(serial)
    }
}

} // verus!
