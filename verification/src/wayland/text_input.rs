//! The client side of the `zwp_text_input_v3` protocol, for applications that
//! receive text from an input method.
use std::collections::VecDeque;

use vstd::prelude::*;

use crate::error::Error;
use crate::text::same_text;
use crate::types::{ContentHint, ContentPurpose};
use crate::wayland::input_method::{content_hint_of, content_purpose_of};

verus! {

/// Events from text input
#[derive(Debug)]
pub enum TextInputEvent {
    /// Enter - text input is now active for a surface
    Enter,
    /// Leave - text input is no longer active
    Leave,
    /// Preedit string received
    PreeditString {
        /// The preedit text
        text: Option<String>,
        /// Cursor begin position
        cursor_begin: i32,
        /// Cursor end position
        cursor_end: i32,
    },
    /// Commit string received
    CommitString {
        /// The text to commit
        text: Option<String>,
    },
    /// Delete surrounding text
    DeleteSurroundingText {
        /// Bytes before cursor to delete
        before_length: u32,
        /// Bytes after cursor to delete
        after_length: u32,
    },
    /// Done - all pending events have been sent
    Done {
        /// Serial number
        serial: u32,
    },
}

impl Clone for TextInputEvent {
    fn clone(&self) -> (r: Self)
        ensures
            r == *self,
    {
        match self {
            TextInputEvent::Enter => TextInputEvent::Enter,
            TextInputEvent::Leave => TextInputEvent::Leave,
            TextInputEvent::PreeditString { text, cursor_begin, cursor_end } => {
                TextInputEvent::PreeditString {
                    text: text.clone(),
                    cursor_begin: *cursor_begin,
                    cursor_end: *cursor_end,
                }
            },
            TextInputEvent::CommitString { text } => TextInputEvent::CommitString {
                text: text.clone(),
            },
            TextInputEvent::DeleteSurroundingText { before_length, after_length } => {
                TextInputEvent::DeleteSurroundingText {
                    before_length: *before_length,
                    after_length: *after_length,
                }
            },
            TextInputEvent::Done { serial } => TextInputEvent::Done { serial: *serial },
        }
    }
}

/// Interfaces of the registry that a text input client binds
#[derive(Debug, Clone, Copy, PartialEq, Eq, Structural)]
pub enum TextInputInterface {
    /// `zwp_text_input_manager_v3`
    TextInputManager,
    /// `wl_seat`
    Seat,
}

/// A global of the registry to bind
#[derive(Debug, Clone, Copy, PartialEq, Eq, Structural)]
pub struct TextInputBinding {
    /// As which interface
    pub interface: TextInputInterface,
    /// In which version
    pub version: u32,
}

/// Requests to a `zwp_text_input_v3` object
#[derive(Debug)]
pub enum TextInputRequest {
    /// Ask for text input
    Enable,
    /// Ask for no more text input
    Disable,
    /// Tell the text around the cursor
    SetSurroundingText {
        /// The text
        text: String,
        /// Cursor position in bytes
        cursor: i32,
        /// Anchor position in bytes
        anchor: i32,
    },
    /// Tell where the cursor is
    SetCursorRectangle {
        /// X position
        x: i32,
        /// Y position
        y: i32,
        /// Width
        width: i32,
        /// Height
        height: i32,
    },
    /// Tell what the text field is for
    SetContentType {
        /// A `zwp_text_input_v3.content_hint`
        hint: u32,
        /// A `zwp_text_input_v3.content_purpose`
        purpose: u32,
    },
    /// Apply the requests before this one
    Commit,
}

/// Data of a text input client
#[derive(Debug)]
pub struct TextInputData {
    manager: bool,
    seat: Option<u32>,
    text_input: bool,
    enabled: bool,
    events: VecDeque<TextInputEvent>,
    serial: u32,
}

/// The data of a text input client, as contracts see it.
#[verifier::ext_equal]
pub struct TextInputModel {
    /// Whether the compositor has a text input manager
    pub manager: bool,
    /// The seat, by its number in the registry
    pub seat: Option<u32>,
    /// Whether there is a text input object
    pub text_input: bool,
    /// Whether the text input is active for a surface
    pub enabled: bool,
    /// Events that the application has not taken yet, oldest first
    pub events: Seq<TextInputEvent>,
    /// The serial of the last `done` event
    pub serial: u32,
}

impl View for TextInputData {
    type V = TextInputModel;

    closed spec fn view(&self) -> TextInputModel {
        TextInputModel {
            manager: self.manager,
            seat: self.seat,
            text_input: self.text_input,
            enabled: self.enabled,
            events: self.events@,
            serial: self.serial,
        }
    }
}

/// The interface with a name, and the highest version of it that is bound.
pub open spec fn text_input_interface_named(name: Seq<char>) -> Option<(TextInputInterface, u32)> {
    if name == "zwp_text_input_manager_v3"@ {
        Some((TextInputInterface::TextInputManager, 1u32))
    } else if name == "wl_seat"@ {
        Some((TextInputInterface::Seat, 8u32))
    } else {
        None
    }
}

impl TextInputModel {
    /// Before anything was heard from the compositor.
    pub open spec fn initial() -> TextInputModel {
        TextInputModel {
            manager: false,
            seat: None,
            text_input: false,
            enabled: false,
            events: Seq::empty(),
            serial: 0,
        }
    }

    /// After a global was bound. The last seat that is announced counts.
    pub open spec fn bound(self, interface: TextInputInterface, global: u32) -> TextInputModel {
        match interface {
            TextInputInterface::TextInputManager => TextInputModel { manager: true, ..self },
            TextInputInterface::Seat => TextInputModel { seat: Some(global), ..self },
        }
    }

    /// After an event of the text input object: the event is queued, and the
    /// focus and the serial are kept.
    pub open spec fn after(self, event: TextInputEvent) -> TextInputModel {
        TextInputModel {
            enabled: match event {
                TextInputEvent::Enter => true,
                TextInputEvent::Leave => false,
                _ => self.enabled,
            },
            serial: match event {
                TextInputEvent::Done { serial } => serial,
                _ => self.serial,
            },
            events: self.events.push(event),
            ..self
        }
    }

    /// After a row of events of the text input object.
    pub open spec fn after_all(self, events: Seq<TextInputEvent>) -> TextInputModel
        decreases events.len(),
    {
        if events.len() == 0 {
            self
        } else {
            self.after_all(events.drop_last()).after(events.last())
        }
    }
}

impl Default for TextInputData {
    fn default() -> (r: Self)
        ensures
            r@ == TextInputModel::initial(),
    {
        TextInputData {
            manager: false,
            seat: None,
            text_input: false,
            enabled: false,
            events: VecDeque::new(),
            serial: 0,
        }
    }
}

impl TextInputData {
    /// A global of the registry was announced: says how to bind it, if at all.
    pub fn registry_event(&mut self, name: u32, interface: &str, version: u32) -> (r: Option<
        TextInputBinding,
    >)
        ensures
            match text_input_interface_named(interface@) {
                Some(known) => {
                    &&& r == Some(
                        TextInputBinding {
                            interface: known.0,
                            version: if version < known.1 {
                                version
                            } else {
                                known.1
                            },
                        },
                    )
                    &&& final(self)@ == old(self)@.bound(known.0, name)
                },
                None => r is None && final(self)@ == old(self)@,
            },
    {
        let bound = if same_text(interface, "zwp_text_input_manager_v3") {
            self.manager = true;
            Some((TextInputInterface::TextInputManager, 1u32))
        } else if same_text(interface, "wl_seat") {
            self.seat = Some(name);
            Some((TextInputInterface::Seat, 8u32))
        } else {
            None
        };
        match bound {
            Some((interface, highest)) => {
                let version = if version < highest {
                    version
                } else {
                    highest
                };
                Some(TextInputBinding { interface, version })
            },
            None => None,
        }
    }

    /// An event of the text input object.
    pub fn event(&mut self, event: TextInputEvent)
        ensures
            final(self)@ == old(self)@.after(event),
    {
        match &event {
            TextInputEvent::Enter => {
                self.enabled = true;
            },
            TextInputEvent::Leave => {
                self.enabled = false;
            },
            TextInputEvent::Done { serial } => {
                self.serial = *serial;
            },
            _ => {},
        }
        self.events.push_back(event);
    }
}

/// The bit set of the protocol for hints.
pub open spec fn hint_bits(hint: ContentHint) -> u32 {
    (if hint.completion { 0x1u32 } else { 0u32 })
        | (if hint.spellcheck { 0x2u32 } else { 0u32 })
        | (if hint.auto_capitalization { 0x4u32 } else { 0u32 })
        | (if hint.lowercase { 0x8u32 } else { 0u32 })
        | (if hint.uppercase { 0x10u32 } else { 0u32 })
        | (if hint.titlecase { 0x20u32 } else { 0u32 })
        | (if hint.hidden_text { 0x40u32 } else { 0u32 })
        | (if hint.sensitive_data { 0x80u32 } else { 0u32 })
        | (if hint.latin { 0x100u32 } else { 0u32 })
        | (if hint.multiline { 0x200u32 } else { 0u32 })
}

/// The number of the protocol for a purpose.
pub open spec fn purpose_number(purpose: ContentPurpose) -> u32 {
    match purpose {
        ContentPurpose::Normal => 0,
        ContentPurpose::Alpha => 1,
        ContentPurpose::Digits => 2,
        ContentPurpose::Number => 3,
        ContentPurpose::Phone => 4,
        ContentPurpose::Url => 5,
        ContentPurpose::Email => 6,
        ContentPurpose::Name => 7,
        ContentPurpose::Password => 8,
        ContentPurpose::Pin => 9,
        ContentPurpose::Date => 10,
        ContentPurpose::Time => 11,
        ContentPurpose::Datetime => 12,
        ContentPurpose::Terminal => 13,
    }
}

/// The bit set of the protocol for hints.
pub fn content_hint_to_raw(hint: ContentHint) -> (r: u32)
    ensures
        r == hint_bits(hint),
{
    let mut raw: u32 = 0;
    if hint.completion {
        raw = raw | 0x1;
    }
    if hint.spellcheck {
        raw = raw | 0x2;
    }
    if hint.auto_capitalization {
        raw = raw | 0x4;
    }
    if hint.lowercase {
        raw = raw | 0x8;
    }
    if hint.uppercase {
        raw = raw | 0x10;
    }
    if hint.titlecase {
        raw = raw | 0x20;
    }
    if hint.hidden_text {
        raw = raw | 0x40;
    }
    if hint.sensitive_data {
        raw = raw | 0x80;
    }
    if hint.latin {
        raw = raw | 0x100;
    }
    if hint.multiline {
        raw = raw | 0x200;
    }
    proof {
        assert(forall|v: u32| #[trigger] (v | 0u32) == v) by (bit_vector);
        assert(forall|v: u32| #[trigger] (0u32 | v) == v) by (bit_vector);
    }
    raw
}

/// The number of the protocol for a purpose.
pub fn content_purpose_to_wl(purpose: ContentPurpose) -> (r: u32)
    ensures
        r == purpose_number(purpose),
{
    match purpose {
        ContentPurpose::Normal => 0,
        ContentPurpose::Alpha => 1,
        ContentPurpose::Digits => 2,
        ContentPurpose::Number => 3,
        ContentPurpose::Phone => 4,
        ContentPurpose::Url => 5,
        ContentPurpose::Email => 6,
        ContentPurpose::Name => 7,
        ContentPurpose::Password => 8,
        ContentPurpose::Pin => 9,
        ContentPurpose::Date => 10,
        ContentPurpose::Time => 11,
        ContentPurpose::Datetime => 12,
        ContentPurpose::Terminal => 13,
    }
}

/// Text input client for receiving IME input
#[derive(Debug)]
pub struct TextInput {
    /// What the compositor has told
    pub data: TextInputData,
}

impl View for TextInput {
    type V = TextInputModel;

    open spec fn view(&self) -> TextInputModel {
        self.data@
    }
}

impl TextInput {
    /// A text input client. `data` holds the globals that the compositor
    /// announced.
    pub fn new(data: TextInputData) -> (r: Result<Self, Error>)
        ensures
            if !data@.manager {
                r matches Err(Error::ProtocolNotSupported(text)) && text@
                    == "zwp_text_input_manager_v3 not available"@
            } else if data@.seat is None {
                r matches Err(Error::ConnectionFailed(text)) && text@ == "No seat found"@
            } else {
                r matches Ok(ti) && ti@ == (TextInputModel { text_input: true, ..data@ })
            },
    {
        let mut data = data;
        if !data.manager {
            return Err(
                Error::ProtocolNotSupported("zwp_text_input_manager_v3 not available".to_string()),
            );
        }
        if data.seat.is_none() {
            return Err(Error::ConnectionFailed("No seat found".to_string()));
        }
        data.text_input = true;
        Ok(TextInput { data })
    }

    /// The seat of the client.
    pub fn seat(&self) -> (r: Option<u32>)
        ensures
            r == self@.seat,
    {
        self.data.seat
    }

    /// Takes the oldest event that waits.
    pub fn next_event(&mut self) -> (r: Option<TextInputEvent>)
        ensures
            if old(self)@.events.len() == 0 {
                r is None && final(self)@ == old(self)@
            } else {
                r == Some(old(self)@.events[0]) && final(self)@ == (TextInputModel {
                    events: old(self)@.events.drop_first(),
                    ..old(self)@
                })
            },
    {
        self.data.events.pop_front()
    }

    /// Enable text input for a surface
    pub fn enable(&mut self) -> (r: Option<TextInputRequest>)
        ensures
            final(self)@ == old(self)@,
            r == (if old(self)@.text_input {
                Some(TextInputRequest::Enable)
            } else {
                None
            }),
    {
        if self.data.text_input {
            Some(TextInputRequest::Enable)
        } else {
            None
        }
    }

    /// Disable text input
    pub fn disable(&mut self) -> (r: Option<TextInputRequest>)
        ensures
            final(self)@ == old(self)@,
            r == (if old(self)@.text_input {
                Some(TextInputRequest::Disable)
            } else {
                None
            }),
    {
        if self.data.text_input {
            Some(TextInputRequest::Disable)
        } else {
            None
        }
    }

    /// Set the surrounding text
    pub fn set_surrounding_text(&self, text: &str, cursor: i32, anchor: i32) -> (r: Option<
        TextInputRequest,
    >)
        ensures
            if self@.text_input {
                r matches Some(
                    TextInputRequest::SetSurroundingText { text: told, cursor: c, anchor: a },
                ) && told@ == text@ && c == cursor && a == anchor
            } else {
                r is None
            },
    {
        if self.data.text_input {
            Some(TextInputRequest::SetSurroundingText { text: text.to_string(), cursor, anchor })
        } else {
            None
        }
    }

    /// Set the cursor rectangle
    pub fn set_cursor_rectangle(&self, x: i32, y: i32, width: i32, height: i32) -> (r: Option<
        TextInputRequest,
    >)
        ensures
            r == (if self@.text_input {
                Some(TextInputRequest::SetCursorRectangle { x, y, width, height })
            } else {
                None
            }),
    {
        if self.data.text_input {
            Some(TextInputRequest::SetCursorRectangle { x, y, width, height })
        } else {
            None
        }
    }

    /// Set the content type
    pub fn set_content_type(&self, hint: ContentHint, purpose: ContentPurpose) -> (r: Option<
        TextInputRequest,
    >)
        ensures
            r == (if self@.text_input {
                Some(
                    TextInputRequest::SetContentType {
                        hint: hint_bits(hint),
                        purpose: purpose_number(purpose),
                    },
                )
            } else {
                None
            }),
    {
        if self.data.text_input {
            Some(
                TextInputRequest::SetContentType {
                    hint: content_hint_to_raw(hint),
                    purpose: content_purpose_to_wl(purpose),
                },
            )
        } else {
            None
        }
    }

    /// Commit changes
    pub fn commit(&self) -> (r: Option<TextInputRequest>)
        ensures
            r == (if self@.text_input {
                Some(TextInputRequest::Commit)
            } else {
                None
            }),
    {
        if self.data.text_input {
            Some(TextInputRequest::Commit)
        } else {
            None
        }
    }
}

/// Reading the bit set of hints gives the hints back: what a text field tells
/// about itself is what an input method hears. The ten hints take the ten lowest
/// bits.
pub proof fn hints_survive_the_protocol(hint: ContentHint)
    ensures
        content_hint_of(hint_bits(hint)) == hint,
        hint_bits(hint) <= 0x3ff,
{
    let a = hint.completion;
    let b = hint.spellcheck;
    let c = hint.auto_capitalization;
    let d = hint.lowercase;
    let e = hint.uppercase;
    let f = hint.titlecase;
    let g = hint.hidden_text;
    let h = hint.sensitive_data;
    let i = hint.latin;
    let j = hint.multiline;
    let bits = hint_bits(hint);
    assert((bits & 0x1 != 0) == a && (bits & 0x2 != 0) == b && (bits & 0x4 != 0) == c && (bits & 0x8
        != 0) == d && (bits & 0x10 != 0) == e && (bits & 0x20 != 0) == f && (bits & 0x40 != 0) == g
        && (bits & 0x80 != 0) == h && (bits & 0x100 != 0) == i && (bits & 0x200 != 0) == j
        && bits <= 0x3ff) by (bit_vector)
        requires
            bits == (if a { 0x1u32 } else { 0u32 }) | (if b { 0x2u32 } else { 0u32 }) | (if c {
                0x4u32
            } else {
                0u32
            }) | (if d { 0x8u32 } else { 0u32 }) | (if e { 0x10u32 } else { 0u32 }) | (if f {
                0x20u32
            } else {
                0u32
            }) | (if g { 0x40u32 } else { 0u32 }) | (if h { 0x80u32 } else { 0u32 }) | (if i {
                0x100u32
            } else {
                0u32
            }) | (if j { 0x200u32 } else { 0u32 }),
    ;
}

/// Writing the hints of a bit set gives the bit set back, without the bits that
/// are no [`ContentHint`].
pub proof fn hint_bits_survive_reading(raw: u32)
    ensures
        hint_bits(content_hint_of(raw)) == raw & 0x3ff,
{
    assert(((if raw & 0x1 != 0 { 0x1u32 } else { 0u32 }) | (if raw & 0x2 != 0 { 0x2u32 } else {
        0u32
    }) | (if raw & 0x4 != 0 { 0x4u32 } else { 0u32 }) | (if raw & 0x8 != 0 { 0x8u32 } else {
        0u32
    }) | (if raw & 0x10 != 0 { 0x10u32 } else { 0u32 }) | (if raw & 0x20 != 0 { 0x20u32 } else {
        0u32
    }) | (if raw & 0x40 != 0 { 0x40u32 } else { 0u32 }) | (if raw & 0x80 != 0 { 0x80u32 } else {
        0u32
    }) | (if raw & 0x100 != 0 { 0x100u32 } else { 0u32 }) | (if raw & 0x200 != 0 {
        0x200u32
    } else {
        0u32
    })) == raw & 0x3ff) by (bit_vector);
}

/// Reading the number of a purpose gives the purpose back.
pub proof fn purposes_survive_the_protocol(purpose: ContentPurpose)
    ensures
        content_purpose_of(purpose_number(purpose)) == purpose,
{
}

/// Writing the purpose of a number gives the number back, and zero for a number
/// that the protocol does not define.
pub proof fn purpose_numbers_survive_reading(raw: u32)
    ensures
        purpose_number(content_purpose_of(raw)) == if raw <= 13 {
            raw
        } else {
            0
        },
{
}

/// Every event of the protocol reaches the application, once and in order.
pub proof fn events_reach_the_application(m: TextInputModel, events: Seq<TextInputEvent>)
    ensures
        m.after_all(events).events == m.events + events,
    decreases events.len(),
{
    if events.len() == 0 {
        assert(m.events + events == m.events);
    } else {
        events_reach_the_application(m, events.drop_last());
        assert(m.events + events == (m.events + events.drop_last()).push(events.last()));
    }
}

/// Each hint is written as its own bit of the protocol, and no hint as any other
/// bit.
pub proof fn hints_are_written_as_their_bits(hint: ContentHint)
    ensures
        hint.completion <==> hint_bits(hint) & 0x1 != 0,
        hint.spellcheck <==> hint_bits(hint) & 0x2 != 0,
        hint.auto_capitalization <==> hint_bits(hint) & 0x4 != 0,
        hint.lowercase <==> hint_bits(hint) & 0x8 != 0,
        hint.uppercase <==> hint_bits(hint) & 0x10 != 0,
        hint.titlecase <==> hint_bits(hint) & 0x20 != 0,
        hint.hidden_text <==> hint_bits(hint) & 0x40 != 0,
        hint.sensitive_data <==> hint_bits(hint) & 0x80 != 0,
        hint.latin <==> hint_bits(hint) & 0x100 != 0,
        hint.multiline <==> hint_bits(hint) & 0x200 != 0,
        hint_bits(hint) <= 0x3ff,
{
    hints_survive_the_protocol(hint);
}

/// Each hint is read from its own bit of the protocol, whatever the other bits.
pub proof fn hints_are_read_from_their_bits(raw: u32)
    ensures
        content_hint_of(raw).completion <==> raw & 0x1 != 0,
        content_hint_of(raw).spellcheck <==> raw & 0x2 != 0,
        content_hint_of(raw).auto_capitalization <==> raw & 0x4 != 0,
        content_hint_of(raw).lowercase <==> raw & 0x8 != 0,
        content_hint_of(raw).uppercase <==> raw & 0x10 != 0,
        content_hint_of(raw).titlecase <==> raw & 0x20 != 0,
        content_hint_of(raw).hidden_text <==> raw & 0x40 != 0,
        content_hint_of(raw).sensitive_data <==> raw & 0x80 != 0,
        content_hint_of(raw).latin <==> raw & 0x100 != 0,
        content_hint_of(raw).multiline <==> raw & 0x200 != 0,
{
}

/// Each purpose is written as its own number of the protocol.
pub proof fn purposes_are_written_as_their_numbers(purpose: ContentPurpose)
    ensures
        purpose == ContentPurpose::Normal <==> purpose_number(purpose) == 0,
        purpose == ContentPurpose::Alpha <==> purpose_number(purpose) == 1,
        purpose == ContentPurpose::Digits <==> purpose_number(purpose) == 2,
        purpose == ContentPurpose::Number <==> purpose_number(purpose) == 3,
        purpose == ContentPurpose::Phone <==> purpose_number(purpose) == 4,
        purpose == ContentPurpose::Url <==> purpose_number(purpose) == 5,
        purpose == ContentPurpose::Email <==> purpose_number(purpose) == 6,
        purpose == ContentPurpose::Name <==> purpose_number(purpose) == 7,
        purpose == ContentPurpose::Password <==> purpose_number(purpose) == 8,
        purpose == ContentPurpose::Pin <==> purpose_number(purpose) == 9,
        purpose == ContentPurpose::Date <==> purpose_number(purpose) == 10,
        purpose == ContentPurpose::Time <==> purpose_number(purpose) == 11,
        purpose == ContentPurpose::Datetime <==> purpose_number(purpose) == 12,
        purpose == ContentPurpose::Terminal <==> purpose_number(purpose) == 13,
{
}

/// Each purpose is read from its own number of the protocol. Numbers that the
/// protocol does not define are read as normal text, like zero.
pub proof fn purposes_are_read_from_their_numbers(raw: u32)
    ensures
        content_purpose_of(raw) == ContentPurpose::Alpha <==> raw == 1,
        content_purpose_of(raw) == ContentPurpose::Digits <==> raw == 2,
        content_purpose_of(raw) == ContentPurpose::Number <==> raw == 3,
        content_purpose_of(raw) == ContentPurpose::Phone <==> raw == 4,
        content_purpose_of(raw) == ContentPurpose::Url <==> raw == 5,
        content_purpose_of(raw) == ContentPurpose::Email <==> raw == 6,
        content_purpose_of(raw) == ContentPurpose::Name <==> raw == 7,
        content_purpose_of(raw) == ContentPurpose::Password <==> raw == 8,
        content_purpose_of(raw) == ContentPurpose::Pin <==> raw == 9,
        content_purpose_of(raw) == ContentPurpose::Date <==> raw == 10,
        content_purpose_of(raw) == ContentPurpose::Time <==> raw == 11,
        content_purpose_of(raw) == ContentPurpose::Datetime <==> raw == 12,
        content_purpose_of(raw) == ContentPurpose::Terminal <==> raw == 13,
        content_purpose_of(raw) == ContentPurpose::Normal <==> raw == 0 || raw > 13,
{
}

/// The globals that a text input client binds, by name, and the highest version
/// of each that it knows. No other name is bound.
pub proof fn known_globals(name: Seq<char>)
    ensures
        text_input_interface_named(name) == Some((TextInputInterface::TextInputManager, 1u32))
            <==> name == "zwp_text_input_manager_v3"@,
        text_input_interface_named(name) == Some((TextInputInterface::Seat, 8u32)) <==> name
            == "wl_seat"@,
        text_input_interface_named(name) is Some ==> name == "zwp_text_input_manager_v3"@ || name
            == "wl_seat"@,
{
    reveal_strlit("zwp_text_input_manager_v3");
    reveal_strlit("wl_seat");
    assert("zwp_text_input_manager_v3"@.len() == 25);
    assert("wl_seat"@.len() == 7);
}

/// The last seat that is bound counts, the manager is kept once it is bound, and
/// binding tells the application nothing.
pub proof fn last_seat_counts(m: TextInputModel, interface: TextInputInterface, global: u32)
    ensures
        m.bound(interface, global).seat == if interface == TextInputInterface::Seat {
            Some(global)
        } else {
            m.seat
        },
        m.bound(interface, global).manager <==> m.manager || interface
            == TextInputInterface::TextInputManager,
        m.bound(interface, global).text_input == m.text_input,
        m.bound(interface, global).events == m.events,
{
}

/// A text field has the focus of the client after the last event that entered or
/// left one, and the serial is that of the last `done` event.
pub proof fn focus_and_serial_are_the_last_told(
    m: TextInputModel,
    events: Seq<TextInputEvent>,
    i: int,
)
    requires
        0 <= i < events.len(),
    ensures
        (events[i] is Enter || events[i] is Leave) && (forall|j: int|
            i < j < events.len() ==> !(#[trigger] events[j] is Enter) && !(events[j] is Leave))
            ==> m.after_all(events).enabled == (events[i] is Enter),
        (forall|j: int| i < j < events.len() ==> !(#[trigger] events[j] is Done)) ==> (
        events[i] matches TextInputEvent::Done { serial } ==> m.after_all(events).serial == serial),
    decreases events.len(),
{
    let less = events.drop_last();
    if i < less.len() {
        focus_and_serial_are_the_last_told(m, less, i);
        assert(less[i] == events[i]);
        assert(forall|j: int| i < j < less.len() ==> #[trigger] less[j] == events[j]);
        assert(events.last() == events[events.len() - 1]);
    }
}

} // verus!
