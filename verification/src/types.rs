//! Common types for IME operations.
use vstd::prelude::*;

verus! {

/// Events from the input method system
#[derive(Debug)]
pub enum InputMethodEvent {
    /// IME has been activated
    Activate {
        /// Serial number for this activation
        serial: u32,
    },
    /// IME has been deactivated
    Deactivate,
    /// Surrounding text context received
    SurroundingText {
        /// The text around the cursor
        text: String,
        /// Cursor position in bytes
        cursor: u32,
        /// Anchor position in bytes (for selection)
        anchor: u32,
    },
    /// Text change cause
    TextChangeCause(ChangeCause),
    /// Content type hint
    ContentType {
        /// Hint about the content type
        hint: ContentHint,
        /// Purpose of the text field
        purpose: ContentPurpose,
    },
    /// Done event - all pending state has been sent
    Done,
    /// Request to show popup at given position
    PopupSurfaceCreated {
        /// X position relative to cursor
        x: i32,
        /// Y position relative to cursor
        y: i32,
        /// Width of the text cursor area
        width: i32,
        /// Height of the text cursor area
        height: i32,
    },
    /// A key of the grabbed keyboard changed
    KeyEvent {
        /// Key code as the compositor sends it (an evdev code)
        keycode: u32,
        /// Keysym under the current keymap and modifiers
        keysym: u32,
        /// Whether the key went down or up
        state: KeyState,
        /// The modifiers that are in effect
        modifiers: Modifiers,
    },
    /// Key repeat settings of the grabbed keyboard
    RepeatInfo {
        /// Repeats per second
        rate: i32,
        /// Milliseconds before the first repeat
        delay: i32,
    },
    /// Unavailable - compositor doesn't support protocol
    Unavailable,
}

impl Clone for InputMethodEvent {
    fn clone(&self) -> (r: Self)
        ensures
            r == *self,
    {
        match self {
            InputMethodEvent::Activate { serial } => InputMethodEvent::Activate { serial: *serial },
            InputMethodEvent::Deactivate => InputMethodEvent::Deactivate,
            InputMethodEvent::SurroundingText { text, cursor, anchor } => {
                InputMethodEvent::SurroundingText {
                    text: text.clone(),
                    cursor: *cursor,
                    anchor: *anchor,
                }
            },
            InputMethodEvent::TextChangeCause(cause) => InputMethodEvent::TextChangeCause(*cause),
            InputMethodEvent::ContentType { hint, purpose } => InputMethodEvent::ContentType {
                hint: *hint,
                purpose: *purpose,
            },
            InputMethodEvent::Done => InputMethodEvent::Done,
            InputMethodEvent::PopupSurfaceCreated { x, y, width, height } => {
                InputMethodEvent::PopupSurfaceCreated {
                    x: *x,
                    y: *y,
                    width: *width,
                    height: *height,
                }
            },
            InputMethodEvent::KeyEvent { keycode, keysym, state, modifiers } => {
                InputMethodEvent::KeyEvent {
                    keycode: *keycode,
                    keysym: *keysym,
                    state: *state,
                    modifiers: *modifiers,
                }
            },
            InputMethodEvent::RepeatInfo { rate, delay } => InputMethodEvent::RepeatInfo {
                rate: *rate,
                delay: *delay,
            },
            InputMethodEvent::Unavailable => InputMethodEvent::Unavailable,
        }
    }
}

/// Whether a key is down or up
#[derive(Debug, Clone, Copy, PartialEq, Eq, Structural)]
pub enum KeyState {
    /// The key is down
    Pressed,
    /// The key is up
    Released,
}

/// The modifiers in effect while a key is handled
#[derive(Debug, Clone, Copy, PartialEq, Eq, Structural)]
pub struct Modifiers {
    /// Shift
    pub shift: bool,
    /// Caps lock
    pub caps: bool,
    /// Control
    pub ctrl: bool,
    /// Alt
    pub alt: bool,
    /// Logo (super) key
    pub logo: bool,
    /// Num lock
    pub num: bool,
}

impl Modifiers {
    /// No modifier in effect.
    pub open spec fn inactive() -> Modifiers {
        Modifiers { shift: false, caps: false, ctrl: false, alt: false, logo: false, num: false }
    }
}

impl Default for Modifiers {
    fn default() -> (r: Self)
        ensures
            r == Modifiers::inactive(),
    {
        Modifiers { shift: false, caps: false, ctrl: false, alt: false, logo: false, num: false }
    }
}

/// Cause of a text change
#[derive(Debug, Clone, Copy, PartialEq, Eq, Structural)]
pub enum ChangeCause {
    /// Change caused by input method
    InputMethod,
    /// Change caused by something else (user, application)
    Other,
}

impl Default for ChangeCause {
    fn default() -> (r: Self)
        ensures
            r == ChangeCause::Other,
    {
        ChangeCause::Other
    }
}

/// Hints about the content type
#[derive(Debug, Clone, Copy, PartialEq, Eq, Structural)]
pub struct ContentHint {
    /// Completion should be shown
    pub completion: bool,
    /// Spellcheck should be performed
    pub spellcheck: bool,
    /// Auto-capitalization should be performed
    pub auto_capitalization: bool,
    /// Input is lowercase
    pub lowercase: bool,
    /// Input is uppercase
    pub uppercase: bool,
    /// Title case
    pub titlecase: bool,
    /// Hidden text (password)
    pub hidden_text: bool,
    /// Sensitive data
    pub sensitive_data: bool,
    /// Latin characters
    pub latin: bool,
    /// Multiline text
    pub multiline: bool,
}

impl ContentHint {
    /// No hint at all.
    pub open spec fn unhinted() -> ContentHint {
        ContentHint {
            completion: false,
            spellcheck: false,
            auto_capitalization: false,
            lowercase: false,
            uppercase: false,
            titlecase: false,
            hidden_text: false,
            sensitive_data: false,
            latin: false,
            multiline: false,
        }
    }
}

impl Default for ContentHint {
    fn default() -> (r: Self)
        ensures
            r == ContentHint::unhinted(),
    {
        ContentHint {
            completion: false,
            spellcheck: false,
            auto_capitalization: false,
            lowercase: false,
            uppercase: false,
            titlecase: false,
            hidden_text: false,
            sensitive_data: false,
            latin: false,
            multiline: false,
        }
    }
}

/// Purpose of the text input
#[derive(Debug, Clone, Copy, PartialEq, Eq, Structural)]
pub enum ContentPurpose {
    /// Normal text
    Normal,
    /// Alphabetic characters
    Alpha,
    /// Digits
    Digits,
    /// Number (including decimal)
    Number,
    /// Phone number
    Phone,
    /// URL
    Url,
    /// Email address
    Email,
    /// Person name
    Name,
    /// Password
    Password,
    /// PIN
    Pin,
    /// Date
    Date,
    /// Time
    Time,
    /// Date and time
    Datetime,
    /// Terminal/command line
    Terminal,
}

impl Default for ContentPurpose {
    fn default() -> (r: Self)
        ensures
            r == ContentPurpose::Normal,
    {
        ContentPurpose::Normal
    }
}

/// Preedit style for composing text
#[derive(Debug, Clone, Copy, PartialEq, Eq, Structural)]
pub enum PreeditStyle {
    /// Default styling
    Default,
    /// No styling
    Unstyled,
    /// Active/focused region
    Active,
    /// Inactive region
    Inactive,
    /// Highlighted region
    Highlight,
    /// Underlined region
    Underline,
    /// Selection region
    Selection,
    /// Incorrect/error region
    Incorrect,
}

impl Default for PreeditStyle {
    fn default() -> (r: Self)
        ensures
            r == PreeditStyle::Default,
    {
        PreeditStyle::Default
    }
}

/// Status of the input method
#[derive(Debug, Clone, Copy, PartialEq, Eq, Structural)]
pub enum Status {
    /// Input method is active (focused on a text field)
    Active,
    /// Input method is inactive (no text field focused)
    Inactive,
    /// Compositor withdrew the input method; cannot be used until reconnected
    Unavailable,
}

/// Rectangle for cursor/anchor positioning
#[derive(Debug, Clone, Copy)]
pub struct CursorRect {
    /// X position
    pub x: i32,
    /// Y position
    pub y: i32,
    /// Width
    pub width: i32,
    /// Height
    pub height: i32,
}

impl Default for CursorRect {
    fn default() -> (r: Self)
        ensures
            r == (CursorRect { x: 0, y: 0, width: 0, height: 0 }),
    {
        CursorRect { x: 0, y: 0, width: 0, height: 0 }
    }
}

/// State of the input method (platform-agnostic)
#[derive(Debug)]
pub struct InputMethodState {
    /// Whether the input method is active
    pub active: bool,
    /// Current serial number
    pub serial: u32,
    /// Surrounding text
    pub surrounding_text: Option<String>,
    /// Cursor position in surrounding text
    pub cursor: u32,
    /// Anchor position in surrounding text
    pub anchor: u32,
    /// Content hint
    pub content_hint: ContentHint,
    /// Content purpose
    pub content_purpose: ContentPurpose,
    /// Change cause
    pub change_cause: ChangeCause,
    /// Pending preedit text
    pub preedit_text: Option<String>,
    /// Pending preedit cursor position
    pub preedit_cursor: i32,
    /// Pending commit text
    pub commit_text: Option<String>,
    /// Delete surrounding text before cursor
    pub delete_before: u32,
    /// Delete surrounding text after cursor
    pub delete_after: u32,
}

impl InputMethodState {
    /// The state of an input method that nothing has happened to yet.
    pub open spec fn initial() -> InputMethodState {
        InputMethodState {
            active: false,
            serial: 0,
            surrounding_text: None,
            cursor: 0,
            anchor: 0,
            content_hint: ContentHint::unhinted(),
            content_purpose: ContentPurpose::Normal,
            change_cause: ChangeCause::Other,
            preedit_text: None,
            preedit_cursor: 0,
            commit_text: None,
            delete_before: 0,
            delete_after: 0,
        }
    }

    /// This state with every pending change dropped.
    pub open spec fn without_pending(self) -> InputMethodState {
        InputMethodState {
            preedit_text: None,
            preedit_cursor: 0,
            commit_text: None,
            delete_before: 0,
            delete_after: 0,
            ..self
        }
    }

    /// This state after the text field was left: inactive, without text and
    /// without pending changes. The serial, the content type and the change
    /// cause outlive the text field.
    pub open spec fn after_reset(self) -> InputMethodState {
        InputMethodState {
            active: false,
            surrounding_text: None,
            cursor: 0,
            anchor: 0,
            ..self.without_pending()
        }
    }

    /// Create a new input method state
    pub fn new() -> (r: Self)
        ensures
            r == InputMethodState::initial(),
    {
        Self::default()
    }

    /// Reset the state
    pub fn reset(&mut self)
        ensures
            *final(self) == old(self).after_reset(),
    {
        self.active = false;
        self.surrounding_text = None;
        self.cursor = 0;
        self.anchor = 0;
        self.preedit_text = None;
        self.preedit_cursor = 0;
        self.commit_text = None;
        self.delete_before = 0;
        self.delete_after = 0;
    }

    /// Clear pending changes
    pub fn clear_pending(&mut self)
        ensures
            *final(self) == old(self).without_pending(),
    {
        self.preedit_text = None;
        self.preedit_cursor = 0;
        self.commit_text = None;
        self.delete_before = 0;
        self.delete_after = 0;
    }
}

impl Default for InputMethodState {
    fn default() -> (r: Self)
        ensures
            r == InputMethodState::initial(),
    {
        InputMethodState {
            active: false,
            serial: 0,
            surrounding_text: None,
            cursor: 0,
            anchor: 0,
            content_hint: ContentHint::default(),
            content_purpose: ContentPurpose::default(),
            change_cause: ChangeCause::default(),
            preedit_text: None,
            preedit_cursor: 0,
            commit_text: None,
            delete_before: 0,
            delete_after: 0,
        }
    }
}

impl Clone for InputMethodState {
    fn clone(&self) -> (r: Self)
        ensures
            r == *self,
    {
        InputMethodState {
            active: self.active,
            serial: self.serial,
            surrounding_text: self.surrounding_text.clone(),
            cursor: self.cursor,
            anchor: self.anchor,
            content_hint: self.content_hint,
            content_purpose: self.content_purpose,
            change_cause: self.change_cause,
            preedit_text: self.preedit_text.clone(),
            preedit_cursor: self.preedit_cursor,
            commit_text: self.commit_text.clone(),
            delete_before: self.delete_before,
            delete_after: self.delete_after,
        }
    }
}

/// A state that was reset has nothing pending, and resetting or clearing it
/// again changes nothing.
pub proof fn reset_is_settled(state: InputMethodState)
    ensures
        state.after_reset().after_reset() == state.after_reset(),
        state.after_reset().without_pending() == state.after_reset(),
        state.without_pending().after_reset() == state.after_reset(),
{
}

/// Clearing pending changes twice is clearing them once, and touches nothing
/// that the compositor has told.
pub proof fn clearing_keeps_what_was_told(state: InputMethodState)
    ensures
        state.without_pending().without_pending() == state.without_pending(),
        ({
            let cleared = state.without_pending();
            &&& cleared.active == state.active
            &&& cleared.serial == state.serial
            &&& cleared.surrounding_text == state.surrounding_text
            &&& cleared.cursor == state.cursor
            &&& cleared.anchor == state.anchor
            &&& cleared.content_hint == state.content_hint
            &&& cleared.content_purpose == state.content_purpose
            &&& cleared.change_cause == state.change_cause
        }),
{
}

/// A new state equals its own reset: resetting it changes nothing.
pub proof fn initial_state_is_reset()
    ensures
        InputMethodState::initial().after_reset() == InputMethodState::initial(),
{
}

/// A new state has nothing in it.
pub proof fn new_state_is_empty()
    ensures
        ({
            let state = InputMethodState::initial();
            &&& !state.active
            &&& state.serial == 0
            &&& state.surrounding_text is None
            &&& state.cursor == 0 && state.anchor == 0
            &&& state.content_purpose == ContentPurpose::Normal
            &&& state.change_cause == ChangeCause::Other
            &&& !state.content_hint.completion && !state.content_hint.spellcheck
            &&& !state.content_hint.auto_capitalization && !state.content_hint.lowercase
            &&& !state.content_hint.uppercase && !state.content_hint.titlecase
            &&& !state.content_hint.hidden_text && !state.content_hint.sensitive_data
            &&& !state.content_hint.latin && !state.content_hint.multiline
            &&& state.preedit_text is None && state.preedit_cursor == 0
            &&& state.commit_text is None
            &&& state.delete_before == 0 && state.delete_after == 0
        }),
{
}

/// Clearing leaves nothing pending, and resetting neither that nor any text. What
/// is told of the text field, and the serial, outlive a reset.
pub proof fn reset_and_clear_leave_nothing(state: InputMethodState)
    ensures
        ({
            let cleared = state.without_pending();
            &&& cleared.preedit_text is None && cleared.preedit_cursor == 0
            &&& cleared.commit_text is None
            &&& cleared.delete_before == 0 && cleared.delete_after == 0
        }),
        ({
            let reset = state.after_reset();
            &&& !reset.active
            &&& reset.surrounding_text is None && reset.cursor == 0 && reset.anchor == 0
            &&& reset.preedit_text is None && reset.preedit_cursor == 0
            &&& reset.commit_text is None
            &&& reset.delete_before == 0 && reset.delete_after == 0
            &&& reset.serial == state.serial
            &&& reset.content_hint == state.content_hint
            &&& reset.content_purpose == state.content_purpose
            &&& reset.change_cause == state.change_cause
        }),
{
}

} // verus!
