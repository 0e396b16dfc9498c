//! macOS input method logic.
//!
//! In engine mode text goes to the client that the Input Method Kit hands over.
//! In standalone mode it is typed with keyboard events, and composing text is
//! not supported.
use std::collections::VecDeque;

use vstd::prelude::*;

use crate::deletion::DeletionPlan;
use crate::error::Error;
use crate::text::{encode_utf16, utf16};
use crate::types::{InputMethodEvent, InputMethodState, Status};

verus! {

/// How text reaches the application
#[derive(Debug, Clone, Copy, PartialEq, Eq, Structural)]
pub enum Mode {
    /// Through the client of an input method engine
    Engine,
    /// Through keyboard events
    CgEvent,
}

/// A range of text
#[derive(Debug, Clone, Copy, PartialEq, Eq, Structural)]
pub struct TextRange {
    /// Where it begins
    pub location: usize,
    /// How long it is
    pub length: usize,
}

/// The range that stands for the cursor position.
pub open spec fn at_cursor() -> TextRange {
    TextRange { location: usize::MAX, length: 0 }
}

/// The part of the composing text between two positions. A position before the
/// beginning counts as the beginning, and an end before the begin gives an
/// empty range.
pub open spec fn selected_range(cursor_begin: i32, cursor_end: i32) -> TextRange {
    TextRange {
        location: if cursor_begin > 0 {
            cursor_begin as usize
        } else {
            0
        },
        length: if cursor_end > cursor_begin {
            (cursor_end - cursor_begin) as usize
        } else {
            0
        },
    }
}

/// What to do with text
#[derive(Debug)]
pub enum Action {
    /// Have the client insert it
    InsertText {
        /// The text
        text: String,
        /// What it replaces
        replacement: TextRange,
    },
    /// Have the client show it as composing text
    SetMarkedText {
        /// The text
        text: String,
        /// The selected part of it
        selected: TextRange,
        /// What it replaces
        replacement: TextRange,
    },
    /// Post keyboard events with it
    PostUnicode {
        /// The text in UTF-16
        units: Vec<u16>,
    },
    /// Nothing
    Nothing,
}

/// A macOS input method
#[derive(Debug)]
pub struct InputMethod {
    mode: Mode,
    state: InputMethodState,
    events: VecDeque<InputMethodEvent>,
}

/// A macOS input method, as contracts see it.
#[verifier::ext_equal]
pub struct MacModel {
    /// How text reaches the application
    pub mode: Mode,
    /// What the program sees
    pub state: InputMethodState,
    /// Events that the program has not taken yet, oldest first
    pub events: Seq<InputMethodEvent>,
}

impl View for InputMethod {
    type V = MacModel;

    closed spec fn view(&self) -> MacModel {
        MacModel {
            mode: self.mode,
            state: self.state,
            events: self.events@,
        }
    }
}

impl MacModel {
    /// A new input method. It is active from the start.
    pub open spec fn initial(mode: Mode) -> MacModel {
        MacModel {
            mode,
            state: InputMethodState { active: true, ..InputMethodState::initial() },
            events: Seq::empty(),
        }
    }
}

/// How far typing has come
#[derive(Debug, Clone, Copy, PartialEq, Eq, Structural)]
pub enum Posted {
    /// Nothing was posted yet
    Nothing,
    /// The event that presses the key
    KeyDown {
        /// Whether the event could be made
        made: bool,
    },
    /// The event that releases the key
    KeyUp {
        /// Whether the event could be made
        made: bool,
    },
}

/// What to do next while text is typed
#[derive(Debug)]
pub enum PostStep {
    /// Make and post the event that presses the key, with the text
    KeyDown,
    /// Make and post the event that releases the key, with the text
    KeyUp,
    /// Stop with this outcome
    Return(Result<(), Error>),
}

/// One step of typing text with keyboard events. Without the first event typing
/// fails, and the second one is not made. The second one may be missing.
pub fn cg_commit(posted: Posted) -> (r: PostStep)
    ensures
        match posted {
            Posted::Nothing => r == PostStep::KeyDown,
            Posted::KeyDown { made: true } => r == PostStep::KeyUp,
            Posted::KeyDown { made: false } => r matches PostStep::Return(
                Err(Error::CommitFailed(text)),
            ) && text@ == "CGEventCreateKeyboardEvent failed"@,
            Posted::KeyUp { .. } => r == PostStep::Return(Ok(())),
        },
{
    match posted {
        Posted::Nothing => PostStep::KeyDown,
        Posted::KeyDown { made } => if made {
            PostStep::KeyUp
        } else {
            PostStep::Return(
                Err(Error::CommitFailed("CGEventCreateKeyboardEvent failed".to_string())),
            )
        },
        Posted::KeyUp { made: _ } => PostStep::Return(Ok(())),
    }
}

impl InputMethod {
    /// An input method in standalone mode.
    pub fn new() -> (r: Self)
        ensures
            r@ == MacModel::initial(Mode::CgEvent),
    {
        let mut state = InputMethodState::new();
        state.active = true;
        InputMethod { mode: Mode::CgEvent, state, events: VecDeque::new() }
    }

    /// An input method in engine mode.
    pub fn new_as_engine() -> (r: Self)
        ensures
            r@ == MacModel::initial(Mode::Engine),
    {
        let mut state = InputMethodState::new();
        state.active = true;
        InputMethod { mode: Mode::Engine, state, events: VecDeque::new() }
    }

    /// Takes the oldest event that waits.
    pub fn next_event(&mut self) -> (r: Option<InputMethodEvent>)
        ensures
            if old(self)@.events.len() == 0 {
                r is None && final(self)@ == old(self)@
            } else {
                r == Some(old(self)@.events[0]) && final(self)@ == (MacModel {
                    events: old(self)@.events.drop_first(),
                    ..old(self)@
                })
            },
    {
        self.events.pop_front()
    }

    /// Check if the input method is active.
    pub fn is_active(&self) -> (r: bool)
        ensures
            r == self@.state.active,
    {
        self.state.active
    }

    /// Returns the current operational status.
    pub fn status(&self) -> (r: Status)
        ensures
            r == (if self@.state.active {
                Status::Active
            } else {
                Status::Inactive
            }),
    {
        if self.state.active {
            Status::Active
        } else {
            Status::Inactive
        }
    }

    /// Commit text: inserted at the cursor in engine mode, typed in standalone
    /// mode.
    pub fn commit_string(&self, text: &str) -> (r: Action)
        ensures
            match self@.mode {
                Mode::Engine => r matches Action::InsertText { text: shown, replacement } && shown@
                    == text@ && replacement == at_cursor(),
                Mode::CgEvent => r matches Action::PostUnicode { units } && units@ == utf16(text@),
            },
    {
        match self.mode {
            Mode::Engine => Action::InsertText {
                text: text.to_string(),
                replacement: TextRange { location: usize::MAX, length: 0 },
            },
            Mode::CgEvent => Action::PostUnicode { units: encode_utf16(text) },
        }
    }

    /// Set composing text: shown by the client in engine mode, and not
    /// supported in standalone mode.
    pub fn set_preedit_string(&self, text: &str, cursor_begin: i32, cursor_end: i32) -> (r: Action)
        requires
            self@.mode == Mode::Engine ==> i32::MIN <= cursor_end - cursor_begin <= i32::MAX,
        ensures
            match self@.mode {
                Mode::Engine => r matches Action::SetMarkedText {
                    text: shown,
                    selected,
                    replacement,
                } && shown@ == text@ && selected == selected_range(cursor_begin, cursor_end)
                    && replacement == at_cursor(),
                Mode::CgEvent => r == Action::Nothing,
            },
    {
        match self.mode {
            Mode::Engine => {
                let length = cursor_end - cursor_begin;
                let selected = TextRange {
                    location: if cursor_begin > 0 {
                        cursor_begin as usize
                    } else {
                        0
                    },
                    length: if length > 0 {
                        length as usize
                    } else {
                        0
                    },
                };
                Action::SetMarkedText {
                    text: text.to_string(),
                    selected,
                    replacement: TextRange { location: usize::MAX, length: 0 },
                }
            },
            Mode::CgEvent => Action::Nothing,
        }
    }

    /// The virtual keys that delete text around the cursor: delete, then
    /// forward delete.
    pub fn delete_surrounding_text(&self, before: u32, after: u32) -> (r: DeletionPlan<u16>)
        ensures
            r == (DeletionPlan { backspace: 0x33u16, before, delete: 0x75u16, after }),
    {
        DeletionPlan { backspace: 0x33u16, before, delete: 0x75u16, after }
    }

    /// Commit changes (nothing to do, as commits are immediate)
    pub fn commit(&self, _serial: u32) -> (r: Result<(), Error>)
        ensures
            r is Ok,
    {
        Ok(())
    }

    /// Get the current state.
    pub fn state(&self) -> (r: InputMethodState)
        ensures
            r == self@.state,
    {
        self.state.clone()
    }
}

/// Positions in order select exactly what lies between them.
pub proof fn selection_lies_between_positions(cursor_begin: i32, cursor_end: i32)
    requires
        0 <= cursor_begin <= cursor_end,
    ensures
        selected_range(cursor_begin, cursor_end).location == cursor_begin,
        selected_range(cursor_begin, cursor_end).location + selected_range(
            cursor_begin,
            cursor_end,
        ).length == cursor_end,
{
}

/// A selection begins at the first position, but not before the text, and is as
/// long as the way to the second position; positions that are not in order select
/// nothing. Text is put at the cursor by naming no position of the text.
pub proof fn selection_follows_its_positions(cursor_begin: i32, cursor_end: i32)
    ensures
        ({
            let selected = selected_range(cursor_begin, cursor_end);
            &&& cursor_begin >= 0 ==> selected.location == cursor_begin
            &&& cursor_begin < 0 ==> selected.location == 0
            &&& cursor_end >= cursor_begin ==> selected.length == cursor_end - cursor_begin
            &&& cursor_end < cursor_begin ==> selected.length == 0
        }),
        at_cursor().location == usize::MAX,
        at_cursor().length == 0,
{
}

} // verus!
