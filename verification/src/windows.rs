//! Windows input method logic.
//!
//! Text is committed through the Text Services Framework, and typed as Unicode
//! key strokes where that fails. Composing text goes through the framework too,
//! and through the older Input Method Manager where that fails. Events come
//! from window messages.
use std::collections::VecDeque;

use vstd::prelude::*;

use crate::deletion::DeletionPlan;
use crate::error::Error;
use crate::text::{encode_utf16, utf16};
use crate::types::{InputMethodEvent, InputMethodState, Status};

verus! {

/// Window messages, as far as an input method reads them
#[derive(Debug, Clone, Copy, PartialEq, Eq, Structural)]
pub enum Message {
    /// `WM_IME_STARTCOMPOSITION`
    StartComposition,
    /// `WM_IME_ENDCOMPOSITION`
    EndComposition,
    /// `WM_IME_SETCONTEXT`
    SetContext {
        /// Zero if the window becomes inactive
        wparam: usize,
    },
    /// Any other message
    Other,
}

/// What looking into the message queue came to
#[derive(Debug, Clone, Copy, PartialEq, Eq, Structural)]
pub enum Peeked {
    /// The queue was not looked into yet
    NotYet,
    /// A message was taken out
    Message(Message),
    /// The queue is empty
    Nothing,
}

/// What to do next for the next event
#[derive(Debug)]
pub enum NextStep {
    /// Answer with this
    Return(Option<InputMethodEvent>),
    /// Look into the message queue
    Peek,
}

/// A way to commit text
#[derive(Debug, Clone, Copy, PartialEq, Eq, Structural)]
pub enum CommitWay {
    /// Set the text of the composition and end it
    EndComposition,
    /// Insert the text at the selection
    InsertAtSelection,
    /// Type the text
    SendInput,
}

/// How to commit a text
#[derive(Debug)]
pub struct CommitPlan {
    /// The text in UTF-16
    pub wide: Vec<u16>,
    /// What to try first
    pub way: CommitWay,
}

/// A way to show composing text
#[derive(Debug, Clone, Copy, PartialEq, Eq, Structural)]
pub enum PreeditWay {
    /// Set the text of the composition
    UpdateComposition,
    /// Start a composition with the text
    StartComposition,
    /// Hand the text to the Input Method Manager
    Imm32,
}

/// How to show composing text
#[derive(Debug)]
pub struct PreeditPlan {
    /// The text in UTF-16
    pub wide: Vec<u16>,
    /// What to try first
    pub way: PreeditWay,
}

/// A simulated keyboard input
#[derive(Debug, Clone, Copy, PartialEq, Eq, Structural)]
pub struct KeyboardInput {
    /// Virtual key code, or zero for a Unicode input
    pub virtual_key: u16,
    /// UTF-16 code unit of a Unicode input, or zero
    pub scan: u16,
    /// Whether this is a Unicode input
    pub unicode: bool,
    /// Whether the key goes up
    pub key_up: bool,
}

/// Two keyboard inputs that are simulated together: a key goes down and up
#[derive(Debug, Clone, Copy, PartialEq, Eq, Structural)]
pub struct KeyTap {
    /// The key goes down
    pub down: KeyboardInput,
    /// The key goes up
    pub up: KeyboardInput,
}

/// Typing a UTF-16 code unit.
pub open spec fn unicode_tap(code: u16) -> KeyTap {
    let down = KeyboardInput { virtual_key: 0, scan: code, unicode: true, key_up: false };
    KeyTap { down, up: KeyboardInput { key_up: true, ..down } }
}

/// Stroking a virtual key.
pub open spec fn virtual_tap(virtual_key: u16) -> KeyTap {
    let down = KeyboardInput { virtual_key, scan: 0, unicode: false, key_up: false };
    KeyTap { down, up: KeyboardInput { key_up: true, ..down } }
}

/// A Windows input method
#[derive(Debug)]
pub struct InputMethod {
    serial: u32,
    state: InputMethodState,
    events: VecDeque<InputMethodEvent>,
    composing: bool,
    composition: bool,
}

/// A Windows input method, as contracts see it.
#[verifier::ext_equal]
pub struct WindowsModel {
    /// How many activations there were
    pub serial: u32,
    /// What the program sees
    pub state: InputMethodState,
    /// Events that the program has not taken yet, oldest first
    pub events: Seq<InputMethodEvent>,
    /// Whether a window composes text
    pub composing: bool,
    /// Whether there is a composition of this input method
    pub composition: bool,
}

impl View for InputMethod {
    type V = WindowsModel;

    closed spec fn view(&self) -> WindowsModel {
        WindowsModel {
            serial: self.serial,
            state: self.state,
            events: self.events@,
            composing: self.composing,
            composition: self.composition,
        }
    }
}

impl WindowsModel {
    /// A new input method.
    pub open spec fn initial() -> WindowsModel {
        WindowsModel {
            serial: 0,
            state: InputMethodState::initial(),
            events: Seq::empty(),
            composing: false,
            composition: false,
        }
    }

    /// Whether a message activates the input method.
    pub open spec fn activates(self, message: Message) -> bool {
        match message {
            Message::StartComposition => !self.composing,
            Message::SetContext { wparam } => wparam != 0 && !self.state.active,
            _ => false,
        }
    }

    /// Whether a message deactivates the input method.
    pub open spec fn deactivates(self, message: Message) -> bool {
        match message {
            Message::EndComposition => self.composing,
            Message::SetContext { wparam } => wparam == 0 && self.state.active,
            _ => false,
        }
    }

    /// After a message. The state shows the last activation: its serial, and
    /// whether it has ended.
    pub open spec fn after(self, message: Message) -> WindowsModel {
        let serial = if self.activates(message) {
            (self.serial + 1) as u32
        } else {
            self.serial
        };
        WindowsModel {
            serial,
            state: InputMethodState {
                active: if self.activates(message) {
                    true
                } else if self.deactivates(message) {
                    false
                } else {
                    self.state.active
                },
                serial: if self.activates(message) {
                    serial
                } else {
                    self.state.serial
                },
                ..self.state
            },
            composing: match message {
                Message::StartComposition => true,
                Message::EndComposition => false,
                _ => self.composing,
            },
            ..self
        }
    }

    /// What the program is told of a message.
    pub open spec fn told(self, message: Message) -> Option<InputMethodEvent> {
        if self.activates(message) {
            Some(InputMethodEvent::Activate { serial: (self.serial + 1) as u32 })
        } else if self.deactivates(message) {
            Some(InputMethodEvent::Deactivate)
        } else {
            None
        }
    }
}

/// The way to commit text after one that failed. A composition that cannot take
/// the text is given up, and the text inserted; text that cannot be inserted is
/// typed.
pub open spec fn commit_way_after(failed: CommitWay) -> Option<CommitWay> {
    match failed {
        CommitWay::EndComposition => Some(CommitWay::InsertAtSelection),
        CommitWay::InsertAtSelection => Some(CommitWay::SendInput),
        CommitWay::SendInput => None,
    }
}

/// What to do after a way to commit text was tried: `None` if it succeeded, and
/// else the next way.
pub fn next_commit_way(tried: CommitWay, succeeded: bool) -> (r: Option<CommitWay>)
    ensures
        r == (if succeeded {
            None
        } else {
            commit_way_after(tried)
        }),
{
    if succeeded {
        return None;
    }
    match tried {
        CommitWay::EndComposition => Some(CommitWay::InsertAtSelection),
        CommitWay::InsertAtSelection => Some(CommitWay::SendInput),
        CommitWay::SendInput => None,
    }
}

/// What to hand to the Input Method Manager: the size of the text in bytes, or
/// `None` if the window has no input context. `window` says whether a window
/// is in front, and `context` whether it has an input context.
pub fn imm32_set_preedit(window: bool, context: bool, wide: &[u16]) -> (r: Result<
    Option<u32>,
    Error,
>)
    requires
        wide@.len() * 2 <= usize::MAX,
    ensures
        if !window {
            r == Err::<Option<u32>, Error>(Error::NotActive)
        } else if !context {
            r == Ok::<Option<u32>, Error>(None)
        } else {
            r == Ok::<Option<u32>, Error>(Some((wide@.len() * 2 % 0x1_0000_0000) as u32))
        },
{
    if !window {
        return Err(Error::NotActive);
    }
    if !context {
        return Ok(None);
    }
    let bytes: u64 = wide.len() as u64 * 2;
    Ok(Some((bytes % 0x1_0000_0000) as u32))
}

/// Typing a UTF-16 code unit.
pub fn send_unicode_char(code: u16) -> (r: KeyTap)
    ensures
        r == unicode_tap(code),
{
    KeyTap {
        down: KeyboardInput { virtual_key: 0, scan: code, unicode: true, key_up: false },
        up: KeyboardInput { virtual_key: 0, scan: code, unicode: true, key_up: true },
    }
}

/// Typing a text in UTF-16, unit by unit.
pub fn send_input_string(wide: &[u16]) -> (r: Vec<KeyTap>)
    ensures
        r@ == Seq::new(wide@.len(), |i: int| unicode_tap(wide@[i])),
{
    let mut taps: Vec<KeyTap> = Vec::new();
    let mut i: usize = 0;
    while i < wide.len()
        invariant
            i <= wide@.len(),
            taps@ == Seq::new(i as nat, |k: int| unicode_tap(wide@[k])),
        decreases wide.len() - i,
    {
        taps.push(send_unicode_char(wide[i]));
        i = i + 1;
    }
    taps
}

/// Stroking a virtual key.
pub fn send_vk(virtual_key: u16) -> (r: KeyTap)
    ensures
        r == virtual_tap(virtual_key),
{
    KeyTap {
        down: KeyboardInput { virtual_key, scan: 0, unicode: false, key_up: false },
        up: KeyboardInput { virtual_key, scan: 0, unicode: false, key_up: true },
    }
}

/// A tap was simulated, where `sent` of its two inputs got through.
pub fn tap_outcome(sent: u32) -> (r: Result<(), Error>)
    ensures
        sent == 2 ==> r is Ok,
        sent != 2 ==> (r matches Err(Error::CommitFailed(text)) && text@ == "SendInput failed"@),
{
    if sent != 2 {
        return Err(Error::CommitFailed("SendInput failed".to_string()));
    }
    Ok(())
}

/// What to do next while taps are simulated
#[derive(Debug)]
pub enum TapStep {
    /// Simulate this tap
    Send(KeyTap),
    /// Stop with this outcome
    Return(Result<(), Error>),
}

/// The tap at an index, or `None` behind the last one.
pub open spec fn tap_at(taps: Seq<KeyTap>, index: int) -> Option<KeyTap> {
    if 0 <= index < taps.len() {
        Some(taps[index])
    } else {
        None
    }
}

/// The taps of a deletion.
pub open spec fn deletion_taps(plan: DeletionPlan<u16>) -> Seq<KeyTap> {
    Seq::new(plan.keys().len(), |i: int| virtual_tap(plan.keys()[i]))
}

/// Whether `step` is what to do next, where `next` is the next tap and `last`
/// how many inputs of the tap before it got through.
pub open spec fn is_step_after(step: TapStep, next: Option<KeyTap>, last: Option<u32>) -> bool {
    if last is Some && last != Some(2u32) {
        step matches TapStep::Return(Err(Error::CommitFailed(text))) && text@
            == "SendInput failed"@
    } else {
        match next {
            Some(tap) => step == TapStep::Send(tap),
            None => step == TapStep::Return(Ok(())),
        }
    }
}

/// What to do next, where `next` is the next tap and `last` how many inputs of
/// the tap before it got through.
fn step_after(next: Option<KeyTap>, last: Option<u32>) -> (r: TapStep)
    ensures
        is_step_after(r, next, last),
{
    if let Some(sent) = last {
        match tap_outcome(sent) {
            Ok(_) => {},
            Err(e) => {
                return TapStep::Return(Err(e));
            },
        }
    }
    match next {
        Some(tap) => TapStep::Send(tap),
        None => TapStep::Return(Ok(())),
    }
}

/// One step of simulating taps, where `done` of them were simulated and `last`
/// is how many inputs of the last one got through. The first tap that did not
/// get through ends it: no later tap is simulated.
pub fn sending_step(taps: &Vec<KeyTap>, done: usize, last: Option<u32>) -> (r: TapStep)
    ensures
        is_step_after(r, tap_at(taps@, done as int), last),
{
    let next = if done < taps.len() {
        Some(taps[done])
    } else {
        None
    };
    step_after(next, last)
}

/// One step of simulating the taps of a deletion, where `done` of them were
/// simulated and `last` is how many inputs of the last one got through. The
/// first tap that did not get through ends it.
pub fn deletion_step(plan: &DeletionPlan<u16>, done: u64, last: Option<u32>) -> (r: TapStep)
    ensures
        is_step_after(r, tap_at(deletion_taps(*plan), done as int), last),
{
    let next = match plan.key_at(done) {
        Some(virtual_key) => Some(send_vk(virtual_key)),
        None => None,
    };
    step_after(next, last)
}

impl InputMethod {
    /// A new input method.
    pub fn new() -> (r: Self)
        ensures
            r@ == WindowsModel::initial(),
    {
        InputMethod {
            serial: 0,
            state: InputMethodState::new(),
            events: VecDeque::new(),
            composing: false,
            composition: false,
        }
    }

    /// One step towards the next event: events that wait come first, then
    /// messages are taken until one tells something or none is left.
    pub fn next_event(&mut self, peeked: Peeked) -> (r: NextStep)
        requires
            peeked matches Peeked::Message(message) ==> old(self)@.activates(message)
                ==> old(self)@.serial < u32::MAX,
        ensures
            match peeked {
                Peeked::NotYet => if old(self)@.events.len() == 0 {
                    r == NextStep::Peek && final(self)@ == old(self)@
                } else {
                    r == NextStep::Return(Some(old(self)@.events[0])) && final(self)@ == (
                    WindowsModel { events: old(self)@.events.drop_first(), ..old(self)@ })
                },
                Peeked::Message(message) => final(self)@ == old(self)@.after(message) && r == (
                match old(self)@.told(message) {
                    Some(event) => NextStep::Return(Some(event)),
                    None => NextStep::Peek,
                }),
                Peeked::Nothing => r == NextStep::Return(None) && final(self)@ == old(self)@,
            },
    {
        match peeked {
            Peeked::NotYet => match self.events.pop_front() {
                Some(event) => NextStep::Return(Some(event)),
                None => NextStep::Peek,
            },
            Peeked::Message(message) => match self.process_message(message) {
                Some(event) => NextStep::Return(Some(event)),
                None => NextStep::Peek,
            },
            Peeked::Nothing => NextStep::Return(None),
        }
    }

    /// A window message: what the program is told of it, if anything.
    pub fn process_message(&mut self, message: Message) -> (r: Option<InputMethodEvent>)
        requires
            old(self)@.activates(message) ==> old(self)@.serial < u32::MAX,
        ensures
            final(self)@ == old(self)@.after(message),
            r == old(self)@.told(message),
    {
        match message {
            Message::StartComposition => {
                if !self.composing {
                    self.composing = true;
                    self.serial = self.serial + 1;
                    self.state.active = true;
                    self.state.serial = self.serial;
                    return Some(InputMethodEvent::Activate { serial: self.serial });
                }
            },
            Message::EndComposition => {
                if self.composing {
                    self.composing = false;
                    self.state.active = false;
                    return Some(InputMethodEvent::Deactivate);
                }
            },
            Message::SetContext { wparam } => {
                let active = wparam != 0;
                if active && !self.state.active {
                    self.serial = self.serial + 1;
                    self.state.active = true;
                    self.state.serial = self.serial;
                    return Some(InputMethodEvent::Activate { serial: self.serial });
                } else if !active && self.state.active {
                    self.state.active = false;
                    return Some(InputMethodEvent::Deactivate);
                }
            },
            Message::Other => {},
        }
        None
    }

    /// Whether a message activates the input method.
    pub fn activates(&self, message: Message) -> (r: bool)
        ensures
            r == self@.activates(message),
    {
        match message {
            Message::StartComposition => !self.composing,
            Message::SetContext { wparam } => wparam != 0 && !self.state.active,
            Message::EndComposition | Message::Other => false,
        }
    }

    /// How many activations there were.
    pub fn serial(&self) -> (r: u32)
        ensures
            r == self@.serial,
    {
        self.serial
    }

    /// Check if the input method is active.
    pub fn is_active(&self) -> (r: bool)
        ensures
            r == self@.state.active,
    {
        self.state.active
    }

    /// Returns the current operational status.
    pub fn status(&self) -> (r: Status)
        ensures
            r == (if self@.state.active {
                Status::Active
            } else {
                Status::Inactive
            }),
    {
        if self.state.active {
            Status::Active
        } else {
            Status::Inactive
        }
    }

    /// How to commit a text. A composition is ended by it, or given up.
    pub fn commit_string(&mut self, text: &str) -> (r: CommitPlan)
        ensures
            r.wide@ == utf16(text@),
            r.way == (if old(self)@.composition {
                CommitWay::EndComposition
            } else {
                CommitWay::InsertAtSelection
            }),
            final(self)@ == (WindowsModel { composition: false, ..old(self)@ }),
    {
        let wide = encode_utf16(text);
        let way = if self.composition {
            CommitWay::EndComposition
        } else {
            CommitWay::InsertAtSelection
        };
        self.composition = false;
        CommitPlan { wide, way }
    }

    /// How to show composing text.
    pub fn set_preedit_string(&self, text: &str, _cursor_begin: i32, _cursor_end: i32) -> (r:
        PreeditPlan)
        ensures
            r.wide@ == utf16(text@),
            r.way == (if self@.composition {
                PreeditWay::UpdateComposition
            } else {
                PreeditWay::StartComposition
            }),
    {
        let wide = encode_utf16(text);
        let way = if self.composition {
            PreeditWay::UpdateComposition
        } else {
            PreeditWay::StartComposition
        };
        PreeditPlan { wide, way }
    }

    /// A way to show composing text was tried: `None` if it succeeded, and else
    /// the next way. `started` says whether starting a composition left one.
    pub fn preedit_tried(&mut self, tried: PreeditWay, succeeded: bool, started: bool) -> (r: Option<
        PreeditWay,
    >)
        ensures
            r == (if succeeded || tried == PreeditWay::Imm32 {
                None
            } else {
                Some(PreeditWay::Imm32)
            }),
            final(self)@ == (WindowsModel {
                composition: if tried == PreeditWay::StartComposition && succeeded {
                    started
                } else {
                    old(self)@.composition
                },
                ..old(self)@
            }),
    {
        match tried {
            PreeditWay::UpdateComposition => if succeeded {
                None
            } else {
                Some(PreeditWay::Imm32)
            },
            PreeditWay::StartComposition => if succeeded {
                self.composition = started;
                None
            } else {
                Some(PreeditWay::Imm32)
            },
            PreeditWay::Imm32 => None,
        }
    }

    /// The virtual keys that delete text around the cursor: backspace, then
    /// delete.
    pub fn delete_surrounding_text(&self, before: u32, after: u32) -> (r: DeletionPlan<u16>)
        ensures
            r == (DeletionPlan { backspace: 0x08u16, before, delete: 0x2Eu16, after }),
    {
        DeletionPlan { backspace: 0x08u16, before, delete: 0x2Eu16, after }
    }

    /// Commit changes (nothing to do, as commits are immediate)
    pub fn commit(&self, _serial: u32) -> (r: Result<(), Error>)
        ensures
            r is Ok,
    {
        Ok(())
    }

    /// Get the current state.
    pub fn state(&self) -> (r: InputMethodState)
        ensures
            r == self@.state,
    {
        self.state.clone()
    }
}

impl WindowsModel {
    /// After a row of messages.
    pub open spec fn after_all(self, messages: Seq<Message>) -> WindowsModel
        decreases messages.len(),
    {
        if messages.len() == 0 {
            self
        } else {
            self.after_all(messages.drop_last()).after(messages.last())
        }
    }

    /// What the program is told of a row of messages.
    pub open spec fn told_all(self, messages: Seq<Message>) -> Seq<InputMethodEvent>
        decreases messages.len(),
    {
        if messages.len() == 0 {
            Seq::empty()
        } else {
            let before = self.told_all(messages.drop_last());
            match self.after_all(messages.drop_last()).told(messages.last()) {
                Some(event) => before.push(event),
                None => before,
            }
        }
    }
}

/// How many activations there are among events.
pub open spec fn activation_count(events: Seq<InputMethodEvent>) -> nat
    decreases events.len(),
{
    if events.len() == 0 {
        0
    } else {
        activation_count(events.drop_last()) + if events.last() is Activate {
            1nat
        } else {
            0nat
        }
    }
}

/// Activations are numbered in a row: each bears the serial after that of the
/// activation before it.
pub proof fn activations_are_numbered(m: WindowsModel, messages: Seq<Message>)
    requires
        m.serial + messages.len() <= u32::MAX,
    ensures
        ({
            let told = m.told_all(messages);
            &&& activation_count(told) <= messages.len()
            &&& m.after_all(messages).serial == m.serial + activation_count(told)
            &&& forall|i: int|
                0 <= i < told.len() ==> ((#[trigger] told[i]) matches InputMethodEvent::Activate {
                    serial,
                } ==> serial == m.serial + activation_count(told.take(i + 1)))
        }),
    decreases messages.len(),
{
    if messages.len() > 0 {
        let less = messages.drop_last();
        activations_are_numbered(m, less);
        let before = m.told_all(less);
        let told = m.told_all(messages);
        match m.after_all(less).told(messages.last()) {
            Some(event) => {
                assert(told.drop_last() == before);
                assert forall|i: int| 0 <= i < told.len() implies ((#[trigger] told[i]) matches InputMethodEvent::Activate {
                    serial,
                } ==> serial == m.serial + activation_count(told.take(i + 1))) by {
                    if i < before.len() {
                        assert(told[i] == before[i]);
                        assert(told.take(i + 1) == before.take(i + 1));
                    } else {
                        assert(told.take(i + 1) == told);
                    }
                }
            },
            None => {},
        }
    }
}

/// The state follows what the program is told: after an activation it is active
/// and shows the next serial, after a deactivation it is inactive, and where
/// nothing is told nothing has changed.
pub proof fn state_follows_what_is_told(m: WindowsModel, message: Message)
    requires
        m.serial < u32::MAX,
    ensures
        match m.told(message) {
            Some(InputMethodEvent::Activate { serial }) => {
                &&& serial == m.serial + 1
                &&& m.after(message).serial == serial
                &&& m.after(message).state.active
                &&& m.after(message).state.serial == serial
            },
            Some(InputMethodEvent::Deactivate) => {
                &&& !m.after(message).state.active
                &&& m.after(message).serial == m.serial
                &&& m.after(message).state.serial == m.state.serial
            },
            Some(_) => false,
            None => m.after(message) == m,
        },
{
}

/// The state shows the number of activations, after any row of messages.
pub proof fn state_shows_serial(m: WindowsModel, messages: Seq<Message>)
    requires
        m.state.serial == m.serial,
    ensures
        m.after_all(messages).state.serial == m.after_all(messages).serial,
        WindowsModel::initial().state.serial == WindowsModel::initial().serial,
    decreases messages.len(),
{
    if messages.len() > 0 {
        state_shows_serial(m, messages.drop_last());
    }
}

/// Every way to commit text leads, failure by failure, to typing it: no text is
/// dropped because a composition or the selection could not take it.
pub proof fn failed_ways_lead_to_typing(way: CommitWay)
    ensures
        ({
            ||| way == CommitWay::SendInput
            ||| commit_way_after(way) == Some(CommitWay::SendInput)
            ||| commit_way_after(way) matches Some(next) && commit_way_after(next) == Some(
                CommitWay::SendInput,
            )
        }),
{
}

/// How many inputs of the tap before an index got through, or `None` at the
/// first one.
pub open spec fn sent_before(sent: Seq<u32>, index: int) -> Option<u32> {
    if index == 0 {
        None
    } else {
        Some(sent[index - 1])
    }
}

/// Whether `step` is the step at an index of simulating taps, where `sent` says
/// how many inputs of each tap got through.
pub open spec fn is_step_at(step: TapStep, taps: Seq<KeyTap>, sent: Seq<u32>, index: int) -> bool {
    is_step_after(step, tap_at(taps, index), sent_before(sent, index))
}

/// Taps are simulated in order up to the first one that does not get through,
/// which is returned as a failed commit right away.
pub proof fn first_refusal_ends_typing(taps: Seq<KeyTap>, sent: Seq<u32>, refused: int)
    requires
        0 <= refused < taps.len(),
        sent.len() == refused + 1,
        forall|i: int| 0 <= i < refused ==> #[trigger] sent[i] == 2,
        sent[refused] != 2,
    ensures
        forall|step: TapStep, i: int|
            0 <= i <= refused ==> (#[trigger] is_step_at(step, taps, sent, i) <==> step
                == TapStep::Send(taps[i])),
        forall|step: TapStep| #[trigger]
            is_step_at(step, taps, sent, refused + 1) ==> (step matches TapStep::Return(
                Err(Error::CommitFailed(text)),
            ) && text@ == "SendInput failed"@),
{
}

/// Where every tap gets through, each is simulated once, in order, and typing
/// succeeds.
pub proof fn every_tap_is_typed(taps: Seq<KeyTap>, sent: Seq<u32>)
    requires
        sent.len() == taps.len(),
        forall|i: int| 0 <= i < sent.len() ==> #[trigger] sent[i] == 2,
    ensures
        forall|step: TapStep, i: int|
            0 <= i < taps.len() ==> (#[trigger] is_step_at(step, taps, sent, i) <==> step
                == TapStep::Send(taps[i])),
        forall|step: TapStep| #[trigger]
            is_step_at(step, taps, sent, taps.len() as int) <==> step == TapStep::Return(Ok(())),
{
}

/// Simulating a code unit or a key takes two inputs that differ in the direction
/// alone: down comes first, then up. A code unit goes by its own number, and a key
/// by its own virtual key code.
pub proof fn taps_go_down_and_up(code: u16)
    ensures
        !unicode_tap(code).down.key_up,
        unicode_tap(code).up.key_up,
        unicode_tap(code).down.scan == code,
        unicode_tap(code).up.scan == code,
        unicode_tap(code).down.unicode && unicode_tap(code).up.unicode,
        unicode_tap(code).down.virtual_key == 0,
        unicode_tap(code).up.virtual_key == 0,
        !virtual_tap(code).down.key_up,
        virtual_tap(code).up.key_up,
        virtual_tap(code).down.virtual_key == code,
        virtual_tap(code).up.virtual_key == code,
        !virtual_tap(code).down.unicode && !virtual_tap(code).up.unicode,
        virtual_tap(code).down.scan == 0,
        virtual_tap(code).up.scan == 0,
{
}

/// A deletion taps the backspace key as often as there is text before the cursor,
/// and then the delete key as often as there is text after it.
pub proof fn every_deletion_tap_is_owed(plan: DeletionPlan<u16>)
    ensures
        deletion_taps(plan).len() == plan.before + plan.after,
        forall|i: int|
            0 <= i < plan.before ==> (#[trigger] deletion_taps(plan)[i]).down.virtual_key
                == plan.backspace && deletion_taps(plan)[i].up.virtual_key == plan.backspace,
        forall|i: int|
            plan.before <= i < plan.before + plan.after ==> (#[trigger] deletion_taps(
                plan,
            )[i]).down.virtual_key == plan.delete && deletion_taps(plan)[i].up.virtual_key
                == plan.delete,
{
}

/// The start of a composition activates unless there is one, and its end
/// deactivates if there is one. A window activates by becoming active while the
/// state is not, and deactivates by becoming inactive while the state is active.
/// No other message does either.
pub proof fn messages_that_are_told(m: WindowsModel, message: Message)
    requires
        m.serial < u32::MAX,
    ensures
        match message {
            Message::StartComposition => {
                &&& m.told(message) is Some <==> !m.composing
                &&& m.told(message) matches Some(told) ==> told is Activate
                &&& m.after(message).composing
            },
            Message::EndComposition => {
                &&& m.told(message) is Some <==> m.composing
                &&& m.told(message) matches Some(told) ==> told is Deactivate
                &&& !m.after(message).composing
            },
            Message::SetContext { wparam } => {
                &&& m.told(message) is Some <==> (wparam != 0) != m.state.active
                &&& m.told(message) matches Some(told) ==> (told is Activate <==> wparam != 0)
                &&& m.after(message).state.active == (wparam != 0)
                &&& m.after(message).composing == m.composing
            },
            Message::Other => m.told(message) is None && m.after(message) == m,
        },
        m.after(message).events == m.events,
        m.after(message).composition == m.composition,
        m.after(message).state.surrounding_text == m.state.surrounding_text,
        m.after(message).state.content_purpose == m.state.content_purpose,
{
}

/// Text that cannot be committed in one way is committed in the next: at the
/// selection where a composition did not take it, and typed where the selection
/// did not. Behind typing there is no way left.
pub proof fn commit_ways_come_in_order()
    ensures
        commit_way_after(CommitWay::EndComposition) == Some(CommitWay::InsertAtSelection),
        commit_way_after(CommitWay::InsertAtSelection) == Some(CommitWay::SendInput),
        commit_way_after(CommitWay::SendInput) is None,
{
}

} // verus!
