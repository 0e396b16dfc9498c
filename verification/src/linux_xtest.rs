//! Text injection through the XTest extension, shared by the X11 and IBus
//! backends.
//!
//! The functions here say which keys to fake, in which order. Sending them to
//! the X server is the caller's part.
use vstd::prelude::*;

use crate::deletion::DeletionPlan;
use crate::error::Error;
use crate::text::{hex_digits, hex_text};
use crate::types::KeyState;

verus! {

/// Keysym of the left shift key
pub const XK_SHIFT_L: u32 = 0xFFE1;
/// Keysym of the left control key
pub const XK_CONTROL_L: u32 = 0xFFE3;
/// Keysym of the backspace key
pub const XK_BACKSPACE: u32 = 0xFF08;
/// Keysym of the delete key
pub const XK_DELETE: u32 = 0xFFFF;
/// Keysym of the letter u
pub const XK_U: u32 = 0x0075;
/// Keysym of the space bar
pub const XK_SPACE: u32 = 0x0020;

/// The keysyms of a keyboard, in rows of `keysyms_per_keycode`: the first row
/// belongs to `min_keycode`, the next to the keycode after it. In a row, the
/// first keysym is what the key types alone and the second what it types with
/// shift.
#[derive(Debug)]
pub struct CachedKeyboardMapping {
    /// The keysyms of all rows
    pub keysyms: Vec<u32>,
    /// Length of a row
    pub keysyms_per_keycode: usize,
    /// Keycode of the first row
    pub min_keycode: u8,
}

/// What the X server answers when asked for its keyboard mapping
#[derive(Debug)]
pub struct KeyboardMappingReply {
    /// The keysyms of all rows
    pub keysyms: Vec<u32>,
    /// Length of a row
    pub keysyms_per_keycode: u8,
}

/// A key to press or to release
#[derive(Debug, Clone, Copy, PartialEq, Eq, Structural)]
pub struct FakeKey {
    /// Whether to press or to release it
    pub state: KeyState,
    /// The key
    pub keycode: u8,
}

/// The arguments of an XTest `FakeInput` request
#[derive(Debug, Clone, Copy, PartialEq, Eq, Structural)]
pub struct FakeInput {
    /// Core event type
    pub type_: u8,
    /// Keycode
    pub detail: u8,
    /// Delay in milliseconds
    pub time: u32,
    /// Root window
    pub root: u32,
    /// X position, unused for keys
    pub root_x: i16,
    /// Y position, unused for keys
    pub root_y: i16,
    /// Input device, unused for keys
    pub deviceid: u8,
}

impl CachedKeyboardMapping {
    /// Whether every keysym can be looked up: rows are not empty, and no row
    /// lies beyond the largest keycode. Row numbers count modulo 256, so that
    /// rows that start at keycode zero always fit.
    pub open spec fn wf(&self) -> bool {
        &&& self.keysyms_per_keycode > 0
        &&& self.min_keycode == 0 || self.keysyms@.len() <= (256 - self.min_keycode)
            * self.keysyms_per_keycode
    }

    /// The keycode of a row.
    pub open spec fn row_keycode(&self, row: nat) -> u8 {
        (self.min_keycode + row % 256) as u8
    }

    /// The keysym in a column of a row, if there is one.
    pub open spec fn entry(&self, row: nat, column: nat) -> Option<u32> {
        let at = row * self.keysyms_per_keycode + column;
        if column < self.keysyms_per_keycode && at < self.keysyms@.len() {
            Some(self.keysyms@[at as int])
        } else {
            None
        }
    }

    /// Whether a row types `keysym`, alone or with shift.
    pub open spec fn row_types(&self, row: nat, keysym: u32) -> bool {
        self.entry(row, 0) == Some(keysym) || self.entry(row, 1) == Some(keysym)
    }

    /// The first row from `row` on that types `keysym`: its keycode and
    /// whether shift is needed. `at` is where the row begins.
    pub open spec fn lookup_from(&self, keysym: u32, row: nat, at: nat) -> Option<(u8, bool)>
        decreases
            if at < self.keysyms@.len() {
                self.keysyms@.len() - at
            } else {
                0
            },
    {
        if self.keysyms_per_keycode == 0 || at >= self.keysyms@.len() {
            None
        } else if self.keysyms@[at as int] == keysym {
            Some((self.row_keycode(row), false))
        } else if self.keysyms_per_keycode > 1 && at + 1 < self.keysyms@.len()
            && self.keysyms@[at as int + 1] == keysym {
            Some((self.row_keycode(row), true))
        } else {
            self.lookup_from(keysym, row + 1, at + self.keysyms_per_keycode as nat)
        }
    }

    /// The key that types `keysym` and whether shift is needed.
    pub open spec fn lookup(&self, keysym: u32) -> Option<(u8, bool)> {
        self.lookup_from(keysym, 0, 0)
    }

    /// The key that types `keysym`, or `fallback` where there is none.
    pub open spec fn key_or(&self, keysym: u32, fallback: u8) -> u8 {
        match self.lookup(keysym) {
            Some(found) => found.0,
            None => fallback,
        }
    }

    /// The shift key.
    pub open spec fn shift_key(&self) -> u8 {
        self.key_or(XK_SHIFT_L, 50)
    }

    /// Whether every keysym can be looked up in this mapping.
    pub fn is_well_formed(&self) -> (r: bool)
        ensures
            r == self.wf(),
    {
        if self.keysyms_per_keycode == 0 {
            return false;
        }
        if self.min_keycode == 0 {
            return true;
        }
        let rows: usize = 256 - self.min_keycode as usize;
        let len = self.keysyms.len();
        let full: usize = len / self.keysyms_per_keycode;
        let rest: usize = len % self.keysyms_per_keycode;
        proof {
            let per = self.keysyms_per_keycode as int;
            vstd::arithmetic::div_mod::lemma_fundamental_div_mod(len as int, per);
            if full < rows {
                assert(full * per + per <= rows * per) by (nonlinear_arith)
                    requires
                        full + 1 <= rows,
                        per > 0,
                ;
            } else {
                assert(full * per >= rows * per) by (nonlinear_arith)
                    requires
                        full >= rows,
                        per > 0,
                ;
                if full > rows {
                    assert(full * per >= rows * per + per) by (nonlinear_arith)
                        requires
                            full >= rows + 1,
                            per > 0,
                    ;
                }
            }
            assert(per * full == full * per) by (nonlinear_arith);
        }
        full < rows || (full == rows && rest == 0)
    }
}

/// Pressing and releasing a key.
pub open spec fn tap(keycode: u8) -> Seq<FakeKey> {
    seq![
        FakeKey { state: KeyState::Pressed, keycode },
        FakeKey { state: KeyState::Released, keycode },
    ]
}

/// Holding a key down while doing something else.
pub open spec fn holding(keycode: u8, inner: Seq<FakeKey>) -> Seq<FakeKey> {
    seq![FakeKey { state: KeyState::Pressed, keycode }] + inner + seq![
        FakeKey { state: KeyState::Released, keycode },
    ]
}

/// One stroke of a key, with shift where it is needed.
pub open spec fn stroke(mapping: &CachedKeyboardMapping, keycode: u8, shift: bool) -> Seq<FakeKey> {
    if shift {
        holding(mapping.shift_key(), tap(keycode))
    } else {
        tap(keycode)
    }
}

/// The keysym of a character, or zero for a control character.
pub open spec fn keysym_of(c: char) -> u32 {
    let code = c as u32;
    if 0x20 <= code <= 0x7E || 0xA0 <= code <= 0xFF {
        code
    } else if code > 0xFF {
        (0x0100_0000 + code) as u32
    } else {
        0
    }
}

/// The strokes for a row of hexadecimal digits. A digit that no key types is
/// left out.
pub open spec fn digit_strokes(mapping: &CachedKeyboardMapping, digits: Seq<char>) -> Seq<FakeKey>
    decreases digits.len(),
{
    if digits.len() == 0 {
        Seq::empty()
    } else {
        digit_strokes(mapping, digits.drop_last()) + match mapping.lookup(
            keysym_of(digits.last()),
        ) {
            Some(found) => stroke(mapping, found.0, found.1),
            None => Seq::empty(),
        }
    }
}

/// Entering a character by its code point: Ctrl+Shift+U, the code in
/// hexadecimal, space.
pub open spec fn unicode_entry(mapping: &CachedKeyboardMapping, c: char) -> Seq<FakeKey> {
    holding(
        mapping.key_or(XK_CONTROL_L, 37),
        holding(mapping.shift_key(), tap(mapping.key_or(XK_U, 30))),
    ) + digit_strokes(mapping, hex_text(c as nat)) + tap(mapping.key_or(XK_SPACE, 65))
}

/// The keys to fake for one character.
pub open spec fn char_keys(mapping: &CachedKeyboardMapping, c: char) -> Seq<FakeKey> {
    if keysym_of(c) == 0 {
        Seq::empty()
    } else {
        match mapping.lookup(keysym_of(c)) {
            Some(found) => stroke(mapping, found.0, found.1),
            None => unicode_entry(mapping, c),
        }
    }
}

/// The keys to fake for a text.
pub open spec fn text_keys(mapping: &CachedKeyboardMapping, text: Seq<char>) -> Seq<FakeKey>
    decreases text.len(),
{
    if text.len() == 0 {
        Seq::empty()
    } else {
        text_keys(mapping, text.drop_last()) + char_keys(mapping, text.last())
    }
}

/// The keys to fake for a deletion: each key of the plan is tapped.
pub open spec fn deletion_keys(plan: DeletionPlan<u8>) -> Seq<FakeKey> {
    Seq::new(
        2 * plan.keys().len(),
        |i: int| tap(plan.keys()[i / 2])[i % 2],
    )
}

/// How many keycodes there are from `min_keycode` to `max_keycode`.
pub fn keycode_count(min_keycode: u8, max_keycode: u8) -> (r: u8)
    requires
        min_keycode <= max_keycode,
        max_keycode - min_keycode < 255,
    ensures
        r == max_keycode - min_keycode + 1,
{
    max_keycode - min_keycode + 1
}

/// The mapping that the X server answered with, where `min_keycode` is the
/// first keycode that it was asked for.
pub fn load_keyboard_mapping(
    min_keycode: u8,
    reply: Result<KeyboardMappingReply, String>,
) -> (r: Result<CachedKeyboardMapping, Error>)
    ensures
        match reply {
            Ok(answer) => r matches Ok(m) && m.keysyms == answer.keysyms && m.keysyms_per_keycode
                == answer.keysyms_per_keycode && m.min_keycode == min_keycode,
            Err(text) => r == Err::<CachedKeyboardMapping, Error>(Error::ConnectionFailed(text)),
        },
{
    match reply {
        Ok(answer) => Ok(
            CachedKeyboardMapping {
                keysyms: answer.keysyms,
                keysyms_per_keycode: answer.keysyms_per_keycode as usize,
                min_keycode,
            },
        ),
        Err(text) => Err(Error::ConnectionFailed(text)),
    }
}

/// Fails unless the X server has the XTest extension.
pub fn require_xtest(present: bool) -> (r: Result<(), Error>)
    ensures
        present ==> r is Ok,
        !present ==> (r matches Err(Error::ProtocolNotSupported(text)) && text@
            == "XTest extension not available"@),
{
    if present {
        Ok(())
    } else {
        Err(Error::ProtocolNotSupported("XTest extension not available".to_string()))
    }
}

/// The keysym of a character, or zero for a control character.
pub fn char_to_keysym(c: char) -> (r: u32)
    ensures
        r == keysym_of(c),
{
    let code: u32 = c as u32;
    if 0x20 <= code && code <= 0x7E {
        return code;
    }
    if 0xA0 <= code && code <= 0xFF {
        return code;
    }
    if code > 0xFF {
        assert(code <= 0x10FFFF);
        assert(0x0100_0000u32 | code == 0x0100_0000u32 + code) by (bit_vector)
            requires
                code <= 0x10FFFF,
        ;
        return 0x0100_0000 | code;
    }
    0
}

/// The first key that types `keysym` and whether shift is needed.
pub fn find_keycode(keysym: u32, mapping: &CachedKeyboardMapping) -> (r: Option<(u8, bool)>)
    requires
        mapping.wf(),
    ensures
        r == mapping.lookup(keysym),
{
    let per = mapping.keysyms_per_keycode;
    let len = mapping.keysyms.len();
    let mut row: usize = 0;
    let mut at: usize = 0;
    while at < len
        invariant
            mapping.wf(),
            per == mapping.keysyms_per_keycode,
            len == mapping.keysyms@.len(),
            at == row * per,
            row <= at,
            mapping.lookup(keysym) == mapping.lookup_from(keysym, row as nat, at as nat),
        decreases len - at,
    {
        assert(mapping.min_keycode != 0 ==> row < 256 - mapping.min_keycode) by (nonlinear_arith)
            requires
                at == row * per,
                at < len,
                per > 0,
                mapping.min_keycode != 0 ==> len <= (256 - mapping.min_keycode) * per,
        ;
        let keycode: u8 = mapping.min_keycode + (row % 256) as u8;
        if mapping.keysyms[at] == keysym {
            return Some((keycode, false));
        }
        if per > 1 && len - at > 1 && mapping.keysyms[at + 1] == keysym {
            return Some((keycode, true));
        }
        if per >= len - at {
            assert(mapping.lookup_from(keysym, row as nat + 1, at as nat + per as nat) is None);
            return None;
        }
        assert((row + 1) * per == row * per + per) by (nonlinear_arith);
        at = at + per;
        row = row + 1;
    }
    None
}

/// The key that types `keysym`, or `fallback` where there is none.
fn find_key_or(keysym: u32, fallback: u8, mapping: &CachedKeyboardMapping) -> (r: u8)
    requires
        mapping.wf(),
    ensures
        r == mapping.key_or(keysym, fallback),
{
    match find_keycode(keysym, mapping) {
        Some((keycode, _)) => keycode,
        None => fallback,
    }
}

/// The `FakeInput` request for a key. Presses are core event 2, releases core
/// event 3.
pub fn fake_key(key: FakeKey, root: u32) -> (r: FakeInput)
    ensures
        r == (FakeInput {
            type_: if key.state == KeyState::Pressed {
                2
            } else {
                3
            },
            detail: key.keycode,
            time: 0,
            root,
            root_x: 0,
            root_y: 0,
            deviceid: 0,
        }),
{
    let type_: u8 = match key.state {
        KeyState::Pressed => 2,
        KeyState::Released => 3,
    };
    FakeInput { type_, detail: key.keycode, time: 0, root, root_x: 0, root_y: 0, deviceid: 0 }
}

/// Adds one stroke of a key, with shift where it is needed.
pub fn send_key(
    out: &mut Vec<FakeKey>,
    mapping: &CachedKeyboardMapping,
    keycode: u8,
    needs_shift: bool,
)
    requires
        mapping.wf(),
    ensures
        final(out)@ == old(out)@ + stroke(mapping, keycode, needs_shift),
{
    let shift = find_key_or(XK_SHIFT_L, 50, mapping);
    if needs_shift {
        out.push(FakeKey { state: KeyState::Pressed, keycode: shift });
    }
    out.push(FakeKey { state: KeyState::Pressed, keycode });
    out.push(FakeKey { state: KeyState::Released, keycode });
    if needs_shift {
        out.push(FakeKey { state: KeyState::Released, keycode: shift });
    }
    assert(out@ =~= old(out)@ + stroke(mapping, keycode, needs_shift));
}

/// Adds the entry of a character by its code point.
pub fn send_unicode(out: &mut Vec<FakeKey>, mapping: &CachedKeyboardMapping, c: char)
    requires
        mapping.wf(),
    ensures
        final(out)@ == old(out)@ + unicode_entry(mapping, c),
{
    let hex = hex_digits(c as u32);

    let ctrl = find_key_or(XK_CONTROL_L, 37, mapping);
    let shift = find_key_or(XK_SHIFT_L, 50, mapping);
    let u = find_key_or(XK_U, 30, mapping);
    let space = find_key_or(XK_SPACE, 65, mapping);

    out.push(FakeKey { state: KeyState::Pressed, keycode: ctrl });
    out.push(FakeKey { state: KeyState::Pressed, keycode: shift });
    out.push(FakeKey { state: KeyState::Pressed, keycode: u });
    out.push(FakeKey { state: KeyState::Released, keycode: u });
    out.push(FakeKey { state: KeyState::Released, keycode: shift });
    out.push(FakeKey { state: KeyState::Released, keycode: ctrl });
    let ghost head = holding(ctrl, holding(shift, tap(u)));
    assert(out@ =~= old(out)@ + head);

    let mut i: usize = 0;
    while i < hex.len()
        invariant
            mapping.wf(),
            i <= hex@.len(),
            out@ == old(out)@ + head + digit_strokes(mapping, hex@.take(i as int)),
        decreases hex.len() - i,
    {
        let keysym = char_to_keysym(hex[i]);
        if let Some((keycode, needs_shift)) = find_keycode(keysym, mapping) {
            send_key(out, mapping, keycode, needs_shift);
        }
        proof {
            assert(hex@.take(i + 1).drop_last() == hex@.take(i as int));
            assert(hex@.take(i + 1).last() == hex@[i as int]);
            assert(out@ =~= old(out)@ + head + digit_strokes(mapping, hex@.take(i + 1)));
        }
        i = i + 1;
    }
    assert(hex@.take(i as int) == hex@);

    out.push(FakeKey { state: KeyState::Pressed, keycode: space });
    out.push(FakeKey { state: KeyState::Released, keycode: space });
    assert(out@ =~= old(out)@ + unicode_entry(mapping, c));
}

/// The keys to fake so that `text` is typed. Control characters are left out.
pub fn commit_string(mapping: &CachedKeyboardMapping, text: &str) -> (r: Vec<FakeKey>)
    requires
        mapping.wf(),
    ensures
        r@ == text_keys(mapping, text@),
{
    let mut out: Vec<FakeKey> = Vec::new();
    let mut chars = text.chars();
    let ghost mut i: int = 0;
    loop
        invariant
            mapping.wf(),
            0 <= i <= text@.len(),
            vstd::std_specs::iter::IteratorSpec::remaining(&chars) == text@.skip(i),
            out@ == text_keys(mapping, text@.take(i)),
        decreases text@.len() - i,
    {
        match chars.next() {
            None => {
                assert(text@.take(i) == text@);
                return out;
            },
            Some(c) => {
                let ghost before = out@;
                let keysym = char_to_keysym(c);
                if keysym != 0 {
                    match find_keycode(keysym, mapping) {
                        Some((keycode, needs_shift)) => send_key(
                            &mut out,
                            mapping,
                            keycode,
                            needs_shift,
                        ),
                        None => send_unicode(&mut out, mapping, c),
                    }
                }
                proof {
                    assert(c == text@[i]);
                    assert(out@ =~= before + char_keys(mapping, c));
                    assert(text@.take(i + 1).drop_last() == text@.take(i));
                    assert(text@.skip(i).drop_first() == text@.skip(i + 1));
                    i = i + 1;
                }
            },
        }
    }
}

/// The key strokes that delete text around the cursor.
pub fn delete_surrounding_text(
    mapping: &CachedKeyboardMapping,
    before: u32,
    after: u32,
) -> (r: DeletionPlan<u8>)
    requires
        mapping.wf(),
    ensures
        r == (DeletionPlan {
            backspace: mapping.key_or(XK_BACKSPACE, 22),
            before,
            delete: mapping.key_or(XK_DELETE, 119),
            after,
        }),
{
    let bs = find_key_or(XK_BACKSPACE, 22, mapping);
    let del = find_key_or(XK_DELETE, 119, mapping);
    DeletionPlan { backspace: bs, before, delete: del, after }
}

/// The key to fake at `index` of a deletion, or `None` behind the last one.
pub fn deletion_key_at(plan: &DeletionPlan<u8>, index: u64) -> (r: Option<FakeKey>)
    ensures
        r == (if index < deletion_keys(*plan).len() {
            Some(deletion_keys(*plan)[index as int])
        } else {
            None
        }),
{
    match plan.key_at(index / 2) {
        Some(keycode) => {
            let state = if index % 2 == 0 {
                KeyState::Pressed
            } else {
                KeyState::Released
            };
            Some(FakeKey { state, keycode })
        },
        None => None,
    }
}

/// What to do next while keys are sent
#[derive(Debug)]
pub enum SendStep {
    /// Send this key
    Send(FakeKey),
    /// All keys are sent: flush the connection
    Flush,
    /// Stop with this outcome
    Return(Result<(), Error>),
}

/// The key at an index, or `None` behind the last one.
pub open spec fn key_at(keys: Seq<FakeKey>, index: int) -> Option<FakeKey> {
    if 0 <= index < keys.len() {
        Some(keys[index])
    } else {
        None
    }
}

/// What to do next, where `next` is the next key and `last` what became of the
/// key before it.
pub open spec fn step_after(next: Option<FakeKey>, last: Option<Result<(), String>>) -> SendStep {
    match last {
        Some(Err(text)) => SendStep::Return(Err(Error::CommitFailed(text))),
        _ => match next {
            Some(key) => SendStep::Send(key),
            None => SendStep::Flush,
        },
    }
}

/// One step of sending keys, where `sent` of them were sent and `last` is what
/// became of the last one. The first key that could not be sent ends it: no
/// later key is sent, and nothing is flushed.
pub fn sending_step(keys: &Vec<FakeKey>, sent: usize, last: Option<Result<(), String>>) -> (r:
    SendStep)
    ensures
        r == step_after(key_at(keys@, sent as int), last),
{
    if let Some(Err(text)) = last {
        return SendStep::Return(Err(Error::CommitFailed(text)));
    }
    if sent < keys.len() {
        SendStep::Send(keys[sent])
    } else {
        SendStep::Flush
    }
}

/// One step of sending the keys of a deletion, where `sent` of them were sent
/// and `last` is what became of the last one. The first key that could not be
/// sent ends it.
pub fn deletion_step(plan: &DeletionPlan<u8>, sent: u64, last: Option<Result<(), String>>) -> (r:
    SendStep)
    ensures
        r == step_after(key_at(deletion_keys(*plan), sent as int), last),
{
    if let Some(Err(text)) = last {
        return SendStep::Return(Err(Error::CommitFailed(text)));
    }
    match deletion_key_at(plan, sent) {
        Some(key) => SendStep::Send(key),
        None => SendStep::Flush,
    }
}

/// Types text for a backend that has an X connection only for that
#[derive(Debug)]
pub struct XTestWriter {
    /// The root window
    pub root_window: u32,
    /// The keyboard mapping
    pub mapping: CachedKeyboardMapping,
}

impl XTestWriter {
    /// A writer for a screen, with the keyboard mapping that the X server
    /// answered with.
    pub fn new(root_window: u32, mapping: Result<CachedKeyboardMapping, Error>) -> (r: Result<
        Self,
        Error,
    >)
        ensures
            match mapping {
                Ok(mapping) => r == Ok::<XTestWriter, Error>(XTestWriter { root_window, mapping }),
                Err(e) => r == Err::<XTestWriter, Error>(e),
            },
    {
        match mapping {
            Ok(mapping) => Ok(XTestWriter { root_window, mapping }),
            Err(e) => Err(e),
        }
    }

    /// The keys to fake so that `text` is typed.
    pub fn commit_string(&self, text: &str) -> (r: Vec<FakeKey>)
        requires
            self.mapping.wf(),
        ensures
            r@ == text_keys(&self.mapping, text@),
    {
        commit_string(&self.mapping, text)
    }

    /// The key strokes that delete text around the cursor.
    pub fn delete_surrounding_text(&self, before: u32, after: u32) -> (r: DeletionPlan<u8>)
        requires
            self.mapping.wf(),
        ensures
            r == (DeletionPlan {
                backspace: self.mapping.key_or(XK_BACKSPACE, 22),
                before,
                delete: self.mapping.key_or(XK_DELETE, 119),
                after,
            }),
    {
        delete_surrounding_text(&self.mapping, before, after)
    }
}

/// How many more presses than releases of a key there are.
pub open spec fn held(keys: Seq<FakeKey>, keycode: u8) -> int
    decreases keys.len(),
{
    if keys.len() == 0 {
        0
    } else {
        held(keys.drop_last(), keycode) + if keys.last().keycode != keycode {
            0int
        } else if keys.last().state == KeyState::Pressed {
            1
        } else {
            -1
        }
    }
}

/// Whether no key is ever released that is not down, and none is down at the
/// end.
pub open spec fn leaves_no_key_down(keys: Seq<FakeKey>) -> bool {
    forall|keycode: u8|
        {
            &&& #[trigger] held(keys, keycode) == 0
            &&& forall|n: int| 0 <= n <= keys.len() ==> #[trigger] held(keys.take(n), keycode) >= 0
        }
}

proof fn held_of_concatenation(a: Seq<FakeKey>, b: Seq<FakeKey>, keycode: u8)
    ensures
        held(a + b, keycode) == held(a, keycode) + held(b, keycode),
    decreases b.len(),
{
    if b.len() == 0 {
        assert(a + b == a);
    } else {
        held_of_concatenation(a, b.drop_last(), keycode);
        assert((a + b).drop_last() == a + b.drop_last());
        assert((a + b).last() == b.last());
    }
}

proof fn no_key_down_after_both(a: Seq<FakeKey>, b: Seq<FakeKey>)
    requires
        leaves_no_key_down(a),
        leaves_no_key_down(b),
    ensures
        leaves_no_key_down(a + b),
{
    assert forall|keycode: u8| #[trigger] held(a + b, keycode) == 0 && (forall|n: int|
        0 <= n <= (a + b).len() ==> #[trigger] held((a + b).take(n), keycode) >= 0) by {
        assert(held(a, keycode) == 0 && held(b, keycode) == 0);
        held_of_concatenation(a, b, keycode);
        assert forall|n: int| 0 <= n <= (a + b).len() implies #[trigger] held(
            (a + b).take(n),
            keycode,
        ) >= 0 by {
            if n <= a.len() {
                assert((a + b).take(n) == a.take(n));
            } else {
                assert((a + b).take(n) == a + b.take(n - a.len()));
                held_of_concatenation(a, b.take(n - a.len()), keycode);
            }
        }
    }
}

proof fn no_key_down_after_holding(keycode: u8, inner: Seq<FakeKey>)
    requires
        leaves_no_key_down(inner),
    ensures
        leaves_no_key_down(holding(keycode, inner)),
{
    let press = seq![FakeKey { state: KeyState::Pressed, keycode }];
    let release = seq![FakeKey { state: KeyState::Released, keycode }];
    let all = holding(keycode, inner);
    assert forall|k: u8| #[trigger] held(all, k) == 0 && (forall|n: int|
        0 <= n <= all.len() ==> #[trigger] held(all.take(n), k) >= 0) by {
        assert(press.drop_last() == Seq::<FakeKey>::empty());
        assert(release.drop_last() == Seq::<FakeKey>::empty());
        let one: int = if k == keycode {
            1
        } else {
            0
        };
        assert(held(press.drop_last(), k) == 0);
        assert(held(press, k) == one);
        assert(held(release, k) == -one);
        assert(held(inner, k) == 0);
        held_of_concatenation(press, inner, k);
        held_of_concatenation(press + inner, release, k);
        assert forall|n: int| 0 <= n <= all.len() implies #[trigger] held(all.take(n), k) >= 0 by {
            if n == 0 {
                assert(all.take(n) == Seq::<FakeKey>::empty());
            } else if n == all.len() {
                assert(all.take(n) == all);
            } else {
                assert(all.take(n) == press + inner.take(n - 1));
                held_of_concatenation(press, inner.take(n - 1), k);
            }
        }
    }
}

proof fn no_key_down_after_tap(keycode: u8)
    ensures
        leaves_no_key_down(tap(keycode)),
{
    let nothing = Seq::<FakeKey>::empty();
    no_key_down_after_nothing();
    no_key_down_after_holding(keycode, nothing);
    assert(holding(keycode, nothing) == tap(keycode));
}

proof fn no_key_down_after_stroke(mapping: &CachedKeyboardMapping, keycode: u8, shift: bool)
    ensures
        leaves_no_key_down(stroke(mapping, keycode, shift)),
{
    no_key_down_after_tap(keycode);
    no_key_down_after_holding(mapping.shift_key(), tap(keycode));
}

proof fn no_key_down_after_digits(mapping: &CachedKeyboardMapping, digits: Seq<char>)
    ensures
        leaves_no_key_down(digit_strokes(mapping, digits)),
    decreases digits.len(),
{
    if digits.len() > 0 {
        no_key_down_after_digits(mapping, digits.drop_last());
        let rest = digit_strokes(mapping, digits.drop_last());
        match mapping.lookup(keysym_of(digits.last())) {
            Some(found) => {
                no_key_down_after_stroke(mapping, found.0, found.1);
                no_key_down_after_both(rest, stroke(mapping, found.0, found.1));
            },
            None => {
                assert(rest + Seq::<FakeKey>::empty() == rest);
            },
        }
    } else {
        no_key_down_after_nothing();
    }
}

proof fn no_key_down_after_nothing()
    ensures
        leaves_no_key_down(Seq::<FakeKey>::empty()),
{
    let nothing = Seq::<FakeKey>::empty();
    assert forall|k: u8, n: int| 0 <= n <= nothing.len() implies #[trigger] held(
        nothing.take(n),
        k,
    ) >= 0 by {
        assert(nothing.take(n) == nothing);
    }
}

proof fn no_key_down_after_char(mapping: &CachedKeyboardMapping, c: char)
    ensures
        leaves_no_key_down(char_keys(mapping, c)),
{
    if keysym_of(c) == 0 {
        no_key_down_after_nothing();
    } else {
        match mapping.lookup(keysym_of(c)) {
            Some(found) => no_key_down_after_stroke(mapping, found.0, found.1),
            None => {
                let u = mapping.key_or(XK_U, 30);
                let space = mapping.key_or(XK_SPACE, 65);
                let shift = mapping.shift_key();
                let ctrl = mapping.key_or(XK_CONTROL_L, 37);
                let digits = hex_text(c as nat);
                no_key_down_after_tap(u);
                no_key_down_after_holding(shift, tap(u));
                no_key_down_after_holding(ctrl, holding(shift, tap(u)));
                no_key_down_after_digits(mapping, digits);
                no_key_down_after_tap(space);
                no_key_down_after_both(
                    holding(ctrl, holding(shift, tap(u))),
                    digit_strokes(mapping, digits),
                );
                no_key_down_after_both(
                    holding(ctrl, holding(shift, tap(u))) + digit_strokes(mapping, digits),
                    tap(space),
                );
            },
        }
    }
}

/// Typing a text releases every key that it presses: no key is released that
/// is not down, and after the text no key is down.
pub proof fn text_leaves_no_key_down(mapping: &CachedKeyboardMapping, text: Seq<char>)
    ensures
        leaves_no_key_down(text_keys(mapping, text)),
    decreases text.len(),
{
    if text.len() == 0 {
        no_key_down_after_nothing();
    } else {
        text_leaves_no_key_down(mapping, text.drop_last());
        no_key_down_after_char(mapping, text.last());
        no_key_down_after_both(
            text_keys(mapping, text.drop_last()),
            char_keys(mapping, text.last()),
        );
    }
}

/// Deleting text releases every key that it presses.
pub proof fn deletion_leaves_no_key_down(plan: DeletionPlan<u8>)
    ensures
        leaves_no_key_down(deletion_keys(plan)),
{
    deletion_prefix_leaves_no_key_down(plan, plan.keys().len());
    let all = deletion_keys(plan);
    assert(all.take(2 * plan.keys().len() as int) == all);
}

proof fn deletion_prefix_leaves_no_key_down(plan: DeletionPlan<u8>, strokes: nat)
    requires
        strokes <= plan.keys().len(),
    ensures
        leaves_no_key_down(deletion_keys(plan).take(2 * strokes as int)),
    decreases strokes,
{
    let all = deletion_keys(plan);
    if strokes == 0 {
        assert(all.take(0) == Seq::<FakeKey>::empty());
        no_key_down_after_nothing();
    } else {
        let less = (strokes - 1) as nat;
        deletion_prefix_leaves_no_key_down(plan, less);
        no_key_down_after_tap(plan.keys()[less as int]);
        assert(all.take(2 * strokes as int) == all.take(2 * less as int) + tap(
            plan.keys()[less as int],
        ));
        no_key_down_after_both(all.take(2 * less as int), tap(plan.keys()[less as int]));
    }
}

/// Typing two texts in a row fakes the keys of each, in a row.
pub proof fn keys_of_concatenation(mapping: &CachedKeyboardMapping, a: Seq<char>, b: Seq<char>)
    ensures
        text_keys(mapping, a + b) == text_keys(mapping, a) + text_keys(mapping, b),
    decreases b.len(),
{
    if b.len() == 0 {
        assert(a + b == a);
    } else {
        keys_of_concatenation(mapping, a, b.drop_last());
        assert((a + b).drop_last() == a + b.drop_last());
        assert((a + b).last() == b.last());
    }
}

/// No two characters share a keysym, but for the control characters, which
/// have none.
pub proof fn keysyms_are_distinct(a: char, b: char)
    requires
        keysym_of(a) == keysym_of(b),
        keysym_of(a) != 0,
    ensures
        a == b,
{
}

/// A lookup finds the first row that types the keysym, prefers the key alone
/// over the key with shift, and fails only if no row types it.
pub proof fn lookup_finds_first_row(mapping: &CachedKeyboardMapping, keysym: u32)
    requires
        mapping.keysyms_per_keycode > 0,
    ensures
        match mapping.lookup(keysym) {
            Some(found) => exists|row: nat|
                {
                    &&& #[trigger] mapping.row_types(row, keysym)
                    &&& forall|earlier: nat|
                        earlier < row ==> !#[trigger] mapping.row_types(earlier, keysym)
                    &&& found.0 == mapping.row_keycode(row)
                    &&& found.1 <==> mapping.entry(row, 0) != Some(keysym)
                },
            None => forall|row: nat| !#[trigger] mapping.row_types(row, keysym),
        },
{
    lookup_from_finds_first_row(mapping, keysym, 0, 0);
}

proof fn lookup_from_finds_first_row(
    mapping: &CachedKeyboardMapping,
    keysym: u32,
    row: nat,
    at: nat,
)
    requires
        mapping.keysyms_per_keycode > 0,
        at == row * mapping.keysyms_per_keycode,
        forall|earlier: nat| earlier < row ==> !#[trigger] mapping.row_types(earlier, keysym),
    ensures
        match mapping.lookup_from(keysym, row, at) {
            Some(found) => exists|row: nat|
                {
                    &&& #[trigger] mapping.row_types(row, keysym)
                    &&& forall|earlier: nat|
                        earlier < row ==> !#[trigger] mapping.row_types(earlier, keysym)
                    &&& found.0 == mapping.row_keycode(row)
                    &&& found.1 <==> mapping.entry(row, 0) != Some(keysym)
                },
            None => forall|row: nat| !#[trigger] mapping.row_types(row, keysym),
        },
    decreases
            if at < mapping.keysyms@.len() {
                mapping.keysyms@.len() - at
            } else {
                0
            },
{
    let per = mapping.keysyms_per_keycode as nat;
    if at >= mapping.keysyms@.len() {
        assert forall|later: nat| !#[trigger] mapping.row_types(later, keysym) by {
            if later >= row {
                assert(later * per >= row * per) by (nonlinear_arith)
                    requires
                        later >= row,
                ;
            }
        }
    } else if mapping.row_types(row, keysym) {
    } else {
        assert((row + 1) * per == row * per + per) by (nonlinear_arith);
        assert forall|earlier: nat| earlier < row + 1 implies !#[trigger] mapping.row_types(
            earlier,
            keysym,
        ) by {
            if earlier == row {
            }
        }
        lookup_from_finds_first_row(mapping, keysym, row + 1, at + per);
    }
}

/// The answer to a request for all keycodes from `min_keycode` to
/// `max_keycode`, with rows that are not empty, makes a mapping in which every
/// keysym can be looked up.
pub proof fn full_reply_is_well_formed(mapping: &CachedKeyboardMapping, max_keycode: u8)
    requires
        mapping.min_keycode <= max_keycode,
        mapping.keysyms_per_keycode > 0,
        mapping.keysyms@.len() == (max_keycode - mapping.min_keycode + 1)
            * mapping.keysyms_per_keycode,
    ensures
        mapping.wf(),
{
    let per = mapping.keysyms_per_keycode as int;
    let rows = max_keycode - mapping.min_keycode + 1;
    assert(rows * per <= (256 - mapping.min_keycode) * per) by (nonlinear_arith)
        requires
            rows <= 256 - mapping.min_keycode,
            per > 0,
    ;
}

/// What became of the key before an index, or `None` at the first one.
pub open spec fn outcome_before(outcomes: Seq<Result<(), String>>, index: int) -> Option<
    Result<(), String>,
> {
    if index == 0 {
        None
    } else {
        Some(outcomes[index - 1])
    }
}

/// The step at an index of sending keys, where `outcomes` says what became of
/// each key.
pub open spec fn step_at(
    keys: Seq<FakeKey>,
    outcomes: Seq<Result<(), String>>,
    index: int,
) -> SendStep {
    step_after(key_at(keys, index), outcome_before(outcomes, index))
}

/// Keys are sent in order up to the first failure, which is returned as a
/// failed commit right away.
pub proof fn first_failure_ends_sending(
    keys: Seq<FakeKey>,
    outcomes: Seq<Result<(), String>>,
    failed: int,
)
    requires
        0 <= failed < keys.len(),
        outcomes.len() == failed + 1,
        forall|i: int| 0 <= i < failed ==> #[trigger] outcomes[i] is Ok,
        outcomes[failed] is Err,
    ensures
        forall|i: int|
            0 <= i <= failed ==> #[trigger] step_at(keys, outcomes, i) == SendStep::Send(keys[i]),
        step_at(keys, outcomes, failed + 1) == SendStep::Return(
            Err(Error::CommitFailed(outcomes[failed]->Err_0)),
        ),
{
}

/// Without a failure every key is sent once, in order, and then the connection
/// is flushed.
pub proof fn every_key_is_sent_before_flushing(
    keys: Seq<FakeKey>,
    outcomes: Seq<Result<(), String>>,
)
    requires
        outcomes.len() == keys.len(),
        forall|i: int| 0 <= i < outcomes.len() ==> #[trigger] outcomes[i] is Ok,
    ensures
        forall|i: int|
            0 <= i < keys.len() ==> #[trigger] step_at(keys, outcomes, i) == SendStep::Send(
                keys[i],
            ),
        step_at(keys, outcomes, keys.len() as int) == SendStep::Flush,
{
}

/// A deletion fakes two keys for each stroke, down and then up: the backspace key
/// as often as there is text before the cursor, and then the delete key as often
/// as there is text after it.
pub proof fn every_deletion_key_is_owed(plan: DeletionPlan<u8>)
    ensures
        deletion_keys(plan).len() == 2 * (plan.before + plan.after),
        forall|i: int|
            0 <= i < 2 * plan.before ==> (#[trigger] deletion_keys(plan)[i]).keycode
                == plan.backspace,
        forall|i: int|
            2 * plan.before <= i < 2 * (plan.before + plan.after) ==> (#[trigger] deletion_keys(
                plan,
            )[i]).keycode == plan.delete,
        forall|i: int|
            0 <= i < 2 * (plan.before + plan.after) ==> ((#[trigger] deletion_keys(plan)[i]).state
                == KeyState::Pressed <==> i % 2 == 0),
{
    assert forall|i: int| 0 <= i < 2 * (plan.before + plan.after) implies (
    #[trigger] deletion_keys(plan)[i]) == tap(plan.keys()[i / 2])[i % 2] by {
    }
}

} // verus!
