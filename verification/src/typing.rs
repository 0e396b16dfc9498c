//! What faked keys type: the keys of a text, read back by a keyboard.
use vstd::prelude::*;

use crate::linux_xtest::{
    CachedKeyboardMapping, FakeKey, XK_BACKSPACE, XK_CONTROL_L, XK_DELETE, XK_SHIFT_L, XK_SPACE, XK_U, char_keys,
    digit_strokes, holding, keys_of_concatenation, keysym_of, lookup_finds_first_row, stroke, tap,
    text_keys, unicode_entry,
};
use crate::text::{char_range, hex_digit, hex_text, hex_text_is_plain};
use crate::types::KeyState;

verus! {

/// Whether a keyboard has a keysym in a column of a row. Column 0 is the key
/// alone, column 1 the key with shift.
pub open spec fn gives(mapping: &CachedKeyboardMapping, row: int, column: int, keysym: u32) -> bool {
    let at = row * mapping.keysyms_per_keycode + column;
    &&& 0 <= row
    &&& 0 <= column < mapping.keysyms_per_keycode
    &&& at < mapping.keysyms@.len()
    &&& mapping.keysyms@[at] == keysym
}

/// Whether a row is the first that has a keysym, alone or with shift.
pub open spec fn first_row(mapping: &CachedKeyboardMapping, row: int, keysym: u32) -> bool {
    &&& gives(mapping, row, 0, keysym) || gives(mapping, row, 1, keysym)
    &&& forall|earlier: int|
        earlier < row ==> !#[trigger] gives(mapping, earlier, 0, keysym) && !gives(
            mapping,
            earlier,
            1,
            keysym,
        )
}

/// Whether every row has a keycode of its own.
pub open spec fn rows_fit(mapping: &CachedKeyboardMapping) -> bool {
    &&& mapping.keysyms_per_keycode > 0
    &&& mapping.keysyms@.len() <= (256 - mapping.min_keycode) * mapping.keysyms_per_keycode
}

/// Whether a keysym stands for a character.
pub open spec fn is_character(keysym: u32) -> bool {
    0x20 <= keysym <= 0x7E || 0xA0 <= keysym <= 0xFF || 0x0100_0100 <= keysym
}

/// The code point that a keysym stands for.
pub open spec fn code_point(keysym: u32) -> int {
    if keysym >= 0x0100_0000 {
        keysym - 0x0100_0000
    } else {
        keysym as int
    }
}

/// The keysym of a hexadecimal digit: `0` to `9`, then `a` to `f`.
pub open spec fn digit_keysym(digit: int) -> u32 {
    if digit < 10 {
        (0x30 + digit) as u32
    } else {
        (0x57 + digit) as u32
    }
}

/// Whether a keyboard can enter every character: it has shift, control, `u` and
/// space, each on a key that gives it alone, and all hexadecimal digits; and
/// shift and control type no characters.
pub open spec fn enters_everything(mapping: &CachedKeyboardMapping) -> bool {
    &&& rows_fit(mapping)
    &&& exists|row: int| first_row(mapping, row, 0xFFE1) && gives(mapping, row, 0, 0xFFE1)
    &&& exists|row: int| first_row(mapping, row, 0xFFE3) && gives(mapping, row, 0, 0xFFE3)
    &&& exists|row: int| first_row(mapping, row, 0x75) && gives(mapping, row, 0, 0x75)
    &&& exists|row: int| first_row(mapping, row, 0x20) && gives(mapping, row, 0, 0x20)
    &&& forall|digit: int|
        0 <= digit < 16 ==> exists|row: int| first_row(mapping, row, #[trigger] digit_keysym(digit))
    &&& forall|row: int, keysym: u32|
        is_character(keysym) && (gives(mapping, row, 0, 0xFFE1) || gives(mapping, row, 0, 0xFFE3))
            ==> !#[trigger] gives(mapping, row, 1, keysym)
}

/// A keyboard in use: which modifiers are down, whether a code point is being
/// entered, and what was typed.
#[verifier::ext_equal]
pub struct Typist {
    /// Whether shift is down
    pub shift: bool,
    /// Whether control is down
    pub ctrl: bool,
    /// The code point that is being entered, so far
    pub entering: Option<int>,
    /// The code points that were typed
    pub typed: Seq<int>,
}

impl Typist {
    /// Nothing is down, and nothing was typed.
    pub open spec fn at_rest() -> Typist {
        Typist { shift: false, ctrl: false, entering: None, typed: Seq::empty() }
    }

    /// After a keysym arrives: while a code point is entered, digits go into it
    /// and a space ends it; otherwise a character is typed.
    pub open spec fn receives(self, keysym: u32) -> Typist {
        match self.entering {
            Some(code) => if 0x30 <= keysym <= 0x39 {
                Typist { entering: Some(16 * code + (keysym - 0x30)), ..self }
            } else if 0x61 <= keysym <= 0x66 {
                Typist { entering: Some(16 * code + (keysym - 0x57)), ..self }
            } else if keysym == 0x20 {
                Typist { entering: None, typed: self.typed.push(code), ..self }
            } else {
                Typist { entering: None, ..self }
            },
            None => Typist { typed: self.typed.push(code_point(keysym)), ..self },
        }
    }

    /// After a key goes down or up. Control, shift and `u` together start the
    /// entry of a code point, and any other key with control types nothing.
    pub open spec fn after(self, mapping: &CachedKeyboardMapping, key: FakeKey) -> Typist {
        let row = key.keycode - mapping.min_keycode;
        let down = key.state == KeyState::Pressed;
        let column: int = if self.shift {
            1
        } else {
            0
        };
        let at = row * mapping.keysyms_per_keycode + column;
        if gives(mapping, row, 0, 0xFFE1) {
            Typist { shift: down, ..self }
        } else if gives(mapping, row, 0, 0xFFE3) {
            Typist { ctrl: down, ..self }
        } else if !down {
            self
        } else if self.ctrl {
            if self.shift && gives(mapping, row, 0, 0x75) {
                Typist { entering: Some(0), ..self }
            } else {
                self
            }
        } else if 0 <= row && column < mapping.keysyms_per_keycode && at < mapping.keysyms@.len() {
            self.receives(mapping.keysyms@[at])
        } else {
            self
        }
    }

    /// After a row of keys.
    pub open spec fn after_all(self, mapping: &CachedKeyboardMapping, keys: Seq<FakeKey>) -> Typist
        decreases keys.len(),
    {
        if keys.len() == 0 {
            self
        } else {
            self.after_all(mapping, keys.drop_last()).after(mapping, keys.last())
        }
    }
}

proof fn gives_is_entry(mapping: &CachedKeyboardMapping, row: nat, column: nat, keysym: u32)
    ensures
        gives(mapping, row as int, column as int, keysym) == (mapping.entry(row, column) == Some(
            keysym,
        )),
{
    assert(row * mapping.keysyms_per_keycode >= 0) by (nonlinear_arith);
}

/// A keysym is looked up in the first row that has it: the row gives the
/// keycode, and shift is needed unless the key gives the keysym alone. Nothing
/// is found exactly if no row has it.
pub proof fn keycode_is_of_the_first_row(mapping: &CachedKeyboardMapping, keysym: u32)
    requires
        mapping.keysyms_per_keycode > 0,
    ensures
        forall|row: int| #[trigger]
            first_row(mapping, row, keysym) ==> mapping.lookup(keysym) == Some(
                ((mapping.min_keycode + row % 256) as u8, !gives(mapping, row, 0, keysym)),
            ),
        mapping.lookup(keysym) is None ==> forall|row: int|
            !#[trigger] gives(mapping, row, 0, keysym) && !gives(mapping, row, 1, keysym),
        mapping.lookup(keysym) is Some <==> exists|row: int| #[trigger]
            first_row(mapping, row, keysym),
{
    lookup_finds_first_row(mapping, keysym);
    assert forall|row: nat| #[trigger] mapping.row_types(row, keysym) == (gives(
        mapping,
        row as int,
        0,
        keysym,
    ) || gives(mapping, row as int, 1, keysym)) by {
        gives_is_entry(mapping, row, 0, keysym);
        gives_is_entry(mapping, row, 1, keysym);
    }
    match mapping.lookup(keysym) {
        Some(found) => {
            let first = choose|row: nat|
                {
                    &&& #[trigger] mapping.row_types(row, keysym)
                    &&& forall|earlier: nat|
                        earlier < row ==> !#[trigger] mapping.row_types(earlier, keysym)
                    &&& found.0 == mapping.row_keycode(row)
                    &&& found.1 <==> mapping.entry(row, 0) != Some(keysym)
                };
            assert forall|earlier: int| earlier < first implies !#[trigger] gives(
                mapping,
                earlier,
                0,
                keysym,
            ) && !gives(mapping, earlier, 1, keysym) by {
                if earlier >= 0 {
                    assert(!mapping.row_types(earlier as nat, keysym));
                }
            }
            assert(first_row(mapping, first as int, keysym));
            assert(gives(mapping, first as int, 0, keysym) || gives(
                mapping,
                first as int,
                1,
                keysym,
            ));
            gives_is_entry(mapping, first, 0, keysym);
            assert forall|row: int| #[trigger] first_row(mapping, row, keysym) implies row
                == first by {
                if row < first {
                    assert(!gives(mapping, row, 0, keysym));
                }
                if first < row {
                    assert(!gives(mapping, first as int, 0, keysym));
                }
            }
        },
        None => {
            assert forall|row: int| !#[trigger] gives(mapping, row, 0, keysym) && !gives(
                mapping,
                row,
                1,
                keysym,
            ) by {
                if row >= 0 {
                    assert(!mapping.row_types(row as nat, keysym));
                }
            }
            assert forall|row: int| !#[trigger] first_row(mapping, row, keysym) by {
                assert(!gives(mapping, row, 0, keysym));
            }
        },
    }
}

/// In a keyboard whose rows fit, a keysym that is found has a row with that
/// keycode.
proof fn found_key(mapping: &CachedKeyboardMapping, keysym: u32) -> (row: int)
    requires
        rows_fit(mapping),
        mapping.lookup(keysym) is Some,
    ensures
        first_row(mapping, row, keysym),
        0 <= row,
        mapping.min_keycode + row <= 255,
        mapping.lookup(keysym) == Some(
            ((mapping.min_keycode + row) as u8, !gives(mapping, row, 0, keysym)),
        ),
{
    keycode_is_of_the_first_row(mapping, keysym);
    let row = choose|row: int| first_row(mapping, row, keysym);
    let per = mapping.keysyms_per_keycode as int;
    let rows = 256 - mapping.min_keycode;
    assert(row < rows) by (nonlinear_arith)
        requires
            row * per < rows * per,
            per > 0,
    ;
    row
}

proof fn run_of_concatenation(
    mapping: &CachedKeyboardMapping,
    t: Typist,
    a: Seq<FakeKey>,
    b: Seq<FakeKey>,
)
    ensures
        t.after_all(mapping, a + b) == t.after_all(mapping, a).after_all(mapping, b),
    decreases b.len(),
{
    if b.len() == 0 {
        assert(a + b == a);
    } else {
        run_of_concatenation(mapping, t, a, b.drop_last());
        assert((a + b).drop_last() == a + b.drop_last());
        assert((a + b).last() == b.last());
    }
}

proof fn run_of_one(mapping: &CachedKeyboardMapping, t: Typist, key: FakeKey)
    ensures
        t.after_all(mapping, seq![key]) == t.after(mapping, key),
{
    assert(seq![key].drop_last() == Seq::<FakeKey>::empty());
    assert(t.after_all(mapping, seq![key].drop_last()) == t);
}

proof fn run_of_tap(mapping: &CachedKeyboardMapping, t: Typist, keycode: u8)
    ensures
        t.after_all(mapping, tap(keycode)) == t.after(
            mapping,
            FakeKey { state: KeyState::Pressed, keycode },
        ).after(mapping, FakeKey { state: KeyState::Released, keycode }),
{
    let press = FakeKey { state: KeyState::Pressed, keycode };
    let release = FakeKey { state: KeyState::Released, keycode };
    assert(tap(keycode) == seq![press] + seq![release]);
    run_of_concatenation(mapping, t, seq![press], seq![release]);
    run_of_one(mapping, t, press);
    run_of_one(mapping, t.after(mapping, press), release);
}

proof fn run_of_holding(
    mapping: &CachedKeyboardMapping,
    t: Typist,
    keycode: u8,
    inner: Seq<FakeKey>,
)
    ensures
        t.after_all(mapping, holding(keycode, inner)) == t.after(
            mapping,
            FakeKey { state: KeyState::Pressed, keycode },
        ).after_all(mapping, inner).after(
            mapping,
            FakeKey { state: KeyState::Released, keycode },
        ),
{
    let press = FakeKey { state: KeyState::Pressed, keycode };
    let release = FakeKey { state: KeyState::Released, keycode };
    run_of_concatenation(mapping, t, seq![press] + inner, seq![release]);
    run_of_concatenation(mapping, t, seq![press], inner);
    run_of_one(mapping, t, press);
    run_of_one(
        mapping,
        t.after(mapping, press).after_all(mapping, inner),
        release,
    );
}

/// Shift, control, `u` and space are found on keys that give them alone.
proof fn special_key(mapping: &CachedKeyboardMapping, keysym: u32) -> (row: int)
    requires
        enters_everything(mapping),
        keysym == 0xFFE1 || keysym == 0xFFE3 || keysym == 0x75 || keysym == 0x20,
    ensures
        0 <= row,
        mapping.min_keycode + row <= 255,
        gives(mapping, row, 0, keysym),
        mapping.lookup(keysym) == Some(((mapping.min_keycode + row) as u8, false)),
{
    keycode_is_of_the_first_row(mapping, keysym);
    let known = choose|row: int|
        first_row(mapping, row, keysym) && gives(mapping, row, 0, keysym);
    assert(first_row(mapping, known, keysym));
    let row = found_key(mapping, keysym);
    row
}

/// Stroking the key of a character hands its keysym over.
proof fn run_of_stroke(mapping: &CachedKeyboardMapping, t: Typist, keysym: u32)
    requires
        enters_everything(mapping),
        is_character(keysym),
        mapping.lookup(keysym) is Some,
        !t.shift,
        !t.ctrl,
    ensures
        ({
            let found = mapping.lookup(keysym)->0;
            t.after_all(mapping, stroke(mapping, found.0, found.1)) == t.receives(keysym)
        }),
{
    let found = mapping.lookup(keysym)->0;
    let row = found_key(mapping, keysym);
    let shift_row = special_key(mapping, 0xFFE1);
    let shift_key = mapping.shift_key();
    assert(shift_key == mapping.min_keycode + shift_row);
    assert(!gives(mapping, row, 0, 0xFFE1) && !gives(mapping, row, 0, 0xFFE3)) by {
        if gives(mapping, row, 0, keysym) {
        } else {
            assert(gives(mapping, row, 1, keysym));
        }
    }
    if found.1 {
        let held = Typist { shift: true, ..t };
        run_of_holding(mapping, t, shift_key, tap(found.0));
        run_of_tap(mapping, held, found.0);
        assert(gives(mapping, row, 1, keysym));
        assert(t.after(mapping, FakeKey { state: KeyState::Pressed, keycode: shift_key }) == held);
        assert(held.after(mapping, FakeKey { state: KeyState::Pressed, keycode: found.0 })
            == held.receives(keysym));
    } else {
        run_of_tap(mapping, t, found.0);
        assert(t.after(mapping, FakeKey { state: KeyState::Pressed, keycode: found.0 })
            == t.receives(keysym));
    }
}

/// Stroking the digits of a number enters it.
proof fn run_of_digits(mapping: &CachedKeyboardMapping, t: Typist, n: nat)
    requires
        enters_everything(mapping),
        !t.shift,
        !t.ctrl,
        t.entering == Some(0int),
    ensures
        t.after_all(mapping, digit_strokes(mapping, hex_text(n))) == (Typist {
            entering: Some(n as int),
            ..t
        }),
    decreases n,
{
    let digits = hex_text(n);
    let last = n as int % 16;
    let keysym = digit_keysym(last);
    assert(digits.last() == hex_digit(last));
    assert(keysym_of(hex_digit(last)) == keysym);
    keycode_is_of_the_first_row(mapping, keysym);
    assert(exists|row: int| first_row(mapping, row, digit_keysym(last)));
    let found = mapping.lookup(keysym)->0;
    let rest = digit_strokes(mapping, digits.drop_last());
    run_of_concatenation(mapping, t, rest, stroke(mapping, found.0, found.1));
    if n < 16 {
        assert(digits.drop_last() == Seq::<char>::empty());
        assert(t.after_all(mapping, rest) == t);
        run_of_stroke(mapping, t, keysym);
    } else {
        assert(digits.drop_last() == hex_text(n / 16));
        run_of_digits(mapping, t, n / 16);
        run_of_stroke(mapping, t.after_all(mapping, rest), keysym);
    }
}

/// Entering a character by its code point types it.
proof fn run_of_entry(mapping: &CachedKeyboardMapping, t: Typist, c: char)
    requires
        enters_everything(mapping),
        !t.shift,
        !t.ctrl,
        t.entering is None,
    ensures
        t.after_all(mapping, unicode_entry(mapping, c)) == (Typist {
            typed: t.typed.push(c as int),
            ..t
        }),
{
    let shift_row = special_key(mapping, XK_SHIFT_L);
    let ctrl_row = special_key(mapping, XK_CONTROL_L);
    let u_row = special_key(mapping, XK_U);
    let space_row = special_key(mapping, XK_SPACE);
    let shift = mapping.shift_key();
    let ctrl = mapping.key_or(XK_CONTROL_L, 37);
    let u = mapping.key_or(XK_U, 30);
    let space = mapping.key_or(XK_SPACE, 65);
    let head = holding(ctrl, holding(shift, tap(u)));
    let digits = digit_strokes(mapping, hex_text(c as nat));

    let t1 = Typist { ctrl: true, ..t };
    let t2 = Typist { shift: true, ..t1 };
    let t3 = Typist { entering: Some(0), ..t2 };
    let t4 = Typist { entering: Some(0), ..t };
    let t5 = Typist { entering: Some(c as int), ..t };
    run_of_holding(mapping, t, ctrl, holding(shift, tap(u)));
    run_of_holding(mapping, t1, shift, tap(u));
    run_of_tap(mapping, t2, u);
    assert(t.after(mapping, FakeKey { state: KeyState::Pressed, keycode: ctrl }) == t1);
    assert(t1.after(mapping, FakeKey { state: KeyState::Pressed, keycode: shift }) == t2);
    assert(t2.after(mapping, FakeKey { state: KeyState::Pressed, keycode: u }) == t3);
    assert(t3.after(mapping, FakeKey { state: KeyState::Released, keycode: u }) == t3);
    assert(t.after_all(mapping, head) == t4);
    run_of_digits(mapping, t4, c as nat);
    run_of_concatenation(mapping, t, head + digits, tap(space));
    run_of_concatenation(mapping, t, head, digits);
    run_of_tap(mapping, t5, space);
    assert(t5.after(mapping, FakeKey { state: KeyState::Pressed, keycode: space }) == (Typist {
        typed: t.typed.push(c as int),
        ..t
    }));
}

/// Reading the keys of a text back types the text: every character but control
/// characters, each once and in order. Characters that the keyboard lacks are
/// entered by their code point. `shown` tells control characters from others.
pub proof fn keys_type_the_text(
    mapping: &CachedKeyboardMapping,
    text: Seq<char>,
    shown: spec_fn(char) -> bool,
)
    requires
        enters_everything(mapping),
        forall|c: char| #[trigger]
            shown(c) <==> 0x20 <= c as u32 && !(0x7F <= c as u32 && c as u32 <= 0x9F),
    ensures
        ({
            let end = Typist::at_rest().after_all(mapping, text_keys(mapping, text));
            let expected = text.filter(shown);
            &&& !end.shift
            &&& !end.ctrl
            &&& end.entering is None
            &&& end.typed.len() == expected.len()
            &&& forall|i: int|
                0 <= i < expected.len() ==> #[trigger] end.typed[i] == expected[i] as int
        }),
    decreases text.len(),
{
    reveal(Seq::filter);
    let start = Typist::at_rest();
    if text.len() > 0 {
        let less = text.drop_last();
        let c = text.last();
        keys_type_the_text(mapping, less, shown);
        let before = start.after_all(mapping, text_keys(mapping, less));
        run_of_concatenation(mapping, start, text_keys(mapping, less), char_keys(mapping, c));
        char_range(c);
        if shown(c) {
            let keysym = keysym_of(c);
            assert(is_character(keysym) && code_point(keysym) == c as int);
            match mapping.lookup(keysym) {
                Some(_) => run_of_stroke(mapping, before, keysym),
                None => run_of_entry(mapping, before, c),
            }
        }
    }
}

/// Whether a keysym is that of a character: the code point itself up to 0xFF,
/// and 0x01000000 more beyond.
pub open spec fn is_keysym_of(keysym: u32, c: char) -> bool {
    if c as u32 <= 0xFF {
        keysym == c as u32
    } else {
        keysym == 0x0100_0000 + c as u32
    }
}

/// A character that is no control character has the keysym of its code point,
/// and a control character has none.
pub proof fn keysyms_follow_code_points(c: char)
    ensures
        keysym_of(c) == 0 <==> (c as u32) < 0x20 || 0x7F <= c as u32 <= 0x9F,
        keysym_of(c) != 0 ==> is_keysym_of(keysym_of(c), c),
{
    char_range(c);
}

/// Whether a key is the one for a keysym: that of the first row that has the
/// keysym, or a standard one where no row has it.
pub open spec fn is_key_for(
    mapping: &CachedKeyboardMapping,
    key: int,
    keysym: u32,
    standard: int,
) -> bool {
    &&& forall|row: int| #[trigger]
        first_row(mapping, row, keysym) ==> key == mapping.min_keycode + row % 256
    &&& (forall|row: int| !#[trigger] first_row(mapping, row, keysym)) ==> key == standard
}

proof fn key_for_is_looked_up(
    mapping: &CachedKeyboardMapping,
    key: int,
    keysym: u32,
    standard: u8,
)
    requires
        mapping.wf(),
    ensures
        is_key_for(mapping, mapping.key_or(keysym, standard) as int, keysym, standard as int),
        is_key_for(mapping, key, keysym, standard as int) ==> key == mapping.key_or(
            keysym,
            standard,
        ),
{
    keycode_is_of_the_first_row(mapping, keysym);
    let per = mapping.keysyms_per_keycode as int;
    assert forall|row: int| #[trigger] first_row(mapping, row, keysym) implies 0 <= row
        && mapping.min_keycode + row % 256 <= 255 by {
        if mapping.min_keycode > 0 {
            let rows = 256 - mapping.min_keycode;
            assert(row < rows) by (nonlinear_arith)
                requires
                    row * per < rows * per,
                    per > 0,
            ;
        }
    }
    if mapping.lookup(keysym) is Some {
        let row = choose|row: int| first_row(mapping, row, keysym);
        assert(first_row(mapping, row, keysym));
    }
}

/// Text is deleted with the backspace key (keysym 0xFF08, or else keycode 22)
/// and the delete key (keysym 0xFFFF, or else keycode 119) of the keyboard.
pub proof fn deletion_uses_backspace_and_delete(mapping: &CachedKeyboardMapping)
    requires
        mapping.wf(),
    ensures
        is_key_for(mapping, mapping.key_or(XK_BACKSPACE, 22) as int, 0xFF08, 22),
        is_key_for(mapping, mapping.key_or(XK_DELETE, 119) as int, 0xFFFF, 119),
{
    key_for_is_looked_up(mapping, 0, 0xFF08, 22);
    key_for_is_looked_up(mapping, 0, 0xFFFF, 119);
}

/// A key that goes down.
pub open spec fn press(keycode: int) -> FakeKey {
    FakeKey { state: KeyState::Pressed, keycode: keycode as u8 }
}

/// A key that goes up.
pub open spec fn release(keycode: int) -> FakeKey {
    FakeKey { state: KeyState::Released, keycode: keycode as u8 }
}

/// No key is faked for an empty text, and none for a control character.
pub proof fn control_characters_are_left_out(
    mapping: &CachedKeyboardMapping,
    text: Seq<char>,
    c: char,
)
    requires
        (c as u32) < 0x20 || 0x7F <= c as u32 <= 0x9F,
    ensures
        text_keys(mapping, Seq::empty()) == Seq::<FakeKey>::empty(),
        text_keys(mapping, text.push(c)) == text_keys(mapping, text),
{
    assert(text.push(c).drop_last() == text);
}

/// A character that a keyboard has adds one stroke of its key: the two keys of a
/// tap where the key gives it alone, and else the four of a tap with shift.
pub proof fn character_is_one_stroke(
    mapping: &CachedKeyboardMapping,
    text: Seq<char>,
    c: char,
    keysym: u32,
    row: int,
    shift: int,
)
    requires
        mapping.wf(),
        0x20 <= c as u32 && !(0x7F <= c as u32 <= 0x9F),
        is_keysym_of(keysym, c),
        first_row(mapping, row, keysym),
        is_key_for(mapping, shift, 0xFFE1, 50),
    ensures
        ({
            let key = mapping.min_keycode + row % 256;
            text_keys(mapping, text.push(c)) == text_keys(mapping, text) + if gives(
                mapping,
                row,
                0,
                keysym,
            ) {
                seq![press(key), release(key)]
            } else {
                seq![press(shift), press(key), release(key), release(shift)]
            }
        }),
{
    char_range(c);
    assert(keysym == keysym_of(c));
    keycode_is_of_the_first_row(mapping, keysym);
    key_for_is_looked_up(mapping, shift, 0xFFE1, 50);
    assert(text.push(c).drop_last() == text);
    let key = mapping.min_keycode + row % 256;
    assert(holding(shift as u8, tap(key as u8)) == seq![
        press(shift),
        press(key),
        release(key),
        release(shift),
    ]);
    assert(tap(key as u8) == seq![press(key), release(key)]);
}

/// A character that a keyboard lacks adds the keys of its entry and no others:
/// control, shift and `u` down and up again, two keys for each hexadecimal digit
/// of the code point, and a tap of space. `digit_row` gives the rows of the
/// digits, and the keyboard gives each digit alone.
pub proof fn missing_character_is_entered(
    mapping: &CachedKeyboardMapping,
    text: Seq<char>,
    c: char,
    keysym: u32,
    ctrl: int,
    shift: int,
    u: int,
    space: int,
    digit_row: spec_fn(char) -> int,
)
    requires
        mapping.wf(),
        0x20 <= c as u32 && !(0x7F <= c as u32 <= 0x9F),
        is_keysym_of(keysym, c),
        forall|row: int| !#[trigger] first_row(mapping, row, keysym),
        is_key_for(mapping, ctrl, 0xFFE3, 37),
        is_key_for(mapping, shift, 0xFFE1, 50),
        is_key_for(mapping, u, 0x75, 30),
        is_key_for(mapping, space, 0x20, 65),
        forall|d: char|
            '0' <= d <= '9' || 'a' <= d <= 'f' ==> first_row(mapping, #[trigger] digit_row(d), d as u32)
                && gives(mapping, digit_row(d), 0, d as u32),
    ensures
        ({
            let before = text_keys(mapping, text);
            let keys = text_keys(mapping, text.push(c));
            let n = before.len() as int;
            let digits = hex_text(c as nat);
            let min = mapping.min_keycode;
            &&& keys.len() == n + 8 + 2 * digits.len()
            &&& keys.take(n) == before
            &&& keys[n] == press(ctrl)
            &&& keys[n + 1] == press(shift)
            &&& keys[n + 2] == press(u)
            &&& keys[n + 3] == release(u)
            &&& keys[n + 4] == release(shift)
            &&& keys[n + 5] == release(ctrl)
            &&& forall|i: int|
                0 <= i < digits.len() ==> keys[n + 6 + 2 * i] == press(
                    min + digit_row(#[trigger] digits[i]) % 256,
                ) && keys[n + 7 + 2 * i] == release(min + digit_row(digits[i]) % 256)
            &&& keys[keys.len() - 2] == press(space)
            &&& keys[keys.len() - 1] == release(space)
        }),
{
    char_range(c);
    assert(keysym == keysym_of(c));
    keycode_is_of_the_first_row(mapping, keysym);
    key_for_is_looked_up(mapping, shift, 0xFFE1, 50);
    key_for_is_looked_up(mapping, ctrl, 0xFFE3, 37);
    key_for_is_looked_up(mapping, u, 0x75, 30);
    key_for_is_looked_up(mapping, space, 0x20, 65);
    assert(text.push(c).drop_last() == text);
    let digits = hex_text(c as nat);
    hex_text_is_plain(c as nat);
    strokes_of_digits(mapping, digits, digit_row);
    let min = mapping.min_keycode;
    let before = text_keys(mapping, text);
    let keys = text_keys(mapping, text.push(c));
    let n = before.len() as int;
    let head = holding(ctrl as u8, holding(shift as u8, tap(u as u8)));
    assert(head == seq![
        press(ctrl),
        press(shift),
        press(u),
        release(u),
        release(shift),
        release(ctrl),
    ]);
    let strokes = digit_strokes(mapping, digits);
    assert(keys == before + (head + strokes + tap(space as u8)));
    assert(keys.take(n) == before);
    assert forall|i: int| 0 <= i < digits.len() implies keys[n + 6 + 2 * i] == press(
        min + digit_row(#[trigger] digits[i]) % 256,
    ) && keys[n + 7 + 2 * i] == release(min + digit_row(digits[i]) % 256) by {
        assert(keys[n + 6 + 2 * i] == strokes[2 * i]);
        assert(keys[n + 7 + 2 * i] == strokes[2 * i + 1]);
    }
}

proof fn strokes_of_digits(
    mapping: &CachedKeyboardMapping,
    digits: Seq<char>,
    digit_row: spec_fn(char) -> int,
)
    requires
        mapping.keysyms_per_keycode > 0,
        forall|i: int|
            0 <= i < digits.len() ==> ('0' <= #[trigger] digits[i] <= '9' || 'a' <= digits[i] <= 'f'),
        forall|d: char|
            '0' <= d <= '9' || 'a' <= d <= 'f' ==> first_row(mapping, #[trigger] digit_row(d), d as u32)
                && gives(mapping, digit_row(d), 0, d as u32),
    ensures
        ({
            let strokes = digit_strokes(mapping, digits);
            let min = mapping.min_keycode;
            &&& strokes.len() == 2 * digits.len()
            &&& forall|i: int|
                0 <= i < digits.len() ==> strokes[2 * i] == press(
                    min + digit_row(#[trigger] digits[i]) % 256,
                ) && strokes[2 * i + 1] == release(min + digit_row(digits[i]) % 256)
        }),
    decreases digits.len(),
{
    if digits.len() > 0 {
        let less = digits.drop_last();
        let d = digits.last();
        assert forall|i: int| 0 <= i < less.len() implies ('0' <= #[trigger] less[i] <= '9' || 'a'
            <= less[i] <= 'f') by {
            assert(less[i] == digits[i]);
        }
        strokes_of_digits(mapping, less, digit_row);
        assert(d == digits[digits.len() - 1]);
        assert(first_row(mapping, digit_row(d), d as u32));
        keycode_is_of_the_first_row(mapping, d as u32);
        assert(keysym_of(d) == d as u32);
        let strokes = digit_strokes(mapping, digits);
        let rest = digit_strokes(mapping, less);
        assert forall|i: int| 0 <= i < digits.len() implies strokes[2 * i] == press(
            mapping.min_keycode + digit_row(#[trigger] digits[i]) % 256,
        ) && strokes[2 * i + 1] == release(
            mapping.min_keycode + digit_row(digits[i]) % 256,
        ) by {
            if i < less.len() {
                assert(less[i] == digits[i]);
                assert(strokes[2 * i] == rest[2 * i]);
                assert(strokes[2 * i + 1] == rest[2 * i + 1]);
            }
        }
    }
}

/// The entry of a character that a keyboard lacks is framed by control, shift and
/// `u` in front and a tap of space behind, with the digits of the code point in
/// between.
pub proof fn entry_frames_the_digits(
    mapping: &CachedKeyboardMapping,
    text: Seq<char>,
    c: char,
    keysym: u32,
    ctrl: int,
    shift: int,
    u: int,
    space: int,
)
    requires
        mapping.wf(),
        0x20 <= c as u32 && !(0x7F <= c as u32 <= 0x9F),
        is_keysym_of(keysym, c),
        forall|row: int| !#[trigger] first_row(mapping, row, keysym),
        is_key_for(mapping, ctrl, 0xFFE3, 37),
        is_key_for(mapping, shift, 0xFFE1, 50),
        is_key_for(mapping, u, 0x75, 30),
        is_key_for(mapping, space, 0x20, 65),
    ensures
        text_keys(mapping, text.push(c)) == text_keys(mapping, text) + (seq![
            press(ctrl),
            press(shift),
            press(u),
            release(u),
            release(shift),
            release(ctrl),
        ] + digit_strokes(mapping, hex_text(c as nat)) + seq![press(space), release(space)]),
{
    char_range(c);
    assert(keysym == keysym_of(c));
    keycode_is_of_the_first_row(mapping, keysym);
    key_for_is_looked_up(mapping, shift, 0xFFE1, 50);
    key_for_is_looked_up(mapping, ctrl, 0xFFE3, 37);
    key_for_is_looked_up(mapping, u, 0x75, 30);
    key_for_is_looked_up(mapping, space, 0x20, 65);
    assert(text.push(c).drop_last() == text);
    assert(holding(ctrl as u8, holding(shift as u8, tap(u as u8))) == seq![
        press(ctrl),
        press(shift),
        press(u),
        release(u),
        release(shift),
        release(ctrl),
    ]);
    assert(tap(space as u8) == seq![press(space), release(space)]);
}

/// Each digit of a code point adds one stroke of its key, with shift where that
/// is needed, and a digit that the keyboard lacks adds none.
pub proof fn digit_is_one_stroke(
    mapping: &CachedKeyboardMapping,
    digits: Seq<char>,
    digit: char,
    shift: int,
)
    requires
        mapping.wf(),
        '0' <= digit <= '9' || 'a' <= digit <= 'f',
        is_key_for(mapping, shift, 0xFFE1, 50),
    ensures
        digit_strokes(mapping, Seq::empty()) == Seq::<FakeKey>::empty(),
        (forall|row: int| !#[trigger] first_row(mapping, row, digit as u32)) ==> digit_strokes(
            mapping,
            digits.push(digit),
        ) == digit_strokes(mapping, digits),
        forall|row: int| #[trigger]
            first_row(mapping, row, digit as u32) ==> {
                let key = mapping.min_keycode + row % 256;
                digit_strokes(mapping, digits.push(digit)) == digit_strokes(mapping, digits)
                    + if gives(mapping, row, 0, digit as u32) {
                    seq![press(key), release(key)]
                } else {
                    seq![press(shift), press(key), release(key), release(shift)]
                }
            },
{
    let keysym = digit as u32;
    assert(keysym == keysym_of(digit));
    keycode_is_of_the_first_row(mapping, keysym);
    key_for_is_looked_up(mapping, shift, 0xFFE1, 50);
    assert(digits.push(digit).drop_last() == digits);
    assert forall|row: int| #[trigger] first_row(mapping, row, keysym) implies {
        let key = mapping.min_keycode + row % 256;
        digit_strokes(mapping, digits.push(digit)) == digit_strokes(mapping, digits) + if gives(
            mapping,
            row,
            0,
            keysym,
        ) {
            seq![press(key), release(key)]
        } else {
            seq![press(shift), press(key), release(key), release(shift)]
        }
    } by {
        let key = mapping.min_keycode + row % 256;
        assert(tap(key as u8) == seq![press(key), release(key)]);
        assert(holding(shift as u8, tap(key as u8)) == seq![
            press(shift),
            press(key),
            release(key),
            release(shift),
        ]);
    }
}

} // verus!
