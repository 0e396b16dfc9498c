use imekit::deletion::DeletionPlan;
use imekit::linux_xtest::{
    char_to_keysym, commit_string, delete_surrounding_text, deletion_key_at, deletion_step,
    fake_key, find_keycode, keycode_count, load_keyboard_mapping, require_xtest, send_key,
    send_unicode, sending_step, CachedKeyboardMapping, FakeInput, FakeKey, KeyboardMappingReply,
    SendStep, XTestWriter,
};
use imekit::{Error, KeyState};

fn down(keycode: u8) -> FakeKey {
    FakeKey { state: KeyState::Pressed, keycode }
}

fn up(keycode: u8) -> FakeKey {
    FakeKey { state: KeyState::Released, keycode }
}

/// A keyboard with `a`, `1`, backspace and shift, from keycode 8 on.
fn small_keyboard() -> CachedKeyboardMapping {
    CachedKeyboardMapping {
        keysyms: vec![0x61, 0x41, 0x31, 0x21, 0xff08, 0, 0xffe1, 0],
        keysyms_per_keycode: 2,
        min_keycode: 8,
    }
}

/// A keyboard with the keys that entering code points needs, from keycode 8 on:
/// control, shift, `u`, space, then the sixteen digits.
fn hex_keyboard() -> CachedKeyboardMapping {
    let mut keysyms: Vec<u32> = vec![0xffe3, 0xffe1, 0x75, 0x20];
    keysyms.extend("0123456789abcdef".chars().map(|c| c as u32));
    CachedKeyboardMapping { keysyms, keysyms_per_keycode: 1, min_keycode: 8 }
}

#[test]
fn latin_characters_are_their_own_keysyms() {
    assert_eq!(char_to_keysym(' '), 0x20);
    assert_eq!(char_to_keysym('~'), 0x7e);
    assert_eq!(char_to_keysym('\u{a0}'), 0xa0);
    assert_eq!(char_to_keysym('ÿ'), 0xff);
}

#[test]
fn other_characters_have_unicode_keysyms() {
    assert_eq!(char_to_keysym('\u{100}'), 0x0100_0100);
    assert_eq!(char_to_keysym('€'), 0x0100_20ac);
    assert_eq!(char_to_keysym('👋'), 0x0101_f44b);
    assert_eq!(char_to_keysym('\u{10ffff}'), 0x0110_ffff);
}

#[test]
fn control_characters_have_no_keysym() {
    for c in ['\0', '\n', '\u{1f}', '\u{7f}', '\u{80}', '\u{9f}'] {
        assert_eq!(char_to_keysym(c), 0);
    }
}

#[test]
fn keycodes_are_found_by_row() {
    let mapping = small_keyboard();
    assert_eq!(find_keycode(0x61, &mapping), Some((8, false)));
    assert_eq!(find_keycode(0x41, &mapping), Some((8, true)));
    assert_eq!(find_keycode(0x31, &mapping), Some((9, false)));
    assert_eq!(find_keycode(0xffe1, &mapping), Some((11, false)));
    assert_eq!(find_keycode(0x62, &mapping), None);
}

#[test]
fn first_row_with_a_keysym_is_taken() {
    let mapping = CachedKeyboardMapping {
        keysyms: vec![0x31, 0x61, 0, 0x61, 0, 0, 0x41, 0, 0],
        keysyms_per_keycode: 3,
        min_keycode: 10,
    };
    assert_eq!(find_keycode(0x61, &mapping), Some((10, true)));
    assert_eq!(find_keycode(0x41, &mapping), Some((12, false)));
}

#[test]
fn third_and_later_columns_are_not_looked_at() {
    let mapping = CachedKeyboardMapping {
        keysyms: vec![0x61, 0x41, 0x62],
        keysyms_per_keycode: 3,
        min_keycode: 8,
    };
    assert_eq!(find_keycode(0x62, &mapping), None);
}

#[test]
fn rows_of_one_have_no_shifted_keysym() {
    let mapping = CachedKeyboardMapping {
        keysyms: vec![0x61, 0x62],
        keysyms_per_keycode: 1,
        min_keycode: 8,
    };
    assert_eq!(find_keycode(0x62, &mapping), Some((9, false)));
}

#[test]
fn mapping_is_well_formed_while_keycodes_fit() {
    assert!(small_keyboard().is_well_formed());
    let full = CachedKeyboardMapping {
        keysyms: vec![0; 2 * 248],
        keysyms_per_keycode: 2,
        min_keycode: 8,
    };
    assert!(full.is_well_formed());
    let too_long = CachedKeyboardMapping {
        keysyms: vec![0; 2 * 248 + 1],
        keysyms_per_keycode: 2,
        min_keycode: 8,
    };
    assert!(!too_long.is_well_formed());
    let no_rows = CachedKeyboardMapping { keysyms: vec![], keysyms_per_keycode: 0, min_keycode: 8 };
    assert!(!no_rows.is_well_formed());
}

#[test]
fn keycode_range_is_counted_with_both_ends() {
    assert_eq!(keycode_count(8, 255), 248);
    assert_eq!(keycode_count(8, 8), 1);
}

#[test]
fn loaded_mapping_is_the_reply() {
    let reply = KeyboardMappingReply { keysyms: vec![0x61, 0x41], keysyms_per_keycode: 2 };
    let mapping = load_keyboard_mapping(8, Ok(reply)).unwrap();
    assert_eq!(mapping.keysyms, vec![0x61, 0x41]);
    assert_eq!(mapping.keysyms_per_keycode, 2);
    assert_eq!(mapping.min_keycode, 8);
}

#[test]
fn failed_loading_is_a_failed_connection() {
    match load_keyboard_mapping(8, Err("closed".to_string())) {
        Err(Error::ConnectionFailed(text)) => assert_eq!(text, "closed"),
        other => panic!("{:?}", other),
    }
}

#[test]
fn xtest_extension_is_needed() {
    assert!(require_xtest(true).is_ok());
    match require_xtest(false) {
        Err(Error::ProtocolNotSupported(text)) => assert_eq!(text, "XTest extension not available"),
        other => panic!("{:?}", other),
    }
}

#[test]
fn fake_keys_are_core_events() {
    let root = 0x2f1;
    let press = FakeInput {
        type_: x11rb::protocol::xproto::KEY_PRESS_EVENT,
        detail: 38,
        time: 0,
        root,
        root_x: 0,
        root_y: 0,
        deviceid: 0,
    };
    assert_eq!(press.time, x11rb::CURRENT_TIME);
    assert_eq!(fake_key(down(38), root), press);
    let release = FakeInput { type_: x11rb::protocol::xproto::KEY_RELEASE_EVENT, ..press };
    assert_eq!(fake_key(up(38), root), release);
}

#[test]
fn shift_is_held_around_a_stroke() {
    let mut keys: Vec<FakeKey> = Vec::new();
    send_key(&mut keys, &small_keyboard(), 8, true);
    send_key(&mut keys, &small_keyboard(), 9, false);
    assert_eq!(keys, vec![down(11), down(8), up(8), up(11), down(9), up(9)]);
}

#[test]
fn text_is_typed_key_by_key() {
    assert_eq!(
        commit_string(&small_keyboard(), "aA1"),
        vec![down(8), up(8), down(11), down(8), up(8), up(11), down(9), up(9)]
    );
}

#[test]
fn control_characters_are_not_typed() {
    assert_eq!(commit_string(&small_keyboard(), "\n\ta\u{7f}"), vec![down(8), up(8)]);
}

#[test]
fn missing_characters_are_entered_by_code_point() {
    let keys = commit_string(&hex_keyboard(), "€");
    let mut expected = vec![down(8), down(9), down(10), up(10), up(9), up(8)];
    for digit in [2u8, 0, 10, 12] {
        expected.push(down(12 + digit));
        expected.push(up(12 + digit));
    }
    expected.push(down(11));
    expected.push(up(11));
    assert_eq!(keys, expected);
    let mut sent: Vec<FakeKey> = Vec::new();
    send_unicode(&mut sent, &hex_keyboard(), '€');
    assert_eq!(sent, expected);
}

#[test]
fn missing_keys_have_standard_keycodes() {
    let none = CachedKeyboardMapping { keysyms: vec![], keysyms_per_keycode: 1, min_keycode: 8 };
    assert_eq!(
        commit_string(&none, "é"),
        vec![down(37), down(50), down(30), up(30), up(50), up(37), down(65), up(65)]
    );
    let plan = delete_surrounding_text(&none, 1, 1);
    assert_eq!((plan.backspace, plan.delete), (22, 119));
}

#[test]
fn typing_a_concatenation_is_typing_one_after_the_other() {
    let mapping = hex_keyboard();
    let mut both = commit_string(&mapping, "u€");
    both.extend(commit_string(&mapping, "0に"));
    assert_eq!(commit_string(&mapping, "u€0に"), both);
}

#[test]
fn typing_leaves_no_key_down() {
    let keys = commit_string(&hex_keyboard(), "Hello, にほん 👋");
    for keycode in 0..=255u8 {
        let presses = keys.iter().filter(|k| **k == down(keycode)).count();
        let releases = keys.iter().filter(|k| **k == up(keycode)).count();
        assert_eq!(presses, releases);
    }
}

#[test]
fn deletion_taps_backspace_then_delete() {
    let plan = delete_surrounding_text(&small_keyboard(), 2, 1);
    let mut keys: Vec<FakeKey> = Vec::new();
    let mut index: u64 = 0;
    while let Some(key) = deletion_key_at(&plan, index) {
        keys.push(key);
        index += 1;
    }
    assert_eq!(keys, vec![down(10), up(10), down(10), up(10), down(119), up(119)]);
}

#[test]
fn empty_deletion_taps_nothing() {
    let plan = DeletionPlan { backspace: 22u8, before: 0, delete: 119, after: 0 };
    assert_eq!(deletion_key_at(&plan, 0), None);
}

#[test]
fn writer_types_with_its_mapping() {
    let writer = XTestWriter::new(7, Ok(small_keyboard())).unwrap();
    assert_eq!(writer.root_window, 7);
    assert_eq!(writer.commit_string("a"), vec![down(8), up(8)]);
    let plan = writer.delete_surrounding_text(3, 4);
    assert_eq!((plan.backspace, plan.before, plan.delete, plan.after), (10, 3, 119, 4));
}

#[test]
fn writer_needs_a_mapping() {
    match XTestWriter::new(7, Err(Error::ConnectionFailed("closed".to_string()))) {
        Err(Error::ConnectionFailed(text)) => assert_eq!(text, "closed"),
        other => panic!("{:?}", other),
    }
}

#[test]
fn keys_are_sent_in_order_and_flushed() {
    let keys = vec![down(8), up(8)];
    assert!(matches!(sending_step(&keys, 0, None), SendStep::Send(key) if key == down(8)));
    assert!(matches!(sending_step(&keys, 1, Some(Ok(()))), SendStep::Send(key) if key == up(8)));
    assert!(matches!(sending_step(&keys, 2, Some(Ok(()))), SendStep::Flush));
    assert!(matches!(sending_step(&vec![], 0, None), SendStep::Flush));
}

#[test]
fn first_failed_key_ends_sending() {
    let keys = vec![down(8), up(8), down(9), up(9)];
    for sent in [1usize, 3, 4] {
        match sending_step(&keys, sent, Some(Err("closed".to_string()))) {
            SendStep::Return(Err(Error::CommitFailed(text))) => assert_eq!(text, "closed"),
            other => panic!("{:?}", other),
        }
    }
}

#[test]
fn first_failed_key_ends_a_deletion() {
    let plan = delete_surrounding_text(&small_keyboard(), 1, 1);
    assert!(matches!(deletion_step(&plan, 0, None), SendStep::Send(key) if key == down(10)));
    assert!(matches!(
        deletion_step(&plan, 3, Some(Ok(()))),
        SendStep::Send(key) if key == up(119)
    ));
    assert!(matches!(deletion_step(&plan, 4, Some(Ok(()))), SendStep::Flush));
    match deletion_step(&plan, 1, Some(Err("closed".to_string()))) {
        SendStep::Return(Err(Error::CommitFailed(text))) => assert_eq!(text, "closed"),
        other => panic!("{:?}", other),
    }
}
