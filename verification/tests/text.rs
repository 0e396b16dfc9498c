use imekit::deletion::DeletionPlan;
use imekit::text::{encode_utf16, hex_digits, prefixed, same_text};

#[test]
fn hex_digits_are_lower_case_without_leading_zeros() {
    assert_eq!(hex_digits(0), vec!['0']);
    assert_eq!(hex_digits(0x20ac), vec!['2', '0', 'a', 'c']);
    assert_eq!(hex_digits(0x1f44b), vec!['1', 'f', '4', '4', 'b']);
    assert_eq!(hex_digits(u32::MAX), vec!['f'; 8]);
}

#[test]
fn hex_digits_read_back() {
    for n in [1u32, 9, 10, 15, 16, 255, 256, 0x3042, 0x10ffff] {
        let text: String = hex_digits(n).into_iter().collect();
        assert_eq!(u32::from_str_radix(&text, 16), Ok(n));
        assert_eq!(text, format!("{:x}", n));
    }
}

#[test]
fn utf16_of_basic_and_supplementary_characters() {
    assert_eq!(encode_utf16(""), Vec::<u16>::new());
    assert_eq!(encode_utf16("Az"), vec![0x41, 0x7a]);
    assert_eq!(encode_utf16("に"), vec![0x306b]);
    assert_eq!(encode_utf16("👋"), vec![0xd83d, 0xdc4b]);
    assert_eq!(encode_utf16("\u{ffff}\u{10000}\u{10ffff}"), vec![0xffff, 0xd800, 0xdc00, 0xdbff, 0xdfff]);
}

#[test]
fn utf16_agrees_with_std() {
    let text = "Hello World! 👋 にほん é\u{d7ff}\u{e000}";
    assert_eq!(encode_utf16(text), text.encode_utf16().collect::<Vec<u16>>());
}

#[test]
fn utf16_of_a_concatenation_is_the_concatenation() {
    let mut both = encode_utf16("a👋");
    both.extend(encode_utf16("bに"));
    assert_eq!(encode_utf16("a👋bに"), both);
}

#[test]
fn prefix_stands_before_the_text() {
    assert_eq!(prefixed("IBus error: ", "gone"), "IBus error: gone");
    assert_eq!(prefixed("", ""), "");
}

#[test]
fn texts_are_compared_by_their_characters() {
    assert!(same_text("wl_seat", "wl_seat"));
    assert!(same_text("", ""));
    assert!(!same_text("wl_seat", "wl_sea"));
    assert!(!same_text("wl_sea", "wl_seat"));
    assert!(!same_text("wl_seat", "wl_seaT"));
}

#[test]
fn deletion_strokes_backspace_first() {
    let plan = DeletionPlan { backspace: 'b', before: 2, delete: 'd', after: 1 };
    assert_eq!(plan.key_at(0), Some('b'));
    assert_eq!(plan.key_at(1), Some('b'));
    assert_eq!(plan.key_at(2), Some('d'));
    assert_eq!(plan.key_at(3), None);
    assert_eq!(plan.key_at(u64::MAX), None);
}

#[test]
fn largest_deletion_has_as_many_strokes() {
    let plan = DeletionPlan { backspace: 'b', before: u32::MAX, delete: 'd', after: u32::MAX };
    let most = u32::MAX as u64;
    assert_eq!(plan.key_at(most - 1), Some('b'));
    assert_eq!(plan.key_at(most), Some('d'));
    assert_eq!(plan.key_at(2 * most - 1), Some('d'));
    assert_eq!(plan.key_at(2 * most), None);
}
