use imekit::{macos, windows, Error, Status};
use windows::{CommitWay, KeyboardInput, Message, Peeked, PreeditWay, TapStep};

fn told(im: &mut windows::InputMethod, message: Message) -> String {
    format!("{:?}", im.process_message(message))
}

#[test]
fn windows_composition_activates() {
    let mut im = windows::InputMethod::new();
    assert!(!im.is_active());
    assert!(!im.state().active);
    assert_eq!(told(&mut im, Message::StartComposition), "Some(Activate { serial: 1 })");
    assert_eq!(told(&mut im, Message::StartComposition), "None");
    assert!(im.is_active());
    assert!(im.state().active);
    assert_eq!((im.serial(), im.state().serial), (1, 1));
    assert_eq!(told(&mut im, Message::EndComposition), "Some(Deactivate)");
    assert_eq!(told(&mut im, Message::EndComposition), "None");
    assert!(!im.is_active());
    assert!(!im.state().active);
    assert_eq!(told(&mut im, Message::SetContext { wparam: 0 }), "None");
    assert_eq!(told(&mut im, Message::StartComposition), "Some(Activate { serial: 2 })");
}

#[test]
fn windows_context_activates() {
    let mut im = windows::InputMethod::new();
    assert!(im.activates(Message::SetContext { wparam: 1 }));
    assert!(im.activates(Message::StartComposition));
    assert!(!im.activates(Message::EndComposition) && !im.activates(Message::Other));
    assert_eq!(told(&mut im, Message::SetContext { wparam: 0 }), "None");
    assert_eq!(told(&mut im, Message::SetContext { wparam: 1 }), "Some(Activate { serial: 1 })");
    assert_eq!(told(&mut im, Message::SetContext { wparam: 7 }), "None");
    assert_eq!(told(&mut im, Message::Other), "None");
    assert!(im.is_active());
    assert_eq!(told(&mut im, Message::SetContext { wparam: 0 }), "Some(Deactivate)");
    assert!(!im.is_active());
    assert!(!im.state().active);
    assert_eq!(im.state().serial, 1);
}

#[test]
fn windows_activations_are_numbered() {
    let mut im = windows::InputMethod::new();
    assert_eq!(told(&mut im, Message::SetContext { wparam: 1 }), "Some(Activate { serial: 1 })");
    assert_eq!(told(&mut im, Message::StartComposition), "Some(Activate { serial: 2 })");
    assert_eq!(told(&mut im, Message::SetContext { wparam: 0 }), "Some(Deactivate)");
    assert_eq!(told(&mut im, Message::SetContext { wparam: 1 }), "Some(Activate { serial: 3 })");
    assert_eq!((im.serial(), im.state().serial), (3, 3));
}

#[test]
fn windows_messages_are_taken_until_one_tells_something() {
    let mut im = windows::InputMethod::new();
    assert_eq!(format!("{:?}", im.next_event(Peeked::NotYet)), "Peek");
    assert_eq!(format!("{:?}", im.next_event(Peeked::Message(Message::Other))), "Peek");
    let started = im.next_event(Peeked::Message(Message::StartComposition));
    assert_eq!(format!("{:?}", started), "Return(Some(Activate { serial: 1 }))");
    assert_eq!(format!("{:?}", im.next_event(Peeked::Nothing)), "Return(None)");
}

#[test]
fn windows_commit_ends_the_composition() {
    let mut im = windows::InputMethod::new();
    let plan = im.commit_string("a👋");
    assert_eq!(plan.way, CommitWay::InsertAtSelection);
    assert_eq!(plan.wide, vec![0x61, 0xd83d, 0xdc4b]);
    assert_eq!(im.preedit_tried(PreeditWay::StartComposition, true, true), None);
    assert_eq!(im.commit_string("b").way, CommitWay::EndComposition);
    assert_eq!(im.commit_string("c").way, CommitWay::InsertAtSelection);
}

#[test]
fn windows_failed_commits_lead_to_typing() {
    let second = windows::next_commit_way(CommitWay::EndComposition, false);
    assert_eq!(second, Some(CommitWay::InsertAtSelection));
    let third = windows::next_commit_way(CommitWay::InsertAtSelection, false);
    assert_eq!(third, Some(CommitWay::SendInput));
    for way in [CommitWay::EndComposition, CommitWay::InsertAtSelection, CommitWay::SendInput] {
        assert_eq!(windows::next_commit_way(way, true), None);
    }
    assert_eq!(windows::next_commit_way(CommitWay::SendInput, false), None);
}

#[test]
fn windows_preedit_starts_then_updates() {
    let mut im = windows::InputMethod::new();
    let plan = im.set_preedit_string("に", 0, 3);
    assert_eq!(plan.way, PreeditWay::StartComposition);
    assert_eq!(plan.wide, vec![0x306b]);
    let failed = im.preedit_tried(PreeditWay::StartComposition, false, true);
    assert_eq!(failed, Some(PreeditWay::Imm32));
    assert_eq!(im.set_preedit_string("に", 0, 3).way, PreeditWay::StartComposition);
    assert_eq!(im.preedit_tried(PreeditWay::StartComposition, true, false), None);
    assert_eq!(im.set_preedit_string("に", 0, 3).way, PreeditWay::StartComposition);
    assert_eq!(im.preedit_tried(PreeditWay::StartComposition, true, true), None);
    assert_eq!(im.set_preedit_string("に", 0, 3).way, PreeditWay::UpdateComposition);
    let stale = im.preedit_tried(PreeditWay::UpdateComposition, false, false);
    assert_eq!(stale, Some(PreeditWay::Imm32));
    assert_eq!(im.preedit_tried(PreeditWay::UpdateComposition, true, false), None);
    assert_eq!(im.preedit_tried(PreeditWay::Imm32, false, false), None);
    assert_eq!(im.set_preedit_string("に", 0, 3).way, PreeditWay::UpdateComposition);
}

#[test]
fn windows_imm32_needs_a_window() {
    let wide: Vec<u16> = vec![1, 2, 3];
    assert!(matches!(windows::imm32_set_preedit(false, false, &wide), Err(Error::NotActive)));
    assert!(matches!(windows::imm32_set_preedit(true, false, &wide), Ok(None)));
    assert!(matches!(windows::imm32_set_preedit(true, true, &wide), Ok(Some(6))));
}

#[test]
fn windows_text_is_typed_by_code_unit() {
    let taps = windows::send_input_string(&[0x61, 0xd83d]);
    assert_eq!(taps.len(), 2);
    let down = KeyboardInput { virtual_key: 0, scan: 0xd83d, unicode: true, key_up: false };
    assert_eq!(taps[1].down, down);
    assert_eq!(taps[1].up, KeyboardInput { key_up: true, ..down });
    assert_eq!(taps[0], windows::send_unicode_char(0x61));
    assert_eq!(taps[0].down.scan, 0x61);
}

#[test]
fn windows_taps_must_get_through() {
    assert!(windows::tap_outcome(2).is_ok());
    for sent in [0u32, 1, 3] {
        match windows::tap_outcome(sent) {
            Err(Error::CommitFailed(text)) => assert_eq!(text, "SendInput failed"),
            other => panic!("{:?}", other),
        }
    }
}

#[test]
fn windows_deletion_uses_virtual_keys() {
    let im = windows::InputMethod::new();
    let plan = im.delete_surrounding_text(1, 2);
    assert_eq!((plan.backspace, plan.before, plan.delete, plan.after), (0x08, 1, 0x2e, 2));
    let tap = windows::send_vk(0x08);
    let down = KeyboardInput { virtual_key: 0x08, scan: 0, unicode: false, key_up: false };
    assert_eq!(tap.down, down);
    assert_eq!(tap.up, KeyboardInput { key_up: true, ..down });
    assert!(im.commit(1).is_ok());
}

#[test]
fn macos_engine_inserts_at_the_cursor() {
    let im = macos::InputMethod::new_as_engine();
    assert!(im.is_active());
    assert!(im.state().active);
    match im.commit_string("Hello!") {
        macos::Action::InsertText { text, replacement } => {
            assert_eq!(text, "Hello!");
            assert_eq!(replacement, macos::TextRange { location: usize::MAX, length: 0 });
        },
        other => panic!("{:?}", other),
    }
}

#[test]
fn macos_engine_marks_composing_text() {
    let im = macos::InputMethod::new_as_engine();
    for (begin, end, location, length) in
        [(0i32, 9i32, 0usize, 9usize), (3, 6, 3, 3), (6, 3, 6, 0), (-2, 4, 0, 6), (-1, -1, 0, 0)]
    {
        match im.set_preedit_string("にほん", begin, end) {
            macos::Action::SetMarkedText { text, selected, replacement } => {
                assert_eq!(text, "にほん");
                assert_eq!(selected, macos::TextRange { location, length });
                assert_eq!(replacement, macos::TextRange { location: usize::MAX, length: 0 });
            },
            other => panic!("{:?}", other),
        }
    }
}

#[test]
fn macos_standalone_types() {
    let mut im = macos::InputMethod::new();
    match im.commit_string("a👋") {
        macos::Action::PostUnicode { units } => assert_eq!(units, vec![0x61, 0xd83d, 0xdc4b]),
        other => panic!("{:?}", other),
    }
    assert!(matches!(im.set_preedit_string("x", i32::MIN, i32::MAX), macos::Action::Nothing));
    assert!(im.is_active());
    assert!(im.state().active);
    assert!(im.next_event().is_none());
    assert!(im.commit(0).is_ok());
    let plan = im.delete_surrounding_text(4, 5);
    assert_eq!((plan.backspace, plan.before, plan.delete, plan.after), (0x33, 4, 0x75, 5));
}

#[test]
fn macos_typing_needs_a_key_event() {
    let step = |posted| macos::cg_commit(posted);
    assert!(matches!(step(macos::Posted::Nothing), macos::PostStep::KeyDown));
    assert!(matches!(step(macos::Posted::KeyDown { made: true }), macos::PostStep::KeyUp));
    for made in [true, false] {
        assert!(matches!(step(macos::Posted::KeyUp { made }), macos::PostStep::Return(Ok(()))));
    }
    match step(macos::Posted::KeyDown { made: false }) {
        macos::PostStep::Return(Err(Error::CommitFailed(text))) => {
            assert_eq!(text, "CGEventCreateKeyboardEvent failed")
        },
        other => panic!("{:?}", other),
    }
}

#[test]
fn windows_first_refused_unit_ends_typing() {
    let taps = windows::send_input_string(&[0x61, 0x62]);
    assert!(matches!(windows::sending_step(&taps, 0, None), TapStep::Send(tap) if tap == taps[0]));
    assert!(matches!(
        windows::sending_step(&taps, 1, Some(2)),
        TapStep::Send(tap) if tap == taps[1]
    ));
    assert!(matches!(windows::sending_step(&taps, 2, Some(2)), TapStep::Return(Ok(()))));
    for sent in [0u32, 1, 3] {
        match windows::sending_step(&taps, 1, Some(sent)) {
            TapStep::Return(Err(Error::CommitFailed(text))) => assert_eq!(text, "SendInput failed"),
            other => panic!("{:?}", other),
        }
    }
}

#[test]
fn windows_first_refused_key_ends_a_deletion() {
    let plan = windows::InputMethod::new().delete_surrounding_text(1, 1);
    assert!(matches!(
        windows::deletion_step(&plan, 0, None),
        TapStep::Send(tap) if tap == windows::send_vk(0x08)
    ));
    assert!(matches!(
        windows::deletion_step(&plan, 1, Some(2)),
        TapStep::Send(tap) if tap == windows::send_vk(0x2e)
    ));
    assert!(matches!(windows::deletion_step(&plan, 2, Some(2)), TapStep::Return(Ok(()))));
    assert!(matches!(
        windows::deletion_step(&plan, 1, Some(1)),
        TapStep::Return(Err(Error::CommitFailed(_)))
    ));
}

#[test]
fn status_shows_whether_the_input_method_is_active() {
    let mut im = windows::InputMethod::new();
    assert_eq!(im.status(), Status::Inactive);
    im.process_message(Message::StartComposition);
    assert_eq!(im.status(), Status::Active);
    im.process_message(Message::EndComposition);
    assert_eq!(im.status(), Status::Inactive);
    assert_eq!(macos::InputMethod::new().status(), Status::Active);
}
