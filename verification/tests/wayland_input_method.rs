use imekit::wayland::async_stream::{poll_next, StreamInput};
use imekit::wayland::input_method::{
    parse_change_cause, parse_content_hint, parse_content_purpose, parse_key_state, Binding,
    Interface, KeymapPlan, PopupRequest, ProtocolEvent, VirtualKey, VirtualKeymap, VirtualModifiers, XkbMask,
};
use imekit::wayland::{InputMethod, InputMethodData};
use imekit::{
    ChangeCause, ContentHint, ContentPurpose, Error, InputMethodEvent, KeyState, Modifiers, Status,
};
use wayland_protocols::wp::text_input::zv3::client::zwp_text_input_v3;
use zwp_text_input_v3::{ContentHint as WireHint, ContentPurpose as WirePurpose};

fn globals() -> InputMethodData {
    let mut data = InputMethodData::default();
    data.registry_event(1, "wl_compositor", 6);
    data.registry_event(2, "zwp_input_method_manager_v2", 1);
    data.registry_event(3, "wl_seat", 9);
    data.registry_event(4, "wl_seat", 7);
    data.registry_event(5, "zwp_virtual_keyboard_manager_v1", 1);
    data.seat_event(3, "seat0".to_string());
    data.seat_event(4, "seat1".to_string());
    data
}

fn started() -> InputMethod {
    InputMethod::new(globals()).unwrap()
}

fn queue(im: &mut InputMethod) -> Vec<String> {
    let mut events: Vec<String> = Vec::new();
    while let Some(event) = im.next_event() {
        events.push(format!("{:?}", event));
    }
    events
}

#[test]
fn globals_are_bound_at_most_in_known_versions() {
    let mut data = InputMethodData::default();
    assert_eq!(
        data.registry_event(1, "wl_seat", 9),
        Some(Binding { interface: Interface::Seat, version: 8 })
    );
    assert_eq!(
        data.registry_event(2, "wl_seat", 5),
        Some(Binding { interface: Interface::Seat, version: 5 })
    );
    assert_eq!(
        data.registry_event(3, "wl_compositor", 6),
        Some(Binding { interface: Interface::Compositor, version: 5 })
    );
    assert_eq!(
        data.registry_event(4, "zwp_input_method_manager_v2", 2),
        Some(Binding { interface: Interface::InputMethodManager, version: 1 })
    );
    assert_eq!(
        data.registry_event(5, "zwp_virtual_keyboard_manager_v1", 1),
        Some(Binding { interface: Interface::VirtualKeyboardManager, version: 1 })
    );
    assert_eq!(data.registry_event(6, "wl_shm", 1), None);
}

#[test]
fn first_seat_is_taken() {
    let im = started();
    assert_eq!(im.seat(), Some(3));
    assert_eq!(im.virtual_keyboard_seat(), Some(3));
    assert_eq!(im.status(), Status::Inactive);
}

#[test]
fn seat_is_taken_by_name() {
    let im = InputMethod::new_for_seat(globals(), "seat1").unwrap();
    assert_eq!(im.seat(), Some(4));
    assert_eq!(im.virtual_keyboard_seat(), Some(4));
}

#[test]
fn unknown_seat_name_is_refused() {
    match InputMethod::new_for_seat(globals(), "seat9") {
        Err(Error::ConnectionFailed(text)) => assert_eq!(text, "seat 'seat9' not found"),
        other => panic!("{:?}", other),
    }
}

#[test]
fn compositor_without_input_methods_is_refused() {
    for refused in [
        InputMethod::new(InputMethodData::default()),
        InputMethod::new_for_seat(InputMethodData::default(), "seat0"),
    ] {
        match refused {
            Err(Error::ProtocolNotSupported(text)) => {
                assert_eq!(text, "zwp_input_method_manager_v2 not available")
            },
            other => panic!("{:?}", other),
        }
    }
}

#[test]
fn input_method_needs_a_seat() {
    let mut data = InputMethodData::default();
    data.registry_event(2, "zwp_input_method_manager_v2", 1);
    match InputMethod::new(data) {
        Err(Error::ConnectionFailed(text)) => assert_eq!(text, "No seat found"),
        other => panic!("{:?}", other),
    }
}

#[test]
fn virtual_keyboard_needs_its_manager() {
    let mut data = InputMethodData::default();
    data.registry_event(2, "zwp_input_method_manager_v2", 1);
    data.registry_event(3, "wl_seat", 7);
    let im = InputMethod::new(data).unwrap();
    assert_eq!(im.virtual_keyboard_seat(), None);
}

#[test]
fn activation_waits_for_done() {
    let mut im = started();
    im.data.event(ProtocolEvent::Activate);
    assert!(im.is_active());
    assert!(im.next_event().is_none());
    im.data.event(ProtocolEvent::Done);
    assert_eq!(queue(&mut im), vec!["Activate { serial: 1 }", "Done"]);
    assert_eq!(im.state().serial, 1);
    im.data.event(ProtocolEvent::Done);
    assert_eq!(queue(&mut im), vec!["Done"]);
    assert_eq!(im.state().serial, 2);
}

#[test]
fn deactivation_drops_a_waiting_activation() {
    let mut im = started();
    im.data.event(ProtocolEvent::Activate);
    im.data.event(ProtocolEvent::Deactivate);
    im.data.event(ProtocolEvent::Done);
    assert_eq!(queue(&mut im), vec!["Deactivate", "Done"]);
    assert!(!im.is_active());
}

#[test]
fn serials_of_activations_increase() {
    let mut im = started();
    for _ in 0..3 {
        im.data.event(ProtocolEvent::Activate);
        im.data.event(ProtocolEvent::Done);
        im.data.event(ProtocolEvent::Deactivate);
        im.data.event(ProtocolEvent::Done);
    }
    let serials: Vec<String> =
        queue(&mut im).into_iter().filter(|e| e.starts_with("Activate")).collect();
    assert_eq!(
        serials,
        vec!["Activate { serial: 1 }", "Activate { serial: 3 }", "Activate { serial: 5 }"]
    );
    assert_eq!(im.state().serial, 6);
}

#[test]
fn surrounding_text_is_kept_until_deactivation() {
    let mut im = started();
    im.data.event(ProtocolEvent::Activate);
    im.data.event(ProtocolEvent::SurroundingText { text: "abc".to_string(), cursor: 2, anchor: 1 });
    im.data.event(ProtocolEvent::TextChangeCause { cause: 0 });
    im.data.event(ProtocolEvent::ContentType { hint: 0x43, purpose: 8 });
    im.data.event(ProtocolEvent::Done);
    let state = im.state();
    assert_eq!(state.surrounding_text, Some("abc".to_string()));
    assert_eq!((state.cursor, state.anchor), (2, 1));
    assert_eq!(state.change_cause, ChangeCause::InputMethod);
    assert!(state.content_hint.completion && state.content_hint.spellcheck);
    assert!(state.content_hint.hidden_text && !state.content_hint.multiline);
    assert_eq!(state.content_purpose, ContentPurpose::Password);
    match im.next_event() {
        Some(InputMethodEvent::SurroundingText { text, cursor, anchor }) => {
            assert_eq!((text.as_str(), cursor, anchor), ("abc", 2, 1))
        },
        other => panic!("{:?}", other),
    }
    assert!(matches!(
        im.next_event(),
        Some(InputMethodEvent::TextChangeCause(ChangeCause::InputMethod))
    ));
    assert!(matches!(
        im.next_event(),
        Some(InputMethodEvent::ContentType { purpose: ContentPurpose::Password, .. })
    ));
    im.data.event(ProtocolEvent::Deactivate);
    let state = im.state();
    assert_eq!(state.surrounding_text, None);
    assert_eq!((state.cursor, state.anchor), (0, 0));
    assert_eq!(state.content_purpose, ContentPurpose::Password);
    assert_eq!(state.serial, 1);
}

#[test]
fn withdrawn_input_method_stays_unavailable() {
    let mut im = started();
    im.data.event(ProtocolEvent::Unavailable);
    assert!(im.is_unavailable());
    assert_eq!(im.status(), Status::Unavailable);
    im.data.event(ProtocolEvent::Activate);
    im.data.event(ProtocolEvent::Done);
    assert_eq!(im.status(), Status::Unavailable);
    assert_eq!(queue(&mut im), vec!["Unavailable", "Activate { serial: 1 }", "Done"]);
}

#[test]
fn text_is_committed_on_activation() {
    let mut im = started();
    im.data.event(ProtocolEvent::Activate);
    im.data.event(ProtocolEvent::Done);
    let serial = match im.next_event() {
        Some(InputMethodEvent::Activate { serial }) => serial,
        other => panic!("{:?}", other),
    };
    assert_eq!(im.status(), Status::Active);
    let text = im.commit_string("Hello!").unwrap();
    assert_eq!(format!("{:?}", text), "CommitString { text: \"Hello!\" }");
    assert!(!text.needs_flush());
    let commit = im.commit(serial).unwrap();
    assert_eq!(format!("{:?}", commit), "Commit { serial: 1 }");
    assert!(commit.needs_flush());
}

#[test]
fn preedit_and_deletion_are_requested() {
    let im = started();
    let preedit = im.set_preedit_string("にほん", 0, 9).unwrap();
    assert_eq!(
        format!("{:?}", preedit),
        "SetPreeditString { text: \"にほん\", cursor_begin: 0, cursor_end: 9 }"
    );
    let deletion = im.delete_surrounding_text(1, 0).unwrap();
    assert_eq!(
        format!("{:?}", deletion),
        "DeleteSurroundingText { before_length: 1, after_length: 0 }"
    );
}

#[test]
fn handle_answers_like_the_input_method() {
    let im = started();
    let handle = im.handle();
    for (a, b) in [
        (im.commit_string("x"), handle.commit_string("x")),
        (im.set_preedit_string("y", 1, 1), handle.set_preedit_string("y", 1, 1)),
        (im.delete_surrounding_text(2, 3), handle.delete_surrounding_text(2, 3)),
        (im.commit(7), handle.commit(7)),
    ] {
        assert_eq!(format!("{:?}", a.unwrap()), format!("{:?}", b.unwrap()));
    }
}

#[test]
fn requests_need_an_input_method_object() {
    let mut im = InputMethod { data: globals() };
    assert!(matches!(im.commit_string("x"), Err(Error::NotActive)));
    assert!(matches!(im.set_preedit_string("x", 0, 0), Err(Error::NotActive)));
    assert!(matches!(im.delete_surrounding_text(1, 1), Err(Error::NotActive)));
    assert!(matches!(im.commit(0), Err(Error::NotActive)));
    assert!(matches!(im.grab_keyboard(), Err(Error::NotActive)));
    assert!(matches!(im.create_popup_surface(), Err(Error::NotActive)));
    assert!(matches!(im.forward_key(30, KeyState::Pressed), Err(Error::NotActive)));
}

#[test]
fn popup_surface_needs_a_compositor() {
    let mut data = InputMethodData::default();
    data.registry_event(2, "zwp_input_method_manager_v2", 1);
    data.registry_event(3, "wl_seat", 7);
    let mut im = InputMethod::new(data).unwrap();
    match im.create_popup_surface() {
        Err(Error::ProtocolNotSupported(text)) => assert_eq!(text, "wl_compositor not available"),
        other => panic!("{:?}", other),
    }
    let mut im = started();
    let mut popup = im.create_popup_surface().unwrap();
    assert_eq!(popup.destroy(), vec![PopupRequest::DestroyPopup, PopupRequest::DestroySurface]);
    assert_eq!(popup.destroy(), vec![]);
    im.data.popup_surface_event(1, 2, 3, 4);
    assert_eq!(
        queue(&mut im),
        vec!["PopupSurfaceCreated { x: 1, y: 2, width: 3, height: 4 }"]
    );
}

#[test]
fn keys_need_a_keymap() {
    let mut im = started();
    assert!(im.grab_keyboard().is_ok());
    im.data.key_event(10, 30, 1, 0x61);
    assert!(im.next_event().is_none());
    assert_eq!(im.data.xkb_keycode(30), None);
    assert_eq!(im.data.xkb_mask(1, 0, 0, 0), None);
    assert_eq!(im.data.keymap_plan(true), KeymapPlan { duplicate: true, compile: true });
    let sent = im.data.keymap_event(true, true, 500);
    assert_eq!(sent, Some(VirtualKeymap { format: 1, size: 500 }));
    assert_eq!(im.data.xkb_keycode(30), Some(38));
    im.data.key_event(11, 30, 1, 0x61);
    im.data.key_event(12, 30, 0, 0x61);
    match im.next_event() {
        Some(InputMethodEvent::KeyEvent { keycode, keysym, state, modifiers }) => {
            assert_eq!((keycode, keysym, state), (30, 0x61, KeyState::Pressed));
            assert_eq!(modifiers, Modifiers::default());
        },
        other => panic!("{:?}", other),
    }
    assert!(matches!(
        im.next_event(),
        Some(InputMethodEvent::KeyEvent { state: KeyState::Released, .. })
    ));
}

#[test]
fn keys_carry_the_modifiers() {
    let mut im = started();
    im.data.keymap_event(true, false, 500);
    assert_eq!(
        im.data.xkb_mask(1, 2, 3, 4),
        Some(XkbMask {
            depressed_mods: 1,
            latched_mods: 2,
            locked_mods: 3,
            depressed_layout: 0,
            latched_layout: 0,
            locked_layout: 4,
        })
    );
    let shift = Modifiers { shift: true, ..Modifiers::default() };
    assert_eq!(im.data.modifiers_event(shift, 1, 2, 3, 4), None);
    im.data.key_event(1, 2, 1, 3);
    match im.next_event() {
        Some(InputMethodEvent::KeyEvent { modifiers, .. }) => assert_eq!(modifiers, shift),
        other => panic!("{:?}", other),
    }
}

#[test]
fn modifiers_are_forwarded_once_the_virtual_keyboard_has_a_keymap() {
    let mut im = started();
    assert_eq!(im.data.modifiers_event(Modifiers::default(), 1, 0, 0, 0), None);
    assert!(im.data.keymap_event(false, true, 9).is_some());
    assert_eq!(
        im.data.modifiers_event(Modifiers::default(), 1, 2, 3, 4),
        Some(VirtualModifiers { mods_depressed: 1, mods_latched: 2, mods_locked: 3, group: 4 })
    );
}

#[test]
fn keys_are_forwarded_with_the_last_time() {
    let mut im = started();
    assert!(matches!(im.forward_key(30, KeyState::Pressed), Err(Error::NotActive)));
    im.data.keymap_event(true, true, 9);
    im.data.key_event(77, 30, 1, 0x61);
    assert_eq!(
        im.forward_key(30, KeyState::Pressed).unwrap(),
        VirtualKey { time: 77, key: 30, state: 1 }
    );
    assert_eq!(
        im.forward_key(30, KeyState::Released).unwrap(),
        VirtualKey { time: 77, key: 30, state: 0 }
    );
}

#[test]
fn repeat_settings_are_told() {
    let mut im = started();
    im.data.repeat_info_event(25, 600);
    assert_eq!(queue(&mut im), vec!["RepeatInfo { rate: 25, delay: 600 }"]);
}

#[test]
fn protocol_numbers_are_those_of_the_protocol() {
    let pairs = [
        (WirePurpose::Normal, ContentPurpose::Normal),
        (WirePurpose::Alpha, ContentPurpose::Alpha),
        (WirePurpose::Digits, ContentPurpose::Digits),
        (WirePurpose::Number, ContentPurpose::Number),
        (WirePurpose::Phone, ContentPurpose::Phone),
        (WirePurpose::Url, ContentPurpose::Url),
        (WirePurpose::Email, ContentPurpose::Email),
        (WirePurpose::Name, ContentPurpose::Name),
        (WirePurpose::Password, ContentPurpose::Password),
        (WirePurpose::Pin, ContentPurpose::Pin),
        (WirePurpose::Date, ContentPurpose::Date),
        (WirePurpose::Time, ContentPurpose::Time),
        (WirePurpose::Datetime, ContentPurpose::Datetime),
        (WirePurpose::Terminal, ContentPurpose::Terminal),
    ];
    for (wire, purpose) in pairs {
        assert_eq!(parse_content_purpose(wire as u32), purpose);
    }
    assert_eq!(parse_content_purpose(99), ContentPurpose::Normal);
    let cause = zwp_text_input_v3::ChangeCause::InputMethod as u32;
    assert_eq!(parse_change_cause(cause), ChangeCause::InputMethod);
    let cause = zwp_text_input_v3::ChangeCause::Other as u32;
    assert_eq!(parse_change_cause(cause), ChangeCause::Other);
    assert_eq!(parse_change_cause(9), ChangeCause::Other);
    let pressed = wayland_client::protocol::wl_keyboard::KeyState::Pressed as u32;
    assert_eq!(parse_key_state(pressed), KeyState::Pressed);
    let released = wayland_client::protocol::wl_keyboard::KeyState::Released as u32;
    assert_eq!(parse_key_state(released), KeyState::Released);
    let format = wayland_client::protocol::wl_keyboard::KeymapFormat::XkbV1 as u32;
    let mut im = started();
    assert_eq!(im.data.keymap_event(false, true, 1).unwrap().format, format);
}

#[test]
fn hint_bits_are_those_of_the_protocol() {
    assert_eq!(parse_content_hint(0), ContentHint::default());
    let completion = ContentHint { completion: true, ..ContentHint::default() };
    assert_eq!(parse_content_hint(WireHint::Completion.bits()), completion);
    let hidden = ContentHint { hidden_text: true, ..ContentHint::default() };
    assert_eq!(parse_content_hint(WireHint::HiddenText.bits()), hidden);
    let multiline = ContentHint { multiline: true, ..ContentHint::default() };
    assert_eq!(parse_content_hint(WireHint::Multiline.bits()), multiline);
    assert_eq!(parse_content_hint(!WireHint::all().bits()), ContentHint::default());
}

#[test]
fn stream_yields_events_and_waits_for_the_connection() {
    let event = poll_next(StreamInput::Event(Some(InputMethodEvent::Done)));
    assert_eq!(format!("{:?}", event), "Yield(Done)");
    assert_eq!(format!("{:?}", poll_next(StreamInput::Event(None))), "PollReadable");
    assert_eq!(format!("{:?}", poll_next(StreamInput::Readable)), "AskEvent");
    assert_eq!(format!("{:?}", poll_next(StreamInput::Failed)), "End");
    assert_eq!(format!("{:?}", poll_next(StreamInput::NotReadable)), "Wait");
}

#[test]
fn grabbed_keys_come_in_order_and_leave_the_state_alone() {
    let mut im = started();
    im.data.keymap_event(true, false, 500);
    let before = format!("{:?}", im.state());
    let ctrl = Modifiers { ctrl: true, ..Modifiers::default() };
    im.data.key_event(1, 30, 1, 0x61);
    im.data.modifiers_event(ctrl, 4, 0, 0, 0);
    im.data.key_event(2, 31, 1, 0x73);
    im.data.repeat_info_event(25, 600);
    im.data.key_event(3, 31, 0, 0x73);
    let mut keys: Vec<(u32, KeyState, bool)> = Vec::new();
    while let Some(event) = im.next_event() {
        if let InputMethodEvent::KeyEvent { keycode, state, modifiers, .. } = event {
            keys.push((keycode, state, modifiers.ctrl));
        }
    }
    assert_eq!(
        keys,
        vec![
            (30, KeyState::Pressed, false),
            (31, KeyState::Pressed, true),
            (31, KeyState::Released, true),
        ]
    );
    assert_eq!(format!("{:?}", im.state()), before);
    assert_eq!(im.status(), Status::Inactive);
}

#[test]
fn other_events_in_between_change_neither_serial_nor_focus() {
    let mut im = started();
    im.data.event(ProtocolEvent::Activate);
    im.data.keymap_event(true, true, 500);
    im.data.key_event(5, 30, 1, 0x61);
    im.data.popup_surface_event(0, 0, 1, 1);
    im.data.registry_event(9, "wl_seat", 8);
    im.data.seat_event(9, "seat9".to_string());
    assert!(im.is_active());
    assert_eq!(im.state().serial, 0);
    im.data.event(ProtocolEvent::Done);
    im.data.repeat_info_event(25, 600);
    im.data.modifiers_event(Modifiers::default(), 0, 0, 0, 0);
    assert_eq!(im.state().serial, 1);
    let kinds: Vec<String> = queue(&mut im)
        .iter()
        .map(|e| e.split(' ').next().unwrap_or("").to_string())
        .collect();
    assert_eq!(kinds, vec!["KeyEvent", "PopupSurfaceCreated", "Activate", "Done", "RepeatInfo"]);
    assert_eq!(im.forward_key(30, KeyState::Released).unwrap().time, 5);
}
