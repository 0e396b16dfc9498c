use imekit::linux_xtest::{CachedKeyboardMapping, FakeKey};
use imekit::x11::{InputMethod, NextStep, Polled, X11Event};
use imekit::{Error, InputMethodEvent, KeyState, Status};

fn keyboard() -> CachedKeyboardMapping {
    CachedKeyboardMapping { keysyms: vec![0x61, 0x62], keysyms_per_keycode: 1, min_keycode: 8 }
}

fn shown(event: Option<InputMethodEvent>) -> String {
    format!("{:?}", event)
}

fn step(step: NextStep) -> String {
    format!("{:?}", step)
}

#[test]
fn new_x11_input_method_is_inactive() {
    let im = InputMethod::new(99);
    assert_eq!(im.root_window(), 99);
    assert!(!im.is_active());
    assert_eq!(im.status(), Status::Inactive);
    assert_eq!(im.state().serial, 0);
    assert!(im.has_valid_mapping());
}

#[test]
fn focus_activates_once() {
    let mut im = InputMethod::new(1);
    let first = im.process_x11_event(X11Event::FocusIn { window: 5 });
    assert_eq!(shown(first), "Some(Activate { serial: 1 })");
    assert!(im.process_x11_event(X11Event::FocusIn { window: 6 }).is_none());
    assert!(im.is_active());
    assert_eq!(im.status(), Status::Active);
    assert_eq!(im.state().serial, 1);
    let out = im.process_x11_event(X11Event::FocusOut { window: 6 });
    assert_eq!(shown(out), "Some(Deactivate)");
    assert!(im.process_x11_event(X11Event::FocusOut { window: 6 }).is_none());
    let again = im.process_x11_event(X11Event::FocusIn { window: 5 });
    assert_eq!(shown(again), "Some(Activate { serial: 2 })");
    assert_eq!(im.state().serial, 2);
}

#[test]
fn other_x11_events_tell_nothing() {
    let mut im = InputMethod::new(1);
    for event in [X11Event::KeyPress, X11Event::PropertyNotify, X11Event::Other] {
        assert!(im.process_x11_event(event).is_none());
    }
    assert!(!im.is_active());
}

#[test]
fn mapping_change_replaces_the_mapping() {
    let mut im = InputMethod::new(1);
    assert!(im.process_x11_event(X11Event::MappingNotify { mapping: None }).is_none());
    assert!(im.commit_string("a").is_err());
    assert!(im.process_x11_event(X11Event::MappingNotify { mapping: Some(keyboard()) }).is_none());
    assert_eq!(im.commit_string("b").unwrap().len(), 2);
    assert!(im.process_x11_event(X11Event::MappingNotify { mapping: None }).is_none());
    assert_eq!(im.commit_string("b").unwrap().len(), 2);
}

#[test]
fn focus_is_checked_by_window() {
    let mut im = InputMethod::new(1);
    im.check_focus(0);
    im.check_focus(1);
    assert!(!im.is_active());
    im.check_focus(2);
    im.check_focus(2);
    im.check_focus(3);
    assert!(im.is_active());
    im.check_focus(1);
    assert!(!im.is_active());
    assert_eq!(step(im.next_event(Polled::NotYet)), "Return(Some(Activate { serial: 1 }))");
    assert_eq!(step(im.next_event(Polled::NotYet)), "Return(Some(Deactivate))");
    assert_eq!(step(im.next_event(Polled::NotYet)), "Poll");
}

#[test]
fn polling_goes_on_until_something_is_told() {
    let mut im = InputMethod::new(1);
    assert_eq!(step(im.next_event(Polled::NotYet)), "Poll");
    assert_eq!(step(im.next_event(Polled::Event(X11Event::Other))), "Poll");
    let focused = im.next_event(Polled::Event(X11Event::FocusIn { window: 9 }));
    assert_eq!(step(focused), "Return(Some(Activate { serial: 1 }))");
    assert_eq!(step(im.next_event(Polled::Nothing)), "Return(None)");
    assert_eq!(step(im.next_event(Polled::Failed)), "Return(None)");
}

#[test]
fn dispatched_events_wait_for_the_program() {
    let mut im = InputMethod::new(1);
    assert!(im.dispatch(Ok(X11Event::FocusIn { window: 4 })).is_ok());
    assert!(im.dispatch(Ok(X11Event::KeyPress)).is_ok());
    assert!(im.dispatch(Ok(X11Event::FocusOut { window: 4 })).is_ok());
    assert_eq!(step(im.next_event(Polled::NotYet)), "Return(Some(Activate { serial: 1 }))");
    assert_eq!(step(im.next_event(Polled::Failed)), "Return(Some(Deactivate))");
    match im.dispatch(Err("broken".to_string())) {
        Err(Error::ConnectionFailed(text)) => assert_eq!(text, "broken"),
        other => panic!("{:?}", other),
    }
}

#[test]
fn typing_on_x11_needs_a_mapping() {
    let mut im = InputMethod::new(1);
    for failed in [im.commit_string("a").err(), im.delete_surrounding_text(1, 0).err()] {
        match failed {
            Some(Error::ConnectionFailed(text)) => assert_eq!(text, "No keyboard mapping"),
            other => panic!("{:?}", other),
        }
    }
    assert!(im.refresh_keyboard_mapping(Ok(keyboard())).is_ok());
    assert!(im.has_valid_mapping());
    assert_eq!(
        im.commit_string("b").unwrap(),
        vec![
            FakeKey { state: KeyState::Pressed, keycode: 9 },
            FakeKey { state: KeyState::Released, keycode: 9 },
        ]
    );
    let plan = im.delete_surrounding_text(1, 0).unwrap();
    assert_eq!((plan.backspace, plan.before, plan.after), (22, 1, 0));
}

#[test]
fn failed_refresh_keeps_the_mapping() {
    let mut im = InputMethod::new(1);
    assert!(im.refresh_keyboard_mapping(Ok(keyboard())).is_ok());
    let failed = im.refresh_keyboard_mapping(Err(Error::ConnectionFailed("gone".to_string())));
    assert!(matches!(failed, Err(Error::ConnectionFailed(_))));
    assert_eq!(im.commit_string("a").unwrap().len(), 2);
}

#[test]
fn unusable_mapping_is_noticed() {
    let mut im = InputMethod::new(1);
    let unusable = CachedKeyboardMapping { keysyms: vec![], keysyms_per_keycode: 0, min_keycode: 8 };
    assert!(im.refresh_keyboard_mapping(Ok(unusable)).is_ok());
    assert!(!im.has_valid_mapping());
}

#[test]
fn x11_has_no_preedit_and_no_grab() {
    let mut im = InputMethod::new(1);
    assert!(im.set_preedit_string("にほん", 0, 9).is_ok());
    assert!(im.commit(1).is_ok());
    match im.grab_keyboard() {
        Err(Error::ProtocolNotSupported(text)) => {
            assert_eq!(text, "Keyboard grab not supported in X11 XTest mode")
        },
        other => panic!("{:?}", other),
    }
}
