use imekit::linux::{after_attempt, first_backend, Action, Attempt};
use imekit::linux_xtest::{CachedKeyboardMapping, XTestWriter};
use imekit::wayland::input_method::ProtocolEvent;
use imekit::wayland::InputMethodData;
use imekit::x11::{NextStep, Polled, X11Event};
use imekit::{
    commit_outcome, connection_outcome, ibus, x11, ChangeCause, ContentHint, ContentPurpose,
    CursorRect, DisplayServer, Error, InputMethod, InputMethodEvent, InputMethodState,
    PreeditStyle, Status,
};

fn keyboard() -> CachedKeyboardMapping {
    CachedKeyboardMapping { keysyms: vec![0x61], keysyms_per_keycode: 1, min_keycode: 8 }
}

fn wayland() -> InputMethod {
    let mut data = InputMethodData::default();
    data.registry_event(1, "zwp_input_method_manager_v2", 1);
    data.registry_event(2, "wl_seat", 7);
    data.seat_event(2, "seat0".to_string());
    InputMethod::wayland_for_seat(data, "seat0").unwrap()
}

fn on_x11() -> InputMethod {
    let mut im = x11::InputMethod::new(1);
    im.refresh_keyboard_mapping(Ok(keyboard())).unwrap();
    InputMethod::x11(Ok(im)).unwrap()
}

fn on_ibus() -> InputMethod {
    let writer = XTestWriter { root_window: 1, mapping: keyboard() };
    let mut im = ibus::InputMethod::new(Ok(writer));
    im.create_input_context(ibus::Reply::Value("/c".to_string())).unwrap();
    im.focus_in(Ok(())).unwrap();
    InputMethod::ibus(Ok(im)).unwrap()
}

#[test]
fn wayland_goes_before_x11() {
    assert_eq!(DisplayServer::detect(true, true), Some(DisplayServer::Wayland));
    assert_eq!(DisplayServer::detect(true, false), Some(DisplayServer::Wayland));
    assert_eq!(DisplayServer::detect(false, true), Some(DisplayServer::X11));
    assert_eq!(DisplayServer::detect(false, false), None);
}

#[test]
fn display_server_is_needed() {
    assert!(matches!(first_backend(Some(DisplayServer::X11)), Ok(DisplayServer::X11)));
    match first_backend(None) {
        Err(Error::ConnectionFailed(text)) => {
            assert_eq!(text, "No display server detected (set WAYLAND_DISPLAY or DISPLAY)")
        },
        other => panic!("{:?}", other),
    }
}

fn missing() -> Result<u8, Error> {
    Err(Error::ProtocolNotSupported("x".to_string()))
}

fn no_seat() -> Result<u8, Error> {
    Err(Error::ConnectionFailed("No seat found".to_string()))
}

#[test]
fn ibus_stands_in_for_wayland() {
    let server = DisplayServer::Wayland;
    assert!(matches!(after_attempt(server, Ok(5u8), true), Attempt::Ready(5)));
    assert!(matches!(after_attempt(server, missing(), true), Attempt::TryIBus));
    assert!(matches!(after_attempt(server, no_seat(), true), Attempt::TryIBus));
    assert!(matches!(
        after_attempt(server, no_seat(), false),
        Attempt::Failed(Error::ConnectionFailed(_))
    ));
}

#[test]
fn ibus_stands_in_for_a_missing_x11_extension() {
    let server = DisplayServer::X11;
    assert!(matches!(after_attempt(server, Ok(5u8), true), Attempt::Ready(5)));
    assert!(matches!(after_attempt(server, missing(), true), Attempt::TryIBus));
    assert!(matches!(
        after_attempt(server, missing(), false),
        Attempt::Failed(Error::ProtocolNotSupported(_))
    ));
    assert!(matches!(
        after_attempt(server, no_seat(), true),
        Attempt::Failed(Error::ConnectionFailed(_))
    ));
}

fn never() -> Result<u8, Error> {
    panic!("this backend is not to be started")
}

#[test]
fn only_the_backends_that_are_needed_are_started() {
    let wayland = Some(DisplayServer::Wayland);
    let x11 = Some(DisplayServer::X11);
    assert!(matches!(InputMethod::new(wayland, true, || Ok(1u8), never, never), Ok(1)));
    assert!(matches!(InputMethod::new(wayland, true, no_seat, never, || Ok(3)), Ok(3)));
    assert!(matches!(
        InputMethod::new(wayland, true, no_seat, never, || Err(Error::NotActive)),
        Err(Error::NotActive)
    ));
    assert!(matches!(
        InputMethod::new(wayland, false, no_seat, never, never),
        Err(Error::ConnectionFailed(_))
    ));
    assert!(matches!(InputMethod::new(x11, true, never, || Ok(2u8), never), Ok(2)));
    assert!(matches!(InputMethod::new(x11, true, never, missing, || Ok(3)), Ok(3)));
    assert!(matches!(
        InputMethod::new(x11, true, never, no_seat, never),
        Err(Error::ConnectionFailed(_))
    ));
    assert!(matches!(
        InputMethod::new(None, true, never, never, never),
        Err(Error::ConnectionFailed(_))
    ));
}

#[test]
fn typing_backends_know_whether_keys_can_be_looked_up() {
    assert!(wayland().has_valid_mapping());
    assert!(on_x11().has_valid_mapping());
    assert!(on_ibus().has_valid_mapping());
    let mut im = x11::InputMethod::new(1);
    let unusable = CachedKeyboardMapping { keysyms: vec![], keysyms_per_keycode: 0, min_keycode: 8 };
    im.refresh_keyboard_mapping(Ok(unusable)).unwrap();
    assert!(!InputMethod::x11(Ok(im)).unwrap().has_valid_mapping());
}

#[test]
fn backends_know_themselves() {
    let kinds = |im: &InputMethod| (im.is_wayland(), im.is_x11(), im.is_ibus());
    assert_eq!(kinds(&wayland()), (true, false, false));
    assert_eq!(kinds(&on_x11()), (false, true, false));
    assert_eq!(kinds(&on_ibus()), (false, false, true));
}

#[test]
fn failed_backends_are_passed_on() {
    assert!(matches!(InputMethod::x11(Err(Error::NotActive)), Err(Error::NotActive)));
    assert!(matches!(InputMethod::ibus(Err(Error::NotActive)), Err(Error::NotActive)));
    assert!(matches!(
        InputMethod::wayland(InputMethodData::default()),
        Err(Error::ProtocolNotSupported(_))
    ));
}

#[test]
fn wayland_backend_sends_requests() {
    let mut im = wayland();
    if let InputMethod::Wayland(inner) = &mut im {
        inner.data.event(ProtocolEvent::Activate);
        inner.data.event(ProtocolEvent::Done);
    }
    assert!(im.is_active());
    assert_eq!(im.status(), Status::Active);
    assert_eq!(im.state().serial, 1);
    assert!(matches!(
        im.next_event(Polled::NotYet),
        NextStep::Return(Some(InputMethodEvent::Activate { serial: 1 }))
    ));
    assert_eq!(
        format!("{:?}", im.commit_string("Hello!").unwrap()),
        "Request(CommitString { text: \"Hello!\" })"
    );
    assert_eq!(
        format!("{:?}", im.set_preedit_string("にほん", 0, 9).unwrap()),
        "Request(SetPreeditString { text: \"にほん\", cursor_begin: 0, cursor_end: 9 })"
    );
    assert_eq!(
        format!("{:?}", im.delete_surrounding_text(1, 0).unwrap()),
        "Request(DeleteSurroundingText { before_length: 1, after_length: 0 })"
    );
    assert_eq!(format!("{:?}", im.commit(1).unwrap()), "Request(Commit { serial: 1 })");
}

#[test]
fn x11_backend_fakes_keys() {
    let mut im = on_x11();
    assert!(matches!(im.next_event(Polled::NotYet), NextStep::Poll));
    let focused = im.next_event(Polled::Event(X11Event::FocusIn { window: 3 }));
    assert!(matches!(focused, NextStep::Return(Some(InputMethodEvent::Activate { serial: 1 }))));
    assert_eq!(im.status(), Status::Active);
    match im.commit_string("a") {
        Ok(Action::Keys(keys)) => assert_eq!(keys.len(), 2),
        other => panic!("{:?}", other),
    }
    match im.delete_surrounding_text(2, 1) {
        Ok(Action::Deletion(plan)) => assert_eq!((plan.before, plan.after), (2, 1)),
        other => panic!("{:?}", other),
    }
    assert!(matches!(im.set_preedit_string("x", 0, 1), Ok(Action::Nothing)));
    assert!(matches!(im.commit(1), Ok(Action::Nothing)));
}

#[test]
fn ibus_backend_fakes_keys() {
    let mut im = on_ibus();
    assert!(im.is_active());
    assert!(matches!(
        im.next_event(Polled::NotYet),
        NextStep::Return(Some(InputMethodEvent::Activate { serial: 1 }))
    ));
    assert!(matches!(im.next_event(Polled::NotYet), NextStep::Return(None)));
    assert!(matches!(im.commit_string("a"), Ok(Action::Keys(_))));
    assert!(matches!(im.delete_surrounding_text(2, 1), Ok(Action::Deletion(_))));
    assert!(matches!(im.set_preedit_string("x", 0, 1), Ok(Action::Nothing)));
    assert!(matches!(im.commit(1), Ok(Action::Nothing)));
}

#[test]
fn new_state_is_empty() {
    let state = InputMethodState::new();
    assert!(!state.active);
    assert_eq!(state.serial, 0);
    assert_eq!(state.surrounding_text, None);
    assert_eq!(state.content_hint, ContentHint::default());
    assert_eq!(state.content_purpose, ContentPurpose::Normal);
    assert_eq!(state.change_cause, ChangeCause::Other);
    assert_eq!(state.preedit_text, None);
    assert_eq!(state.commit_text, None);
    assert_eq!(format!("{:?}", state), format!("{:?}", InputMethodState::default()));
}

#[test]
fn defaults_are_plain() {
    assert_eq!(PreeditStyle::default(), PreeditStyle::Default);
    let rect = CursorRect::default();
    assert_eq!((rect.x, rect.y, rect.width, rect.height), (0, 0, 0, 0));
}

fn busy_state() -> InputMethodState {
    InputMethodState {
        active: true,
        serial: 7,
        surrounding_text: Some("abc".to_string()),
        cursor: 1,
        anchor: 2,
        content_hint: ContentHint { latin: true, ..ContentHint::default() },
        content_purpose: ContentPurpose::Email,
        change_cause: ChangeCause::InputMethod,
        preedit_text: Some("p".to_string()),
        preedit_cursor: 1,
        commit_text: Some("c".to_string()),
        delete_before: 3,
        delete_after: 4,
    }
}

#[test]
fn clearing_pending_keeps_what_was_told() {
    let mut state = busy_state();
    state.clear_pending();
    let expected = InputMethodState {
        preedit_text: None,
        preedit_cursor: 0,
        commit_text: None,
        delete_before: 0,
        delete_after: 0,
        ..busy_state()
    };
    assert_eq!(format!("{:?}", state), format!("{:?}", expected));
    let once = state.clone();
    state.clear_pending();
    assert_eq!(format!("{:?}", state), format!("{:?}", once));
}

#[test]
fn reset_keeps_serial_and_content_type() {
    let mut state = busy_state();
    state.reset();
    let expected = InputMethodState {
        serial: 7,
        content_hint: busy_state().content_hint,
        content_purpose: ContentPurpose::Email,
        change_cause: ChangeCause::InputMethod,
        ..InputMethodState::new()
    };
    assert_eq!(format!("{:?}", state), format!("{:?}", expected));
    state.reset();
    state.clear_pending();
    assert_eq!(format!("{:?}", state), format!("{:?}", expected));
}

#[test]
fn events_are_cloned_whole() {
    let event = InputMethodEvent::SurroundingText { text: "x".to_string(), cursor: 1, anchor: 0 };
    assert_eq!(format!("{:?}", event.clone()), format!("{:?}", event));
}

#[test]
fn errors_have_messages() {
    let cause = || "why".to_string();
    let pairs = [
        (Error::ConnectionFailed(cause()), "Failed to connect to display server: why"),
        (Error::ProtocolNotSupported(cause()), "Protocol not supported: why"),
        (Error::RegistrationFailed(cause()), "IME registration failed: why"),
        (Error::NotActive, "IME is not active"),
        (Error::PopupCreationFailed(cause()), "Failed to create popup surface: why"),
        (Error::CommitFailed(cause()), "Failed to commit text: why"),
        (Error::PlatformNotSupported, "Platform not supported"),
        (Error::IBus(cause()), "IBus error: why"),
    ];
    for (error, message) in pairs {
        assert_eq!(error.message(), message);
    }
}

#[test]
fn wayland_errors_show_their_cause() {
    let connect = wayland_client::ConnectError::NoCompositor;
    let shown = format!("Wayland error: {}", connect);
    let error = Error::from(connect);
    assert!(matches!(error, Error::Wayland(_)));
    assert_eq!(error.message(), shown);
    let dispatch = wayland_client::DispatchError::Backend(
        wayland_client::backend::WaylandError::Io(std::io::Error::from(
            std::io::ErrorKind::BrokenPipe,
        )),
    );
    let shown = format!("Wayland dispatch error: {}", dispatch);
    let error = Error::from(dispatch);
    assert!(matches!(error, Error::WaylandDispatch(_)));
    assert_eq!(error.message(), shown);
}

#[test]
fn failures_keep_their_text() {
    assert!(commit_outcome(Ok(())).is_ok());
    assert!(matches!(commit_outcome(Err("t".to_string())), Err(Error::CommitFailed(t)) if t == "t"));
    assert!(matches!(connection_outcome(Ok(3u8)), Ok(3)));
    assert!(matches!(
        connection_outcome::<u8>(Err("t".to_string())),
        Err(Error::ConnectionFailed(t)) if t == "t"
    ));
}
