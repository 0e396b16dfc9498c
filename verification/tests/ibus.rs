use imekit::ibus::{check_service, create_call, service_call, session_outcome, InputMethod, Reply};
use imekit::linux_xtest::{CachedKeyboardMapping, XTestWriter};
use imekit::{Error, Status};

fn writer() -> XTestWriter {
    let mapping = CachedKeyboardMapping {
        keysyms: vec![0x61],
        keysyms_per_keycode: 1,
        min_keycode: 8,
    };
    XTestWriter { root_window: 1, mapping }
}

fn with_context() -> InputMethod {
    let mut im = InputMethod::new(Ok(writer()));
    assert!(im.create_input_context(Reply::Value("/org/freedesktop/IBus/InputContext_3".to_string())).is_ok());
    im
}

fn ibus_text<T: std::fmt::Debug>(r: Result<T, Error>) -> String {
    match r {
        Err(Error::IBus(text)) => text,
        other => panic!("{:?}", other),
    }
}

#[test]
fn session_bus_failure_is_told() {
    assert!(session_outcome(Ok(())).is_ok());
    let text = ibus_text(session_outcome(Err("no address".to_string())));
    assert_eq!(text, "Failed to connect to D-Bus session bus: no address");
}

#[test]
fn service_is_looked_up_on_the_bus() {
    let call = service_call();
    assert_eq!(call.destination, "org.freedesktop.DBus");
    assert_eq!(call.path, "/org/freedesktop/DBus");
    assert_eq!(call.interface, "org.freedesktop.DBus");
    assert_eq!(call.method, "NameHasOwner");
    assert_eq!(call.argument, Some("org.freedesktop.IBus"));
}

#[test]
fn service_must_run() {
    assert!(check_service(Reply::Value(true)).is_ok());
    assert_eq!(ibus_text(check_service(Reply::Value(false))), "IBus service is not running");
    let odd = check_service(Reply::Undecodable("type".to_string()));
    assert_eq!(ibus_text(odd), "Failed to check IBus service: type");
    let failed = check_service(Reply::Failed("timeout".to_string()));
    assert_eq!(ibus_text(failed), "Failed to query D-Bus: timeout");
}

#[test]
fn input_context_is_made_by_name() {
    let call = create_call();
    assert_eq!(call.destination, "org.freedesktop.IBus");
    assert_eq!(call.path, "/org/freedesktop/IBus");
    assert_eq!(call.interface, "org.freedesktop.IBus");
    assert_eq!(call.method, "CreateInputContext");
    assert_eq!(call.argument, Some("imekit"));
}

#[test]
fn input_context_can_fail() {
    let mut im = InputMethod::new(Ok(writer()));
    let odd = im.create_input_context(Reply::Undecodable("type".to_string()));
    assert_eq!(ibus_text(odd), "Failed to parse input context path: type");
    let failed = im.create_input_context(Reply::Failed("timeout".to_string()));
    assert_eq!(ibus_text(failed), "Failed to create input context: timeout");
    assert!(im.focus_in_call().is_none());
    assert!(im.focus_out_call().is_none());
}

#[test]
fn focus_calls_go_to_the_context() {
    let im = with_context();
    let call = im.focus_in_call().unwrap();
    assert_eq!(call.destination, "org.freedesktop.IBus");
    assert_eq!(call.path, "/org/freedesktop/IBus/InputContext_3");
    assert_eq!(call.interface, "org.freedesktop.IBus.InputContext");
    assert_eq!(call.method, "FocusIn");
    assert_eq!(call.argument, None);
    assert_eq!(im.focus_out_call().unwrap().method, "FocusOut");
}

#[test]
fn focus_in_and_out_are_told() {
    let mut im = with_context();
    assert!(im.focus_in(Ok(())).is_ok());
    assert!(im.is_active());
    assert_eq!(im.status(), Status::Active);
    assert_eq!(im.state().serial, 1);
    assert!(im.focus_out(Ok(())).is_ok());
    assert!(!im.is_active());
    assert_eq!(im.status(), Status::Inactive);
    assert!(im.focus_in(Ok(())).is_ok());
    assert_eq!(format!("{:?}", im.next_event()), "Some(Activate { serial: 1 })");
    assert_eq!(format!("{:?}", im.next_event()), "Some(Deactivate)");
    assert_eq!(format!("{:?}", im.next_event()), "Some(Activate { serial: 2 })");
    assert!(im.next_event().is_none());
}

#[test]
fn failed_focus_changes_nothing() {
    let mut im = with_context();
    assert_eq!(ibus_text(im.focus_in(Err("gone".to_string()))), "Failed to focus in: gone");
    assert_eq!(ibus_text(im.focus_out(Err("gone".to_string()))), "Failed to focus out: gone");
    assert!(!im.is_active());
    assert_eq!(im.state().serial, 0);
    assert!(im.next_event().is_none());
}

#[test]
fn focus_without_context_does_nothing() {
    let mut im = InputMethod::new(Ok(writer()));
    assert!(im.focus_in(Ok(())).is_ok());
    assert!(im.focus_out(Err("gone".to_string())).is_ok());
    assert!(!im.is_active());
    assert!(im.next_event().is_none());
}

#[test]
fn ibus_types_through_xtest() {
    let im = with_context();
    assert!(im.has_valid_mapping());
    assert_eq!(im.commit_string("aa").unwrap().len(), 4);
    let plan = im.delete_surrounding_text(1, 2).unwrap();
    assert_eq!((plan.backspace, plan.before, plan.delete, plan.after), (22, 1, 119, 2));
    assert!(im.set_preedit_string("x", 0, 1).is_ok());
    assert!(im.commit(3).is_ok());
}

#[test]
fn ibus_without_xtest_cannot_type() {
    let im = InputMethod::new(Err(Error::NotActive));
    match im.commit_string("a") {
        Err(Error::ProtocolNotSupported(text)) => {
            assert_eq!(text, "XTest not available; IBus text commit requires an X11 display")
        },
        other => panic!("{:?}", other),
    }
    match im.delete_surrounding_text(1, 0) {
        Err(Error::ProtocolNotSupported(text)) => {
            assert_eq!(text, "XTest not available; IBus text deletion requires an X11 display")
        },
        other => panic!("{:?}", other),
    }
}
