use imekit::wayland::input_method::{parse_content_hint, parse_content_purpose};
use imekit::wayland::text_input::{
    content_hint_to_raw, content_purpose_to_wl, TextInputBinding, TextInputInterface,
    TextInputRequest,
};
use imekit::wayland::{TextInput, TextInputData, TextInputEvent};
use imekit::{ContentHint, ContentPurpose, Error};
use wayland_protocols::wp::text_input::zv3::client::zwp_text_input_v3;
use zwp_text_input_v3::ContentHint as WireHint;

fn started() -> TextInput {
    let mut data = TextInputData::default();
    data.registry_event(1, "zwp_text_input_manager_v3", 1);
    data.registry_event(2, "wl_seat", 9);
    TextInput::new(data).unwrap()
}

fn every_hint() -> ContentHint {
    ContentHint {
        completion: true,
        spellcheck: true,
        auto_capitalization: true,
        lowercase: true,
        uppercase: true,
        titlecase: true,
        hidden_text: true,
        sensitive_data: true,
        latin: true,
        multiline: true,
    }
}

#[test]
fn text_input_globals_are_bound() {
    let mut data = TextInputData::default();
    assert_eq!(
        data.registry_event(1, "zwp_text_input_manager_v3", 3),
        Some(TextInputBinding { interface: TextInputInterface::TextInputManager, version: 1 })
    );
    assert_eq!(
        data.registry_event(2, "wl_seat", 9),
        Some(TextInputBinding { interface: TextInputInterface::Seat, version: 8 })
    );
    assert_eq!(data.registry_event(3, "wl_output", 4), None);
}

#[test]
fn text_input_needs_its_manager() {
    match TextInput::new(TextInputData::default()) {
        Err(Error::ProtocolNotSupported(text)) => {
            assert_eq!(text, "zwp_text_input_manager_v3 not available")
        },
        other => panic!("{:?}", other),
    }
}

#[test]
fn text_input_needs_a_seat() {
    let mut data = TextInputData::default();
    data.registry_event(1, "zwp_text_input_manager_v3", 1);
    match TextInput::new(data) {
        Err(Error::ConnectionFailed(text)) => assert_eq!(text, "No seat found"),
        other => panic!("{:?}", other),
    }
}

#[test]
fn last_seat_counts_for_text_input() {
    let mut data = TextInputData::default();
    data.registry_event(2, "wl_seat", 9);
    data.registry_event(1, "zwp_text_input_manager_v3", 1);
    data.registry_event(7, "wl_seat", 9);
    assert_eq!(TextInput::new(data).unwrap().seat(), Some(7));
}

#[test]
fn text_input_events_come_in_order() {
    let mut ti = started();
    ti.data.event(TextInputEvent::Enter);
    ti.data.event(TextInputEvent::PreeditString {
        text: Some("に".to_string()),
        cursor_begin: 0,
        cursor_end: 3,
    });
    ti.data.event(TextInputEvent::CommitString { text: None });
    ti.data.event(TextInputEvent::DeleteSurroundingText { before_length: 1, after_length: 2 });
    ti.data.event(TextInputEvent::Done { serial: 4 });
    ti.data.event(TextInputEvent::Leave);
    let mut events: Vec<String> = Vec::new();
    while let Some(event) = ti.next_event() {
        events.push(format!("{:?}", event));
    }
    assert_eq!(
        events,
        vec![
            "Enter",
            "PreeditString { text: Some(\"に\"), cursor_begin: 0, cursor_end: 3 }",
            "CommitString { text: None }",
            "DeleteSurroundingText { before_length: 1, after_length: 2 }",
            "Done { serial: 4 }",
            "Leave",
        ]
    );
}

#[test]
fn text_input_requests_carry_their_arguments() {
    let mut ti = started();
    assert!(matches!(ti.enable(), Some(TextInputRequest::Enable)));
    assert!(matches!(ti.disable(), Some(TextInputRequest::Disable)));
    assert!(matches!(ti.commit(), Some(TextInputRequest::Commit)));
    assert_eq!(
        format!("{:?}", ti.set_surrounding_text("abc", 1, 2)),
        "Some(SetSurroundingText { text: \"abc\", cursor: 1, anchor: 2 })"
    );
    assert_eq!(
        format!("{:?}", ti.set_cursor_rectangle(1, 2, 3, 4)),
        "Some(SetCursorRectangle { x: 1, y: 2, width: 3, height: 4 })"
    );
}

#[test]
fn text_input_without_object_requests_nothing() {
    let mut ti = TextInput { data: TextInputData::default() };
    assert!(ti.enable().is_none());
    assert!(ti.disable().is_none());
    assert!(ti.commit().is_none());
    assert!(ti.set_surrounding_text("abc", 1, 2).is_none());
    assert!(ti.set_cursor_rectangle(1, 2, 3, 4).is_none());
    assert!(ti.set_content_type(every_hint(), ContentPurpose::Url).is_none());
}

#[test]
fn content_type_is_sent_as_protocol_numbers() {
    let ti = started();
    let hint = ContentHint { hidden_text: true, sensitive_data: true, ..ContentHint::default() };
    match ti.set_content_type(hint, ContentPurpose::Password) {
        Some(TextInputRequest::SetContentType { hint, purpose }) => {
            assert_eq!(hint, (WireHint::HiddenText | WireHint::SensitiveData).bits());
            assert_eq!(hint, 0xc0);
            assert_eq!(purpose, zwp_text_input_v3::ContentPurpose::Password as u32);
        },
        other => panic!("{:?}", other),
    }
    match ti.set_content_type(every_hint(), ContentPurpose::Normal) {
        Some(TextInputRequest::SetContentType { hint, purpose }) => {
            assert_eq!(hint, 0x3ff);
            assert!(WireHint::from_bits(hint).is_some());
            assert_eq!(purpose, 0);
        },
        other => panic!("{:?}", other),
    }
}

#[test]
fn hints_survive_the_way_through_the_protocol() {
    for raw in 0..0x400u32 {
        assert_eq!(content_hint_to_raw(parse_content_hint(raw)), raw);
    }
    let hint = ContentHint { latin: true, titlecase: true, ..ContentHint::default() };
    assert_eq!(parse_content_hint(content_hint_to_raw(hint)), hint);
}

#[test]
fn purposes_survive_the_way_through_the_protocol() {
    for raw in 0..14u32 {
        assert_eq!(content_purpose_to_wl(parse_content_purpose(raw)), raw);
    }
    assert_eq!(content_purpose_to_wl(ContentPurpose::Terminal), 13);
}
