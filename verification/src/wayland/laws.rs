//! What holds of an input method over any row of events, in whatever mix they
//! come from the input method object, the grabbed keyboard, popups and the
//! registry.
use vstd::prelude::*;

use crate::error::Error;
use crate::types::{ChangeCause, InputMethodEvent, KeyState, Modifiers, Status};
use crate::wayland::input_method::{
    GrabEvent, InputMethodModel, InputMethodRequest, Interface, ProtocolEvent, RequestModel,
    SeatModel, SessionEvent, answers, content_hint_of, content_purpose_of, first_with_name,
    interface_named, key_state_of,
};

verus! {

/// Whether this is a `done` event.
pub open spec fn is_done(event: SessionEvent) -> bool {
    event matches SessionEvent::InputMethod(ProtocolEvent::Done)
}

/// Whether this is an `unavailable` event.
pub open spec fn is_withdrawal(event: SessionEvent) -> bool {
    event matches SessionEvent::InputMethod(ProtocolEvent::Unavailable)
}

/// How many `done` events there are.
pub open spec fn done_count(events: Seq<SessionEvent>) -> nat
    decreases events.len(),
{
    if events.len() == 0 {
        0
    } else {
        done_count(events.drop_last()) + if is_done(events.last()) {
            1nat
        } else {
            0nat
        }
    }
}

/// Whether a text field has the focus after these events: what the last
/// `activate` or `deactivate` event says, or `before` where there is none.
pub open spec fn focus_after(events: Seq<SessionEvent>, before: bool) -> bool
    decreases events.len(),
{
    if events.len() == 0 {
        before
    } else {
        match events.last() {
            SessionEvent::InputMethod(ProtocolEvent::Activate) => true,
            SessionEvent::InputMethod(ProtocolEvent::Deactivate) => false,
            _ => focus_after(events.drop_last(), before),
        }
    }
}

/// Whether none of these events ends a row.
pub open spec fn within_row(events: Seq<SessionEvent>) -> bool {
    forall|i: int| 0 <= i < events.len() ==> !is_done(#[trigger] events[i])
}

/// Whether no activation is announced from `start` on.
pub open spec fn no_activation_from(events: Seq<InputMethodEvent>, start: int) -> bool {
    forall|i: int| start <= i < events.len() ==> !(#[trigger] events[i] is Activate)
}

/// Whether the announced activations bear serials that increase, and that have
/// been reached.
pub open spec fn activations_ordered(m: InputMethodModel) -> bool {
    &&& forall|i: int|
        0 <= i < m.events.len() ==> ((#[trigger] m.events[i]) matches InputMethodEvent::Activate {
            serial,
        } ==> 0 < serial <= m.done_serial)
    &&& forall|i: int, j: int|
        #![trigger m.events[i], m.events[j]]
        0 <= i < j < m.events.len() ==> (m.events[i] matches InputMethodEvent::Activate {
            serial: earlier,
        } ==> (m.events[j] matches InputMethodEvent::Activate { serial: later } ==> earlier
            < later))
}

/// What one event of the input method object does.
proof fn input_method_step(m: InputMethodModel, event: ProtocolEvent)
    ensures
        ({
            let heard = SessionEvent::InputMethod(event);
            let more = m.heard(heard);
            let n = m.events.len() as int;
            &&& more == m.after(event)
            &&& n <= more.events.len() <= n + 2
            &&& more.events.take(n) == m.events
            &&& keys_in(more.events) == keys_in(m.events)
            &&& event is Done || no_activation_from(more.events, n)
        }),
{
    reveal(InputMethodModel::heard);
    let more = m.after(event);
    let n = m.events.len() as int;
    assert(more.events.take(n) == m.events);
    if more.events.len() == n + 1 {
        assert(more.events == m.events.push(more.events[n]));
        keys_in_longer_queue(m.events, more.events[n]);
    } else if more.events.len() == n + 2 {
        let first = m.events.push(more.events[n]);
        assert(more.events == first.push(more.events[n + 1]));
        keys_in_longer_queue(m.events, more.events[n]);
        keys_in_longer_queue(first, more.events[n + 1]);
    } else {
        assert(more.events == m.events);
    }
}

/// What one event of the grabbed keyboard does.
proof fn keyboard_step(m: InputMethodModel, event: GrabEvent)
    ensures
        ({
            let more = m.heard(SessionEvent::Keyboard(event));
            let n = m.events.len() as int;
            &&& more == m.after_grab(event)
            &&& n <= more.events.len() <= n + 1
            &&& more.events.take(n) == m.events
            &&& keys_in(more.events) == if event is Key && m.keymap_loaded {
                keys_in(m.events).push(more.events.last())
            } else {
                keys_in(m.events)
            }
            &&& no_activation_from(more.events, n)
        }),
{
    reveal(InputMethodModel::heard);
    let more = m.after_grab(event);
    let n = m.events.len() as int;
    assert(more.events.take(n) == m.events);
    if more.events.len() == n + 1 {
        assert(more.events == m.events.push(more.events[n]));
        keys_in_longer_queue(m.events, more.events[n]);
    } else {
        assert(more.events == m.events);
    }
}

/// Whether two models differ in the queue and in what the registry told alone.
spec fn same_but_queue_and_globals(a: InputMethodModel, b: InputMethodModel) -> bool {
    &&& a.state == b.state
    &&& a.done_serial == b.done_serial
    &&& a.pending_activate == b.pending_activate
    &&& a.unavailable == b.unavailable
    &&& a.keymap_loaded == b.keymap_loaded
    &&& a.current_modifiers == b.current_modifiers
    &&& a.last_key_time == b.last_key_time
    &&& a.virtual_keyboard == b.virtual_keyboard
    &&& a.keymap_sent_to_vkb == b.keymap_sent_to_vkb
}

/// What one event of a popup or of the registry does: at most one more event in
/// the queue, neither an activation nor a key, and no change but to the globals.
proof fn other_step(m: InputMethodModel, event: SessionEvent)
    requires
        !(event is InputMethod),
        !(event is Keyboard),
    ensures
        ({
            let more = m.heard(event);
            let n = m.events.len() as int;
            &&& n <= more.events.len() <= n + 1
            &&& more.events.take(n) == m.events
            &&& keys_in(more.events) == keys_in(m.events)
            &&& no_activation_from(more.events, n)
            &&& same_but_queue_and_globals(m, more)
        }),
{
    reveal(InputMethodModel::heard);
    let more = m.heard(event);
    let n = m.events.len() as int;
    if let SessionEvent::Popup { x, y, width, height } = event {
        assert(more.events == m.events.push(more.events[n]));
        keys_in_longer_queue(m.events, more.events[n]);
    } else {
        assert(more.events == m.events);
    }
    assert(more.events.take(n) == m.events);
}

/// What one event does, whichever object it comes from.
proof fn step(m: InputMethodModel, event: SessionEvent)
    ensures
        ({
            let more = m.heard(event);
            let n = m.events.len() as int;
            &&& n <= more.events.len()
            &&& more.events.take(n) == m.events
            &&& is_done(event) || no_activation_from(more.events, n)
            &&& match event {
                SessionEvent::InputMethod(event) => more == m.after(event),
                SessionEvent::Keyboard(event) => more == m.after_grab(event),
                _ => same_but_queue_and_globals(m, more),
            }
        }),
{
    match event {
        SessionEvent::InputMethod(event) => input_method_step(m, event),
        SessionEvent::Keyboard(event) => keyboard_step(m, event),
        _ => other_step(m, event),
    }
}

/// What an event makes of a waiting activation.
spec fn waiting_after(event: SessionEvent, before: bool) -> bool {
    match event {
        SessionEvent::InputMethod(ProtocolEvent::Activate) => true,
        SessionEvent::InputMethod(ProtocolEvent::Deactivate) => false,
        _ => before,
    }
}

/// What the input method object does to the serials and to a waiting activation.
proof fn input_method_serial_step(m: InputMethodModel, event: ProtocolEvent)
    ensures
        ({
            let more = m.after(event);
            if event is Done {
                &&& more.done_serial == (m.done_serial + 1) as u32
                &&& more.state.serial == more.done_serial
            } else {
                &&& more.done_serial == m.done_serial
                &&& more.state.serial == m.state.serial
                &&& more.pending_activate == waiting_after(
                    SessionEvent::InputMethod(event),
                    m.pending_activate,
                )
            }
        }),
{
}

/// The grabbed keyboard touches neither the serials nor a waiting activation.
proof fn keyboard_serial_step(m: InputMethodModel, event: GrabEvent)
    ensures
        m.after_grab(event).done_serial == m.done_serial,
        m.after_grab(event).state.serial == m.state.serial,
        m.after_grab(event).pending_activate == m.pending_activate,
{
}

/// What one event does to the serials and to a waiting activation.
proof fn serial_step(m: InputMethodModel, event: SessionEvent)
    ensures
        ({
            let more = m.heard(event);
            if is_done(event) {
                &&& more.done_serial == (m.done_serial + 1) as u32
                &&& more.state.serial == more.done_serial
            } else {
                &&& more.done_serial == m.done_serial
                &&& more.state.serial == m.state.serial
                &&& more.pending_activate == waiting_after(event, m.pending_activate)
            }
        }),
{
    match event {
        SessionEvent::InputMethod(told) => {
            assert(m.heard(event) == m.after(told)) by {
                input_method_step(m, told);
            }
            input_method_serial_step(m, told);
        },
        SessionEvent::Keyboard(told) => {
            assert(m.heard(event) == m.after_grab(told)) by {
                keyboard_step(m, told);
            }
            keyboard_serial_step(m, told);
        },
        _ => other_step(m, event),
    }
}

/// The serial is the number of `done` events, and the state shows it.
pub proof fn serial_counts_done_events(m: InputMethodModel, events: Seq<SessionEvent>)
    requires
        m.done_serial + done_count(events) <= u32::MAX,
    ensures
        m.heard_all(events).done_serial == m.done_serial + done_count(events),
        m.state.serial == m.done_serial ==> m.heard_all(events).state.serial == m.heard_all(
            events,
        ).done_serial,
    decreases events.len(),
{
    if events.len() > 0 {
        serial_counts_done_events(m, events.drop_last());
        serial_step(m.heard_all(events.drop_last()), events.last());
    }
}

/// The input method is active exactly while a text field has the focus.
pub proof fn active_follows_focus(m: InputMethodModel, events: Seq<SessionEvent>)
    ensures
        m.heard_all(events).state.active == focus_after(events, m.state.active),
    decreases events.len(),
{
    if events.len() > 0 {
        active_follows_focus(m, events.drop_last());
        step(m.heard_all(events.drop_last()), events.last());
    }
}

/// The input method is unavailable once the compositor has withdrawn it, and
/// stays so whatever comes.
pub proof fn withdrawal_is_final(m: InputMethodModel, events: Seq<SessionEvent>)
    ensures
        m.heard_all(events).unavailable <==> m.unavailable || exists|i: int|
            0 <= i < events.len() && is_withdrawal(#[trigger] events[i]),
        m.heard_all(events).status() == Status::Unavailable <==> m.heard_all(events).unavailable,
    decreases events.len(),
{
    if events.len() > 0 {
        let less = events.drop_last();
        withdrawal_is_final(m, less);
        step(m.heard_all(events.drop_last()), events.last());
        if is_withdrawal(events.last()) {
            assert(is_withdrawal(events[events.len() - 1]));
        } else {
            assert forall|i: int| 0 <= i < events.len() && is_withdrawal(#[trigger] events[i])
                implies is_withdrawal(less[i]) && i < less.len() by {
            }
            assert forall|i: int| 0 <= i < less.len() && is_withdrawal(#[trigger] less[i])
                implies is_withdrawal(events[i]) by {
            }
        }
    }
}

/// Events that wait for the program stay in the queue, in their order, in front
/// of all later ones.
pub proof fn queue_only_grows(m: InputMethodModel, events: Seq<SessionEvent>)
    ensures
        m.events.len() <= m.heard_all(events).events.len(),
        m.heard_all(events).events.take(m.events.len() as int) == m.events,
    decreases events.len(),
{
    if events.len() == 0 {
        assert(m.events.take(m.events.len() as int) == m.events);
    } else {
        let less = m.heard_all(events.drop_last());
        queue_only_grows(m, events.drop_last());
        step(m.heard_all(events.drop_last()), events.last());
        let n = m.events.len() as int;
        let more = less.heard(events.last());
        assert(more.events.take(n) == more.events.take(less.events.len() as int).take(n));
    }
}

/// Within a row no activation is announced. The `done` event that ends the row
/// announces one, with its own serial, exactly if the last `activate` or
/// `deactivate` event was an `activate`: an activation waits for its `done`
/// event, and one that is followed by a deactivation is never announced.
pub proof fn done_announces_activation(m: InputMethodModel, row: Seq<SessionEvent>)
    requires
        within_row(row),
    ensures
        ({
            let waiting = m.heard_all(row);
            let ended = waiting.after(ProtocolEvent::Done);
            let serial = (m.done_serial + 1) as u32;
            &&& m.events.len() <= waiting.events.len()
            &&& no_activation_from(waiting.events, m.events.len() as int)
            &&& ended.state.serial == serial
            &&& !ended.pending_activate
            &&& ended.events == if focus_after(row, m.pending_activate) {
                waiting.events.push(InputMethodEvent::Activate { serial }).push(
                    InputMethodEvent::Done,
                )
            } else {
                waiting.events.push(InputMethodEvent::Done)
            }
        }),
{
    row_announces_nothing(m, row);
}

/// A queue that grew without an activation has none where it had none.
proof fn queue_keeps_activations(m: InputMethodModel, more: InputMethodModel, start: int)
    requires
        m.events.len() <= more.events.len(),
        more.events.take(m.events.len() as int) == m.events,
        0 <= start <= m.events.len(),
        no_activation_from(m.events, start),
        no_activation_from(more.events, m.events.len() as int),
    ensures
        no_activation_from(more.events, start),
{
    assert forall|i: int| start <= i < more.events.len() implies !(
    #[trigger] more.events[i] is Activate) by {
        if i < m.events.len() {
            assert(more.events.take(m.events.len() as int)[i] == m.events[i]);
        }
    }
}

proof fn row_announces_nothing(m: InputMethodModel, row: Seq<SessionEvent>)
    requires
        within_row(row),
    ensures
        m.heard_all(row).pending_activate == focus_after(row, m.pending_activate),
        m.heard_all(row).done_serial == m.done_serial,
        m.events.len() <= m.heard_all(row).events.len(),
        no_activation_from(m.heard_all(row).events, m.events.len() as int),
    decreases row.len(),
{
    if row.len() > 0 {
        let less = row.drop_last();
        assert forall|i: int| 0 <= i < less.len() implies !is_done(#[trigger] less[i]) by {
            assert(less[i] == row[i]);
        }
        row_announces_nothing(m, less);
        assert(!is_done(row[row.len() - 1]));
        let before = m.heard_all(less);
        serial_step(before, row.last());
        step(before, row.last());
        queue_keeps_activations(before, before.heard(row.last()), m.events.len() as int);
    }
}

/// Announced activations bear increasing serials.
pub proof fn activation_serials_increase(m: InputMethodModel, events: Seq<SessionEvent>)
    requires
        activations_ordered(m),
        m.done_serial + done_count(events) <= u32::MAX,
    ensures
        activations_ordered(m.heard_all(events)),
    decreases events.len(),
{
    if events.len() > 0 {
        let less = m.heard_all(events.drop_last());
        activation_serials_increase(m, events.drop_last());
        step(m.heard_all(events.drop_last()), events.last());
        serial_counts_done_events(m, events.drop_last());
        serial_counts_done_events(m, events);
        let more = less.heard(events.last());
        let n = less.events.len() as int;
        assert forall|i: int| 0 <= i < n implies #[trigger] more.events[i] == less.events[i] by {
        }
        assert(more.done_serial >= less.done_serial);
        assert forall|i: int| n <= i < more.events.len() implies (
        (#[trigger] more.events[i]) matches InputMethodEvent::Activate { serial } ==> serial
            == more.done_serial && less.done_serial < more.done_serial && i == n) by {
        }
    }
}

/// Taking an event out of the queue keeps the serials in order, and a fresh
/// input method has none out of order.
pub proof fn taking_keeps_serials_in_order(m: InputMethodModel)
    requires
        activations_ordered(m),
        m.events.len() > 0,
    ensures
        activations_ordered(InputMethodModel { events: m.events.drop_first(), ..m }),
        activations_ordered(InputMethodModel::initial()),
{
    let rest = InputMethodModel { events: m.events.drop_first(), ..m };
    assert forall|i: int| 0 <= i < rest.events.len() implies #[trigger] rest.events[i]
        == m.events[i + 1] by {
    }
}

/// The modifiers in effect after these events: what the last change says, or
/// `before` where there is none.
pub open spec fn modifiers_after(events: Seq<SessionEvent>, before: Modifiers) -> Modifiers
    decreases events.len(),
{
    if events.len() == 0 {
        before
    } else {
        match events.last() {
            SessionEvent::Keyboard(GrabEvent::Modifiers { effective }) => effective,
            _ => modifiers_after(events.drop_last(), before),
        }
    }
}

/// The time of the last key among these events, or `before` where there is none.
pub open spec fn key_time_after(events: Seq<SessionEvent>, before: u32) -> u32
    decreases events.len(),
{
    if events.len() == 0 {
        before
    } else {
        match events.last() {
            SessionEvent::Keyboard(GrabEvent::Key { time, .. }) => time,
            _ => key_time_after(events.drop_last(), before),
        }
    }
}

/// What a program is told of the keys among these events, once there is a
/// keymap.
pub open spec fn key_deliveries(events: Seq<SessionEvent>, before: Modifiers) -> Seq<
    InputMethodEvent,
>
    decreases events.len(),
{
    if events.len() == 0 {
        Seq::empty()
    } else {
        let less = events.drop_last();
        match events.last() {
            SessionEvent::Keyboard(GrabEvent::Key { time, key, key_state, keysym }) => {
                key_deliveries(less, before).push(
                    InputMethodEvent::KeyEvent {
                        keycode: key,
                        keysym,
                        state: key_state_of(key_state),
                        modifiers: modifiers_after(less, before),
                    },
                )
            },
            _ => key_deliveries(less, before),
        }
    }
}

/// The key events in a queue.
pub open spec fn keys_in(queue: Seq<InputMethodEvent>) -> Seq<InputMethodEvent>
    decreases queue.len(),
{
    if queue.len() == 0 {
        Seq::empty()
    } else if queue.last() is KeyEvent {
        keys_in(queue.drop_last()).push(queue.last())
    } else {
        keys_in(queue.drop_last())
    }
}

proof fn keys_in_longer_queue(queue: Seq<InputMethodEvent>, event: InputMethodEvent)
    ensures
        keys_in(queue.push(event)) == if event is KeyEvent {
            keys_in(queue).push(event)
        } else {
            keys_in(queue)
        },
{
    assert(queue.push(event).drop_last() == queue);
}

/// Once a grabbed keyboard has a keymap, each of its keys reaches the program
/// once, in order and with the modifiers of that moment.
pub proof fn grabbed_keys_are_delivered(m: InputMethodModel, events: Seq<SessionEvent>)
    requires
        m.keymap_loaded,
    ensures
        m.heard_all(events).keymap_loaded,
        m.heard_all(events).current_modifiers == modifiers_after(events, m.current_modifiers),
        keys_in(m.heard_all(events).events) == keys_in(m.events) + key_deliveries(
            events,
            m.current_modifiers,
        ),
    decreases events.len(),
{
    if events.len() == 0 {
        assert(keys_in(m.events) + key_deliveries(events, m.current_modifiers) == keys_in(
            m.events,
        ));
    } else {
        let less = m.heard_all(events.drop_last());
        grabbed_keys_are_delivered(m, events.drop_last());
        match events.last() {
            SessionEvent::InputMethod(event) => input_method_step(less, event),
            SessionEvent::Keyboard(event) => keyboard_step(less, event),
            _ => other_step(less, events.last()),
        }
    }
}

/// A key is forwarded with the time of the most recent key event.
pub proof fn forwarded_time_is_of_the_last_key(m: InputMethodModel, events: Seq<SessionEvent>)
    ensures
        m.heard_all(events).last_key_time == key_time_after(events, m.last_key_time),
    decreases events.len(),
{
    if events.len() > 0 {
        forwarded_time_is_of_the_last_key(m, events.drop_last());
        step(m.heard_all(events.drop_last()), events.last());
    }
}

/// Whether this is a keymap that can go to a virtual keyboard.
pub open spec fn hands_over_keymap(event: SessionEvent) -> bool {
    event matches SessionEvent::Keyboard(GrabEvent::Keymap { duplicated: true, .. })
}

/// Keys can be forwarded exactly if there is a virtual keyboard and it was given
/// a keymap, then or before.
pub proof fn forwarding_needs_a_keymap(m: InputMethodModel, events: Seq<SessionEvent>)
    ensures
        m.heard_all(events).virtual_keyboard == m.virtual_keyboard,
        m.heard_all(events).forwards_keys() <==> m.virtual_keyboard is Some && (
        m.keymap_sent_to_vkb || exists|i: int|
            0 <= i < events.len() && #[trigger] hands_over_keymap(events[i])),
    decreases events.len(),
{
    if events.len() > 0 {
        let less = events.drop_last();
        forwarding_needs_a_keymap(m, less);
        step(m.heard_all(events.drop_last()), events.last());
        assert forall|i: int|
            0 <= i < less.len() && #[trigger] hands_over_keymap(less[i]) implies hands_over_keymap(
            events[i],
        ) by {}
        assert forall|i: int|
            0 <= i < less.len() && #[trigger] hands_over_keymap(
                events[i],
            ) implies hands_over_keymap(less[i]) by {}
        if hands_over_keymap(events.last()) {
            assert(hands_over_keymap(events[events.len() - 1]));
        }
    }
}

/// Only the input method object changes the state of the text field, the serial
/// and the status: the keyboard, popups and the registry leave them alone.
pub proof fn other_objects_keep_the_state(m: InputMethodModel, event: SessionEvent)
    requires
        !(event is InputMethod),
    ensures
        m.heard(event).state == m.state,
        m.heard(event).done_serial == m.done_serial,
        m.heard(event).status() == m.status(),
{
    step(m, event);
}

/// Whether this event tells the text around the cursor, or takes it away.
pub open spec fn touches_text(event: SessionEvent) -> bool {
    event matches SessionEvent::InputMethod(told) && (told is SurroundingText || told is Deactivate)
}

proof fn state_step(m: InputMethodModel, event: SessionEvent)
    ensures
        ({
            let more = m.heard(event).state;
            &&& !touches_text(event) ==> more.surrounding_text == m.state.surrounding_text
                && more.cursor == m.state.cursor && more.anchor == m.state.anchor
            &&& event matches SessionEvent::InputMethod(
                ProtocolEvent::SurroundingText { text, cursor, anchor },
            ) ==> more.surrounding_text == Some(text) && more.cursor == cursor && more.anchor
                == anchor
            &&& event matches SessionEvent::InputMethod(ProtocolEvent::TextChangeCause { cause })
                ==> more.change_cause == if cause == 0 {
                ChangeCause::InputMethod
            } else {
                ChangeCause::Other
            }
            &&& !(event matches SessionEvent::InputMethod(ProtocolEvent::TextChangeCause { .. }))
                ==> more.change_cause == m.state.change_cause
            &&& event matches SessionEvent::InputMethod(
                ProtocolEvent::ContentType { hint, purpose },
            ) ==> more.content_hint == content_hint_of(hint) && more.content_purpose
                == content_purpose_of(purpose)
            &&& !(event matches SessionEvent::InputMethod(ProtocolEvent::ContentType { .. }))
                ==> more.content_hint == m.state.content_hint && more.content_purpose
                == m.state.content_purpose
        }),
{
    match event {
        SessionEvent::InputMethod(told) => input_method_step(m, told),
        SessionEvent::Keyboard(told) => keyboard_step(m, told),
        _ => other_step(m, event),
    }
}

/// The state shows the text, the cursor and the anchor that were told last,
/// until the text field is left.
pub proof fn surrounding_text_is_the_last_told(
    m: InputMethodModel,
    events: Seq<SessionEvent>,
    i: int,
)
    requires
        0 <= i < events.len(),
        events[i] matches SessionEvent::InputMethod(ProtocolEvent::SurroundingText { .. }),
        forall|j: int| i < j < events.len() ==> !touches_text(#[trigger] events[j]),
    ensures
        events[i] matches SessionEvent::InputMethod(
            ProtocolEvent::SurroundingText { text, cursor, anchor },
        ) && m.heard_all(events).state.surrounding_text == Some(text) && m.heard_all(
            events,
        ).state.cursor == cursor && m.heard_all(events).state.anchor == anchor,
    decreases events.len(),
{
    let less = events.drop_last();
    state_step(m.heard_all(less), events.last());
    if i < less.len() {
        assert(less[i] == events[i]);
        assert(!touches_text(events[events.len() - 1]));
        assert forall|j: int| i < j < less.len() implies !touches_text(#[trigger] less[j]) by {
            assert(less[j] == events[j]);
        }
        surrounding_text_is_the_last_told(m, less, i);
    }
}

/// Where no text was told and the text field was not left, the text stays.
pub proof fn surrounding_text_stays(m: InputMethodModel, events: Seq<SessionEvent>)
    requires
        forall|j: int| 0 <= j < events.len() ==> !touches_text(#[trigger] events[j]),
    ensures
        m.heard_all(events).state.surrounding_text == m.state.surrounding_text,
        m.heard_all(events).state.cursor == m.state.cursor,
        m.heard_all(events).state.anchor == m.state.anchor,
    decreases events.len(),
{
    if events.len() > 0 {
        let less = events.drop_last();
        state_step(m.heard_all(less), events.last());
        assert(!touches_text(events[events.len() - 1]));
        assert forall|j: int| 0 <= j < less.len() implies !touches_text(#[trigger] less[j]) by {
            assert(less[j] == events[j]);
        }
        surrounding_text_stays(m, less);
    }
}

/// Whether this event tells what the text field is for.
pub open spec fn tells_content_type(event: SessionEvent) -> bool {
    event matches SessionEvent::InputMethod(told) && told is ContentType
}

/// Whether this event tells what changed the text.
pub open spec fn tells_change_cause(event: SessionEvent) -> bool {
    event matches SessionEvent::InputMethod(told) && told is TextChangeCause
}

/// The state shows the content type that was told last, also after the text
/// field was left.
pub proof fn content_type_is_the_last_told(m: InputMethodModel, events: Seq<SessionEvent>, i: int)
    requires
        0 <= i < events.len(),
        tells_content_type(events[i]),
        forall|j: int| i < j < events.len() ==> !tells_content_type(#[trigger] events[j]),
    ensures
        events[i] matches SessionEvent::InputMethod(ProtocolEvent::ContentType { hint, purpose })
            && m.heard_all(events).state.content_hint == content_hint_of(hint) && m.heard_all(
            events,
        ).state.content_purpose == content_purpose_of(purpose),
    decreases events.len(),
{
    let less = events.drop_last();
    state_step(m.heard_all(less), events.last());
    if i < less.len() {
        assert(less[i] == events[i]);
        assert(!tells_content_type(events[events.len() - 1]));
        assert forall|j: int| i < j < less.len() implies !tells_content_type(
            #[trigger] less[j],
        ) by {
            assert(less[j] == events[j]);
        }
        content_type_is_the_last_told(m, less, i);
    }
}

/// The state shows the cause that was told last: number 0 is the input method,
/// and any other number something else.
pub proof fn change_cause_is_the_last_told(m: InputMethodModel, events: Seq<SessionEvent>, i: int)
    requires
        0 <= i < events.len(),
        tells_change_cause(events[i]),
        forall|j: int| i < j < events.len() ==> !tells_change_cause(#[trigger] events[j]),
    ensures
        events[i] matches SessionEvent::InputMethod(ProtocolEvent::TextChangeCause { cause }) && (
        m.heard_all(events).state.change_cause == ChangeCause::InputMethod <==> cause == 0),
    decreases events.len(),
{
    let less = events.drop_last();
    state_step(m.heard_all(less), events.last());
    if i < less.len() {
        assert(less[i] == events[i]);
        assert(!tells_change_cause(events[events.len() - 1]));
        assert forall|j: int| i < j < less.len() implies !tells_change_cause(
            #[trigger] less[j],
        ) by {
            assert(less[j] == events[j]);
        }
        change_cause_is_the_last_told(m, less, i);
    }
}

/// Leaving the text field is told, and leaves no text, no cursor and nothing
/// pending behind.
pub proof fn leaving_empties_the_state(m: InputMethodModel)
    ensures
        ({
            let left = m.heard(SessionEvent::InputMethod(ProtocolEvent::Deactivate));
            &&& left.events == m.events.push(InputMethodEvent::Deactivate)
            &&& !left.state.active
            &&& !left.pending_activate
            &&& left.state.surrounding_text is None
            &&& left.state.cursor == 0
            &&& left.state.anchor == 0
            &&& left.state.preedit_text is None
            &&& left.state.preedit_cursor == 0
            &&& left.state.commit_text is None
            &&& left.state.delete_before == 0
            &&& left.state.delete_after == 0
            &&& left.state.serial == m.state.serial
        }),
{
    input_method_step(m, ProtocolEvent::Deactivate);
}

/// What the compositor says of the text field reaches the program, once and
/// unchanged: nothing but these events is added to the queue.
pub proof fn told_events_are_unchanged(m: InputMethodModel, event: ProtocolEvent)
    ensures
        ({
            let queue = m.heard(SessionEvent::InputMethod(event)).events;
            match event {
                ProtocolEvent::Activate => queue == m.events,
                ProtocolEvent::Deactivate => queue == m.events.push(InputMethodEvent::Deactivate),
                ProtocolEvent::SurroundingText { text, cursor, anchor } => queue == m.events.push(
                    InputMethodEvent::SurroundingText { text, cursor, anchor },
                ),
                ProtocolEvent::TextChangeCause { cause } => queue == m.events.push(
                    InputMethodEvent::TextChangeCause(
                        if cause == 0 {
                            ChangeCause::InputMethod
                        } else {
                            ChangeCause::Other
                        },
                    ),
                ),
                ProtocolEvent::ContentType { hint, purpose } => {
                    &&& queue.len() == m.events.len() + 1
                    &&& queue.drop_last() == m.events
                    &&& queue.last() == (InputMethodEvent::ContentType {
                        hint: content_hint_of(hint),
                        purpose: content_purpose_of(purpose),
                    })
                },
                ProtocolEvent::Done => queue.len() > 0 && queue.last() == InputMethodEvent::Done,
                ProtocolEvent::Unavailable => queue == m.events.push(
                    InputMethodEvent::Unavailable,
                ),
            }
        }),
{
    input_method_step(m, event);
}

/// Positions of popups and settings of key repeat reach the program unchanged.
pub proof fn popups_and_repeats_are_told(
    m: InputMethodModel,
    x: i32,
    y: i32,
    width: i32,
    height: i32,
    rate: i32,
    delay: i32,
)
    ensures
        m.heard(SessionEvent::Popup { x, y, width, height }).events == m.events.push(
            InputMethodEvent::PopupSurfaceCreated { x, y, width, height },
        ),
        m.heard(SessionEvent::Keyboard(GrabEvent::RepeatInfo { rate, delay })).events
            == m.events.push(InputMethodEvent::RepeatInfo { rate, delay }),
{
    reveal(InputMethodModel::heard);
}

/// A key of the grabbed keyboard is told with its own code and keysym, as pressed
/// exactly if the protocol says 1, and with the modifiers in effect. Without a
/// keymap it is not told. Either way its time is kept.
pub proof fn keys_are_told_as_they_are(
    m: InputMethodModel,
    time: u32,
    key: u32,
    key_state: u32,
    keysym: u32,
)
    ensures
        ({
            let more = m.heard(
                SessionEvent::Keyboard(GrabEvent::Key { time, key, key_state, keysym }),
            );
            &&& more.last_key_time == time
            &&& !m.keymap_loaded ==> more.events == m.events
            &&& m.keymap_loaded ==> more.events.len() == m.events.len() + 1
                && more.events.drop_last() == m.events && (
            more.events.last() matches InputMethodEvent::KeyEvent {
                keycode,
                keysym: told,
                state,
                modifiers,
            } && keycode == key && told == keysym && (state == KeyState::Pressed <==> key_state
                == 1) && modifiers == m.current_modifiers)
        }),
{
    reveal(InputMethodModel::heard);
}

/// The globals that an input method binds, by name, and the highest version of
/// each that it knows. No other name is bound.
pub proof fn known_globals(name: Seq<char>)
    ensures
        interface_named(name) == Some((Interface::InputMethodManager, 1u32)) <==> name
            == "zwp_input_method_manager_v2"@,
        interface_named(name) == Some((Interface::Seat, 8u32)) <==> name == "wl_seat"@,
        interface_named(name) == Some((Interface::Compositor, 5u32)) <==> name
            == "wl_compositor"@,
        interface_named(name) == Some((Interface::VirtualKeyboardManager, 1u32)) <==> name
            == "zwp_virtual_keyboard_manager_v1"@,
        interface_named(name) is Some ==> name == "zwp_input_method_manager_v2"@ || name
            == "wl_seat"@ || name == "wl_compositor"@ || name
            == "zwp_virtual_keyboard_manager_v1"@,
{
    reveal_strlit("zwp_input_method_manager_v2");
    reveal_strlit("wl_seat");
    reveal_strlit("wl_compositor");
    reveal_strlit("zwp_virtual_keyboard_manager_v1");
    assert("zwp_input_method_manager_v2"@.len() == 27);
    assert("wl_seat"@.len() == 7);
    assert("wl_compositor"@.len() == 13);
    assert("zwp_virtual_keyboard_manager_v1"@.len() == 31);
}

/// Seats are kept in the order in which they are bound, each without a name
/// until it tells one; other globals change no seat, and no global changes
/// anything that a program sees.
pub proof fn binding_keeps_seats_in_order(m: InputMethodModel, interface: Interface, global: u32)
    ensures
        ({
            let more = m.heard(SessionEvent::Global { interface, global });
            &&& interface == Interface::Seat ==> more.seats == m.seats.push(
                SeatModel { global, name: None },
            )
            &&& interface != Interface::Seat ==> more.seats == m.seats
            &&& more.manager <==> m.manager || interface == Interface::InputMethodManager
            &&& more.compositor <==> m.compositor || interface == Interface::Compositor
            &&& more.virtual_keyboard_manager <==> m.virtual_keyboard_manager || interface
                == Interface::VirtualKeyboardManager
            &&& more.input_method == m.input_method
            &&& more.events == m.events
        }),
{
    reveal(InputMethodModel::heard);
}

/// A name goes to the first seat with that number, and to no other seat.
pub proof fn name_goes_to_one_seat(m: InputMethodModel, seat: u32, name: Seq<char>)
    ensures
        ({
            let more = m.heard(SessionEvent::SeatName { seat, name });
            &&& more.seats.len() == m.seats.len()
            &&& forall|i: int|
                0 <= i < m.seats.len() ==> (#[trigger] more.seats[i]).global
                    == m.seats[i].global
            &&& forall|i: int|
                0 <= i < m.seats.len() && m.seats[i].global != seat ==> #[trigger] more.seats[i]
                    == m.seats[i]
            &&& forall|i: int|
                0 <= i < m.seats.len() && m.seats[i].global == seat && (forall|j: int|
                    0 <= j < i ==> (#[trigger] m.seats[j]).global != seat) ==> (
                #[trigger] more.seats[i]).name == Some(name)
            &&& forall|i: int, j: int|
                0 <= j < i < m.seats.len() && (#[trigger] m.seats[j]).global == seat ==> (
                #[trigger] more.seats[i]) == m.seats[i]
            &&& more.input_method == m.input_method
            &&& more.events == m.events
        }),
{
    reveal(InputMethodModel::heard);
}

/// An input method object is made for the seat that was asked for, and a virtual
/// keyboard for the same seat exactly if the compositor has them. Nothing else
/// changes.
pub proof fn objects_belong_to_the_seat(m: InputMethodModel, global: u32)
    ensures
        m.on_seat(global).input_method == Some(global),
        m.virtual_keyboard_manager ==> m.on_seat(global).virtual_keyboard == Some(global),
        !m.virtual_keyboard_manager ==> m.on_seat(global).virtual_keyboard == m.virtual_keyboard,
        m.on_seat(global).state == m.state,
        m.on_seat(global).events == m.events,
        m.on_seat(global).seats == m.seats,
        m.on_seat(global).done_serial == m.done_serial,
{
}

/// The status is that of the text field, unless the compositor has withdrawn the
/// input method.
pub proof fn status_follows_the_state(m: InputMethodModel)
    ensures
        m.status() == Status::Unavailable <==> m.unavailable,
        m.status() == Status::Active <==> !m.unavailable && m.state.active,
        m.status() == Status::Inactive <==> !m.unavailable && !m.state.active,
{
}

/// A request that can be sent is handed out exactly as asked for, and without an
/// input method object every request is refused.
pub proof fn requests_are_answered(
    m: InputMethodModel,
    r: Result<InputMethodRequest, Error>,
    request: RequestModel,
)
    requires
        answers(m, r, request),
    ensures
        m.input_method is None <==> r is Err,
        r matches Ok(sent) ==> sent@ == request,
        r matches Err(e) ==> e is NotActive,
        r matches Ok(InputMethodRequest::CommitString { text }) ==> request
            == (RequestModel::CommitString { text: text@ }),
        r matches Ok(InputMethodRequest::SetPreeditString { text, cursor_begin, cursor_end })
            ==> request == (RequestModel::SetPreeditString {
            text: text@,
            cursor_begin,
            cursor_end,
        }),
        r matches Ok(InputMethodRequest::DeleteSurroundingText { before_length, after_length })
            ==> request == (RequestModel::DeleteSurroundingText { before_length, after_length }),
        r matches Ok(InputMethodRequest::Commit { serial }) ==> request == (RequestModel::Commit {
            serial,
        }),
{
}

/// The seat with a name is the first one that has told it.
pub proof fn named_seat_is_the_first(seats: Seq<SeatModel>, name: Seq<char>, i: int)
    ensures
        first_with_name(seats, name, i) <==> {
            &&& 0 <= i < seats.len()
            &&& seats[i].name == Some(name)
            &&& forall|j: int| 0 <= j < i ==> (#[trigger] seats[j]).name != Some(name)
        },
        first_with_name(seats, name, i) ==> forall|j: int| #[trigger]
            first_with_name(seats, name, j) ==> j == i,
{
    if first_with_name(seats, name, i) {
        assert forall|j: int| #[trigger] first_with_name(seats, name, j) implies j == i by {
            if j < i {
                assert(seats[j].name != Some(name));
            }
            if i < j {
                assert(seats[i].name != Some(name));
            }
        }
    }
}

} // verus!
