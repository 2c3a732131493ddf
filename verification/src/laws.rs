//! What holds of the library as a whole.

use crate::engines;
use crate::input::{InputAction, Key, Modifiers, MouseButton, Platform, WindowEvent};
use crate::input::{CAPS_LOCK, NUM_LOCK};
use crate::pointer;
use crate::pointer::{FlutterPointerPhase, PixelRatio, PointerEvent, ScreenLength};
use crate::runtime;
use crate::runtime::{
    MainThreadAction, MainThreadCallback, PlatformMessage, RuntimeMessageError, RuntimeModel,
};
use crate::text;
use crate::text::TextStep;
use crate::window;
use crate::window::{
    KeyReport, NeededReadings, WindowAction, WindowMetrics, WindowModel, WindowReadings,
};
use std::sync::Arc;
use vstd::prelude::*;

verus! {

/// An operation on the state of a window.
pub enum Operation {
    /// An event comes.
    Event(WindowEvent, WindowReadings),
    /// The window is measured.
    Measure(WindowReadings),
    /// Events can be handled from now on.
    Release,
}

/// What an operation comes to: the next state and the actions.
pub open spec fn operate(s: WindowModel, operation: Operation) -> (WindowModel, Seq<WindowAction>) {
    match operation {
        Operation::Event(event, readings) => window::step(s, event, readings),
        Operation::Measure(readings) => (
            s.measured(readings),
            seq![WindowAction::SendWindowMetrics(readings.metrics())],
        ),
        Operation::Release => (s.released(), Seq::empty()),
    }
}

/// What operations come to, one after the other: the last state and all
/// actions.
pub open spec fn run(s: WindowModel, operations: Seq<Operation>) -> (WindowModel, Seq<WindowAction>)
    decreases operations.len(),
{
    if operations.len() == 0 {
        (s, Seq::empty())
    } else {
        let before = run(s, operations.drop_last());
        let last = operate(before.0, operations.last());
        (last.0, before.1 + last.1)
    }
}

/// The pointer events among `actions`.
pub open spec fn sent(actions: Seq<WindowAction>) -> Seq<PointerEvent>
    decreases actions.len(),
{
    if actions.len() == 0 {
        Seq::empty()
    } else {
        let before = sent(actions.drop_last());
        match actions.last() {
            WindowAction::SendPointerEvent(event) => before.push(event),
            _ => before,
        }
    }
}

/// Events, each with the readings at the same place in `readings`.
pub open spec fn arriving(events: Seq<WindowEvent>, readings: Seq<WindowReadings>) -> Seq<
    Operation,
> {
    Seq::new(events.len(), |i: int| Operation::Event(events[i], readings[i]))
}

/// The readings `r1` and `r2` are the same where they are needed.
pub open spec fn agree(needed: NeededReadings, r1: WindowReadings, r2: WindowReadings) -> bool {
    &&& needed.cursor ==> r1.cursor_x == r2.cursor_x && r1.cursor_y == r2.cursor_y
    &&& needed.left_button ==> r1.left_button == r2.left_button
    &&& needed.metrics ==> {
        &&& r1.window_width == r2.window_width
        &&& r1.framebuffer_width == r2.framebuffer_width
        &&& r1.framebuffer_height == r2.framebuffer_height
        &&& r1.content_scale == r2.content_scale
    }
}

/// What posting `callbacks` comes to, one after the other: the last state, and
/// whether all were accepted.
pub open spec fn post_all<W, C, S>(
    m: RuntimeModel<W, C, S>,
    callbacks: Seq<MainThreadCallback<W, C, S>>,
) -> (RuntimeModel<W, C, S>, bool)
    decreases callbacks.len(),
{
    if callbacks.len() == 0 {
        (m, true)
    } else {
        let before = post_all(m, callbacks.drop_last());
        let last = before.0.posting(callbacks.last());
        (last.0, before.1 && last.1 is Ok)
    }
}

proof fn lemma_sent_concat(a: Seq<WindowAction>, b: Seq<WindowAction>)
    ensures
        sent(a + b) == sent(a) + sent(b),
    decreases b.len(),
{
    if b.len() == 0 {
        assert(a + b =~= a);
    } else {
        lemma_sent_concat(a, b.drop_last());
        assert((a + b).drop_last() =~= a + b.drop_last());
    }
}

proof fn lemma_sent_sending(events: Seq<PointerEvent>)
    ensures
        sent(window::sending(events)) == events,
    decreases events.len(),
{
    if events.len() > 0 {
        lemma_sent_sending(events.drop_last());
        assert(window::sending(events).drop_last() =~= window::sending(events.drop_last()));
    }
}

/// Answering an event sends no other pointer events than `sent_for` says.
proof fn lemma_sent_answer(s: WindowModel, event: WindowEvent, r: WindowReadings)
    ensures
        sent(window::answer(s, event, r)) == window::sent_for(s, event, r),
{
    let pointer = window::sending(window::sent_for(s, event, r));
    let actions = window::answer(s, event, r);
    let rest = actions.skip(pointer.len() as int);
    assert(actions =~= pointer + rest);
    lemma_sent_concat(pointer, rest);
    lemma_sent_sending(window::sent_for(s, event, r));
    assert(sent(rest) =~= Seq::empty()) by {
        reveal_with_fuel(sent, 3);
    }
}

proof fn lemma_orderly_concat(added: bool, a: Seq<PointerEvent>, b: Seq<PointerEvent>)
    requires
        pointer::orderly(added, a),
        pointer::orderly(pointer::presence(added, a), b),
    ensures
        pointer::orderly(added, a + b),
        pointer::presence(added, a + b) == pointer::presence(pointer::presence(added, a), b),
{
    let all = a + b;
    assert forall|i: int| 0 <= i < all.len() implies ((#[trigger] all[i]).phase
        == FlutterPointerPhase::Add <==> !pointer::presence(added, all.take(i))) by {
        if i < a.len() {
            assert(all.take(i) =~= a.take(i));
            assert(all[i] == a[i]);
        } else {
            let j = i - a.len();
            assert(all[i] == b[j]);
            assert(all.take(i) =~= a + b.take(j));
        }
    }
    if b.len() == 0 {
        assert(all =~= a);
    }
}

proof fn lemma_conveyed_orderly(added: bool, event: PointerEvent)
    ensures
        pointer::orderly(added, pointer::conveyed(added, event)),
        pointer::presence(added, pointer::conveyed(added, event)) == pointer::added_after(event),
{
    let events = pointer::conveyed(added, event);
    assert forall|i: int| 0 <= i < events.len() implies ((#[trigger] events[i]).phase
        == FlutterPointerPhase::Add <==> !pointer::presence(added, events.take(i))) by {
        if i == 0 {
            assert(events.take(0) =~= Seq::empty());
        } else {
            assert(events.take(1) =~= seq![event.introduction()]);
        }
    }
}

/// Whatever happens to a window, the engine can accept the pointer events that
/// it is sent: the pointer appears only while absent, and does anything else
/// only while present. The state always says whether the pointer is present.
pub proof fn law_pointer_events_are_orderly(s: WindowModel, operations: Seq<Operation>)
    ensures
        pointer::orderly(s.pointer_added, sent(run(s, operations).1)),
        run(s, operations).0.pointer_added == pointer::presence(
            s.pointer_added,
            sent(run(s, operations).1),
        ),
    decreases operations.len(),
{
    if operations.len() > 0 {
        law_pointer_events_are_orderly(s, operations.drop_last());
        let before = run(s, operations.drop_last());
        let last = operate(before.0, operations.last());
        lemma_sent_concat(before.1, last.1);
        assert(pointer::orderly(before.0.pointer_added, sent(last.1)) && last.0.pointer_added
            == pointer::presence(before.0.pointer_added, sent(last.1))) by {
            match operations.last() {
                Operation::Event(event, r) => {
                    if before.0.isolate_created {
                        lemma_sent_answer(before.0, event, r);
                        if let Some(input) = window::pointer_input(before.0, event, r) {
                            lemma_conveyed_orderly(before.0.pointer_added, input);
                        }
                    }
                },
                Operation::Measure(r) => {
                    reveal_with_fuel(sent, 2);
                },
                Operation::Release => {},
            }
        }
        lemma_orderly_concat(s.pointer_added, sent(before.1), sent(last.1));
    }
}

/// The first pointer event that the engine of a new window is sent makes the
/// pointer appear.
pub proof fn law_the_pointer_appears_first(
    address: usize,
    platform: Platform,
    operations: Seq<Operation>,
)
    ensures
        ({
            let events = sent(run(WindowModel::initial(address, platform), operations).1);
            events.len() > 0 ==> events[0].phase == FlutterPointerPhase::Add
        }),
{
    let s = WindowModel::initial(address, platform);
    law_pointer_events_are_orderly(s, operations);
    let events = sent(run(s, operations).1);
    if events.len() > 0 {
        assert(events.take(0) =~= Seq::empty());
        assert((events[0]).phase == FlutterPointerPhase::Add);
    }
}

/// No operation breaks what holds of every state, makes a window forget which
/// one it is, or makes it defer events again once it handles them.
pub proof fn law_states_stay_well_formed(s: WindowModel, operations: Seq<Operation>)
    requires
        s.well_formed(),
    ensures
        run(s, operations).0.well_formed(),
        run(s, operations).0.window == s.window,
        run(s, operations).0.platform == s.platform,
        s.isolate_created ==> run(s, operations).0.isolate_created,
    decreases operations.len(),
{
    if operations.len() > 0 {
        law_states_stay_well_formed(s, operations.drop_last());
    }
}

/// Until events can be handled, they wait in the order in which they come, all
/// of them, and nothing is done for them.
pub proof fn law_early_events_wait(
    s: WindowModel,
    events: Seq<WindowEvent>,
    readings: Seq<WindowReadings>,
)
    requires
        !s.isolate_created,
    ensures
        run(s, arriving(events, readings)) == (
            WindowModel { deferred: s.deferred + events, ..s },
            Seq::<WindowAction>::empty(),
        ),
    decreases events.len(),
{
    let operations = arriving(events, readings);
    if events.len() == 0 {
        assert(s.deferred + events =~= s.deferred);
    } else {
        law_early_events_wait(s, events.drop_last(), readings);
        assert(operations.drop_last() =~= arriving(events.drop_last(), readings));
        assert((s.deferred + events.drop_last()).push(events.last()) =~= s.deferred + events);
        assert(Seq::<WindowAction>::empty() + Seq::<WindowAction>::empty() =~= Seq::<
            WindowAction,
        >::empty());
    }
}

/// Handling the events that waited comes to the same as if they, and those that
/// waited before them, had come only once they could be handled.
pub proof fn law_waiting_loses_nothing(
    s: WindowModel,
    events: Seq<WindowEvent>,
    early: Seq<WindowReadings>,
    late: Seq<WindowReadings>,
)
    requires
        !s.isolate_created,
    ensures
        ({
            let waited = run(s, arriving(events, early)).0;
            run(waited.released(), arriving(waited.deferred, late)) == run(
                s.released(),
                arriving(s.deferred + events, late),
            )
        }),
{
    law_early_events_wait(s, events, early);
}

/// Readings that an event does not call for have no influence.
pub proof fn law_only_needed_readings_matter(
    s: WindowModel,
    event: WindowEvent,
    r1: WindowReadings,
    r2: WindowReadings,
)
    requires
        agree(window::needed(s, event), r1, r2),
    ensures
        window::step(s, event, r1) == window::step(s, event, r2),
{
}

/// Each pointer event carries the ratio that was measured last. An operation
/// either leaves the ratio alone and sends no metrics, or records a ratio and
/// does nothing but send the metrics that were measured with it.
pub proof fn law_pointer_events_carry_the_measured_ratio(s: WindowModel, operation: Operation)
    ensures
        ({
            let (next, actions) = operate(s, operation);
            &&& forall|i: int|
                0 <= i < sent(actions).len() ==> (#[trigger] sent(
                    actions,
                )[i]).pixels_per_screen_coordinate == s.ratio
            &&& {
                ||| next.ratio == s.ratio && forall|i: int|
                    0 <= i < actions.len() ==> !((#[trigger] actions[i]) is SendWindowMetrics)
                ||| exists|r: WindowReadings|
                    next.ratio == #[trigger] r.ratio() && actions == seq![
                        WindowAction::SendWindowMetrics(r.metrics()),
                    ]
            }
        }),
{
    let (next, actions) = operate(s, operation);
    match operation {
        Operation::Event(event, r) => {
            if s.isolate_created {
                lemma_sent_answer(s, event, r);
                if window::resizes(event) {
                    assert(actions =~= seq![WindowAction::SendWindowMetrics(r.metrics())]);
                    assert(next.ratio == r.ratio());
                }
            }
        },
        Operation::Measure(r) => {
            reveal_with_fuel(sent, 2);
            assert(next.ratio == r.ratio());
        },
        Operation::Release => {},
    }
}

/// While the engine does not know the pointer, movements and buttons come from
/// outside of the window and are ignored, save for the button that leads back.
pub proof fn law_an_absent_pointer_stays_silent(
    s: WindowModel,
    event: WindowEvent,
    r: WindowReadings,
)
    requires
        s.isolate_created,
        !s.pointer_added,
        event is CursorPos || event is MouseButton,
        event != WindowEvent::MouseButton(MouseButton::Button4, InputAction::Press),
    ensures
        window::step(s, event, r) == (s, Seq::<WindowAction>::empty()),
{
    assert(window::answer(s, event, r) =~= Seq::empty());
}

/// Scrolling makes an unknown pointer known where the scrolling happens.
pub proof fn law_scrolling_introduces_the_pointer(
    s: WindowModel,
    dx: u64,
    dy: u64,
    r: WindowReadings,
)
    requires
        s.isolate_created,
        !s.pointer_added,
    ensures
        ({
            let (next, actions) = window::step(s, WindowEvent::Scroll(dx, dy), r);
            let events = sent(actions);
            &&& next.pointer_added
            &&& events.len() == 2
            &&& events[0] == events[1].introduction()
            &&& events[1].signal_kind is Scroll
        }),
{
    lemma_sent_answer(s, WindowEvent::Scroll(dx, dy), r);
}

/// Entering a window that the pointer is in, or leaving one that it is not in,
/// sends nothing; entering and then leaving sends the two events that say so.
pub proof fn law_entering_and_leaving(s: WindowModel, r1: WindowReadings, r2: WindowReadings)
    requires
        s.isolate_created,
    ensures
        window::step(s, WindowEvent::CursorEnter(s.pointer_added), r1) == (
            s,
            Seq::<WindowAction>::empty(),
        ),
        !s.pointer_added ==> ({
            let inside = window::step(s, WindowEvent::CursorEnter(true), r1);
            let outside = window::step(inside.0, WindowEvent::CursorEnter(false), r2);
            let events = sent(inside.1 + outside.1);
            &&& inside.0.pointer_added
            &&& outside.0 == s
            &&& events.len() == 2
            &&& events[0].phase is Add
            &&& events[1].phase is Remove
        }),
{
    assert(window::answer(s, WindowEvent::CursorEnter(s.pointer_added), r1) =~= Seq::empty());
    let inside = window::step(s, WindowEvent::CursorEnter(true), r1);
    let outside = window::step(inside.0, WindowEvent::CursorEnter(false), r2);
    lemma_sent_answer(s, WindowEvent::CursorEnter(true), r1);
    lemma_sent_answer(inside.0, WindowEvent::CursorEnter(false), r2);
    lemma_sent_concat(inside.1, outside.1);
}

/// Each key event is reported once, after the edit that it calls for, if any;
/// a release calls for none. No key changes the state.
pub proof fn law_each_key_is_reported_once(
    s: WindowModel,
    key: Key,
    scancode: i32,
    action: InputAction,
    modifiers: Modifiers,
    r: WindowReadings,
)
    requires
        s.isolate_created,
    ensures
        ({
            let (next, actions) = window::step(
                s,
                WindowEvent::Key(key, scancode, action, modifiers),
                r,
            );
            let report = KeyReport {
                down: !(action is Release),
                key,
                scancode,
                modifiers,
            };
            let edit = text::bound_edit(s.platform, key, modifiers);
            &&& next == s
            &&& actions == if !(action is Release) && edit is Some {
                seq![WindowAction::EditText(edit->0), WindowAction::ReportKey(report)]
            } else {
                seq![WindowAction::ReportKey(report)]
            }
        }),
{
}

/// A key that repeats does what its press did.
pub proof fn law_a_repeat_is_a_press(
    s: WindowModel,
    key: Key,
    scancode: i32,
    modifiers: Modifiers,
    r: WindowReadings,
)
    requires
        s.isolate_created,
    ensures
        window::step(
            s,
            WindowEvent::Key(key, scancode, InputAction::Repeat, modifiers),
            r,
        ) == window::step(s, WindowEvent::Key(key, scancode, InputAction::Press, modifiers), r),
{
    let repeat = WindowEvent::Key(key, scancode, InputAction::Repeat, modifiers);
    let press = WindowEvent::Key(key, scancode, InputAction::Press, modifiers);
    assert(window::answer(s, repeat, r) =~= window::answer(s, press, r));
}

/// Letters edit only together with the function key of the platform. Cutting
/// is copying followed by deleting what was copied.
pub proof fn law_letters_are_commands(platform: Platform, key: Key, modifiers: Modifiers)
    requires
        key is A || key is X || key is C || key is V,
    ensures
        text::bound_edit(platform, key, modifiers) is Some <==> modifiers.includes(
            platform.function_key(),
        ),
        modifiers.includes(platform.function_key()) ==> {
            let cut = text::bound_edit(platform, Key::X, modifiers)->0;
            let copy = text::bound_edit(platform, Key::C, modifiers)->0;
            &&& copy.first is CopySelected && copy.second is None
            &&& cut.first == copy.first
            &&& cut.second == Some(TextStep::DeleteSelected)
        },
{
}

/// The lock keys have no influence on edits.
pub proof fn law_lock_keys_change_no_edit(platform: Platform, key: Key, modifiers: Modifiers)
    ensures
        text::bound_edit(
            platform,
            key,
            Modifiers { bits: modifiers.bits | CAPS_LOCK | NUM_LOCK },
        ) == text::bound_edit(platform, key, modifiers),
{
    let b = modifiers.bits;
    assert((b | 0x10 | 0x20) & 0x1 == b & 0x1) by (bit_vector);
    assert((b | 0x10 | 0x20) & 0x2 == b & 0x2) by (bit_vector);
    assert((b | 0x10 | 0x20) & 0x4 == b & 0x4) by (bit_vector);
    assert((b | 0x10 | 0x20) & 0x8 == b & 0x8) by (bit_vector);
}

/// The button that leads back does so whether or not the engine knows the
/// pointer, sends the engine nothing and changes nothing.
pub proof fn law_the_back_button_navigates(s: WindowModel, r: WindowReadings)
    requires
        s.isolate_created,
    ensures
        window::step(
            s,
            WindowEvent::MouseButton(MouseButton::Button4, InputAction::Press),
            r,
        ) == (s, seq![WindowAction::PopRoute]),
{
    let event = WindowEvent::MouseButton(MouseButton::Button4, InputAction::Press);
    assert(window::answer(s, event, r) =~= seq![WindowAction::PopRoute]);
}

/// Requests to a main thread that takes them are all accepted, and are served
/// in the order in which they came, behind those that came before.
pub proof fn law_requests_are_served_in_order<W, C, S>(
    m: RuntimeModel<W, C, S>,
    callbacks: Seq<MainThreadCallback<W, C, S>>,
)
    requires
        m.connected,
    ensures
        post_all(m, callbacks).1,
        post_all(m, callbacks).0 == (RuntimeModel {
            connected: true,
            pending: m.pending + callbacks,
        }),
    decreases callbacks.len(),
{
    if callbacks.len() == 0 {
        assert(m.pending + callbacks =~= m.pending);
    } else {
        law_requests_are_served_in_order(m, callbacks.drop_last());
        assert((m.pending + callbacks.drop_last()).push(callbacks.last()) =~= m.pending
            + callbacks);
    }
}

/// A request is served once: what was taken is gone, and what comes later is
/// all that the next round serves.
pub proof fn law_requests_are_served_once<W, C, S>(
    m: RuntimeModel<W, C, S>,
    later: Seq<MainThreadCallback<W, C, S>>,
)
    requires
        m.connected,
    ensures
        m.drained().pending.len() == 0,
        post_all(m.drained(), later).0.pending == later,
{
    law_requests_are_served_in_order(m.drained(), later);
    assert(m.drained().pending + later =~= later);
}

/// A main thread that takes no more requests refuses each one, and posting
/// keeps what holds of every collection of requests.
pub proof fn law_disconnection_is_final<W, C, S>(
    m: RuntimeModel<W, C, S>,
    callback: MainThreadCallback<W, C, S>,
)
    requires
        m.well_formed(),
    ensures
        m.posting(callback).0.well_formed(),
        m.posting(callback).0.connected == m.connected,
        m.drained().well_formed(),
        m.drained().connected == m.connected,
        !m.connected ==> m.posting(callback) == (
            m,
            Err::<(), RuntimeMessageError>(RuntimeMessageError::SendError),
        ),
{
}

/// A window has the engine that it was given last, until it ends; the engines
/// of other windows stay as they are.
pub proof fn law_engines_belong_to_windows<E>(
    engines: Map<usize, Arc<E>>,
    address: usize,
    engine: Arc<E>,
    other: usize,
)
    ensures
        engines::engine_of(engines.insert(address, engine), address) == Some(engine),
        engines::engine_of(engines.remove(address), address) is None,
        other != address ==> engines::engine_of(engines.insert(address, engine), other)
            == engines::engine_of(engines, other),
        other != address ==> engines::engine_of(engines.remove(address), other)
            == engines::engine_of(engines, other),
{
}

/// A new window handles no events yet, has none waiting, its engine knows no
/// pointer, and its ratio is zero.
pub proof fn law_a_new_window_is_blank(address: usize, platform: Platform)
    ensures
        ({
            let s = WindowModel::initial(address, platform);
            &&& s.window == address
            &&& s.platform == platform
            &&& !s.pointer_added
            &&& s.ratio == (PixelRatio { framebuffer_width: 0, window_width: 1 })
            &&& !s.isolate_created
            &&& s.deferred.len() == 0
        }),
{
}

/// Letting events be handled does nothing else than that and emptying the
/// queue of those that waited.
pub proof fn law_release_changes_nothing_else(s: WindowModel)
    ensures
        s.released().isolate_created,
        s.released().deferred.len() == 0,
        s.released().window == s.window,
        s.released().platform == s.platform,
        s.released().pointer_added == s.pointer_added,
        s.released().ratio == s.ratio,
{
}

/// An event that comes too early joins the end of the queue and does nothing
/// else, whatever it is.
pub proof fn law_an_early_event_only_waits(s: WindowModel, event: WindowEvent, r: WindowReadings)
    requires
        !s.isolate_created,
    ensures
        ({
            let (next, actions) = window::step(s, event, r);
            &&& actions.len() == 0
            &&& next.deferred.len() == s.deferred.len() + 1
            &&& next.deferred.last() == event
            &&& next.deferred.drop_last() == s.deferred
            &&& next.window == s.window
            &&& next.platform == s.platform
            &&& next.pointer_added == s.pointer_added
            &&& next.ratio == s.ratio
            &&& !next.isolate_created
        }),
{
    assert(s.deferred.push(event).drop_last() =~= s.deferred);
}

/// In a window whose engine knows the pointer, a movement is sent as one event
/// at the place of the movement. It is a drag exactly if the left button reads
/// as pressed, and hovering otherwise, whatever was measured and wherever the
/// window runs.
pub proof fn law_movements_drag_exactly_with_the_left_button(
    s: WindowModel,
    x: u64,
    y: u64,
    r: WindowReadings,
)
    requires
        s.isolate_created,
        s.pointer_added,
    ensures
        ({
            let (next, actions) = window::step(s, WindowEvent::CursorPos(x, y), r);
            let e = actions[0]->SendPointerEvent_0;
            &&& next == s
            &&& actions.len() == 1
            &&& actions[0] is SendPointerEvent
            &&& e.phase is Move <==> r.left_button is Press
            &&& e.phase is Hover <==> !(r.left_button is Press)
            &&& e.x == (ScreenLength { bits: x, factor: 1 })
            &&& e.y == (ScreenLength { bits: y, factor: 1 })
            &&& e.signal_kind is NoSignal
            &&& e.scroll_delta_x == (ScreenLength { bits: 0, factor: 1 })
            &&& e.scroll_delta_y == (ScreenLength { bits: 0, factor: 1 })
            &&& e.buttons is Primary
            &&& e.pixels_per_screen_coordinate == s.ratio
        }),
{
}

/// The cursor crossing the border of the window sends one event at the cursor,
/// if the engine did not know of it: the pointer appears on the way in and
/// disappears on the way out. Afterwards the engine knows the pointer exactly
/// if the cursor is inside. Nothing else changes.
pub proof fn law_crossing_the_border_adds_and_removes(
    s: WindowModel,
    entered: bool,
    r: WindowReadings,
)
    requires
        s.isolate_created,
    ensures
        ({
            let (next, actions) = window::step(s, WindowEvent::CursorEnter(entered), r);
            &&& next == (WindowModel { pointer_added: entered, ..s })
            &&& actions.len() == if entered == s.pointer_added {
                0nat
            } else {
                1nat
            }
            &&& entered != s.pointer_added ==> {
                let e = actions[0]->SendPointerEvent_0;
                &&& actions[0] is SendPointerEvent
                &&& e.phase is Add <==> entered
                &&& e.phase is Remove <==> !entered
                &&& e.x == (ScreenLength { bits: r.cursor_x, factor: 1 })
                &&& e.y == (ScreenLength { bits: r.cursor_y, factor: 1 })
                &&& e.signal_kind is NoSignal
                &&& e.scroll_delta_x == (ScreenLength { bits: 0, factor: 1 })
                &&& e.scroll_delta_y == (ScreenLength { bits: 0, factor: 1 })
                &&& e.buttons is Primary
                &&& e.pixels_per_screen_coordinate == s.ratio
            }
        }),
{
}

/// In a window whose engine knows the pointer, a mouse button sends one event
/// at the cursor, which names the button: down if it was pressed, up
/// otherwise. The exception is the press of the fourth button, which leaves the
/// current route instead.
pub proof fn law_buttons_go_down_and_up_at_the_cursor(
    s: WindowModel,
    button: MouseButton,
    change: InputAction,
    r: WindowReadings,
)
    requires
        s.isolate_created,
        s.pointer_added,
    ensures
        ({
            let (next, actions) = window::step(s, WindowEvent::MouseButton(button, change), r);
            let e = actions[0]->SendPointerEvent_0;
            &&& next == s
            &&& actions.len() == 1
            &&& actions[0] is PopRoute <==> button is Button4 && change is Press
            &&& actions[0] is SendPointerEvent <==> !(button is Button4 && change is Press)
            &&& actions[0] is SendPointerEvent ==> {
                &&& e.phase is Down <==> change is Press
                &&& e.phase is Up <==> !(change is Press)
                &&& e.x == (ScreenLength { bits: r.cursor_x, factor: 1 })
                &&& e.y == (ScreenLength { bits: r.cursor_y, factor: 1 })
                &&& e.signal_kind is NoSignal
                &&& e.scroll_delta_x == (ScreenLength { bits: 0, factor: 1 })
                &&& e.scroll_delta_y == (ScreenLength { bits: 0, factor: 1 })
                &&& e.buttons is Secondary <==> button is Button2
                &&& e.buttons is Middle <==> button is Button3
                &&& e.buttons is Back <==> button is Button4
                &&& e.buttons is Forward <==> button is Button5
                &&& e.pixels_per_screen_coordinate == s.ratio
            }
        }),
{
}

/// Each mouse button has one name, and all that have no name of their own count
/// as the primary one.
pub proof fn law_buttons_keep_their_names(button: MouseButton)
    ensures
        pointer::engine_button(button) is Primary <==> button is Button1 || button is Button6
            || button is Button7 || button is Button8,
        pointer::engine_button(button) is Secondary <==> button is Button2,
        pointer::engine_button(button) is Middle <==> button is Button3,
        pointer::engine_button(button) is Back <==> button is Button4,
        pointer::engine_button(button) is Forward <==> button is Button5,
{
}

/// Scrolling sends, as its last event, the offsets at fifty screen coordinates
/// a unit, the vertical one turned round, at the cursor; zero offsets are no
/// exception. Before it comes at most the event that makes the pointer appear
/// in the same place, exactly if the engine did not know it. Scrolling with the
/// left button pressed is part of a drag.
pub proof fn law_scrolling_has_speed_and_direction(
    s: WindowModel,
    dx: u64,
    dy: u64,
    r: WindowReadings,
)
    requires
        s.isolate_created,
    ensures
        ({
            let (next, actions) = window::step(s, WindowEvent::Scroll(dx, dy), r);
            let e = actions.last()->SendPointerEvent_0;
            let a = actions[0]->SendPointerEvent_0;
            &&& next == (WindowModel { pointer_added: true, ..s })
            &&& actions.len() == if s.pointer_added {
                1nat
            } else {
                2nat
            }
            &&& actions.last() is SendPointerEvent
            &&& e.phase is Move <==> r.left_button is Press
            &&& e.phase is Hover <==> !(r.left_button is Press)
            &&& e.x == (ScreenLength { bits: r.cursor_x, factor: 1 })
            &&& e.y == (ScreenLength { bits: r.cursor_y, factor: 1 })
            &&& e.signal_kind is Scroll
            &&& e.scroll_delta_x.bits == dx
            &&& e.scroll_delta_x.factor == 50
            &&& e.scroll_delta_y.bits == dy
            &&& e.scroll_delta_y.factor == -50
            &&& e.buttons is Primary
            &&& e.pixels_per_screen_coordinate == s.ratio
            &&& !s.pointer_added ==> {
                &&& actions[0] is SendPointerEvent
                &&& a.phase is Add
                &&& a.x == e.x
                &&& a.y == e.y
                &&& a.signal_kind is NoSignal
                &&& a.scroll_delta_x == (ScreenLength { bits: 0, factor: 1 })
                &&& a.scroll_delta_y == (ScreenLength { bits: 0, factor: 1 })
                &&& a.buttons == e.buttons
                &&& a.pixels_per_screen_coordinate == s.ratio
            }
        }),
{
}

/// A resize and a rescale each send the metrics that were read, once, even
/// where nothing differs from what was measured before, and leave the ratio
/// that was read. Nothing else changes.
pub proof fn law_every_resize_is_told(
    s: WindowModel,
    width: i32,
    height: i32,
    r: WindowReadings,
)
    requires
        s.isolate_created,
    ensures
        forall|event: WindowEvent|
            event == WindowEvent::FramebufferSize(width, height) || event
                == WindowEvent::ContentScale ==> {
                let (next, actions) = #[trigger] window::step(s, event, r);
                let m = actions[0]->SendWindowMetrics_0;
                &&& actions.len() == 1
                &&& actions[0] is SendWindowMetrics
                &&& m.width == r.framebuffer_width
                &&& m.height == r.framebuffer_height
                &&& m.scale == r.content_scale
                &&& next.ratio.framebuffer_width == r.framebuffer_width
                &&& next.ratio.window_width == r.window_width
                &&& next == (WindowModel { ratio: next.ratio, ..s })
            },
{
}

/// Measuring a window records the two widths that were read and nothing else,
/// and the metrics are those that were read. That is what a resize comes to.
pub proof fn law_measuring_records_what_was_read(s: WindowModel, r: WindowReadings)
    ensures
        ({
            let next = s.measured(r);
            &&& next.ratio.framebuffer_width == r.framebuffer_width
            &&& next.ratio.window_width == r.window_width
            &&& next == (WindowModel { ratio: next.ratio, ..s })
            &&& r.metrics() == (WindowMetrics {
                width: r.framebuffer_width,
                height: r.framebuffer_height,
                scale: r.content_scale,
            })
            &&& s.isolate_created ==> window::step(s, WindowEvent::ContentScale, r) == (
                next,
                seq![WindowAction::SendWindowMetrics(r.metrics())],
            )
        }),
{
    assert(window::answer(s, WindowEvent::ContentScale, r) =~= seq![
        WindowAction::SendWindowMetrics(r.metrics()),
    ]);
}

/// A typed character is inserted, alone and once, whatever the state of the
/// window, which does not change.
pub proof fn law_typed_characters_are_inserted(s: WindowModel, c: char, r: WindowReadings)
    requires
        s.isolate_created,
    ensures
        ({
            let (next, actions) = window::step(s, WindowEvent::Char(c), r);
            let edit = actions[0]->EditText_0;
            &&& next == s
            &&& actions.len() == 1
            &&& actions[0] is EditText
            &&& edit.first == TextStep::AddCharacter(c)
            &&& edit.second is None
        }),
{
}

/// An event that calls for nothing gets nothing.
pub proof fn law_ignored_events_are_ignored(s: WindowModel, r: WindowReadings)
    requires
        s.isolate_created,
    ensures
        window::step(s, WindowEvent::Ignored, r).0 == s,
        window::step(s, WindowEvent::Ignored, r).1.len() == 0,
{
}

/// The window is read only for events that can be handled, and only for what
/// they depend on: the cursor where it crosses the border, scrolls or presses a
/// button, the left button where it moves or scrolls, and the measures where
/// they changed. Movements and buttons of a pointer that the engine does not
/// know, and the button that leads back, call for no reading.
pub proof fn law_the_window_is_read_for_a_reason(s: WindowModel, event: WindowEvent)
    ensures
        window::needed(s, event).cursor <==> s.isolate_created && (event is CursorEnter
            || event is Scroll || event is MouseButton && s.pointer_added && !(event
            == WindowEvent::MouseButton(MouseButton::Button4, InputAction::Press))),
        window::needed(s, event).left_button <==> s.isolate_created && (event is Scroll || event
            is CursorPos && s.pointer_added),
        window::needed(s, event).metrics <==> s.isolate_created && (event is FramebufferSize
            || event is ContentScale),
{
}

/// Conveying an event to an engine that knows the pointer sends it as it is,
/// unless it says that the pointer appears; to one that does not, nothing can
/// be sent before an event that says so, which is supplied where it is missing,
/// in the same place, with the same button and ratio, and without scrolling.
/// Only a disappearance leaves the pointer unknown.
pub proof fn law_conveying_fills_in_an_appearance(added: bool, event: PointerEvent)
    ensures
        ({
            let events = pointer::conveyed(added, event);
            &&& added && event.phase is Add ==> events.len() == 0
            &&& added && !(event.phase is Add) ==> events == seq![event]
            &&& !added && event.phase is Remove ==> events.len() == 0
            &&& !added && event.phase is Add ==> events == seq![event]
            &&& !added && !(event.phase is Add) && !(event.phase is Remove) ==> {
                &&& events.len() == 2
                &&& events[1] == event
                &&& events[0].phase is Add
                &&& events[0].x == event.x
                &&& events[0].y == event.y
                &&& events[0].signal_kind is NoSignal
                &&& events[0].scroll_delta_x == (ScreenLength { bits: 0, factor: 1 })
                &&& events[0].scroll_delta_y == (ScreenLength { bits: 0, factor: 1 })
                &&& events[0].buttons == event.buttons
                &&& events[0].pixels_per_screen_coordinate == event.pixels_per_screen_coordinate
            }
            &&& pointer::added_after(event) <==> !(event.phase is Remove)
        }),
{
    let events = pointer::conveyed(added, event);
    if !event.is_redundant(added) && !(!added && event.presumes_presence()) {
        assert(events =~= seq![event]);
    }
}

/// A bit pattern stands for its own length, unscaled.
pub proof fn law_lengths_keep_their_bits(bits: u64)
    ensures
        ScreenLength::of(bits).bits == bits,
        ScreenLength::of(bits).factor == 1,
        ScreenLength::zero().bits == 0,
        ScreenLength::zero().factor == 1,
{
}

/// A set of modifiers includes another exactly if no key of the other is
/// outside of it.
pub proof fn law_inclusion_leaves_no_key_out(modifiers: Modifiers, flags: Modifiers)
    ensures
        modifiers.includes(flags) <==> flags.bits & !modifiers.bits == 0,
{
    let (m, f) = (modifiers.bits, flags.bits);
    assert((m & f == f) == (f & !m == 0)) by (bit_vector);
}

/// Shift selects everywhere. On macOS words go with Alt and commands with
/// Super; elsewhere both go with Control.
pub proof fn law_platforms_differ_in_their_keys(platform: Platform)
    ensures
        platform.select_key().bits == 0x1,
        platform.by_word_key().bits == if platform is MacOs {
            0x4i32
        } else {
            0x2i32
        },
        platform.function_key().bits == if platform is MacOs {
            0x8i32
        } else {
            0x2i32
        },
{
}

proof fn lemma_single_bits(b: i32)
    ensures
        b & 0x1 == 0x1 <==> b & 0x1 != 0,
        b & 0x2 == 0x2 <==> b & 0x2 != 0,
        b & 0x4 == 0x4 <==> b & 0x4 != 0,
        b & 0x8 == 0x8 <==> b & 0x8 != 0,
{
    assert((b & 0x1 == 0x1) == (b & 0x1 != 0)) by (bit_vector);
    assert((b & 0x2 == 0x2) == (b & 0x2 != 0)) by (bit_vector);
    assert((b & 0x4 == 0x4) == (b & 0x4 != 0)) by (bit_vector);
    assert((b & 0x8 == 0x8) == (b & 0x8 != 0)) by (bit_vector);
}

/// The left and right arrow keys move in their direction and do nothing else:
/// by words exactly with Alt on macOS and with Control elsewhere, by characters
/// otherwise, selecting exactly with Shift. They differ in nothing but the
/// direction.
pub proof fn law_arrows_move_by_word_with_the_word_key(platform: Platform, modifiers: Modifiers)
    ensures
        ({
            let left = text::bound_edit(platform, Key::Left, modifiers);
            let right = text::bound_edit(platform, Key::Right, modifiers);
            let word_bit: i32 = if platform is MacOs {
                0x4
            } else {
                0x2
            };
            &&& left is Some && left->0.second is None && left->0.first is MoveLeft
            &&& right is Some && right->0.second is None && right->0.first is MoveRight
            &&& left->0.first->MoveLeft_by_word <==> modifiers.bits & word_bit != 0
            &&& left->0.first->MoveLeft_select <==> modifiers.bits & 0x1 != 0
            &&& right->0.first->MoveRight_by_word == left->0.first->MoveLeft_by_word
            &&& right->0.first->MoveRight_select == left->0.first->MoveLeft_select
        }),
{
    lemma_single_bits(modifiers.bits);
}

/// The keys that move by lines or to either end do just that, on every
/// platform, and select exactly with Shift.
pub proof fn law_line_keys_select_with_shift(platform: Platform, modifiers: Modifiers)
    ensures
        ({
            let up = text::bound_edit(platform, Key::Up, modifiers);
            let down = text::bound_edit(platform, Key::Down, modifiers);
            let home = text::bound_edit(platform, Key::Home, modifiers);
            let end = text::bound_edit(platform, Key::End, modifiers);
            let shift = modifiers.bits & 0x1 != 0;
            &&& up is Some && up->0.second is None && up->0.first is MoveUp
            &&& down is Some && down->0.second is None && down->0.first is MoveDown
            &&& home is Some && home->0.second is None && home->0.first is MoveToBeginning
            &&& end is Some && end->0.second is None && end->0.first is MoveToEnd
            &&& up->0.first->MoveUp_select == shift
            &&& down->0.first->MoveDown_select == shift
            &&& home->0.first->MoveToBeginning_select == shift
            &&& end->0.first->MoveToEnd_select == shift
        }),
{
    lemma_single_bits(modifiers.bits);
}

/// The keys that insert a line break or delete do so on every platform and
/// with any modifiers, and do nothing else.
pub proof fn law_line_break_and_deletion_take_no_modifiers(
    platform: Platform,
    modifiers: Modifiers,
)
    ensures
        ({
            let enter = text::bound_edit(platform, Key::Enter, modifiers);
            let backspace = text::bound_edit(platform, Key::Backspace, modifiers);
            let delete = text::bound_edit(platform, Key::Delete, modifiers);
            &&& enter is Some && enter->0.second is None
            &&& enter->0.first == TextStep::AddCharacter('\n')
            &&& backspace is Some && backspace->0.second is None
            &&& backspace->0.first is Backspace
            &&& delete is Some && delete->0.second is None && delete->0.first is Delete
        }),
{
}

/// The command letters select everything, cut, copy and paste, exactly with
/// Super on macOS and with Control elsewhere, whatever else is held; without
/// that key they edit nothing. Cutting copies before it deletes.
pub proof fn law_command_letters(platform: Platform, modifiers: Modifiers)
    ensures
        ({
            let all = text::bound_edit(platform, Key::A, modifiers);
            let cut = text::bound_edit(platform, Key::X, modifiers);
            let copy = text::bound_edit(platform, Key::C, modifiers);
            let insert = text::bound_edit(platform, Key::V, modifiers);
            let command_bit: i32 = if platform is MacOs {
                0x8
            } else {
                0x2
            };
            let command = modifiers.bits & command_bit != 0;
            &&& all is Some <==> command
            &&& cut is Some <==> command
            &&& copy is Some <==> command
            &&& insert is Some <==> command
            &&& command ==> {
                &&& all->0.first is SelectAll && all->0.second is None
                &&& cut->0.first is CopySelected && cut->0.second == Some(TextStep::DeleteSelected)
                &&& copy->0.first is CopySelected && copy->0.second is None
                &&& insert->0.first is PasteClipboard && insert->0.second is None
            }
        }),
{
    lemma_single_bits(modifiers.bits);
}

/// Keys without a binding edit nothing.
pub proof fn law_other_keys_edit_nothing(platform: Platform, code: i32, modifiers: Modifiers)
    ensures
        text::bound_edit(platform, Key::Other(code), modifiers) is None,
{
}

/// An edit of one step consists of that step.
pub proof fn law_single_edits_have_one_step(step: TextStep)
    ensures
        text::single(step).first == step,
        text::single(step).second is None,
{
}

/// Serving a request hands over what was requested, unchanged: a function to be
/// called goes where it was meant for, and a message keeps its channel and its
/// bytes and expects no response.
pub proof fn law_serving_hands_over_the_request<W, C, S>(
    on_window: W,
    on_channel: C,
    on_state: S,
    name: &'static str,
    channel: String,
    message: Vec<u8>,
)
    ensures
        runtime::served(MainThreadCallback::<W, C, S>::WindowFn(on_window))
            == MainThreadAction::<W, C, S>::CallWithWindow(on_window),
        runtime::served(MainThreadCallback::<W, C, S>::ChannelFn(name, on_channel))
            == MainThreadAction::<W, C, S>::CallWithChannel(name, on_channel),
        runtime::served(MainThreadCallback::<W, C, S>::PlatformMessage(channel, message))
            == MainThreadAction::<W, C, S>::SendPlatformMessage(
            PlatformMessage { channel, message, awaits_response: false },
        ),
        runtime::served(MainThreadCallback::<W, C, S>::WindowStateFn(on_state))
            == MainThreadAction::<W, C, S>::CallWithWindowState(on_state),
{
}

/// A request to a main thread that takes requests is accepted and joins the
/// end of the queue; nothing else changes.
pub proof fn law_an_accepted_request_is_last_in_line<W, C, S>(
    m: RuntimeModel<W, C, S>,
    callback: MainThreadCallback<W, C, S>,
)
    requires
        m.connected,
    ensures
        ({
            let (next, posted) = m.posting(callback);
            &&& posted is Ok
            &&& next.connected
            &&& next.pending.len() == m.pending.len() + 1
            &&& next.pending.last() == callback
            &&& next.pending.drop_last() == m.pending
        }),
{
    assert(m.pending.push(callback).drop_last() =~= m.pending);
}

/// Looking up the engine of a window finds one exactly if the window is
/// registered, and then the one that it is registered with.
pub proof fn law_lookup_finds_what_is_registered<E>(engines: Map<usize, Arc<E>>, address: usize)
    ensures
        engines::engine_of(engines, address) is Some <==> engines.dom().contains(address),
        engines.dom().contains(address) ==> engines::engine_of(engines, address)->0
            == engines[address],
{
}

} // verus!
