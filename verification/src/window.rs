//! The state of a window and its answer to each event.

use crate::engines::Engines;
use crate::input::{InputAction, Key, Modifiers, MouseButton, Platform, WindowEvent};
use crate::pointer::{
    pointer_button, FlutterPointerMouseButtons, FlutterPointerPhase, FlutterPointerSignalKind,
    PixelRatio, PointerEvent, ScreenLength, SCROLL_SPEED,
};
use crate::runtime::{MainThreadAction, MainThreadCallback, RuntimeData};
use crate::text::{char_edit, key_edit, TextEdit};
use std::collections::VecDeque;
use std::sync::Arc;
use vstd::prelude::*;

verus! {

/// What can be read off a window while it handles an event. Positions are the
/// bit patterns of double-precision numbers, the horizontal content scale that
/// of a single-precision number.
#[derive(Clone, Copy, Debug, PartialEq, Eq, Structural)]
pub struct WindowReadings {
    pub cursor_x: u64,
    pub cursor_y: u64,
    pub left_button: InputAction,
    pub window_width: i32,
    pub framebuffer_width: i32,
    pub framebuffer_height: i32,
    pub content_scale: u32,
}

/// Which readings an event calls for.
#[derive(Clone, Copy, Debug, PartialEq, Eq, Structural)]
pub struct NeededReadings {
    /// The position of the cursor.
    pub cursor: bool,
    /// The state of the left mouse button.
    pub left_button: bool,
    /// The sizes of window and framebuffer, and the content scale.
    pub metrics: bool,
}

/// A key report for the key-event plugin.
#[derive(Clone, Copy, Debug, PartialEq, Eq, Structural)]
pub struct KeyReport {
    pub down: bool,
    pub key: Key,
    pub scancode: i32,
    pub modifiers: Modifiers,
}

/// The metrics of a window for the engine: the size of its framebuffer, and its
/// content scale as the bit pattern of a single-precision number.
#[derive(Clone, Copy, Debug, PartialEq, Eq, Structural)]
pub struct WindowMetrics {
    pub width: i32,
    pub height: i32,
    pub scale: u32,
}

/// What is to be done in answer to an event.
#[derive(Clone, Copy, Debug, PartialEq, Eq, Structural)]
pub enum WindowAction {
    /// Send the engine a pointer event.
    SendPointerEvent(PointerEvent),
    /// Send the engine the metrics of the window.
    SendWindowMetrics(WindowMetrics),
    /// Have the navigation plugin leave the current route.
    PopRoute,
    /// Have the text-input plugin apply an edit, then notify the changes.
    EditText(TextEdit),
    /// Have the key-event plugin report a key.
    ReportKey(KeyReport),
}

/// A step of the end of a window.
#[derive(Clone, Copy, Debug, PartialEq, Eq, Structural)]
pub enum ShutdownStep {
    /// Shut the engine down.
    ShutDownEngine,
    /// Shut the asynchronous runtime down, and wait for that.
    ShutDownRuntime,
    /// Take no more requests to the main thread.
    DisconnectMainThread,
}

/// Data accessible during initialization and on the main thread.
pub struct InitData<E, D> {
    pub engine: Arc<E>,
    pub runtime_data: Arc<D>,
}

/// The state of a window that hosts an engine.
pub struct DesktopWindowState {
    window: usize,
    platform: Platform,
    pointer_currently_added: bool,
    window_pixels_per_screen_coordinate: PixelRatio,
    isolate_created: bool,
    defered_events: VecDeque<WindowEvent>,
}

/// What a `DesktopWindowState` stands for.
#[verifier::ext_equal]
pub struct WindowModel {
    /// The window, by its address.
    pub window: usize,
    pub platform: Platform,
    /// The engine knows the pointer.
    pub pointer_added: bool,
    /// The ratio between pixels and screen coordinates when last measured.
    pub ratio: PixelRatio,
    /// Events can be handled.
    pub isolate_created: bool,
    /// The events that wait until events can be handled, oldest first.
    pub deferred: Seq<WindowEvent>,
}

impl WindowModel {
    /// The state of a new window.
    pub open spec fn initial(window: usize, platform: Platform) -> WindowModel {
        WindowModel {
            window,
            platform,
            pointer_added: false,
            ratio: PixelRatio::unmeasured(),
            isolate_created: false,
            deferred: Seq::empty(),
        }
    }

    /// Events wait only until they can be handled.
    pub open spec fn well_formed(self) -> bool {
        self.isolate_created ==> self.deferred.len() == 0
    }

    /// The state once `event` waits.
    pub open spec fn deferring(self, event: WindowEvent) -> WindowModel {
        WindowModel { deferred: self.deferred.push(event), ..self }
    }

    /// The state once events can be handled and none waits.
    pub open spec fn released(self) -> WindowModel {
        WindowModel { isolate_created: true, deferred: Seq::empty(), ..self }
    }

    /// The state once the window was measured.
    pub open spec fn measured(self, readings: WindowReadings) -> WindowModel {
        WindowModel { ratio: readings.ratio(), ..self }
    }
}

impl WindowReadings {
    /// The ratio between pixels and screen coordinates.
    pub open spec fn ratio(self) -> PixelRatio {
        PixelRatio {
            framebuffer_width: self.framebuffer_width,
            window_width: self.window_width,
        }
    }

    /// The metrics for the engine.
    pub open spec fn metrics(self) -> WindowMetrics {
        WindowMetrics {
            width: self.framebuffer_width,
            height: self.framebuffer_height,
            scale: self.content_scale,
        }
    }

    /// The phase of a movement.
    pub open spec fn movement(self) -> FlutterPointerPhase {
        if self.left_button == InputAction::Press {
            FlutterPointerPhase::Move
        } else {
            FlutterPointerPhase::Hover
        }
    }
}

/// The event is the press of the button that leads back.
pub open spec fn navigates_back(event: WindowEvent) -> bool {
    event == WindowEvent::MouseButton(MouseButton::Button4, InputAction::Press)
}

/// The event changes the metrics of the window.
pub open spec fn resizes(event: WindowEvent) -> bool {
    event is FramebufferSize || event is ContentScale
}

/// The pointer event that `event` amounts to in state `s`. Movements and
/// buttons count only while the engine knows the pointer: they also come from
/// outside of the window, at the end of a drag.
pub open spec fn pointer_input(s: WindowModel, event: WindowEvent, r: WindowReadings) -> Option<
    PointerEvent,
> {
    let primary = FlutterPointerMouseButtons::Primary;
    match event {
        WindowEvent::CursorEnter(entered) => {
            let phase = if entered {
                FlutterPointerPhase::Add
            } else {
                FlutterPointerPhase::Remove
            };
            Some(PointerEvent::plain(phase, r.cursor_x, r.cursor_y, primary, s.ratio))
        },
        WindowEvent::CursorPos(x, y) if s.pointer_added => {
            Some(PointerEvent::plain(r.movement(), x, y, primary, s.ratio))
        },
        WindowEvent::MouseButton(button, action) if s.pointer_added && !navigates_back(event) => {
            let phase = if action == InputAction::Press {
                FlutterPointerPhase::Down
            } else {
                FlutterPointerPhase::Up
            };
            Some(
                PointerEvent::plain(
                    phase,
                    r.cursor_x,
                    r.cursor_y,
                    crate::pointer::engine_button(button),
                    s.ratio,
                ),
            )
        },
        WindowEvent::Scroll(dx, dy) => Some(
            PointerEvent {
                signal_kind: FlutterPointerSignalKind::Scroll,
                scroll_delta_x: ScreenLength { bits: dx, factor: SCROLL_SPEED },
                scroll_delta_y: ScreenLength { bits: dy, factor: (-SCROLL_SPEED) as i32 },
                ..PointerEvent::plain(r.movement(), r.cursor_x, r.cursor_y, primary, s.ratio)
            },
        ),
        _ => None,
    }
}

/// The text edit that `event` calls for.
pub open spec fn text_input(s: WindowModel, event: WindowEvent) -> Option<TextEdit> {
    match event {
        WindowEvent::Char(c) => Some(crate::text::single(crate::text::TextStep::AddCharacter(c))),
        WindowEvent::Key(key, _, action, modifiers) if action != InputAction::Release => {
            crate::text::bound_edit(s.platform, key, modifiers)
        },
        _ => None,
    }
}

/// The key report that `event` calls for.
pub open spec fn key_report(event: WindowEvent) -> Option<KeyReport> {
    match event {
        WindowEvent::Key(key, scancode, action, modifiers) => Some(
            KeyReport { down: action != InputAction::Release, key, scancode, modifiers },
        ),
        _ => None,
    }
}

/// The pointer events that the engine is sent for `event`.
pub open spec fn sent_for(s: WindowModel, event: WindowEvent, r: WindowReadings) -> Seq<
    PointerEvent,
> {
    match pointer_input(s, event, r) {
        Some(input) => crate::pointer::conveyed(s.pointer_added, input),
        None => Seq::empty(),
    }
}

/// Pointer events as actions.
pub open spec fn sending(events: Seq<PointerEvent>) -> Seq<WindowAction> {
    events.map_values(|event: PointerEvent| WindowAction::SendPointerEvent(event))
}

/// The actions that answer `event`, in the order in which they happen.
pub open spec fn answer(s: WindowModel, event: WindowEvent, r: WindowReadings) -> Seq<WindowAction> {
    let pointer = sending(sent_for(s, event, r));
    let metrics = if resizes(event) {
        seq![WindowAction::SendWindowMetrics(r.metrics())]
    } else {
        Seq::empty()
    };
    let navigation = if navigates_back(event) {
        seq![WindowAction::PopRoute]
    } else {
        Seq::empty()
    };
    let text = match text_input(s, event) {
        Some(edit) => seq![WindowAction::EditText(edit)],
        None => Seq::empty(),
    };
    let key = match key_report(event) {
        Some(report) => seq![WindowAction::ReportKey(report)],
        None => Seq::empty(),
    };
    pointer + metrics + navigation + text + key
}

/// The state once `event` was handled.
pub open spec fn handled(s: WindowModel, event: WindowEvent, r: WindowReadings) -> WindowModel {
    WindowModel {
        pointer_added: match pointer_input(s, event, r) {
            Some(input) => crate::pointer::added_after(input),
            None => s.pointer_added,
        },
        ratio: if resizes(event) {
            r.ratio()
        } else {
            s.ratio
        },
        ..s
    }
}

/// What an event comes to: the next state and the actions. Until events can be
/// handled they wait, and nothing is done.
pub open spec fn step(s: WindowModel, event: WindowEvent, r: WindowReadings) -> (
    WindowModel,
    Seq<WindowAction>,
) {
    if s.isolate_created {
        (handled(s, event, r), answer(s, event, r))
    } else {
        (s.deferring(event), Seq::empty())
    }
}

/// The readings that `event` calls for in state `s`.
pub open spec fn needed(s: WindowModel, event: WindowEvent) -> NeededReadings {
    let pointer = s.isolate_created && match event {
        WindowEvent::CursorEnter(_) | WindowEvent::Scroll(_, _) => true,
        WindowEvent::CursorPos(_, _) => s.pointer_added,
        WindowEvent::MouseButton(_, _) => s.pointer_added && !navigates_back(event),
        _ => false,
    };
    NeededReadings {
        cursor: pointer && !(event is CursorPos),
        left_button: pointer && (event is CursorPos || event is Scroll),
        metrics: s.isolate_created && resizes(event),
    }
}

impl View for DesktopWindowState {
    type V = WindowModel;

    closed spec fn view(&self) -> WindowModel {
        WindowModel {
            window: self.window,
            platform: self.platform,
            pointer_added: self.pointer_currently_added,
            ratio: self.window_pixels_per_screen_coordinate,
            isolate_created: self.isolate_created,
            deferred: self.defered_events@,
        }
    }
}

impl DesktopWindowState {
    /// Returns the state of a new window, and its engine together with the
    /// requests to its main thread. The engine becomes that of the window.
    pub fn new<E, D>(
        window: usize,
        platform: Platform,
        engine: E,
        runtime_data: D,
        engines: &mut Engines<E>,
    ) -> (created: (Self, Arc<InitData<E, D>>))
        ensures
            created.0@ == WindowModel::initial(window, platform),
            created.0@.well_formed(),
            *created.1.engine == engine,
            *created.1.runtime_data == runtime_data,
            final(engines)@ == old(engines)@.insert(window, created.1.engine),
    {
        let engine: Arc<E> = Arc::new(engine);
        let init_data: Arc<InitData<E, D>> = Arc::new(
            InitData { engine: engine.clone(), runtime_data: Arc::new(runtime_data) },
        );
        engines.register(window, engine);
        let state = DesktopWindowState {
            window,
            platform,
            pointer_currently_added: false,
            window_pixels_per_screen_coordinate: PixelRatio {
                framebuffer_width: 0,
                window_width: 1,
            },
            isolate_created: false,
            defered_events: VecDeque::new(),
        };
        (state, init_data)
    }

    /// Records the measures of the window. Returns the action that tells the
    /// engine of them.
    pub fn send_scale_or_size_change(&mut self, readings: WindowReadings) -> (action: WindowAction)
        ensures
            final(self)@ == old(self)@.measured(readings),
            old(self)@.well_formed() ==> final(self)@.well_formed(),
            action == WindowAction::SendWindowMetrics(readings.metrics()),
    {
        self.window_pixels_per_screen_coordinate = PixelRatio {
            framebuffer_width: readings.framebuffer_width,
            window_width: readings.window_width,
        };
        WindowAction::SendWindowMetrics(
            WindowMetrics {
                width: readings.framebuffer_width,
                height: readings.framebuffer_height,
                scale: readings.content_scale,
            },
        )
    }

    /// Conveys a pointer event to the engine: adds the actions to `actions`.
    fn send_pointer_event(
        &mut self,
        phase: FlutterPointerPhase,
        x: ScreenLength,
        y: ScreenLength,
        signal_kind: FlutterPointerSignalKind,
        scroll_delta_x: ScreenLength,
        scroll_delta_y: ScreenLength,
        buttons: FlutterPointerMouseButtons,
        actions: &mut Vec<WindowAction>,
    )
        ensures
            ({
                let event = PointerEvent {
                    phase,
                    x,
                    y,
                    signal_kind,
                    scroll_delta_x,
                    scroll_delta_y,
                    buttons,
                    pixels_per_screen_coordinate: old(self)@.ratio,
                };
                &&& final(actions)@ == old(actions)@ + sending(
                    crate::pointer::conveyed(old(self)@.pointer_added, event),
                )
                &&& final(self)@ == (WindowModel {
                    pointer_added: crate::pointer::added_after(event),
                    ..old(self)@
                })
            }),
        decreases
            (if phase == FlutterPointerPhase::Add {
                0int
            } else {
                1int
            }),
    {
        let event = PointerEvent {
            phase,
            x,
            y,
            signal_kind,
            scroll_delta_x,
            scroll_delta_y,
            buttons,
            pixels_per_screen_coordinate: self.window_pixels_per_screen_coordinate,
        };
        if !self.pointer_currently_added && phase != FlutterPointerPhase::Add && phase
            != FlutterPointerPhase::Remove {
            self.send_pointer_event(
                FlutterPointerPhase::Add,
                x,
                y,
                FlutterPointerSignalKind::NoSignal,
                ScreenLength::from_bits(0),
                ScreenLength::from_bits(0),
                buttons,
                actions,
            );
        }
        if self.pointer_currently_added && phase == FlutterPointerPhase::Add
            || !self.pointer_currently_added && phase == FlutterPointerPhase::Remove {
            return;
        }
        actions.push(WindowAction::SendPointerEvent(event));
        match phase {
            FlutterPointerPhase::Add => {
                self.pointer_currently_added = true;
            },
            FlutterPointerPhase::Remove => {
                self.pointer_currently_added = false;
            },
            _ => {},
        }
    }

    /// Returns which readings of the window `event` calls for.
    pub fn needed_readings(&self, event: WindowEvent) -> (readings: NeededReadings)
        ensures
            readings == needed(self@, event),
    {
        let nothing = NeededReadings { cursor: false, left_button: false, metrics: false };
        if !self.isolate_created {
            return nothing;
        }
        match event {
            WindowEvent::CursorEnter(_) => NeededReadings { cursor: true, ..nothing },
            WindowEvent::CursorPos(_, _) => NeededReadings {
                left_button: self.pointer_currently_added,
                ..nothing
            },
            WindowEvent::MouseButton(MouseButton::Button4, InputAction::Press) => nothing,
            WindowEvent::MouseButton(_, _) => NeededReadings {
                cursor: self.pointer_currently_added,
                ..nothing
            },
            WindowEvent::Scroll(_, _) => NeededReadings {
                cursor: true,
                left_button: true,
                ..nothing
            },
            WindowEvent::FramebufferSize(_, _) | WindowEvent::ContentScale => NeededReadings {
                metrics: true,
                ..nothing
            },
            _ => nothing,
        }
    }

    /// Handles an event of the window. Returns the actions to perform, in order.
    /// Of `readings`, only those that `needed_readings` names are looked at.
    pub fn handle_glfw_event(&mut self, event: WindowEvent, readings: WindowReadings) -> (actions:
        Vec<WindowAction>)
        ensures
            (final(self)@, actions@) == step(old(self)@, event, readings),
            old(self)@.well_formed() ==> final(self)@.well_formed(),
    {
        let mut actions: Vec<WindowAction> = Vec::new();
        if !self.isolate_created {
            self.defered_events.push_back(event);
            return actions;
        }
        let movement = if readings.left_button == InputAction::Press {
            FlutterPointerPhase::Move
        } else {
            FlutterPointerPhase::Hover
        };
        let cursor_x = ScreenLength::from_bits(readings.cursor_x);
        let cursor_y = ScreenLength::from_bits(readings.cursor_y);
        let zero = ScreenLength::from_bits(0);
        match event {
            WindowEvent::CursorEnter(entered) => {
                self.send_pointer_event(
                    if entered {
                        FlutterPointerPhase::Add
                    } else {
                        FlutterPointerPhase::Remove
                    },
                    cursor_x,
                    cursor_y,
                    FlutterPointerSignalKind::NoSignal,
                    zero,
                    zero,
                    FlutterPointerMouseButtons::Primary,
                    &mut actions,
                );
            },
            WindowEvent::CursorPos(x, y) => {
                if self.pointer_currently_added {
                    self.send_pointer_event(
                        movement,
                        ScreenLength::from_bits(x),
                        ScreenLength::from_bits(y),
                        FlutterPointerSignalKind::NoSignal,
                        zero,
                        zero,
                        FlutterPointerMouseButtons::Primary,
                        &mut actions,
                    );
                }
            },
            WindowEvent::MouseButton(MouseButton::Button4, InputAction::Press) => {
                actions.push(WindowAction::PopRoute);
            },
            WindowEvent::MouseButton(button, action) => {
                if self.pointer_currently_added {
                    self.send_pointer_event(
                        if action == InputAction::Press {
                            FlutterPointerPhase::Down
                        } else {
                            FlutterPointerPhase::Up
                        },
                        cursor_x,
                        cursor_y,
                        FlutterPointerSignalKind::NoSignal,
                        zero,
                        zero,
                        pointer_button(button),
                        &mut actions,
                    );
                }
            },
            WindowEvent::Scroll(scroll_delta_x, scroll_delta_y) => {
                self.send_pointer_event(
                    movement,
                    cursor_x,
                    cursor_y,
                    FlutterPointerSignalKind::Scroll,
                    ScreenLength { bits: scroll_delta_x, factor: SCROLL_SPEED },
                    ScreenLength { bits: scroll_delta_y, factor: -SCROLL_SPEED },
                    FlutterPointerMouseButtons::Primary,
                    &mut actions,
                );
            },
            WindowEvent::FramebufferSize(_, _) | WindowEvent::ContentScale => {
                let action = self.send_scale_or_size_change(readings);
                actions.push(action);
            },
            WindowEvent::Char(character) => {
                actions.push(WindowAction::EditText(char_edit(character)));
            },
            WindowEvent::Key(key, scancode, action, modifiers) => {
                let down = action != InputAction::Release;
                if down {
                    if let Some(edit) = key_edit(self.platform, key, modifiers) {
                        actions.push(WindowAction::EditText(edit));
                    }
                }
                actions.push(
                    WindowAction::ReportKey(KeyReport { down, key, scancode, modifiers }),
                );
            },
            WindowEvent::Ignored => {},
        }
        assert(actions@ =~= answer(old(self)@, event, readings));
        actions
    }

    /// Lets events be handled from now on. Returns those that waited for it,
    /// oldest first: they are to be handled next, in that order.
    pub fn set_isolate_created(&mut self) -> (waiting: VecDeque<WindowEvent>)
        ensures
            waiting@ == old(self)@.deferred,
            final(self)@ == old(self)@.released(),
            final(self)@.well_formed(),
    {
        self.isolate_created = true;
        let mut waiting: VecDeque<WindowEvent> = VecDeque::new();
        waiting.append(&mut self.defered_events);
        waiting
    }

    /// Takes all requests to the main thread. Returns what to do for them,
    /// oldest request first. Requests that come while that is being done wait
    /// for the next call.
    pub fn handle_main_thread_callbacks<W, C, S>(runtime: &mut RuntimeData<W, C, S>) -> (actions:
        Vec<MainThreadAction<W, C, S>>)
        ensures
            actions@ == old(runtime)@.pending.map_values(
                |callback: MainThreadCallback<W, C, S>| crate::runtime::served(callback),
            ),
            final(runtime)@ == old(runtime)@.drained(),
            final(runtime)@.well_formed(),
    {
        let mut callbacks: VecDeque<MainThreadCallback<W, C, S>> = runtime.take_pending();
        let ghost all = callbacks@;
        let ghost serve = |callback: MainThreadCallback<W, C, S>| crate::runtime::served(callback);
        let mut actions: Vec<MainThreadAction<W, C, S>> = Vec::new();
        while callbacks.len() > 0
            invariant
                actions@.len() + callbacks@.len() == all.len(),
                callbacks@ == all.skip(actions@.len() as int),
                actions@ == all.take(actions@.len() as int).map_values(serve),
                serve == (|callback: MainThreadCallback<W, C, S>|
                    crate::runtime::served(callback)),
            decreases callbacks@.len(),
        {
            let ghost done = actions@.len() as int;
            if let Some(callback) = callbacks.pop_front() {
                actions.push(callback.serve());
                assert(all.take(done + 1).map_values(serve) =~= all.take(done).map_values(
                    serve,
                ).push(serve(all[done])));
            }
        }
        assert(all.take(actions@.len() as int) =~= all);
        actions
    }

    /// Calls `f` with the window and a plugin. Returns what `f` returned, or
    /// `None`, without a call, where there is no such plugin.
    pub fn with_window_and_plugin_mut_result<W, P, R, F: FnOnce(W, P) -> R>(
        window: W,
        plugin: Option<P>,
        f: F,
    ) -> (result: Option<R>)
        requires
            plugin matches Some(p) ==> f.requires((window, p)),
        ensures
            match plugin {
                Some(p) => result matches Some(value) && f.ensures((window, p), value),
                None => result is None,
            },
    {
        match plugin {
            Some(p) => Some(f(window, p)),
            None => None,
        }
    }

    /// Ends the window: from now on it has no engine. Returns what is left to
    /// do, in order.
    pub fn shutdown<E>(self, engines: &mut Engines<E>) -> (steps: Vec<ShutdownStep>)
        ensures
            final(engines)@ == old(engines)@.remove(self@.window),
            steps@ == seq![
                ShutdownStep::ShutDownEngine,
                ShutdownStep::ShutDownRuntime,
                ShutdownStep::DisconnectMainThread,
            ],
    {
        engines.unregister(self.window);
        let mut steps: Vec<ShutdownStep> = Vec::new();
        steps.push(ShutdownStep::ShutDownEngine);
        steps.push(ShutdownStep::ShutDownRuntime);
        steps.push(ShutdownStep::DisconnectMainThread);
        steps
    }
}

} // verus!
