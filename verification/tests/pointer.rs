use flutter_engine::engines::Engines;
use flutter_engine::input::{InputAction, MouseButton, Platform, WindowEvent};
use flutter_engine::pointer::{
    pointer_button, FlutterPointerMouseButtons, FlutterPointerPhase, FlutterPointerSignalKind,
    PixelRatio, PointerEvent, ScreenLength,
};
use flutter_engine::window::{
    DesktopWindowState, NeededReadings, WindowAction, WindowMetrics, WindowReadings,
};

fn window() -> DesktopWindowState {
    let mut engines: Engines<()> = Engines::new();
    let (mut state, _) = DesktopWindowState::new(1, Platform::Other, (), (), &mut engines);
    assert!(state.set_isolate_created().is_empty());
    state
}

fn readings() -> WindowReadings {
    WindowReadings {
        cursor_x: 12.5f64.to_bits(),
        cursor_y: 7.25f64.to_bits(),
        left_button: InputAction::Release,
        window_width: 800,
        framebuffer_width: 1600,
        framebuffer_height: 1200,
        content_scale: 2.0f32.to_bits(),
    }
}

fn dragging() -> WindowReadings {
    WindowReadings {
        left_button: InputAction::Press,
        ..readings()
    }
}

fn length(value: f64) -> ScreenLength {
    ScreenLength { bits: value.to_bits(), factor: 1 }
}

fn ratio() -> PixelRatio {
    PixelRatio { framebuffer_width: 0, window_width: 1 }
}

fn plain(phase: FlutterPointerPhase, buttons: FlutterPointerMouseButtons) -> PointerEvent {
    PointerEvent {
        phase,
        x: length(12.5),
        y: length(7.25),
        signal_kind: FlutterPointerSignalKind::NoSignal,
        scroll_delta_x: length(0.0),
        scroll_delta_y: length(0.0),
        buttons,
        pixels_per_screen_coordinate: ratio(),
    }
}

fn primary(phase: FlutterPointerPhase) -> WindowAction {
    WindowAction::SendPointerEvent(plain(phase, FlutterPointerMouseButtons::Primary))
}

fn phases(actions: &[WindowAction]) -> Vec<FlutterPointerPhase> {
    let mut phases = Vec::new();
    for action in actions {
        if let WindowAction::SendPointerEvent(event) = action {
            phases.push(event.phase);
        }
    }
    phases
}

#[test]
fn entering_adds_and_leaving_removes() {
    let mut state = window();
    let entered = state.handle_glfw_event(WindowEvent::CursorEnter(true), readings());
    assert_eq!(entered, vec![primary(FlutterPointerPhase::Add)]);
    let left = state.handle_glfw_event(WindowEvent::CursorEnter(false), readings());
    assert_eq!(left, vec![primary(FlutterPointerPhase::Remove)]);
}

#[test]
fn entering_or_leaving_twice_is_silent() {
    let mut state = window();
    assert!(state.handle_glfw_event(WindowEvent::CursorEnter(false), readings()).is_empty());
    assert_eq!(state.handle_glfw_event(WindowEvent::CursorEnter(true), readings()).len(), 1);
    assert!(state.handle_glfw_event(WindowEvent::CursorEnter(true), readings()).is_empty());
    assert_eq!(state.handle_glfw_event(WindowEvent::CursorEnter(false), readings()).len(), 1);
    assert!(state.handle_glfw_event(WindowEvent::CursorEnter(false), readings()).is_empty());
}

#[test]
fn movement_hovers_or_drags_at_the_event_position() {
    let mut state = window();
    state.handle_glfw_event(WindowEvent::CursorEnter(true), readings());
    let moved = WindowEvent::CursorPos(3.0f64.to_bits(), 4.0f64.to_bits());
    let at = |phase| {
        vec![WindowAction::SendPointerEvent(PointerEvent {
            x: length(3.0),
            y: length(4.0),
            ..plain(phase, FlutterPointerMouseButtons::Primary)
        })]
    };
    assert_eq!(state.handle_glfw_event(moved, readings()), at(FlutterPointerPhase::Hover));
    assert_eq!(state.handle_glfw_event(moved, dragging()), at(FlutterPointerPhase::Move));
    let repeating = WindowReadings { left_button: InputAction::Repeat, ..readings() };
    assert_eq!(state.handle_glfw_event(moved, repeating), at(FlutterPointerPhase::Hover));
}

#[test]
fn an_absent_pointer_is_silent() {
    let mut state = window();
    let moved = WindowEvent::CursorPos(1, 2);
    assert!(state.handle_glfw_event(moved, dragging()).is_empty());
    for action in [InputAction::Press, InputAction::Release, InputAction::Repeat] {
        let button = WindowEvent::MouseButton(MouseButton::Button1, action);
        assert!(state.handle_glfw_event(button, readings()).is_empty());
    }
    let back = WindowEvent::MouseButton(MouseButton::Button4, InputAction::Release);
    assert!(state.handle_glfw_event(back, readings()).is_empty());
}

#[test]
fn buttons_go_down_and_up() {
    let mut state = window();
    state.handle_glfw_event(WindowEvent::CursorEnter(true), readings());
    let names = [
        (MouseButton::Button1, FlutterPointerMouseButtons::Primary),
        (MouseButton::Button2, FlutterPointerMouseButtons::Secondary),
        (MouseButton::Button3, FlutterPointerMouseButtons::Middle),
        (MouseButton::Button5, FlutterPointerMouseButtons::Forward),
        (MouseButton::Button6, FlutterPointerMouseButtons::Primary),
        (MouseButton::Button7, FlutterPointerMouseButtons::Primary),
        (MouseButton::Button8, FlutterPointerMouseButtons::Primary),
    ];
    for (button, name) in names {
        let down = WindowEvent::MouseButton(button, InputAction::Press);
        assert_eq!(
            state.handle_glfw_event(down, readings()),
            vec![WindowAction::SendPointerEvent(plain(FlutterPointerPhase::Down, name))],
        );
        for action in [InputAction::Release, InputAction::Repeat] {
            let up = WindowEvent::MouseButton(button, action);
            assert_eq!(
                state.handle_glfw_event(up, readings()),
                vec![WindowAction::SendPointerEvent(plain(FlutterPointerPhase::Up, name))],
            );
        }
    }
}

#[test]
fn the_back_button_leaves_the_route_when_pressed() {
    let mut state = window();
    let press = WindowEvent::MouseButton(MouseButton::Button4, InputAction::Press);
    assert_eq!(state.handle_glfw_event(press, readings()), vec![WindowAction::PopRoute]);
    state.handle_glfw_event(WindowEvent::CursorEnter(true), readings());
    assert_eq!(state.handle_glfw_event(press, readings()), vec![WindowAction::PopRoute]);
    let release = WindowEvent::MouseButton(MouseButton::Button4, InputAction::Release);
    assert_eq!(
        state.handle_glfw_event(release, readings()),
        vec![WindowAction::SendPointerEvent(plain(
            FlutterPointerPhase::Up,
            FlutterPointerMouseButtons::Back,
        ))],
    );
    assert_eq!(pointer_button(MouseButton::Button4), FlutterPointerMouseButtons::Back);
}

#[test]
fn scrolling_introduces_the_pointer_and_flips_the_vertical_axis() {
    let mut state = window();
    let scroll = WindowEvent::Scroll(1.5f64.to_bits(), 2.0f64.to_bits());
    let scrolled = |phase| {
        WindowAction::SendPointerEvent(PointerEvent {
            signal_kind: FlutterPointerSignalKind::Scroll,
            scroll_delta_x: ScreenLength { bits: 1.5f64.to_bits(), factor: 50 },
            scroll_delta_y: ScreenLength { bits: 2.0f64.to_bits(), factor: -50 },
            ..plain(phase, FlutterPointerMouseButtons::Primary)
        })
    };
    assert_eq!(
        state.handle_glfw_event(scroll, readings()),
        vec![primary(FlutterPointerPhase::Add), scrolled(FlutterPointerPhase::Hover)],
    );
    assert_eq!(
        state.handle_glfw_event(scroll, dragging()),
        vec![scrolled(FlutterPointerPhase::Move)],
    );
    let left = state.handle_glfw_event(WindowEvent::CursorEnter(false), readings());
    assert_eq!(left, vec![primary(FlutterPointerPhase::Remove)]);
}

#[test]
fn the_engine_sees_an_orderly_pointer() {
    let mut state = window();
    let mut seen = Vec::new();
    let events = [
        WindowEvent::CursorPos(1, 1),
        WindowEvent::CursorEnter(false),
        WindowEvent::Scroll(1, 1),
        WindowEvent::CursorEnter(true),
        WindowEvent::MouseButton(MouseButton::Button1, InputAction::Press),
        WindowEvent::CursorEnter(false),
        WindowEvent::MouseButton(MouseButton::Button1, InputAction::Release),
        WindowEvent::CursorEnter(true),
        WindowEvent::CursorPos(2, 2),
    ];
    for event in events {
        seen.extend(phases(&state.handle_glfw_event(event, readings())));
    }
    assert_eq!(
        seen,
        vec![
            FlutterPointerPhase::Add,
            FlutterPointerPhase::Hover,
            FlutterPointerPhase::Down,
            FlutterPointerPhase::Remove,
            FlutterPointerPhase::Add,
            FlutterPointerPhase::Hover,
        ],
    );
}

#[test]
fn metrics_are_sent_and_scale_later_pointer_events() {
    let metrics = WindowAction::SendWindowMetrics(WindowMetrics {
        width: 1600,
        height: 1200,
        scale: 2.0f32.to_bits(),
    });
    let measured = PixelRatio { framebuffer_width: 1600, window_width: 800 };
    let mut resized = window();
    let event = WindowEvent::FramebufferSize(1, 1);
    assert_eq!(resized.handle_glfw_event(event, readings()), vec![metrics]);
    let mut rescaled = window();
    assert_eq!(rescaled.handle_glfw_event(WindowEvent::ContentScale, readings()), vec![metrics]);
    let mut told = window();
    assert_eq!(told.send_scale_or_size_change(readings()), metrics);
    for state in [&mut resized, &mut rescaled, &mut told] {
        assert_eq!(
            state.handle_glfw_event(WindowEvent::CursorEnter(true), readings()),
            vec![WindowAction::SendPointerEvent(PointerEvent {
                pixels_per_screen_coordinate: measured,
                ..plain(FlutterPointerPhase::Add, FlutterPointerMouseButtons::Primary)
            })],
        );
    }
}

#[test]
fn only_needed_readings_are_asked_for() {
    let nothing = NeededReadings { cursor: false, left_button: false, metrics: false };
    let cursor = NeededReadings { cursor: true, ..nothing };
    let button = NeededReadings { left_button: true, ..nothing };
    let metrics = NeededReadings { metrics: true, ..nothing };
    let press = |button| WindowEvent::MouseButton(button, InputAction::Press);
    let mut state = window();
    assert_eq!(state.needed_readings(WindowEvent::CursorEnter(true)), cursor);
    assert_eq!(state.needed_readings(WindowEvent::CursorPos(1, 2)), nothing);
    assert_eq!(state.needed_readings(press(MouseButton::Button1)), nothing);
    assert_eq!(state.needed_readings(WindowEvent::FramebufferSize(1, 2)), metrics);
    assert_eq!(state.needed_readings(WindowEvent::ContentScale), metrics);
    assert_eq!(
        state.needed_readings(WindowEvent::Scroll(1, 2)),
        NeededReadings { cursor: true, left_button: true, metrics: false },
    );
    assert_eq!(state.needed_readings(WindowEvent::Char('a')), nothing);
    state.handle_glfw_event(WindowEvent::CursorEnter(true), readings());
    assert_eq!(state.needed_readings(WindowEvent::CursorPos(1, 2)), button);
    assert_eq!(state.needed_readings(press(MouseButton::Button1)), cursor);
    assert_eq!(state.needed_readings(press(MouseButton::Button4)), nothing);
}

#[test]
fn readings_that_are_not_needed_have_no_influence() {
    let other = WindowReadings {
        left_button: InputAction::Press,
        window_width: 1,
        framebuffer_width: 2,
        framebuffer_height: 3,
        content_scale: 4,
        ..readings()
    };
    let event = WindowEvent::CursorEnter(true);
    assert_eq!(
        window().handle_glfw_event(event, readings()),
        window().handle_glfw_event(event, other),
    );
}
