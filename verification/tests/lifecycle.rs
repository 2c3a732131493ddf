use flutter_engine::engines::{get_engine, Engines};
use flutter_engine::input::{InputAction, Key, Modifiers, MouseButton, Platform, WindowEvent};
use flutter_engine::runtime::{
    MainThreadAction, MainThreadCallback, RuntimeData, RuntimeMessageError,
};
use flutter_engine::window::{
    DesktopWindowState, NeededReadings, ShutdownStep, WindowAction, WindowReadings,
};
use std::sync::Arc;

fn readings(cursor_x: u64) -> WindowReadings {
    WindowReadings {
        cursor_x,
        cursor_y: 9,
        left_button: InputAction::Press,
        window_width: 640,
        framebuffer_width: 640,
        framebuffer_height: 480,
        content_scale: 1.0f32.to_bits(),
    }
}

fn events() -> Vec<WindowEvent> {
    vec![
        WindowEvent::Char('a'),
        WindowEvent::CursorEnter(true),
        WindowEvent::FramebufferSize(640, 480),
        WindowEvent::CursorPos(5, 6),
        WindowEvent::MouseButton(MouseButton::Button1, InputAction::Press),
        WindowEvent::Key(Key::Enter, 28, InputAction::Press, Modifiers { bits: 0 }),
        WindowEvent::CursorEnter(false),
    ]
}

fn fresh() -> DesktopWindowState {
    let mut engines: Engines<()> = Engines::new();
    DesktopWindowState::new(1, Platform::Other, (), (), &mut engines).0
}

fn handle_all(state: &mut DesktopWindowState, events: Vec<WindowEvent>) -> Vec<WindowAction> {
    let mut actions = Vec::new();
    for event in events {
        actions.extend(state.handle_glfw_event(event, readings(8)));
    }
    actions
}

#[test]
fn early_events_wait_in_order() {
    let mut state = fresh();
    for event in events() {
        assert_eq!(
            state.needed_readings(event),
            NeededReadings { cursor: false, left_button: false, metrics: false },
        );
        assert!(state.handle_glfw_event(event, readings(7)).is_empty());
    }
    let waiting: Vec<WindowEvent> = state.set_isolate_created().into_iter().collect();
    assert_eq!(waiting, events());
    assert!(state.set_isolate_created().is_empty());
}

#[test]
fn waiting_loses_nothing() {
    let mut late = fresh();
    for event in events() {
        late.handle_glfw_event(event, readings(7));
    }
    let waiting: Vec<WindowEvent> = late.set_isolate_created().into_iter().collect();
    let mut prompt = fresh();
    prompt.set_isolate_created();
    let actions = handle_all(&mut prompt, events());
    assert_eq!(handle_all(&mut late, waiting), actions);
    assert_eq!(actions.len(), 8);
    assert_eq!(handle_all(&mut late, events()), handle_all(&mut prompt, events()));
}

#[test]
fn measuring_works_before_the_isolate_exists() {
    let mut state = fresh();
    let told = state.send_scale_or_size_change(readings(7));
    state.set_isolate_created();
    let resized = state.handle_glfw_event(WindowEvent::ContentScale, readings(7));
    assert_eq!(resized, vec![told]);
}

#[test]
fn a_window_has_its_engine_until_it_ends() {
    let mut engines: Engines<&str> = Engines::new();
    assert!(get_engine(&engines, 16).is_none());
    let (first, data) =
        DesktopWindowState::new(16, Platform::Other, "one", "requests", &mut engines);
    let (second, _) = DesktopWindowState::new(32, Platform::MacOs, "two", "", &mut engines);
    assert_eq!(*data.engine, "one");
    assert_eq!(*data.runtime_data, "requests");
    let found = get_engine(&engines, 16).unwrap();
    assert!(Arc::ptr_eq(&found, &data.engine));
    assert_eq!(*get_engine(&engines, 32).unwrap(), "two");
    assert_eq!(
        first.shutdown(&mut engines),
        vec![
            ShutdownStep::ShutDownEngine,
            ShutdownStep::ShutDownRuntime,
            ShutdownStep::DisconnectMainThread,
        ],
    );
    assert!(get_engine(&engines, 16).is_none());
    assert_eq!(*get_engine(&engines, 32).unwrap(), "two");
    second.shutdown(&mut engines);
    assert!(get_engine(&engines, 32).is_none());
}

#[test]
fn a_new_engine_takes_the_place_of_the_old_one() {
    let mut engines: Engines<&str> = Engines::new();
    DesktopWindowState::new(16, Platform::Other, "one", (), &mut engines);
    DesktopWindowState::new(16, Platform::Other, "two", (), &mut engines);
    assert_eq!(*get_engine(&engines, 16).unwrap(), "two");
}

type Requests = RuntimeData<u8, u16, u32>;

fn served(runtime: &mut Requests) -> Vec<String> {
    let mut log = Vec::new();
    for action in DesktopWindowState::handle_main_thread_callbacks(runtime) {
        log.push(match action {
            MainThreadAction::CallWithWindow(f) => format!("window {}", f),
            MainThreadAction::CallWithChannel(name, f) => format!("channel {} {}", name, f),
            MainThreadAction::SendPlatformMessage(sent) => format!(
                "message {} {:?} {}",
                sent.channel, sent.message, sent.awaits_response
            ),
            MainThreadAction::CallWithWindowState(f) => format!("state {}", f),
        });
    }
    log
}

#[test]
fn requests_are_served_in_order_and_once() {
    let mut runtime: Requests = RuntimeData::new();
    assert_eq!(runtime.with_window(1), Ok(()));
    assert_eq!(runtime.with_channel("flutter/lifecycle", 2), Ok(()));
    assert_eq!(runtime.send_message(String::from("flutter/keyevent"), vec![3, 4]), Ok(()));
    assert_eq!(runtime.with_window_state(5), Ok(()));
    assert_eq!(runtime.with_window_result(6), Ok(()));
    assert_eq!(
        served(&mut runtime),
        vec![
            "window 1",
            "channel flutter/lifecycle 2",
            "message flutter/keyevent [3, 4] false",
            "state 5",
            "window 6",
        ],
    );
    assert!(served(&mut runtime).is_empty());
    assert_eq!(runtime.with_window(7), Ok(()));
    assert_eq!(served(&mut runtime), vec!["window 7"]);
}

#[test]
fn a_disconnected_main_thread_refuses_requests() {
    let mut runtime: Requests = RuntimeData::new();
    runtime.with_window(1).unwrap();
    runtime.with_window_state(2).unwrap();
    let abandoned: Vec<MainThreadCallback<u8, u16, u32>> =
        runtime.disconnect().into_iter().collect();
    assert_eq!(abandoned.len(), 2);
    assert!(matches!(abandoned[0], MainThreadCallback::WindowFn(1)));
    assert!(matches!(abandoned[1], MainThreadCallback::WindowStateFn(2)));
    let refused = Err(RuntimeMessageError::SendError);
    assert_eq!(runtime.with_window(3), refused);
    assert_eq!(runtime.with_window_result(3), refused);
    assert_eq!(runtime.with_channel("c", 3), refused);
    assert_eq!(runtime.send_message(String::new(), Vec::new()), refused);
    assert_eq!(runtime.with_window_state(3), refused);
    assert!(served(&mut runtime).is_empty());
}

#[test]
fn a_result_is_received_or_never_comes() {
    assert_eq!(Requests::window_result(Some("title")), Ok("title"));
    assert_eq!(
        Requests::window_result::<u8>(None),
        Err(RuntimeMessageError::ReceiveError),
    );
}

#[test]
fn plugins_are_called_where_there_are_any() {
    let add = |window: u8, plugin: u8| window + plugin;
    let called = DesktopWindowState::with_window_and_plugin_mut_result(3, Some(4), add);
    assert_eq!(called, Some(7));
    let uncalled = DesktopWindowState::with_window_and_plugin_mut_result(
        3,
        None,
        |_: u8, _: u8| -> u8 { panic!("there is no plugin") },
    );
    assert_eq!(uncalled, None);
}
