use flutter_engine::engines::Engines;
use flutter_engine::input::{
    InputAction, Key, Modifiers, Platform, WindowEvent, ALT, CAPS_LOCK, CONTROL, NUM_LOCK, SHIFT,
    SUPER,
};
use flutter_engine::text::{char_edit, key_edit, paste, Paste, TextEdit, TextStep};
use flutter_engine::window::{DesktopWindowState, KeyReport, WindowAction, WindowReadings};

fn readings() -> WindowReadings {
    WindowReadings {
        cursor_x: 0,
        cursor_y: 0,
        left_button: InputAction::Release,
        window_width: 1,
        framebuffer_width: 1,
        framebuffer_height: 1,
        content_scale: 0,
    }
}

fn window(platform: Platform) -> DesktopWindowState {
    let mut engines: Engines<()> = Engines::new();
    let (mut state, _) = DesktopWindowState::new(1, platform, (), (), &mut engines);
    state.set_isolate_created();
    state
}

fn step(first: TextStep) -> Option<TextEdit> {
    Some(TextEdit { first, second: None })
}

fn edit(key: Key, bits: i32) -> Option<TextEdit> {
    key_edit(Platform::Other, key, Modifiers { bits })
}

fn mac_edit(key: Key, bits: i32) -> Option<TextEdit> {
    key_edit(Platform::MacOs, key, Modifiers { bits })
}

#[test]
fn editing_keys_edit() {
    assert_eq!(edit(Key::Enter, 0), step(TextStep::AddCharacter('\n')));
    assert_eq!(edit(Key::Backspace, 0), step(TextStep::Backspace));
    assert_eq!(edit(Key::Delete, 0), step(TextStep::Delete));
    assert_eq!(edit(Key::Other(32), 0), None);
    assert_eq!(edit(Key::Other(32), CONTROL), None);
}

#[test]
fn shift_selects() {
    for (bits, select) in [(0, false), (SHIFT, true), (SHIFT | ALT, true), (ALT, false)] {
        assert_eq!(edit(Key::Up, bits), step(TextStep::MoveUp { select }));
        assert_eq!(edit(Key::Down, bits), step(TextStep::MoveDown { select }));
        assert_eq!(edit(Key::Home, bits), step(TextStep::MoveToBeginning { select }));
        assert_eq!(edit(Key::End, bits), step(TextStep::MoveToEnd { select }));
    }
}

#[test]
fn the_word_key_depends_on_the_platform() {
    for select in [false, true] {
        let shift = if select { SHIFT } else { 0 };
        assert_eq!(
            edit(Key::Left, shift | CONTROL),
            step(TextStep::MoveLeft { by_word: true, select }),
        );
        assert_eq!(
            edit(Key::Right, shift | ALT),
            step(TextStep::MoveRight { by_word: false, select }),
        );
        assert_eq!(
            mac_edit(Key::Left, shift | CONTROL),
            step(TextStep::MoveLeft { by_word: false, select }),
        );
        assert_eq!(
            mac_edit(Key::Right, shift | ALT),
            step(TextStep::MoveRight { by_word: true, select }),
        );
    }
}

#[test]
fn letters_are_commands_with_the_function_key() {
    let cut = Some(TextEdit {
        first: TextStep::CopySelected,
        second: Some(TextStep::DeleteSelected),
    });
    let commands = [
        (Key::A, step(TextStep::SelectAll)),
        (Key::X, cut),
        (Key::C, step(TextStep::CopySelected)),
        (Key::V, step(TextStep::PasteClipboard)),
    ];
    for (key, command) in commands {
        assert_eq!(edit(key, CONTROL), command);
        assert_eq!(edit(key, CONTROL | SHIFT), command);
        assert_eq!(edit(key, 0), None);
        assert_eq!(edit(key, SUPER), None);
        assert_eq!(mac_edit(key, SUPER), command);
        assert_eq!(mac_edit(key, CONTROL), None);
    }
}

#[test]
fn lock_keys_have_no_influence() {
    for key in [Key::Left, Key::Home, Key::C, Key::Enter, Key::Other(1)] {
        for bits in [0, SHIFT, CONTROL, SHIFT | CONTROL] {
            assert_eq!(edit(key, bits | CAPS_LOCK | NUM_LOCK), edit(key, bits));
        }
    }
}

#[test]
fn modifiers_contain_all_flags_or_not() {
    let held = Modifiers { bits: SHIFT | CONTROL };
    assert!(held.contains(Modifiers { bits: SHIFT }));
    assert!(held.contains(Modifiers { bits: SHIFT | CONTROL }));
    assert!(!held.contains(Modifiers { bits: SHIFT | ALT }));
    assert!(held.contains(Modifiers { bits: 0 }));
}

#[test]
fn platforms_name_their_keys() {
    assert_eq!(Platform::Other.select_modifier_key().bits, SHIFT);
    assert_eq!(Platform::MacOs.select_modifier_key().bits, SHIFT);
    assert_eq!(Platform::Other.by_word_modifier_key().bits, CONTROL);
    assert_eq!(Platform::MacOs.by_word_modifier_key().bits, ALT);
    assert_eq!(Platform::Other.function_modifier_key().bits, CONTROL);
    assert_eq!(Platform::MacOs.function_modifier_key().bits, SUPER);
}

#[test]
fn keys_edit_first_and_are_reported_then() {
    let modifiers = Modifiers { bits: SUPER };
    let report = |down| WindowAction::ReportKey(KeyReport {
        down,
        key: Key::X,
        scancode: 53,
        modifiers,
    });
    let cut = WindowAction::EditText(TextEdit {
        first: TextStep::CopySelected,
        second: Some(TextStep::DeleteSelected),
    });
    let mut state = window(Platform::MacOs);
    for action in [InputAction::Press, InputAction::Repeat] {
        let event = WindowEvent::Key(Key::X, 53, action, modifiers);
        assert_eq!(state.handle_glfw_event(event, readings()), vec![cut, report(true)]);
    }
    let event = WindowEvent::Key(Key::X, 53, InputAction::Release, modifiers);
    assert_eq!(state.handle_glfw_event(event, readings()), vec![report(false)]);
    let mut elsewhere = window(Platform::Other);
    let event = WindowEvent::Key(Key::X, 53, InputAction::Press, modifiers);
    assert_eq!(elsewhere.handle_glfw_event(event, readings()), vec![report(true)]);
}

#[test]
fn characters_are_inserted() {
    let mut state = window(Platform::Other);
    assert_eq!(
        state.handle_glfw_event(WindowEvent::Char('\u{e9}'), readings()),
        vec![WindowAction::EditText(char_edit('\u{e9}'))],
    );
    assert_eq!(
        char_edit('q'),
        TextEdit { first: TextStep::AddCharacter('q'), second: None },
    );
}

#[test]
fn other_events_call_for_nothing() {
    let mut state = window(Platform::Other);
    assert!(state.handle_glfw_event(WindowEvent::Ignored, readings()).is_empty());
}

#[test]
fn only_text_is_pasted() {
    match paste(Some(String::from("two words"))) {
        Paste::AddCharacters(text) => assert_eq!(text, "two words"),
        Paste::NotText => panic!("text is pasted"),
    }
    assert!(matches!(paste(None), Paste::NotText));
}
