use hala_imgui::bridge::{BridgeError, FontTexture, HalaImGui};
use hala_imgui::buttons::{GuiButton, MouseButton};
use hala_imgui::input::{Capture, HostEvent, ScrollDelta};

type WindowInput = hala_imgui::input::WindowInput<f32>;
type InputEvent = hala_imgui::input::InputEvent<f32>;
use hala_imgui::keys::{Key, KeyCode, NativeKeyCode, PhysicalKey};

fn open_frame() -> HalaImGui {
    let mut gui = HalaImGui::new(1);
    gui.font_texture_created(FontTexture { width: 512, height: 64 }).expect("first font texture");
    gui.begin_frame(800, 600).expect("no frame is open");
    gui
}

/// What an event writes into the GUI's input model while a frame is open.
fn gui_events(input: &WindowInput) -> Vec<InputEvent> {
    open_frame().gui_events(input).expect("a frame is open")
}

fn key_input(code: KeyCode, pressed: bool, text: Option<&str>) -> WindowInput {
    WindowInput::KeyboardInput {
        physical_key: PhysicalKey::Code(code),
        pressed,
        text: text.map(String::from),
        is_synthetic: false,
    }
}

fn key(key: Key, down: bool) -> InputEvent {
    InputEvent::Key { key, down }
}

fn character(character: char) -> InputEvent {
    InputEvent::Character { character }
}

#[test]
fn modifier_change_writes_the_four_combined_modifiers() {
    let input =
        WindowInput::ModifiersChanged { control: true, shift: false, alt: true, super_key: false };
    assert_eq!(
        gui_events(&input),
        vec![
            key(Key::ModCtrl, true),
            key(Key::ModShift, false),
            key(Key::ModAlt, true),
            key(Key::ModSuper, false),
        ]
    );
    assert_eq!(HalaImGui::capture_to_read(&input), None);
    assert_eq!(HalaImGui::host_event(&input, false), None);
    assert_eq!(HalaImGui::host_event(&input, true), None);
}

#[test]
fn key_press_writes_the_key_and_its_text() {
    let input = key_input(KeyCode::KeyA, true, Some("a"));
    assert_eq!(gui_events(&input), vec![key(Key::A, true), character('a')]);
}

#[test]
fn key_release_writes_the_key_without_text() {
    let input = key_input(KeyCode::KeyA, false, Some("a"));
    assert_eq!(gui_events(&input), vec![key(Key::A, false)]);
    let input = key_input(KeyCode::Enter, false, None);
    assert_eq!(gui_events(&input), vec![key(Key::Enter, false)]);
}

#[test]
fn text_is_written_character_by_character() {
    let input = key_input(KeyCode::KeyE, true, Some("é\u{301}ß漢😀"));
    assert_eq!(
        gui_events(&input),
        vec![
            key(Key::E, true),
            character('é'),
            character('\u{301}'),
            character('ß'),
            character('漢'),
            character('😀'),
        ]
    );
    let input = key_input(KeyCode::KeyE, true, Some(""));
    assert_eq!(gui_events(&input), vec![key(Key::E, true)]);
}

#[test]
fn modifier_key_also_writes_the_combined_modifier() {
    let cases = [
        (KeyCode::ControlLeft, Key::LeftCtrl, Key::ModCtrl),
        (KeyCode::ControlRight, Key::RightCtrl, Key::ModCtrl),
        (KeyCode::ShiftLeft, Key::LeftShift, Key::ModShift),
        (KeyCode::ShiftRight, Key::RightShift, Key::ModShift),
        (KeyCode::AltLeft, Key::LeftAlt, Key::ModAlt),
        (KeyCode::AltRight, Key::RightAlt, Key::ModAlt),
        (KeyCode::SuperLeft, Key::LeftSuper, Key::ModSuper),
        (KeyCode::SuperRight, Key::RightSuper, Key::ModSuper),
    ];
    for (code, own, combined) in cases {
        for pressed in [true, false] {
            assert_eq!(
                gui_events(&key_input(code, pressed, None)),
                vec![key(own, pressed), key(combined, pressed)]
            );
        }
    }
}

#[test]
fn unmapped_key_writes_only_its_text() {
    let input = key_input(KeyCode::IntlBackslash, true, Some("<"));
    assert_eq!(gui_events(&input), vec![character('<')]);
    let input = key_input(KeyCode::F13, true, None);
    assert_eq!(gui_events(&input), Vec::new());
    let input = WindowInput::KeyboardInput {
        physical_key: PhysicalKey::Unidentified(NativeKeyCode::Xkb(94)),
        pressed: true,
        text: Some(String::from("|")),
        is_synthetic: false,
    };
    assert_eq!(gui_events(&input), vec![character('|')]);
}

#[test]
fn synthetic_key_event_is_ignored() {
    let input = WindowInput::KeyboardInput {
        physical_key: PhysicalKey::Code(KeyCode::KeyA),
        pressed: true,
        text: Some(String::from("a")),
        is_synthetic: true,
    };
    assert_eq!(gui_events(&input), Vec::new());
    assert_eq!(HalaImGui::capture_to_read(&input), None);
    assert_eq!(HalaImGui::host_event(&input, false), None);
    assert_eq!(HalaImGui::host_event(&input, true), None);
}

#[test]
fn key_event_goes_to_the_host_unless_captured() {
    let input = key_input(KeyCode::KeyA, true, Some("a"));
    assert_eq!(HalaImGui::capture_to_read(&input), Some(Capture::Keyboard));
    assert_eq!(
        HalaImGui::host_event(&input, false),
        Some(HostEvent::<f32>::Keyboard { key: KeyCode::KeyA, pressed: true })
    );
    assert_eq!(HalaImGui::host_event(&input, true), None);
    let input = key_input(KeyCode::F13, false, None);
    assert_eq!(HalaImGui::capture_to_read(&input), Some(Capture::Keyboard));
    assert_eq!(
        HalaImGui::host_event(&input, false),
        Some(HostEvent::<f32>::Keyboard { key: KeyCode::F13, pressed: false })
    );
    assert_eq!(HalaImGui::host_event(&input, true), None);
}

#[test]
fn key_without_a_position_never_goes_to_the_host() {
    let input = WindowInput::KeyboardInput {
        physical_key: PhysicalKey::Unidentified(NativeKeyCode::Windows(0x56)),
        pressed: true,
        text: None,
        is_synthetic: false,
    };
    assert_eq!(HalaImGui::capture_to_read(&input), Some(Capture::Keyboard));
    assert_eq!(HalaImGui::host_event(&input, false), None);
    assert_eq!(HalaImGui::host_event(&input, true), None);
}

#[test]
fn committed_text_is_written_and_stays_with_the_gui() {
    let input = WindowInput::ImeCommit { committed: String::from("日本語") };
    assert_eq!(
        gui_events(&input),
        vec![character('日'), character('本'), character('語')]
    );
    assert_eq!(HalaImGui::capture_to_read(&input), None);
    assert_eq!(HalaImGui::host_event(&input, false), None);
    let empty = WindowInput::ImeCommit { committed: String::new() };
    assert_eq!(gui_events(&empty), Vec::new());
}

#[test]
fn mouse_button_is_written_with_its_gui_button() {
    let input = WindowInput::MouseInput { button: MouseButton::Right, pressed: true };
    assert_eq!(
        gui_events(&input),
        vec![InputEvent::MouseButton { button: GuiButton::Right, down: true }]
    );
    let input = WindowInput::MouseInput { button: MouseButton::Other(4), pressed: false };
    assert_eq!(
        gui_events(&input),
        vec![InputEvent::MouseButton { button: GuiButton::Extra2, down: false }]
    );
}

#[test]
fn captured_mouse_button_stays_with_the_gui() {
    let input = WindowInput::MouseInput { button: MouseButton::Left, pressed: true };
    assert_eq!(HalaImGui::capture_to_read(&input), Some(Capture::Mouse));
    assert_eq!(HalaImGui::host_event(&input, true), None);
}

#[test]
fn uncaptured_mouse_button_goes_to_the_host() {
    let input = WindowInput::MouseInput { button: MouseButton::Left, pressed: true };
    assert_eq!(
        HalaImGui::host_event(&input, false),
        Some(HostEvent::MouseButton { button: MouseButton::Left, pressed: true })
    );
}

#[test]
fn unmapped_mouse_button_goes_to_the_host_unless_captured() {
    for button in [MouseButton::Back, MouseButton::Forward, MouseButton::Other(7)] {
        for pressed in [true, false] {
            let input = WindowInput::MouseInput { button, pressed };
            assert_eq!(gui_events(&input), Vec::new());
            assert_eq!(HalaImGui::capture_to_read(&input), Some(Capture::Mouse));
            assert_eq!(
                HalaImGui::host_event(&input, false),
                Some(HostEvent::MouseButton { button, pressed })
            );
            assert_eq!(HalaImGui::host_event(&input, true), None);
        }
    }
}

#[test]
fn captured_event_never_goes_to_the_host() {
    let inputs = [
        WindowInput::ModifiersChanged { control: true, shift: true, alt: true, super_key: true },
        key_input(KeyCode::KeyA, true, Some("a")),
        key_input(KeyCode::F13, true, None),
        WindowInput::ImeCommit { committed: String::from("a") },
        WindowInput::CursorMoved { x: 1.0, y: 2.0 },
        WindowInput::CursorLeft,
        WindowInput::MouseInput { button: MouseButton::Left, pressed: true },
        WindowInput::MouseInput { button: MouseButton::Other(7), pressed: true },
        WindowInput::MouseWheel { delta: ScrollDelta::Lines { x: 0.0, y: 1.0 } },
        WindowInput::Focused { focused: true },
    ];
    for input in &inputs {
        assert_eq!(HalaImGui::host_event(input, true), None, "{:?}", input);
    }
}

#[test]
fn focus_change_is_written_and_stays_with_the_gui() {
    for focused in [true, false] {
        let input = WindowInput::Focused { focused };
        assert_eq!(gui_events(&input), vec![InputEvent::Focus { focused }]);
        assert_eq!(HalaImGui::capture_to_read(&input), None);
        assert_eq!(HalaImGui::host_event(&input, false), None);
        assert_eq!(HalaImGui::host_event(&input, true), None);
    }
}

#[test]
fn cursor_position_is_written_unchanged() {
    let input = WindowInput::CursorMoved { x: 12.5, y: -3.25 };
    assert_eq!(gui_events(&input), vec![InputEvent::MousePosition { x: 12.5, y: -3.25 }]);
    assert_eq!(HalaImGui::capture_to_read(&input), Some(Capture::Mouse));
    assert_eq!(
        HalaImGui::host_event(&input, false),
        Some(HostEvent::MouseCursor { x: 12.5, y: -3.25 })
    );
    assert_eq!(HalaImGui::host_event(&input, true), None);
}

#[test]
fn cursor_that_left_the_window_has_no_position() {
    let input = WindowInput::CursorLeft;
    assert_eq!(gui_events(&input), vec![InputEvent::MousePositionUnknown]);
    assert_eq!(HalaImGui::capture_to_read(&input), Some(Capture::Mouse));
    assert_eq!(HalaImGui::host_event(&input, false), Some(HostEvent::MouseCursorUnknown));
    assert_eq!(HalaImGui::host_event(&input, true), None);
}

#[test]
fn wheel_delta_is_written_unchanged_in_its_own_unit() {
    let lines = WindowInput::MouseWheel { delta: ScrollDelta::Lines { x: 0.0, y: -10.0 } };
    assert_eq!(
        gui_events(&lines),
        vec![InputEvent::MouseWheel { delta: ScrollDelta::Lines { x: 0.0, y: -10.0 } }]
    );
    let pixels = WindowInput::MouseWheel { delta: ScrollDelta::Pixels { x: 0.0, y: -130.0 } };
    assert_eq!(
        gui_events(&pixels),
        vec![InputEvent::MouseWheel { delta: ScrollDelta::Pixels { x: 0.0, y: -130.0 } }]
    );
}

#[test]
fn wheel_goes_to_the_host_unless_captured() {
    let delta = ScrollDelta::Pixels { x: 1.5, y: -130.0 };
    let input = WindowInput::MouseWheel { delta };
    assert_eq!(HalaImGui::capture_to_read(&input), Some(Capture::Mouse));
    assert_eq!(HalaImGui::host_event(&input, false), Some(HostEvent::MouseWheel { delta }));
    assert_eq!(HalaImGui::host_event(&input, true), None);
}

#[test]
fn events_carry_whatever_the_caller_measures_in() {
    let input = hala_imgui::input::WindowInput::CursorMoved { x: 3i64, y: 4i64 };
    assert_eq!(
        open_frame().gui_events(&input),
        Ok(vec![hala_imgui::input::InputEvent::MousePosition { x: 3i64, y: 4i64 }])
    );
    assert_eq!(
        HalaImGui::host_event(&input, false),
        Some(HostEvent::MouseCursor { x: 3i64, y: 4i64 })
    );
}

#[test]
fn input_is_refused_while_no_frame_is_open() {
    let inputs = [
        WindowInput::ModifiersChanged { control: true, shift: false, alt: false, super_key: false },
        key_input(KeyCode::KeyA, true, Some("a")),
        WindowInput::ImeCommit { committed: String::from("a") },
        WindowInput::CursorMoved { x: 1.0, y: 2.0 },
        WindowInput::CursorLeft,
        WindowInput::MouseInput { button: MouseButton::Left, pressed: true },
        WindowInput::MouseWheel { delta: ScrollDelta::Lines { x: 0.0, y: 1.0 } },
        WindowInput::Focused { focused: true },
    ];
    let mut gui = HalaImGui::new(1);
    for input in &inputs {
        assert_eq!(gui.gui_events(input), Err(BridgeError::FrameNotOpen));
    }
    gui.font_texture_created(FontTexture { width: 512, height: 64 }).expect("first font texture");
    for input in &inputs {
        assert_eq!(gui.gui_events(input), Err(BridgeError::FrameNotOpen));
    }
    gui.begin_frame(800, 600).expect("no frame is open");
    for input in &inputs {
        assert!(gui.gui_events(input).is_ok());
    }
    gui.end_frame().expect("the frame is open");
    for input in &inputs {
        assert_eq!(gui.gui_events(input), Err(BridgeError::FrameNotOpen));
    }
    gui.begin_frame(800, 600).expect("no frame is open");
    for input in &inputs {
        assert!(gui.gui_events(input).is_ok());
    }
}
