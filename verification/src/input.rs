use vstd::prelude::*;
use vstd::string::StrSliceExecFns;

use crate::bridge::{BridgeError, FrameState, HalaImGui};
use crate::buttons::{button_for, GuiButton, MouseButton};
use crate::keys::{combined_modifier, modifier_for, physical_key_for, Key, KeyCode, PhysicalKey};

verus! {

/// How far a wheel was turned. The bridge hands the numbers on as they are;
/// `V` is whatever its caller measures positions and distances in.
#[derive(Clone, Copy, Debug, PartialEq)]
pub enum ScrollDelta<V> {
    /// In lines of text.
    Lines { x: V, y: V },
    /// In pixels.
    Pixels { x: V, y: V },
}

/// An input event of the window system.
#[derive(Clone, Debug, PartialEq)]
pub enum WindowInput<V> {
    /// The state of the four modifiers after one of them changed.
    ModifiersChanged { control: bool, shift: bool, alt: bool, super_key: bool },
    /// A key went down or up. `text` is what the key press typed, if
    /// anything; a synthetic event is one that the window system made up
    /// when the window gained or lost focus.
    KeyboardInput {
        physical_key: PhysicalKey,
        pressed: bool,
        text: Option<String>,
        is_synthetic: bool,
    },
    /// An input method committed a text.
    ImeCommit { committed: String },
    /// The cursor moved to a position inside the window.
    CursorMoved { x: V, y: V },
    /// The cursor left the window.
    CursorLeft,
    /// A mouse button went down or up.
    MouseInput { button: MouseButton, pressed: bool },
    /// The wheel was turned.
    MouseWheel { delta: ScrollDelta<V> },
    /// The window gained or lost focus.
    Focused { focused: bool },
}

/// One write into the GUI's input model.
#[derive(Clone, Copy, Debug, PartialEq)]
pub enum InputEvent<V> {
    Key { key: Key, down: bool },
    Character { character: char },
    /// The cursor is at this position.
    MousePosition { x: V, y: V },
    /// The cursor is nowhere in the window.
    MousePositionUnknown,
    MouseButton { button: GuiButton, down: bool },
    /// The wheel was turned. The GUI counts in lines of text.
    MouseWheel { delta: ScrollDelta<V> },
    Focus { focused: bool },
}

/// An event that is passed on to the host application.
#[derive(Clone, Copy, Debug, PartialEq)]
pub enum HostEvent<V> {
    Keyboard { key: KeyCode, pressed: bool },
    MouseCursor { x: V, y: V },
    MouseCursorUnknown,
    MouseButton { button: MouseButton, pressed: bool },
    MouseWheel { delta: ScrollDelta<V> },
}

/// The two capture flags of the GUI.
#[derive(Clone, Copy, Debug, PartialEq, Eq, Structural)]
pub enum Capture {
    Keyboard,
    Mouse,
}

/// The event of one typed character.
pub open spec fn character_event<V>(character: char) -> InputEvent<V> {
    InputEvent::Character { character }
}

/// One character event for each character of a text, in text order.
pub open spec fn character_events<V>(text: Seq<char>) -> Seq<InputEvent<V>> {
    Seq::new(text.len(), |i: int| character_event(text[i]))
}

/// The key events of a key going down or up: none for a key that the GUI
/// does not know; else the event of the key itself, followed, for a left or
/// right modifier, by the event of the "either side" modifier.
pub open spec fn key_events<V>(physical_key: PhysicalKey, pressed: bool) -> Seq<InputEvent<V>> {
    match physical_key_for(physical_key) {
        None => Seq::empty(),
        Some(key) => {
            let own = seq![InputEvent::Key { key, down: pressed }];
            match physical_key {
                PhysicalKey::Code(code) => match modifier_for(code) {
                    Some(modifier) => own.push(InputEvent::Key { key: modifier, down: pressed }),
                    None => own,
                },
                PhysicalKey::Unidentified(_) => own,
            }
        },
    }
}

/// What a key press typed: its text, if it is a press and has one.
pub open spec fn typed_text(pressed: bool, text: Option<String>) -> Seq<char> {
    match text {
        Some(text) if pressed => text@,
        _ => Seq::empty(),
    }
}

/// The writes into the GUI's input model that an event causes, in order.
/// Positions and wheel deltas are handed on unchanged.
pub open spec fn gui_events_for<V>(input: WindowInput<V>) -> Seq<InputEvent<V>> {
    match input {
        WindowInput::ModifiersChanged { control, shift, alt, super_key } => seq![
            InputEvent::Key { key: Key::ModCtrl, down: control },
            InputEvent::Key { key: Key::ModShift, down: shift },
            InputEvent::Key { key: Key::ModAlt, down: alt },
            InputEvent::Key { key: Key::ModSuper, down: super_key },
        ],
        WindowInput::KeyboardInput { physical_key, pressed, text, is_synthetic } => {
            if is_synthetic {
                Seq::empty()
            } else {
                key_events(physical_key, pressed) + character_events(typed_text(pressed, text))
            }
        },
        WindowInput::ImeCommit { committed } => character_events(committed@),
        WindowInput::CursorMoved { x, y } => seq![InputEvent::MousePosition { x, y }],
        WindowInput::CursorLeft => seq![InputEvent::MousePositionUnknown],
        WindowInput::MouseInput { button, pressed } => match button_for(button) {
            Some(button) => seq![InputEvent::MouseButton { button, down: pressed }],
            None => Seq::empty(),
        },
        WindowInput::MouseWheel { delta } => seq![InputEvent::MouseWheel { delta }],
        WindowInput::Focused { focused } => seq![InputEvent::Focus { focused }],
    }
}

/// The capture flag that decides whether the host sees the event too; none
/// if the event is never offered to the host. Every event of the mouse goes
/// by the mouse flag, also that of a button which the GUI does not know.
pub open spec fn capture_for<V>(input: WindowInput<V>) -> Option<Capture> {
    match input {
        WindowInput::KeyboardInput { is_synthetic, .. } => if is_synthetic {
            None
        } else {
            Some(Capture::Keyboard)
        },
        WindowInput::CursorMoved { .. } | WindowInput::CursorLeft | WindowInput::MouseInput {
            ..
        } | WindowInput::MouseWheel { .. } => Some(Capture::Mouse),
        _ => None,
    }
}

/// What the host is handed once the event has been written into the GUI's
/// input model and `captured` has been read from the flag that
/// [`capture_for`] names. A captured event stays with the GUI, whether the
/// GUI knows its key or button or not. Of the rest, the host gets a key
/// event if the key has a position, and every event of the mouse.
pub open spec fn host_event_for<V>(input: WindowInput<V>, captured: bool) -> Option<HostEvent<V>> {
    match input {
        WindowInput::KeyboardInput { physical_key, pressed, is_synthetic, .. } => {
            match physical_key {
                PhysicalKey::Code(key) if !is_synthetic && !captured => Some(
                    HostEvent::Keyboard { key, pressed },
                ),
                _ => None,
            }
        },
        WindowInput::CursorMoved { x, y } => if captured {
            None
        } else {
            Some(HostEvent::MouseCursor { x, y })
        },
        WindowInput::CursorLeft => if captured {
            None
        } else {
            Some(HostEvent::MouseCursorUnknown)
        },
        WindowInput::MouseInput { button, pressed } => if captured {
            None
        } else {
            Some(HostEvent::MouseButton { button, pressed })
        },
        WindowInput::MouseWheel { delta } => if captured {
            None
        } else {
            Some(HostEvent::MouseWheel { delta })
        },
        _ => None,
    }
}

fn push_characters<V>(events: &mut Vec<InputEvent<V>>, text: &str)
    ensures
        final(events)@ == old(events)@ + character_events::<V>(text@),
{
    let count = text.unicode_len();
    let mut i: usize = 0;
    while i < count
        invariant
            0 <= i <= count,
            count == text@.len(),
            events@ == old(events)@ + character_events::<V>(text@).take(i as int),
        decreases count - i,
    {
        let character = text.get_char(i);
        events.push(InputEvent::Character { character });
        i += 1;
        assert(events@ =~= old(events)@ + character_events::<V>(text@).take(i as int));
    }
    assert(character_events::<V>(text@).take(count as int) =~= character_events::<V>(text@));
}

fn push_key_events<V>(events: &mut Vec<InputEvent<V>>, physical_key: PhysicalKey, pressed: bool)
    ensures
        final(events)@ == old(events)@ + key_events::<V>(physical_key, pressed),
{
    if let Some(key) = HalaImGui::to_key(physical_key) {
        events.push(InputEvent::Key { key, down: pressed });
        if let PhysicalKey::Code(code) = physical_key {
            if let Some(modifier) = combined_modifier(code) {
                events.push(InputEvent::Key { key: modifier, down: pressed });
            }
        }
    }
    assert(events@ =~= old(events)@ + key_events::<V>(physical_key, pressed));
}

impl HalaImGui {
    /// The writes into the GUI's input model that a window event causes, in
    /// the order in which they are to be made, see [`gui_events_for`].
    ///
    /// Input belongs to the frame that is open. While no frame is open the
    /// event is refused and nothing is to be written.
    pub fn gui_events<V: Copy>(&self, input: &WindowInput<V>) -> (r: Result<
        Vec<InputEvent<V>>,
        BridgeError,
    >)
        ensures
            self@.frame == FrameState::FrameOpen ==> (r matches Ok(events) && events@
                == gui_events_for(*input)),
            self@.frame != FrameState::FrameOpen ==> r == Err::<Vec<InputEvent<V>>, BridgeError>(
                BridgeError::FrameNotOpen,
            ),
    {
        match self.frame_state() {
            FrameState::FrameOpen => {},
            _ => {
                return Err(BridgeError::FrameNotOpen);
            },
        }
        let mut events: Vec<InputEvent<V>> = Vec::new();
        match input {
            WindowInput::ModifiersChanged { control, shift, alt, super_key } => {
                events.push(InputEvent::Key { key: Key::ModCtrl, down: *control });
                events.push(InputEvent::Key { key: Key::ModShift, down: *shift });
                events.push(InputEvent::Key { key: Key::ModAlt, down: *alt });
                events.push(InputEvent::Key { key: Key::ModSuper, down: *super_key });
            },
            WindowInput::KeyboardInput { physical_key, pressed, text, is_synthetic } => {
                if !*is_synthetic {
                    push_key_events(&mut events, *physical_key, *pressed);
                    if *pressed {
                        if let Some(text) = text {
                            push_characters(&mut events, text.as_str());
                        }
                    }
                }
            },
            WindowInput::ImeCommit { committed } => {
                push_characters(&mut events, committed.as_str());
            },
            WindowInput::CursorMoved { x, y } => {
                events.push(InputEvent::MousePosition { x: *x, y: *y });
            },
            WindowInput::CursorLeft => {
                events.push(InputEvent::MousePositionUnknown);
            },
            WindowInput::MouseInput { button, pressed } => {
                if let Some(button) = HalaImGui::to_button(*button) {
                    events.push(InputEvent::MouseButton { button, down: *pressed });
                }
            },
            WindowInput::MouseWheel { delta } => {
                events.push(InputEvent::MouseWheel { delta: *delta });
            },
            WindowInput::Focused { focused } => {
                events.push(InputEvent::Focus { focused: *focused });
            },
        }
        assert(events@ =~= gui_events_for(*input));
        Ok(events)
    }

    /// The capture flag to read after the event's writes have been made,
    /// see [`capture_for`].
    pub fn capture_to_read<V>(input: &WindowInput<V>) -> (capture: Option<Capture>)
        ensures
            capture == capture_for(*input),
    {
        match input {
            WindowInput::KeyboardInput { is_synthetic, .. } => {
                if *is_synthetic {
                    None
                } else {
                    Some(Capture::Keyboard)
                }
            },
            WindowInput::MouseInput { .. } => Some(Capture::Mouse),
            WindowInput::CursorMoved { .. } => Some(Capture::Mouse),
            WindowInput::CursorLeft => Some(Capture::Mouse),
            WindowInput::MouseWheel { .. } => Some(Capture::Mouse),
            _ => None,
        }
    }

    /// What to hand to the host, given what the capture flag said after the
    /// event was written into the GUI's input model, see [`host_event_for`].
    pub fn host_event<V: Copy>(input: &WindowInput<V>, captured: bool) -> (event: Option<
        HostEvent<V>,
    >)
        ensures
            event == host_event_for(*input, captured),
            captured ==> event is None,
    {
        match input {
            WindowInput::KeyboardInput { physical_key, pressed, is_synthetic, .. } => {
                match physical_key {
                    PhysicalKey::Code(key) => {
                        if !*is_synthetic && !captured {
                            Some(HostEvent::Keyboard { key: *key, pressed: *pressed })
                        } else {
                            None
                        }
                    },
                    PhysicalKey::Unidentified(_) => None,
                }
            },
            WindowInput::CursorMoved { x, y } => {
                if captured {
                    None
                } else {
                    Some(HostEvent::MouseCursor { x: *x, y: *y })
                }
            },
            WindowInput::CursorLeft => {
                if captured {
                    None
                } else {
                    Some(HostEvent::MouseCursorUnknown)
                }
            },
            WindowInput::MouseInput { button, pressed } => {
                if captured {
                    None
                } else {
                    Some(HostEvent::MouseButton { button: *button, pressed: *pressed })
                }
            },
            WindowInput::MouseWheel { delta } => {
                if captured {
                    None
                } else {
                    Some(HostEvent::MouseWheel { delta: *delta })
                }
            },
            _ => None,
        }
    }
}

/// An event that the GUI captured never reaches the host, whatever the
/// event is. An event of the mouse that the GUI did not capture always
/// does. Where no capture flag is read, the host gets nothing.
pub proof fn lemma_capture_decides_forwarding<V>(input: WindowInput<V>)
    ensures
        host_event_for(input, true) is None,
        capture_for(input) == Some(Capture::Mouse) ==> host_event_for(input, false) is Some,
        input is MouseInput ==> capture_for(input) == Some(Capture::Mouse),
        capture_for(input) is None ==> host_event_for(input, false) is None,
{
}

} // verus!
