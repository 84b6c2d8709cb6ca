use vstd::prelude::*;

use crate::bridge::HalaImGui;

verus! {

/// A mouse button as the windowing system reports it.
#[derive(Clone, Copy, Debug, PartialEq, Eq, Hash, Structural)]
pub enum MouseButton {
    Left,
    Right,
    Middle,
    Back,
    Forward,
    /// A button known only by its platform number.
    Other(u16),
}

/// One of the five mouse buttons of the GUI's input model.
#[derive(Clone, Copy, Debug, PartialEq, Eq, Hash, Structural)]
pub enum GuiButton {
    Left,
    Right,
    Middle,
    Extra1,
    Extra2,
}

/// How many buttons the GUI's input model has.
pub const GUI_BUTTON_COUNT: u16 = 5;

/// The GUI button with the given position among the five, if there is one.
pub open spec fn button_at(number: int) -> Option<GuiButton> {
    if number == 0 {
        Some(GuiButton::Left)
    } else if number == 1 {
        Some(GuiButton::Right)
    } else if number == 2 {
        Some(GuiButton::Middle)
    } else if number == 3 {
        Some(GuiButton::Extra1)
    } else if number == 4 {
        Some(GuiButton::Extra2)
    } else {
        None
    }
}

/// The position of a GUI button among the five.
pub open spec fn button_number(button: GuiButton) -> int {
    match button {
        GuiButton::Left => 0,
        GuiButton::Right => 1,
        GuiButton::Middle => 2,
        GuiButton::Extra1 => 3,
        GuiButton::Extra2 => 4,
    }
}

/// The GUI button driven by a platform button: the three named buttons map to
/// themselves, a numbered button to the GUI button with that number, and
/// every other button to none.
pub open spec fn button_for(button: MouseButton) -> Option<GuiButton> {
    match button {
        MouseButton::Left => Some(GuiButton::Left),
        MouseButton::Right => Some(GuiButton::Right),
        MouseButton::Middle => Some(GuiButton::Middle),
        MouseButton::Other(number) => button_at(number as int),
        MouseButton::Back | MouseButton::Forward => None,
    }
}

/// `imgui::MouseButton::COUNT`: the GUI library has five mouse buttons.
#[verifier::external_body]
fn gui_button_count() -> (count: u16)
    ensures
        count == GUI_BUTTON_COUNT,
{
    imgui::MouseButton::COUNT as u16
}

impl HalaImGui {
    /// Translates a platform mouse button into the GUI button it drives.
    pub fn to_button(btncode: MouseButton) -> (button: Option<GuiButton>)
        ensures
            button == button_for(btncode),
    {
        let btn = match btncode {
            MouseButton::Left => GuiButton::Left,
            MouseButton::Right => GuiButton::Right,
            MouseButton::Middle => GuiButton::Middle,
            MouseButton::Other(x) => {
                if x < gui_button_count() {
                    match x {
                        0 => GuiButton::Left,
                        1 => GuiButton::Right,
                        2 => GuiButton::Middle,
                        3 => GuiButton::Extra1,
                        4 => GuiButton::Extra2,
                        _ => return None,
                    }
                } else {
                    return None;
                }
            },
            _ => return None,
        };
        Some(btn)
    }
}

/// A numbered platform button has a GUI button exactly when its number is
/// below the GUI's button count, and then it is the button with that number.
pub proof fn lemma_numbered_button_in_range(number: u16)
    ensures
        button_for(MouseButton::Other(number)) is Some <==> number < GUI_BUTTON_COUNT,
        button_for(MouseButton::Other(number)) matches Some(button) ==> button_number(button)
            == number,
{
}

} // verus!
