//! The button model: a closed classification of physical input buttons
//! together with a press/release transition record.

use vstd::prelude::*;

verus! {

/// The raw press/release signal as the platform reports it.
#[derive(Copy, Clone, PartialEq, Eq, Structural, Debug)]
pub enum ElementState {
    Pressed,
    Released,
}

/// The state transition carried by a button event.
#[derive(Copy, Clone, PartialEq, Eq, Structural, Debug)]
pub enum ButtonState {
    Pressed,
    Released,
}

/// A physical input button: a keyboard key or a pointer button,
/// each identified by its platform code.
#[derive(Copy, Clone, PartialEq, Eq, Structural, Debug)]
pub enum Button {
    Keyboard(u32),
    Mouse(u32),
}

/// One press/release transition of one button.
#[derive(Copy, Clone, PartialEq, Eq, Structural, Debug)]
pub struct ButtonEvent<B> {
    pub button: B,
    pub state: ButtonState,
}

/// The state an element signal maps to: pressed stays pressed,
/// released stays released.
pub open spec fn button_state_of(state: ElementState) -> ButtonState {
    match state {
        ElementState::Pressed => ButtonState::Pressed,
        ElementState::Released => ButtonState::Released,
    }
}

/// Convert the platform's raw press/release signal into a button state.
pub fn to_button_state(state: ElementState) -> (r: ButtonState)
    ensures
        r == button_state_of(state),
{
    match state {
        ElementState::Pressed => ButtonState::Pressed,
        ElementState::Released => ButtonState::Released,
    }
}

} // verus!
