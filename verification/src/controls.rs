//! Buttons, inputs and the record of which buttons are held.

use vstd::prelude::*;

use crate::durations::InGameTime;

verus! {

/// An abstract game button.
#[derive(PartialEq, Eq, Structural, Clone, Copy, Debug, Hash)]
pub enum Button {
    /// Moves the piece once to the left.
    MoveLeft,
    /// Moves the piece once to the right.
    MoveRight,
    /// Rotates the piece counter-clockwise.
    RotateLeft,
    /// Rotates the piece clockwise.
    RotateRight,
    /// Rotates the piece by 180°.
    Rotate180,
    /// Drops the piece by one and speeds up falling while held.
    DropSoft,
    /// Drops the piece all the way down and locks it.
    DropHard,
    /// Drops the piece all the way down without locking it.
    TeleDown,
    /// Moves the piece left until it hits a surface.
    TeleLeft,
    /// Moves the piece right until it hits a surface.
    TeleRight,
    /// Holds the current piece, swapping in a previously held one.
    HoldPiece,
}

/// A button being activated (pressed) or deactivated (released).
#[derive(PartialEq, Eq, Structural, Clone, Copy, Debug, Hash)]
pub enum Input {
    Activate(Button),
    Deactivate(Button),
}

/// For each button (in [`Button`] declaration order), since when it is active.
pub type ButtonsState = [Option<InGameTime>; 11];

/// The position of a button in [`Button`] declaration order.
pub open spec fn button_index(b: Button) -> int {
    match b {
        Button::MoveLeft => 0,
        Button::MoveRight => 1,
        Button::RotateLeft => 2,
        Button::RotateRight => 3,
        Button::Rotate180 => 4,
        Button::DropSoft => 5,
        Button::DropHard => 6,
        Button::TeleDown => 7,
        Button::TeleLeft => 8,
        Button::TeleRight => 9,
        Button::HoldPiece => 10,
    }
}

impl Button {
    /// The position of the button in declaration order.
    pub fn index(self) -> (r: usize)
        ensures
            r == button_index(self),
            r < 11,
    {
        match self {
            Button::MoveLeft => 0,
            Button::MoveRight => 1,
            Button::RotateLeft => 2,
            Button::RotateRight => 3,
            Button::Rotate180 => 4,
            Button::DropSoft => 5,
            Button::DropHard => 6,
            Button::TeleDown => 7,
            Button::TeleLeft => 8,
            Button::TeleRight => 9,
            Button::HoldPiece => 10,
        }
    }
}

/// The state of a button.
pub open spec fn held(buttons: ButtonsState, b: Button) -> Option<InGameTime> {
    buttons[button_index(b)]
}

/// The button state after an input at a given time: an activation records the
/// time; a deactivation clears the button, and releasing one horizontal move
/// button while the other is held restarts the other one at that time.
pub open spec fn buttons_after(buttons: ButtonsState, input: Input, t: InGameTime) -> Seq<Option<InGameTime>> {
    match input {
        Input::Activate(b) => buttons@.update(button_index(b), Some(t)),
        Input::Deactivate(b) => {
            let restarted = if b == Button::MoveLeft && held(buttons, Button::MoveRight) is Some {
                buttons@.update(button_index(Button::MoveRight), Some(t))
            } else if b == Button::MoveRight && held(buttons, Button::MoveLeft) is Some {
                buttons@.update(button_index(Button::MoveLeft), Some(t))
            } else {
                buttons@
            };
            restarted.update(button_index(b), None)
        },
    }
}

/// The button state after an input at a given time; see [`buttons_after`].
pub fn calc_updated_active_buttons(previous_active_buttons: ButtonsState, input: Input, input_time: InGameTime) -> (r: ButtonsState)
    ensures
        r@ == buttons_after(previous_active_buttons, input, input_time),
{
    let mut buttons = previous_active_buttons;
    match input {
        Input::Activate(button) => {
            buttons[button.index()] = Some(input_time);
        },
        Input::Deactivate(button) => {
            if button == Button::MoveLeft && buttons[Button::MoveRight.index()].is_some() {
                buttons[Button::MoveRight.index()] = Some(input_time);
            } else if button == Button::MoveRight && buttons[Button::MoveLeft.index()].is_some() {
                buttons[Button::MoveLeft.index()] = Some(input_time);
            }
            buttons[button.index()] = None;
        },
    }
    buttons
}

/// The direction in which a held pair of opposite buttons shifts the piece:
/// the more recently activated one wins; none when neither is held or both were
/// activated at the same time. Returns whether the shift is to the left and
/// since when that direction has been active.
pub open spec fn pair_direction(left: Option<InGameTime>, right: Option<InGameTime>) -> Option<(bool, InGameTime)> {
    match (left, right) {
        (Some(l), Some(r)) => if l < r {
            Some((false, r))
        } else if l == r {
            None
        } else {
            Some((true, l))
        },
        (Some(l), None) => Some((true, l)),
        (None, Some(r)) => Some((false, r)),
        (None, None) => None,
    }
}

/// The horizontal shift requested by the held buttons: the teleport buttons take
/// precedence over the move buttons. Returns whether the shift is to the left,
/// since when that direction has been active, and whether it is a teleport.
pub open spec fn shift_request(buttons: ButtonsState) -> Option<(bool, InGameTime, bool)> {
    match pair_direction(held(buttons, Button::TeleLeft), held(buttons, Button::TeleRight)) {
        Some((left, since)) => Some((left, since, true)),
        None => match pair_direction(held(buttons, Button::MoveLeft), held(buttons, Button::MoveRight)) {
            Some((left, since)) => Some((left, since, false)),
            None => None,
        },
    }
}

fn calc_pair_direction(left: Option<InGameTime>, right: Option<InGameTime>) -> (r: Option<(bool, InGameTime)>)
    ensures
        r == pair_direction(left, right),
{
    match (left, right) {
        (Some(l), Some(r)) => if l < r {
            Some((false, r))
        } else if l == r {
            None
        } else {
            Some((true, l))
        },
        (Some(l), None) => Some((true, l)),
        (None, Some(r)) => Some((false, r)),
        (None, None) => None,
    }
}

/// The horizontal shift requested by the held buttons; see [`shift_request`].
pub fn calc_isleftshift_activesince_isteleport(active_buttons: &ButtonsState) -> (r: Option<(bool, InGameTime, bool)>)
    ensures
        r == shift_request(*active_buttons),
{
    match calc_pair_direction(
        active_buttons[Button::TeleLeft.index()],
        active_buttons[Button::TeleRight.index()],
    ) {
        Some((left, since)) => Some((left, since, true)),
        None => match calc_pair_direction(
            active_buttons[Button::MoveLeft.index()],
            active_buttons[Button::MoveRight.index()],
        ) {
            Some((left, since)) => Some((left, since, false)),
            None => None,
        },
    }
}

/// Law: after an activation the button is held since the input's time, and
/// after a deactivation it is released; no other button is released.
pub proof fn lemma_input_sets_button(buttons: ButtonsState, input: Input, t: InGameTime)
    ensures
        input matches Input::Activate(b) ==> buttons_after(buttons, input, t)[button_index(b)] == Some(t),
        input matches Input::Deactivate(b) ==> buttons_after(buttons, input, t)[button_index(b)] is None,
        forall|c: Button|
            !(input == Input::Deactivate(c)) && (#[trigger] held(buttons, c)) is Some
                ==> buttons_after(buttons, input, t)[button_index(c)] is Some,
        buttons_after(buttons, input, t).len() == 11,
{
}

} // verus!
