use falling_tetromino_engine::controls::{
    calc_isleftshift_activesince_isteleport, calc_updated_active_buttons,
};
use falling_tetromino_engine::{Button, ButtonsState, Input};

fn idle() -> ButtonsState {
    [None; 11]
}

#[test]
fn buttons_are_indexed_in_declaration_order() {
    assert_eq!(Button::MoveLeft.index(), 0);
    assert_eq!(Button::DropSoft.index(), 5);
    assert_eq!(Button::HoldPiece.index(), 10);
}

#[test]
fn activation_records_its_time_and_release_clears_it() {
    let b = calc_updated_active_buttons(idle(), Input::Activate(Button::RotateLeft), 7);
    assert_eq!(b[Button::RotateLeft.index()], Some(7));
    let b = calc_updated_active_buttons(b, Input::Deactivate(Button::RotateLeft), 9);
    assert_eq!(b, idle());
}

#[test]
fn releasing_one_move_button_refreshes_the_other() {
    let mut b = idle();
    b[Button::MoveLeft.index()] = Some(1);
    b[Button::MoveRight.index()] = Some(2);
    let after = calc_updated_active_buttons(b, Input::Deactivate(Button::MoveRight), 5);
    assert_eq!(after[Button::MoveLeft.index()], Some(5));
    assert_eq!(after[Button::MoveRight.index()], None);
    let after = calc_updated_active_buttons(b, Input::Deactivate(Button::MoveLeft), 6);
    assert_eq!(after[Button::MoveRight.index()], Some(6));
    assert_eq!(after[Button::MoveLeft.index()], None);
}

#[test]
fn the_later_direction_wins_and_teleports_take_precedence() {
    let mut b = idle();
    assert_eq!(calc_isleftshift_activesince_isteleport(&b), None);
    b[Button::MoveLeft.index()] = Some(3);
    assert_eq!(calc_isleftshift_activesince_isteleport(&b), Some((true, 3, false)));
    b[Button::MoveRight.index()] = Some(4);
    assert_eq!(calc_isleftshift_activesince_isteleport(&b), Some((false, 4, false)));
    b[Button::MoveLeft.index()] = Some(4);
    assert_eq!(calc_isleftshift_activesince_isteleport(&b), None);
    b[Button::TeleLeft.index()] = Some(1);
    assert_eq!(calc_isleftshift_activesince_isteleport(&b), Some((true, 1, true)));
    b[Button::TeleRight.index()] = Some(1);
    assert_eq!(calc_isleftshift_activesince_isteleport(&b), None);
}
