use rusty_mapper::events::{handle_output_key, Key, KeyAction, WallEditState};

#[test]
fn escape_exits() {
    assert_eq!(handle_output_key(false, &Key::Escape, true), (false, KeyAction::Exit));
    assert_eq!(handle_output_key(false, &Key::Escape, false), (false, KeyAction::Nothing));
}

#[test]
fn shift_f_toggles_fullscreen() {
    let (shift, a) = handle_output_key(false, &Key::Shift, true);
    assert!(shift);
    assert_eq!(a, KeyAction::Nothing);
    assert_eq!(
        handle_output_key(shift, &Key::Character("F".to_string()), true),
        (true, KeyAction::ToggleFullscreen)
    );
    assert_eq!(
        handle_output_key(true, &Key::Character("f".to_string()), true),
        (true, KeyAction::ToggleFullscreen)
    );
    assert_eq!(
        handle_output_key(false, &Key::Character("F".to_string()), true),
        (false, KeyAction::Nothing)
    );
    assert_eq!(
        handle_output_key(true, &Key::Character("g".to_string()), true),
        (true, KeyAction::Nothing)
    );
    assert_eq!(handle_output_key(true, &Key::Shift, false), (false, KeyAction::Nothing));
    assert_eq!(handle_output_key(true, &Key::Other, true), (true, KeyAction::Nothing));
}

#[test]
fn releasing_the_left_button_ends_a_drag() {
    let mut e = WallEditState { edit_mode: true, edit_display: Some(2), edit_corner: Some(1) };
    assert_eq!(e.drag_target(), Some((2, 1)));
    e.on_mouse_button(false, true);
    assert_eq!(e.drag_target(), Some((2, 1)));
    e.on_mouse_button(true, false);
    assert_eq!(e.drag_target(), Some((2, 1)));
    e.on_mouse_button(true, true);
    assert_eq!(e.edit_display, None);
    assert_eq!(e.edit_corner, None);
    assert_eq!(e.drag_target(), None);
}

#[test]
fn drags_need_edit_mode_and_a_valid_corner() {
    let e = WallEditState { edit_mode: true, edit_display: Some(2), edit_corner: Some(4) };
    assert_eq!(e.drag_target(), None);
    let e = WallEditState { edit_mode: false, edit_display: Some(2), edit_corner: Some(0) };
    assert_eq!(e.drag_target(), None);
    let mut e = WallEditState { edit_mode: false, edit_display: Some(2), edit_corner: Some(0) };
    e.on_mouse_button(true, true);
    assert_eq!(e.edit_display, Some(2));
}
