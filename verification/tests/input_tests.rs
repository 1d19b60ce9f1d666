use cubecam::input_handler::{InputHandler, Key};

#[test]
fn fresh_handler_has_no_input() {
    let input = InputHandler::new();
    assert_eq!(input.get_mouse(), (0, 0));
    assert_eq!(input.dx, 0);
    assert_eq!(input.dy, 0);
    assert!(input.is_key_up(Key::Forward));
    assert!(input.is_key_up(Key::Backward));
    assert!(input.is_key_up(Key::Left));
    assert!(input.is_key_up(Key::Right));
}

#[test]
fn key_down_sets_only_that_key() {
    let mut input = InputHandler::new();
    input.key_down(Key::Left);
    assert!(input.is_key_down(Key::Left));
    assert!(input.is_key_up(Key::Forward));
    assert!(input.is_key_up(Key::Backward));
    assert!(input.is_key_up(Key::Right));
}

#[test]
fn key_down_is_idempotent_on_repeat() {
    let mut input = InputHandler::new();
    input.key_down(Key::Forward);
    input.key_down(Key::Forward);
    assert!(input.is_key_down(Key::Forward));
    input.key_up(Key::Forward);
    assert!(input.is_key_up(Key::Forward));
}

#[test]
fn is_key_up_complements_is_key_down() {
    let mut input = InputHandler::new();
    input.key_down(Key::Backward);
    for k in [Key::Forward, Key::Backward, Key::Left, Key::Right] {
        assert_eq!(input.is_key_down(k), !input.is_key_up(k));
    }
}

#[test]
fn mouse_move_tracks_delta_from_last_position() {
    let mut input = InputHandler::new();
    input.mouse_move(0, 0);
    assert_eq!(input.dx, 0);
    assert_eq!(input.dy, 0);
    input.mouse_move(10, 0);
    assert_eq!(input.dx, 10);
    assert_eq!(input.dy, 0);
    assert_eq!(input.get_mouse(), (10, 0));
}

#[test]
fn mouse_delta_is_overwritten_not_accumulated() {
    let mut input = InputHandler::new();
    input.mouse_move(0, 0);
    input.mouse_move(3, 4);
    input.mouse_move(10, 4);
    assert_eq!(input.dx, 7);
    assert_eq!(input.dy, 0);
}

#[test]
fn mouse_move_handles_negative_coordinates() {
    let mut input = InputHandler::new();
    input.mouse_move(5, 5);
    input.mouse_move(-2, 9);
    assert_eq!(input.dx, -7);
    assert_eq!(input.dy, 4);
}
