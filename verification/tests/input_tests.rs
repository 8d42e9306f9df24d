use vector_shooter::input::{
    AppCommand, EventHandler, InputHandler, InputState, Key, MouseButton, StageCommand, StageControls,
};

#[test]
fn handler_keys_hold_and_release() {
    let mut s = InputState::new();
    assert!(InputHandler::handle_key_down(&mut s, Key::W));
    assert!(s.forward);
    assert!(InputHandler::handle_key_down(&mut s, Key::LeftShift));
    assert!(s.down);
    assert!(InputHandler::handle_key_down(&mut s, Key::Tab));
    assert!(s.boost);
    assert!(!InputHandler::handle_key_down(&mut s, Key::C));
    assert!(InputHandler::handle_key_up(&mut s, Key::Up));
    assert!(!s.forward);
    assert!(!InputHandler::handle_key_up(&mut s, Key::Escape));
    assert!(s.is_moving());
    s.reset();
    assert_eq!(s, InputState::new());
    assert!(!s.is_moving());
}

#[test]
fn handler_mouse_buttons() {
    let mut s = InputState::new();
    assert!(InputHandler::handle_mouse_button(&mut s, MouseButton::Left, true));
    assert!(s.shoot);
    assert!(InputHandler::handle_mouse_button(&mut s, MouseButton::Right, true));
    assert!(s.boost);
    assert!(!InputHandler::handle_mouse_button(&mut s, MouseButton::Middle, true));
    InputHandler::handle_mouse_button(&mut s, MouseButton::Left, false);
    assert!(!s.shoot);
}

#[test]
fn movement_vector() {
    let mut s = InputState::new();
    assert_eq!(s.get_movement_vector(), (0, 0, 0));
    s.left = true;
    s.forward = true;
    s.down = true;
    assert_eq!(s.get_movement_vector(), (-1, -1, 1));
    s.right = true;
    assert_eq!(s.get_movement_vector(), (0, -1, 1));
}

#[test]
fn stage_keys() {
    let mut s = InputState::new();
    assert_eq!(StageControls::key_down(&mut s, Key::C), StageCommand::Nothing);
    assert!(s.down);
    assert_eq!(StageControls::key_down(&mut s, Key::RightShift), StageCommand::Nothing);
    assert!(s.boost);
    assert_eq!(StageControls::key_down(&mut s, Key::Escape), StageCommand::Quit);
    assert_eq!(StageControls::key_down(&mut s, Key::P), StageCommand::TogglePause);
    assert_eq!(StageControls::key_down(&mut s, Key::M), StageCommand::ToggleMouseCapture);
    assert_eq!(StageControls::key_down(&mut s, Key::F), StageCommand::ToggleFullscreen);
    assert_eq!(StageControls::key_down(&mut s, Key::KpSubtract), StageCommand::ZoomOut);
    assert_eq!(StageControls::key_down(&mut s, Key::Equal), StageCommand::ZoomIn);
    assert_eq!(StageControls::key_down(&mut s, Key::T), StageCommand::TerrainInfo);
    StageControls::key_up(&mut s, Key::C);
    assert!(!s.down);
    StageControls::mouse_button(&mut s, MouseButton::Right, true);
    assert!(s.forward);
    StageControls::mouse_button(&mut s, MouseButton::Left, true);
    assert!(s.shoot);
}

#[test]
fn application_keys() {
    assert_eq!(EventHandler::key_down_command(true, Key::Escape), AppCommand::ReleaseMouse);
    assert_eq!(EventHandler::key_down_command(false, Key::Escape), AppCommand::Exit);
    assert_eq!(EventHandler::key_down_command(false, Key::F), AppCommand::ToggleFullscreen);
    assert_eq!(EventHandler::key_down_command(true, Key::P), AppCommand::TogglePause);
    assert_eq!(EventHandler::key_down_command(true, Key::W), AppCommand::Fly);
    assert!(EventHandler::mouse_button_captures(false, true));
    assert!(!EventHandler::mouse_button_captures(true, true));
    assert!(!EventHandler::mouse_button_captures(false, false));
}
