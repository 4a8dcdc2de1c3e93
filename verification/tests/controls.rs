use nbody::body::BodyMass;
use nbody::camera::CameraController;
use nbody::config::Config;
use nbody::controller::{Command, Controller};
use nbody::input::{Input, InputEvent, Key, KeyState, MoveX, MoveZ, Pan, Tilt, Zoom};
use nbody::math::clamp;
use nbody::menu::{MenuMsg, Template};
use nbody::session::Session;

#[test]
fn the_default_configuration() {
    let config = Config::new();
    assert_eq!(config.msaa_samples, 0);
    assert_eq!(config.width, 600);
    assert_eq!(config.height, 800);
}

#[test]
fn clamp_brings_a_value_into_its_range() {
    assert_eq!(clamp(5, 1, 10), 5);
    assert_eq!(clamp(-3, 1, 10), 1);
    assert_eq!(clamp(30, 1, 10), 10);
    assert_eq!(clamp(1, 1, 10), 1);
    assert_eq!(clamp(10, 1, 10), 10);
    assert_eq!(clamp(0.5, -1.0, 1.0), 0.5);
    assert_eq!(clamp(-1.5, -1.0, 1.0), -1.0);
    assert_eq!(clamp(1.5, -1.0, 1.0), 1.0);
    assert_eq!(clamp("m", "a", "f"), "f");
}

#[test]
fn clamp_tests_the_lower_bound_first() {
    assert_eq!(clamp(0, 5, 3), 5);
    assert_eq!(clamp(9, 5, 3), 3);
    assert!(clamp(f64::NAN, 0.0, 1.0).is_nan());
}

#[test]
fn the_controls_start_paused_with_trails() {
    let input = Input::new();
    assert_eq!(input.move_x, None);
    assert_eq!(input.move_z, None);
    assert_eq!(input.pan, None);
    assert_eq!(input.tilt, None);
    assert_eq!(input.zoom, None);
    assert!(!input.running);
    assert!(input.trails);
    assert!(!input.clear);
    assert!(!input.add);
    assert!(!input.close);
    assert!(!input.m_in_window);
    assert_eq!(input.mouse_press, None);
    assert_eq!(input.m_pos, (0.0f64.to_bits(), 0.0f64.to_bits()));
}

#[test]
fn the_cursor_is_followed() {
    let mut input = Input::new();
    let moved = InputEvent::CursorMoved { x: 12.5f64.to_bits(), y: 7.25f64.to_bits() };
    input.handle_events(&vec![InputEvent::CursorEntered, moved]);
    assert_eq!(input.m_pos, (12.5f64.to_bits(), 7.25f64.to_bits()));
    assert!(input.m_in_window);
    assert_eq!(input.mouse_press, None);
    let mut controller = Controller::new();
    assert_eq!(controller.handle_event(moved), None);
    assert_eq!(controller, Controller::new());
}

#[test]
fn held_keys_ask_for_movement() {
    let mut input = Input::new();
    input.handle_key(Some(Key::Up), KeyState::Pressed);
    assert_eq!(input.tilt, Some(Tilt::Up));
    input.handle_key(Some(Key::Down), KeyState::Pressed);
    assert_eq!(input.tilt, Some(Tilt::Down));
    input.handle_key(Some(Key::Down), KeyState::Released);
    assert_eq!(input.tilt, None);
    input.handle_key(Some(Key::Left), KeyState::Pressed);
    assert_eq!(input.pan, Some(Pan::Left));
    input.handle_key(Some(Key::Right), KeyState::Pressed);
    assert_eq!(input.pan, Some(Pan::Right));
    input.handle_key(Some(Key::W), KeyState::Pressed);
    assert_eq!(input.move_z, Some(MoveZ::Neg));
    input.handle_key(Some(Key::S), KeyState::Pressed);
    assert_eq!(input.move_z, Some(MoveZ::Pos));
    input.handle_key(Some(Key::A), KeyState::Pressed);
    assert_eq!(input.move_x, Some(MoveX::Neg));
    input.handle_key(Some(Key::D), KeyState::Pressed);
    assert_eq!(input.move_x, Some(MoveX::Pos));
    input.handle_key(Some(Key::Z), KeyState::Pressed);
    assert_eq!(input.zoom, Some(Zoom::In));
    input.handle_key(Some(Key::X), KeyState::Pressed);
    assert_eq!(input.zoom, Some(Zoom::Out));
    input.handle_key(Some(Key::X), KeyState::Released);
    assert_eq!(input.zoom, None);
    input.handle_key(Some(Key::Right), KeyState::Released);
    assert_eq!(input.pan, None);
    assert_eq!(input.move_x, Some(MoveX::Pos));
}

#[test]
fn released_keys_switch_the_program_state() {
    let mut input = Input::new();
    input.handle_key(Some(Key::Space), KeyState::Pressed);
    assert!(!input.running);
    input.handle_key(Some(Key::Space), KeyState::Released);
    assert!(input.running);
    input.handle_key(Some(Key::Space), KeyState::Released);
    assert!(!input.running);
    input.handle_key(Some(Key::P), KeyState::Pressed);
    assert!(input.trails);
    input.handle_key(Some(Key::P), KeyState::Released);
    assert!(!input.trails);
    input.handle_key(Some(Key::C), KeyState::Pressed);
    assert!(!input.clear);
    input.handle_key(Some(Key::C), KeyState::Released);
    assert!(input.clear);
    input.handle_key(Some(Key::C), KeyState::Released);
    assert!(input.clear);
    input.handle_key(Some(Key::R), KeyState::Released);
    assert!(input.add);
}

#[test]
fn unknown_keys_change_nothing() {
    let mut input = Input::new();
    input.handle_key(Some(Key::W), KeyState::Pressed);
    let before = input;
    input.handle_key(None, KeyState::Pressed);
    input.handle_key(None, KeyState::Released);
    assert_eq!(input, before);
}

#[test]
fn events_are_taken_in_order() {
    let mut input = Input::new();
    input.handle_events(&vec![
        InputEvent::CursorEntered,
        InputEvent::Keyboard { key: Some(Key::Up), state: KeyState::Pressed },
        InputEvent::Keyboard { key: Some(Key::Space), state: KeyState::Released },
        InputEvent::Keyboard { key: Some(Key::Up), state: KeyState::Released },
        InputEvent::Keyboard { key: Some(Key::A), state: KeyState::Pressed },
    ]);
    assert!(input.m_in_window);
    assert!(input.running);
    assert_eq!(input.tilt, None);
    assert_eq!(input.move_x, Some(MoveX::Neg));
    assert!(!input.close);
    input.handle_events(&vec![InputEvent::CursorLeft, InputEvent::Closed]);
    assert!(!input.m_in_window);
    assert!(input.close);
    let before = input;
    input.handle_events(&Vec::new());
    assert_eq!(input, before);
}

#[test]
fn menu_values_are_distinct() {
    assert_ne!(MenuMsg::ToggleRun, MenuMsg::ToggleTrails);
    assert_ne!(MenuMsg::Clear, MenuMsg::Close);
    assert_ne!(Template::Binary, Template::Unary);
    assert_ne!(Template::Unary, Template::Cloud);
}

#[test]
fn other_keys_leave_the_controls_alone() {
    let mut input = Input::new();
    let before = input;
    for key in [Key::Escape, Key::LShift, Key::LControl] {
        input.handle_key(Some(key), KeyState::Pressed);
        input.handle_key(Some(key), KeyState::Released);
    }
    assert_eq!(input, before);
}

#[test]
fn the_camera_is_steered_by_letters_and_arrows() {
    let mut camera = CameraController::new();
    assert!(!camera.is_forward_pressed && !camera.is_backward_pressed);
    assert!(!camera.is_left_pressed && !camera.is_right_pressed);
    assert!(camera.process_events(Some(Key::W), KeyState::Pressed));
    assert!(camera.is_forward_pressed);
    assert!(camera.process_events(Some(Key::Up), KeyState::Released));
    assert!(!camera.is_forward_pressed);
    assert!(camera.process_events(Some(Key::A), KeyState::Pressed));
    assert!(camera.is_left_pressed);
    assert!(camera.process_events(Some(Key::Left), KeyState::Released));
    assert!(!camera.is_left_pressed);
    assert!(camera.process_events(Some(Key::Down), KeyState::Pressed));
    assert!(camera.is_backward_pressed);
    assert!(camera.process_events(Some(Key::S), KeyState::Released));
    assert!(!camera.is_backward_pressed);
    assert!(camera.process_events(Some(Key::Right), KeyState::Pressed));
    assert!(camera.is_right_pressed);
    assert!(camera.process_events(Some(Key::D), KeyState::Released));
    assert!(!camera.is_right_pressed);
}

#[test]
fn the_camera_leaves_other_keys_to_the_session() {
    let mut camera = CameraController::new();
    camera.process_events(Some(Key::W), KeyState::Pressed);
    let before = camera;
    for key in [Key::Space, Key::Escape, Key::LShift, Key::LControl, Key::Z, Key::R] {
        assert!(!camera.process_events(Some(key), KeyState::Pressed));
        assert!(!camera.process_events(Some(key), KeyState::Released));
    }
    assert!(!camera.process_events(None, KeyState::Pressed));
    assert_eq!(camera, before);
}

#[test]
fn a_session_starts_running() {
    let session = Session::new();
    assert!(session.running);
    assert!(!session.shift_down);
    assert!(!session.ctrl_down);
    assert_eq!(session.mass(), BodyMass::Small);
}

#[test]
fn space_pauses_and_escape_ends_a_session() {
    let mut session = Session::new();
    assert!(!session.handle_key(Some(Key::Space), KeyState::Pressed));
    assert!(!session.running);
    assert!(!session.handle_key(Some(Key::Space), KeyState::Released));
    assert!(!session.running);
    assert!(!session.handle_key(Some(Key::Space), KeyState::Pressed));
    assert!(session.running);
    assert!(!session.handle_key(Some(Key::Escape), KeyState::Released));
    assert!(session.handle_key(Some(Key::Escape), KeyState::Pressed));
    assert!(session.running);
    assert!(!session.handle_key(None, KeyState::Pressed));
    assert!(!session.handle_key(Some(Key::W), KeyState::Pressed));
    assert_eq!(session, Session::new());
}

#[test]
fn the_modifiers_choose_the_mass() {
    let mut session = Session::new();
    session.handle_key(Some(Key::LShift), KeyState::Pressed);
    assert!(session.shift_down);
    assert_eq!(session.mass(), BodyMass::Medium);
    session.handle_key(Some(Key::LControl), KeyState::Pressed);
    assert!(session.ctrl_down);
    assert_eq!(session.mass(), BodyMass::Large);
    session.handle_key(Some(Key::LShift), KeyState::Released);
    assert_eq!(session.mass(), BodyMass::Large);
    session.handle_key(Some(Key::LControl), KeyState::Released);
    assert_eq!(session.mass(), BodyMass::Small);
}

#[test]
fn a_controller_starts_paused() {
    let controller = Controller::new();
    assert!(!controller.run_sim);
    assert!(controller.run_app);
    assert!(controller.trails);
}

#[test]
fn pressed_keys_ask_for_movement_of_the_view() {
    let mut controller = Controller::new();
    let asked = [
        (Key::Up, Command::Tilt(Tilt::Up)),
        (Key::Down, Command::Tilt(Tilt::Down)),
        (Key::Left, Command::Pan(Pan::Left)),
        (Key::Right, Command::Pan(Pan::Right)),
        (Key::W, Command::MoveZ(MoveZ::Neg)),
        (Key::S, Command::MoveZ(MoveZ::Pos)),
        (Key::A, Command::MoveX(MoveX::Neg)),
        (Key::D, Command::MoveX(MoveX::Pos)),
        (Key::Z, Command::Zoom(Zoom::In)),
        (Key::X, Command::Zoom(Zoom::Out)),
    ];
    for (key, command) in asked.iter() {
        assert_eq!(controller.handle_key(Some(*key), KeyState::Pressed), Some(*command));
        assert_eq!(controller.handle_key(Some(*key), KeyState::Released), None);
    }
    assert_eq!(controller, Controller::new());
}

#[test]
fn released_keys_act_on_the_simulation() {
    let mut controller = Controller::new();
    assert_eq!(controller.handle_key(Some(Key::Space), KeyState::Pressed), None);
    assert!(!controller.run_sim);
    assert_eq!(controller.handle_key(Some(Key::Space), KeyState::Released), None);
    assert!(controller.run_sim);
    assert_eq!(controller.handle_key(Some(Key::P), KeyState::Released), None);
    assert!(!controller.trails);
    assert_eq!(controller.handle_key(Some(Key::P), KeyState::Pressed), None);
    assert!(!controller.trails);
    assert_eq!(controller.handle_key(Some(Key::C), KeyState::Pressed), None);
    assert_eq!(controller.handle_key(Some(Key::C), KeyState::Released), Some(Command::ClearPaths));
    assert_eq!(controller.handle_key(Some(Key::R), KeyState::Pressed), None);
    assert_eq!(controller.handle_key(Some(Key::R), KeyState::Released), Some(Command::AddBody));
    assert_eq!(controller.handle_key(Some(Key::Escape), KeyState::Pressed), None);
    assert_eq!(controller.handle_key(None, KeyState::Released), None);
    assert!(controller.run_app);
}

#[test]
fn closing_the_window_ends_the_program() {
    let mut controller = Controller::new();
    assert_eq!(controller.handle_event(InputEvent::CursorEntered), None);
    assert_eq!(controller.handle_event(InputEvent::CursorLeft), None);
    assert!(controller.run_app);
    let event = InputEvent::Keyboard { key: Some(Key::Z), state: KeyState::Pressed };
    assert_eq!(controller.handle_event(event), Some(Command::Zoom(Zoom::In)));
    assert_eq!(controller.handle_event(InputEvent::Closed), None);
    assert!(!controller.run_app);
}
