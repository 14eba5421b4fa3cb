use doukutsu_input::analog::AxisValue;
use doukutsu_input::gilrs_player_controller::{DeviceSample, GilrsPlayerController};
use doukutsu_input::key_state::{KeyState, JUMP, LEFT, UP};
use doukutsu_input::keyboard_player_controller::KeyboardController;
use doukutsu_input::player_controller::{FrameInput, PlayerController};
use doukutsu_input::settings::{
    p1_default_keymap, p2_default_keymap, to_gamepad_id, ControllerType, Settings, KEY_ESCAPE,
    KEY_LEFT, KEY_RIGHT, KEY_UP, KEY_Z,
};

fn axis(v: f64) -> AxisValue {
    AxisValue::from_bits(v.to_bits())
}

fn value(a: AxisValue) -> f64 {
    f64::from_bits(a.bits)
}

fn sample(id: usize) -> DeviceSample {
    DeviceSample {
        id,
        left_x: Some(axis(0.0)),
        left_y: Some(axis(0.0)),
        right_x: Some(axis(0.0)),
        right_y: Some(axis(0.0)),
        south: false,
        east: false,
        left_trigger: false,
        right_trigger: false,
        start: false,
    }
}

fn pad_frame(s: DeviceSample) -> FrameInput {
    FrameInput { held_keys: vec![], gamepads: vec![s] }
}

fn key_frame(keys: Vec<u32>) -> FrameInput {
    FrameInput { held_keys: keys, gamepads: vec![] }
}

fn step(c: &mut PlayerController, input: &FrameInput) {
    c.update(input);
    c.update_trigger();
}

fn gamepad(id: usize) -> PlayerController {
    PlayerController::Gamepad(GilrsPlayerController::new(Some(id)))
}

#[test]
fn key_state_set_and_get() {
    let mut s = KeyState::new();
    assert!(!s.get(JUMP));
    s.set(JUMP, true);
    s.set(LEFT, true);
    assert!(s.get(JUMP));
    assert!(s.get(LEFT));
    assert!(!s.get(UP));
    s.set(JUMP, false);
    assert!(!s.get(JUMP));
    assert!(s.get(LEFT));
}

#[test]
fn key_state_rising_edge() {
    let mut now = KeyState::new();
    now.set(JUMP, true);
    now.set(UP, true);
    let mut before = KeyState::new();
    before.set(UP, true);
    before.set(LEFT, true);
    let edge = now.rising_from(&before);
    assert!(edge.get(JUMP));
    assert!(!edge.get(UP));
    assert!(!edge.get(LEFT));
}

#[test]
fn jump_scenario_over_three_frames() {
    let mut c = gamepad(3);
    assert!(!c.trigger_jump());
    let mut s = sample(3);
    s.south = true;
    step(&mut c, &pad_frame(s));
    assert!(c.trigger_jump());
    assert!(c.jump());
    step(&mut c, &pad_frame(s));
    assert!(!c.trigger_jump());
    assert!(c.jump());
    s.south = false;
    step(&mut c, &pad_frame(s));
    assert!(!c.jump());
    assert!(!c.trigger_jump());
}

#[test]
fn jump_trigger_follows_presses_on_keyboard() {
    let mut c = PlayerController::Keyboard(KeyboardController::new(p1_default_keymap()));
    let presses = [false, true, true, false, true, false, false, true];
    let mut before = false;
    for &p in presses.iter() {
        let keys = if p { vec![KEY_Z] } else { vec![] };
        step(&mut c, &key_frame(keys));
        assert_eq!(c.jump(), p);
        assert_eq!(c.trigger_jump(), p && !before);
        assert_eq!(c.trigger_menu_ok(), c.trigger_jump());
        before = p;
    }
}

#[test]
fn update_alone_leaves_trigger() {
    let mut c = gamepad(0);
    let mut s = sample(0);
    s.south = true;
    c.update(&pad_frame(s));
    assert!(c.jump());
    assert!(!c.trigger_jump());
    c.update_trigger();
    assert!(c.trigger_jump());
}

#[test]
fn menu_aliases() {
    let mut c = gamepad(1);
    let mut s = sample(1);
    s.east = true;
    s.start = true;
    step(&mut c, &pad_frame(s));
    assert!(c.trigger_menu_back());
    assert!(c.trigger_shoot());
    assert!(c.trigger_menu_pause());
    assert!(!c.trigger_menu_ok());
    step(&mut c, &pad_frame(s));
    assert!(!c.trigger_menu_pause());
    s.south = true;
    step(&mut c, &pad_frame(s));
    assert!(c.trigger_menu_ok());
    assert!(c.trigger_jump());
}

#[test]
fn keyboard_escape_pauses() {
    let mut c = PlayerController::Keyboard(KeyboardController::new(p2_default_keymap()));
    step(&mut c, &key_frame(vec![KEY_ESCAPE]));
    assert!(c.trigger_menu_pause());
}

#[test]
fn deadzone_zeroes_small_readings() {
    for v in [0.0, 0.05, -0.05, 0.11, -0.119, 0.1199999] {
        let mut c = gamepad(0);
        let mut s = sample(0);
        s.left_x = Some(axis(0.5));
        step(&mut c, &pad_frame(s));
        s.left_x = Some(axis(v));
        s.left_y = Some(axis(v));
        step(&mut c, &pad_frame(s));
        assert_eq!(c.move_analog_x().bits, 0);
        assert_eq!(c.move_analog_y().bits, 0);
    }
}

#[test]
fn deadzone_passes_larger_readings() {
    for v in [0.12, -0.12, 0.2, -0.5, 1.0, -1.0] {
        let mut c = gamepad(0);
        let mut s = sample(0);
        s.left_x = Some(axis(v));
        step(&mut c, &pad_frame(s));
        assert_eq!(value(c.move_analog_x()), v);
    }
    assert_eq!(axis(0.12).deadzone(), axis(0.12));
    assert_eq!(axis(0.11).deadzone(), axis(0.0));
}

#[test]
fn unreported_axis_keeps_last_value() {
    let mut c = gamepad(0);
    let mut s = sample(0);
    s.left_y = Some(axis(0.8));
    step(&mut c, &pad_frame(s));
    s.left_y = None;
    step(&mut c, &pad_frame(s));
    assert_eq!(value(c.move_analog_y()), 0.8);
    assert!(c.move_up());
}

#[test]
fn move_up_threshold_is_strict() {
    let cases = [(0.3, false), (0.31, true), (0.29, false), (1.0, true), (-0.5, false)];
    for (v, up) in cases {
        let mut c = gamepad(0);
        let mut s = sample(0);
        s.left_y = Some(axis(v));
        step(&mut c, &pad_frame(s));
        assert_eq!(c.move_up(), up);
        assert_eq!(c.move_up(), v > 0.3);
    }
    assert!(axis(f64::from_bits(0.3f64.to_bits() + 1)).exceeds(0.3f64.to_bits()));
}

#[test]
fn directions_match_float_comparisons() {
    let values = [-1.0, -0.7, -0.3, -0.2999, -0.1, 0.0, -0.0, 0.15, 0.3, 0.3001, 0.9, 1.0];
    for &x in values.iter() {
        let a = axis(x);
        assert_eq!(a.exceeds(0.3f64.to_bits()), x > 0.3);
        assert_eq!(a.below_negated(0.3f64.to_bits()), x < -0.3);
        let mut c = gamepad(0);
        let mut s = sample(0);
        s.left_x = Some(a);
        s.left_y = Some(a);
        step(&mut c, &pad_frame(s));
        assert_eq!(c.move_left(), x < -0.3);
        assert_eq!(c.move_right(), x > 0.3);
        assert_eq!(c.move_down(), x < -0.3);
    }
    assert!(!axis(f64::NAN).exceeds(0.3f64.to_bits()));
    assert!(!axis(f64::NAN).below_negated(0.3f64.to_bits()));
    assert!(axis(f64::INFINITY).exceeds(0.3f64.to_bits()));
    assert!(axis(f64::NEG_INFINITY).below_negated(0.3f64.to_bits()));
}

#[test]
fn look_left_from_either_stick() {
    let cases = [(-0.5, 0.0, true), (0.0, -0.5, true), (-0.5, -0.5, true), (-0.3, -0.3, false), (0.0, 0.0, false)];
    for (lx, rx, expected) in cases {
        let mut c = gamepad(0);
        let mut s = sample(0);
        s.left_x = Some(axis(lx));
        s.right_x = Some(axis(rx));
        step(&mut c, &pad_frame(s));
        assert_eq!(c.look_left(), expected);
        assert!(!c.look_right());
    }
}

#[test]
fn look_up_down_right_from_right_stick() {
    let mut c = gamepad(0);
    let mut s = sample(0);
    s.right_y = Some(axis(0.9));
    s.right_x = Some(axis(0.9));
    step(&mut c, &pad_frame(s));
    assert!(c.look_up());
    assert!(c.look_right());
    assert!(!c.move_up());
    assert!(!c.move_right());
    s.right_y = Some(axis(-0.9));
    step(&mut c, &pad_frame(s));
    assert!(c.look_down());
}

#[test]
fn default_key_maps_share_no_key() {
    let a = p1_default_keymap();
    let b = p2_default_keymap();
    let ka = [a.left, a.up, a.right, a.down, a.prev_weapon, a.next_weapon, a.jump, a.shoot, a.inventory, a.map];
    let kb = [b.left, b.up, b.right, b.down, b.prev_weapon, b.next_weapon, b.jump, b.shoot, b.inventory, b.map];
    for k in ka.iter() {
        assert!(!kb.contains(k));
    }
    assert_eq!(a.left, KEY_LEFT);
    assert_eq!(a.jump, KEY_Z);
}

#[test]
fn disconnected_gamepad_keeps_state() {
    let mut c = gamepad(2);
    let mut s = sample(2);
    s.left_x = Some(axis(-0.9));
    s.south = true;
    step(&mut c, &pad_frame(s));
    let before = c;
    for _ in 0..3 {
        c.update(&FrameInput { held_keys: vec![], gamepads: vec![sample(5)] });
        assert_eq!(c, before);
        assert!(c.jump());
        assert_eq!(value(c.move_analog_x()), -0.9);
    }
    let mut back = sample(2);
    back.left_x = Some(axis(0.0));
    c.update(&pad_frame(back));
    assert!(!c.jump());
    assert_eq!(c.move_analog_x().bits, 0);
}

#[test]
fn gamepad_picks_its_own_device() {
    let mut c = gamepad(7);
    let mut other = sample(4);
    other.south = true;
    let mut mine = sample(7);
    mine.east = true;
    step(&mut c, &FrameInput { held_keys: vec![], gamepads: vec![other, mine] });
    assert!(!c.jump());
    assert!(c.shoot());
}

#[test]
fn keyboard_analog_encoding() {
    let mut c = PlayerController::Keyboard(KeyboardController::new(p1_default_keymap()));
    step(&mut c, &key_frame(vec![KEY_LEFT]));
    assert_eq!(value(c.move_analog_x()), -1.0);
    assert!(c.move_left());
    assert!(c.look_left());
    step(&mut c, &key_frame(vec![KEY_RIGHT, KEY_UP]));
    assert_eq!(value(c.move_analog_x()), 1.0);
    assert_eq!(value(c.move_analog_y()), 1.0);
    assert!(c.trigger_right());
    assert!(c.trigger_up());
    step(&mut c, &key_frame(vec![KEY_LEFT, KEY_RIGHT]));
    assert_eq!(value(c.move_analog_x()), 0.0);
    assert_eq!(value(c.move_analog_y()), 0.0);
    assert!(c.trigger_left());
}

#[test]
fn factory_resolves_devices() {
    let connected = vec![40, 41];
    assert_eq!(to_gamepad_id(1, &connected), Some(41));
    assert_eq!(to_gamepad_id(2, &connected), None);
    let mut settings = Settings::load();
    assert_eq!(settings, Settings::default());
    assert!(matches!(settings.create_player1_controller(&connected), PlayerController::Keyboard(_)));
    settings.player1_controller_type = ControllerType::Gamepad(1);
    settings.player2_controller_type = ControllerType::Gamepad(5);
    match settings.create_player1_controller(&connected) {
        PlayerController::Gamepad(g) => assert_eq!(g.gamepad_id, Some(41)),
        _ => panic!("expected a gamepad controller"),
    }
    match settings.create_player2_controller(&connected) {
        PlayerController::Gamepad(g) => assert_eq!(g.gamepad_id, None),
        _ => panic!("expected a gamepad controller"),
    }
}

#[test]
fn unresolved_gamepad_stays_neutral() {
    let mut settings = Settings::default();
    settings.player2_controller_type = ControllerType::Gamepad(0);
    let mut c = settings.create_player2_controller(&vec![]);
    let mut s = sample(0);
    s.south = true;
    s.left_y = Some(axis(1.0));
    step(&mut c, &pad_frame(s));
    assert!(!c.jump());
    assert!(!c.move_up());
    assert_eq!(c.move_analog_y().bits, 0);
}

#[test]
fn default_settings_values() {
    let s = Settings::default();
    assert!(s.seasonal_textures);
    assert!(!s.original_textures);
    assert!(s.shader_effects);
    assert!(s.motion_interpolation);
    assert_eq!(s.player1_controller_type, ControllerType::Keyboard);
    assert_eq!(s.player2_controller_type, ControllerType::Keyboard);
    assert_eq!(s.player1_key_map, p1_default_keymap());
    assert_eq!(s.player2_key_map, p2_default_keymap());
    assert!(!s.god_mode);
}
