use doukutsu_input::settings::{
    KEY_A, KEY_B, KEY_COMMA, KEY_DOWN, KEY_ESCAPE, KEY_G, KEY_H, KEY_L, KEY_LEFT, KEY_N, KEY_PERIOD,
    KEY_Q, KEY_RIGHT, KEY_S, KEY_SLASH, KEY_T, KEY_UP, KEY_W, KEY_X, KEY_Y, KEY_Z,
};
use winit::event::VirtualKeyCode;

#[test]
fn key_codes_follow_winit_numbering() {
    let pairs = [
        (VirtualKeyCode::A, KEY_A),
        (VirtualKeyCode::B, KEY_B),
        (VirtualKeyCode::G, KEY_G),
        (VirtualKeyCode::H, KEY_H),
        (VirtualKeyCode::L, KEY_L),
        (VirtualKeyCode::N, KEY_N),
        (VirtualKeyCode::Q, KEY_Q),
        (VirtualKeyCode::S, KEY_S),
        (VirtualKeyCode::T, KEY_T),
        (VirtualKeyCode::W, KEY_W),
        (VirtualKeyCode::X, KEY_X),
        (VirtualKeyCode::Y, KEY_Y),
        (VirtualKeyCode::Z, KEY_Z),
        (VirtualKeyCode::Escape, KEY_ESCAPE),
        (VirtualKeyCode::Left, KEY_LEFT),
        (VirtualKeyCode::Up, KEY_UP),
        (VirtualKeyCode::Right, KEY_RIGHT),
        (VirtualKeyCode::Down, KEY_DOWN),
        (VirtualKeyCode::Comma, KEY_COMMA),
        (VirtualKeyCode::Period, KEY_PERIOD),
        (VirtualKeyCode::Slash, KEY_SLASH),
    ];
    for (key, code) in pairs {
        assert_eq!(key as u32, code);
    }
}
