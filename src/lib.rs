//! Per-player input handling: button sets with edge detection, analog stick
//! filtering, keyboard bindings and the controllers that join them.
pub mod analog;
pub mod gilrs_player_controller;
pub mod key_state;
pub mod keyboard_player_controller;
pub mod player_controller;
pub mod settings;
