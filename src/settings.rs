use vstd::prelude::*;

use crate::analog::AxisValue;
use crate::gilrs_player_controller::GilrsPlayerController;
use crate::key_state::KeyState;
use crate::keyboard_player_controller::KeyboardController;
use crate::player_controller::PlayerController;

verus! {

/// Key codes, numbered as winit's `VirtualKeyCode` variants.
pub const KEY_A: u32 = 10;
pub const KEY_B: u32 = 11;
pub const KEY_G: u32 = 16;
pub const KEY_H: u32 = 17;
pub const KEY_L: u32 = 21;
pub const KEY_N: u32 = 23;
pub const KEY_Q: u32 = 26;
pub const KEY_S: u32 = 28;
pub const KEY_T: u32 = 29;
pub const KEY_W: u32 = 32;
pub const KEY_X: u32 = 33;
pub const KEY_Y: u32 = 34;
pub const KEY_Z: u32 = 35;
pub const KEY_ESCAPE: u32 = 36;
pub const KEY_LEFT: u32 = 70;
pub const KEY_UP: u32 = 71;
pub const KEY_RIGHT: u32 = 72;
pub const KEY_DOWN: u32 = 73;
pub const KEY_COMMA: u32 = 109;
pub const KEY_PERIOD: u32 = 131;
pub const KEY_SLASH: u32 = 142;

/// Where a player's input comes from.
#[derive(Clone, Copy, Debug, PartialEq, Eq)]
pub enum ControllerType {
    Keyboard,
    /// The gamepad at this position among the connected ones.
    Gamepad(usize),
}

/// The keys a player has bound to each logical button.
#[derive(Clone, Copy, Debug, PartialEq, Eq)]
pub struct PlayerKeyMap {
    pub left: u32,
    pub up: u32,
    pub right: u32,
    pub down: u32,
    pub prev_weapon: u32,
    pub next_weapon: u32,
    pub jump: u32,
    pub shoot: u32,
    pub inventory: u32,
    pub map: u32,
}

impl PlayerKeyMap {
    /// Every key the map binds.
    pub open spec fn keys(self) -> Set<u32> {
        set![
            self.left,
            self.up,
            self.right,
            self.down,
            self.prev_weapon,
            self.next_weapon,
            self.jump,
            self.shoot,
            self.inventory,
            self.map,
        ]
    }
}

/// Player 1's bindings: arrows to move, A S Z X for weapons, jump and shoot,
/// Q and W for inventory and map.
pub open spec fn p1_default() -> PlayerKeyMap {
    PlayerKeyMap {
        left: KEY_LEFT,
        up: KEY_UP,
        right: KEY_RIGHT,
        down: KEY_DOWN,
        prev_weapon: KEY_A,
        next_weapon: KEY_S,
        jump: KEY_Z,
        shoot: KEY_X,
        inventory: KEY_Q,
        map: KEY_W,
    }
}

/// Player 2's bindings: comma L slash period to move, G H B N for weapons,
/// jump and shoot, T and Y for inventory and map.
pub open spec fn p2_default() -> PlayerKeyMap {
    PlayerKeyMap {
        left: KEY_COMMA,
        up: KEY_L,
        right: KEY_SLASH,
        down: KEY_PERIOD,
        prev_weapon: KEY_G,
        next_weapon: KEY_H,
        jump: KEY_B,
        shoot: KEY_N,
        inventory: KEY_T,
        map: KEY_Y,
    }
}

pub fn p1_default_keymap() -> (r: PlayerKeyMap)
    ensures
        r == p1_default(),
{
    PlayerKeyMap {
        left: KEY_LEFT,
        up: KEY_UP,
        right: KEY_RIGHT,
        down: KEY_DOWN,
        prev_weapon: KEY_A,
        next_weapon: KEY_S,
        jump: KEY_Z,
        shoot: KEY_X,
        inventory: KEY_Q,
        map: KEY_W,
    }
}

pub fn p2_default_keymap() -> (r: PlayerKeyMap)
    ensures
        r == p2_default(),
{
    PlayerKeyMap {
        left: KEY_COMMA,
        up: KEY_L,
        right: KEY_SLASH,
        down: KEY_PERIOD,
        prev_weapon: KEY_G,
        next_weapon: KEY_H,
        jump: KEY_B,
        shoot: KEY_N,
        inventory: KEY_T,
        map: KEY_Y,
    }
}

/// The two default key maps bind no key in common, so both players can share
/// one keyboard.
pub proof fn lemma_default_maps_disjoint()
    ensures
        p1_default().keys().disjoint(p2_default().keys()),
{
}

/// The device identifier of the gamepad at position `index` among the
/// connected ones, if there are that many.
pub fn to_gamepad_id(index: usize, connected: &Vec<usize>) -> (r: Option<usize>)
    ensures
        r == (if index < connected@.len() {
            Some(connected@[index as int])
        } else {
            None::<usize>
        }),
{
    if index < connected.len() {
        Some(connected[index])
    } else {
        None
    }
}

/// The player options. The game speed, a runtime value that is never saved,
/// is kept by the application beside these.
#[derive(Clone, Copy, Debug, PartialEq, Eq)]
pub struct Settings {
    pub seasonal_textures: bool,
    pub original_textures: bool,
    pub shader_effects: bool,
    pub motion_interpolation: bool,
    pub touch_controls: bool,
    pub player1_key_map: PlayerKeyMap,
    pub player2_key_map: PlayerKeyMap,
    pub player1_controller_type: ControllerType,
    pub player2_controller_type: ControllerType,
    /// Runtime flags, never saved.
    pub god_mode: bool,
    pub infinite_booster: bool,
    pub debug_outlines: bool,
}

/// The settings of a fresh install: both players on the keyboard with the
/// default key maps.
pub open spec fn default_settings() -> Settings {
    Settings {
        seasonal_textures: true,
        original_textures: false,
        shader_effects: true,
        motion_interpolation: true,
        touch_controls: false,
        player1_key_map: p1_default(),
        player2_key_map: p2_default(),
        player1_controller_type: ControllerType::Keyboard,
        player2_controller_type: ControllerType::Keyboard,
        god_mode: false,
        infinite_booster: false,
        debug_outlines: false,
    }
}

/// The controller a selector and a key map give: a keyboard controller on the
/// key map, or a neutral gamepad controller on the selected connected device,
/// which stays disconnected when there is no such device.
pub open spec fn controller_for(
    kind: ControllerType,
    key_map: PlayerKeyMap,
    connected: Seq<usize>,
) -> PlayerController {
    match kind {
        ControllerType::Keyboard => PlayerController::Keyboard(
            KeyboardController {
                key_map,
                state: KeyState::empty(),
                old_state: KeyState::empty(),
                trigger: KeyState::empty(),
            },
        ),
        ControllerType::Gamepad(index) => PlayerController::Gamepad(
            GilrsPlayerController {
                gamepad_id: if index < connected.len() {
                    Some(connected[index as int])
                } else {
                    None
                },
                left_x: AxisValue::zero(),
                left_y: AxisValue::zero(),
                right_x: AxisValue::zero(),
                right_y: AxisValue::zero(),
                state: KeyState::empty(),
                old_state: KeyState::empty(),
                trigger: KeyState::empty(),
            },
        ),
    }
}

/// Builds the controller for a selector, looking a gamepad up among the
/// connected devices now.
pub fn create_controller(kind: ControllerType, key_map: PlayerKeyMap, connected: &Vec<usize>) -> (r:
    PlayerController)
    ensures
        r == controller_for(kind, key_map, connected@),
        r.wf(),
{
    match kind {
        ControllerType::Keyboard => PlayerController::Keyboard(KeyboardController::new(key_map)),
        ControllerType::Gamepad(index) => PlayerController::Gamepad(
            GilrsPlayerController::new(to_gamepad_id(index, connected)),
        ),
    }
}

impl Settings {
    /// The settings to start with.
    pub fn load() -> (r: Settings)
        ensures
            r == default_settings(),
    {
        Settings::default()
    }

    /// Player 1's controller, on the gamepads connected now.
    pub fn create_player1_controller(&self, connected: &Vec<usize>) -> (r: PlayerController)
        ensures
            r == controller_for(self.player1_controller_type, self.player1_key_map, connected@),
            r.wf(),
    {
        create_controller(self.player1_controller_type, self.player1_key_map, connected)
    }

    /// Player 2's controller, on the gamepads connected now.
    pub fn create_player2_controller(&self, connected: &Vec<usize>) -> (r: PlayerController)
        ensures
            r == controller_for(self.player2_controller_type, self.player2_key_map, connected@),
            r.wf(),
    {
        create_controller(self.player2_controller_type, self.player2_key_map, connected)
    }
}

impl Default for Settings {
    fn default() -> (r: Settings)
        ensures
            r == default_settings(),
    {
        Settings {
            seasonal_textures: true,
            original_textures: false,
            shader_effects: true,
            motion_interpolation: true,
            touch_controls: false,
            player1_key_map: p1_default_keymap(),
            player2_key_map: p2_default_keymap(),
            player1_controller_type: ControllerType::Keyboard,
            player2_controller_type: ControllerType::Keyboard,
            god_mode: false,
            infinite_booster: false,
            debug_outlines: false,
        }
    }
}

} // verus!
