use vstd::prelude::*;

use crate::analog::AxisValue;
use crate::key_state::{
    group_key_state, KeyState, DOWN, INVENTORY, JUMP, LEFT, MAP, NEXT_WEAPON, PREV_WEAPON, RIGHT,
    SHOOT, START, UP,
};
use crate::settings::{PlayerKeyMap, KEY_ESCAPE};

verus! {

broadcast use group_key_state;

/// Bit pattern of -1.0.
pub const MINUS_ONE_BITS: u64 = 0xbff0_0000_0000_0000;

/// Bit pattern of 1.0.
pub const ONE_BITS: u64 = 0x3ff0_0000_0000_0000;

/// The analog reading a pair of opposite keys stands for: -1.0 when only the
/// negative one is held, 1.0 when only the positive one is, 0.0 otherwise.
pub open spec fn keys_axis(negative: bool, positive: bool) -> AxisValue {
    if negative && !positive {
        AxisValue { bits: MINUS_ONE_BITS }
    } else if positive && !negative {
        AxisValue { bits: ONE_BITS }
    } else {
        AxisValue::zero()
    }
}

/// Whether `key` is among the held keys.
pub fn is_held(held: &Vec<u32>, key: u32) -> (r: bool)
    ensures
        r == held@.contains(key),
{
    let mut i: usize = 0;
    while i < held.len()
        invariant
            0 <= i <= held.len(),
            forall|j: int| 0 <= j < i ==> held@[j] != key,
        decreases held.len() - i,
    {
        if held[i] == key {
            return true;
        }
        i = i + 1;
    }
    false
}

/// A controller driven by the keyboard through a player's key map. Escape
/// serves as the start button.
#[derive(Clone, Copy, Debug, PartialEq, Eq)]
pub struct KeyboardController {
    pub key_map: PlayerKeyMap,
    /// Buttons held in the latest sample.
    pub state: KeyState,
    /// Buttons held before the latest sample.
    pub old_state: KeyState,
    /// Buttons that went down with the latest sample.
    pub trigger: KeyState,
}

impl KeyboardController {
    pub open spec fn wf(self) -> bool {
        self.state.wf() && self.old_state.wf() && self.trigger.wf()
    }

    /// The controller after reading which keys are held.
    pub open spec fn updated(self, held: Seq<u32>) -> KeyboardController {
        let m = self.key_map;
        KeyboardController {
            state: self.state.with(LEFT, held.contains(m.left)).with(
                RIGHT,
                held.contains(m.right),
            ).with(UP, held.contains(m.up)).with(DOWN, held.contains(m.down)).with(
                MAP,
                held.contains(m.map),
            ).with(INVENTORY, held.contains(m.inventory)).with(JUMP, held.contains(m.jump)).with(
                SHOOT,
                held.contains(m.shoot),
            ).with(NEXT_WEAPON, held.contains(m.next_weapon)).with(
                PREV_WEAPON,
                held.contains(m.prev_weapon),
            ).with(START, held.contains(KEY_ESCAPE)),
            ..self
        }
    }

    /// The controller after the trigger step.
    pub open spec fn triggered(self) -> KeyboardController {
        KeyboardController {
            trigger: self.state.rising(self.old_state),
            old_state: self.state,
            ..self
        }
    }

    /// A controller with no key held.
    pub fn new(key_map: PlayerKeyMap) -> (r: KeyboardController)
        ensures
            r.key_map == key_map,
            r.state == KeyState::empty(),
            r.old_state == KeyState::empty(),
            r.trigger == KeyState::empty(),
            r.wf(),
    {
        KeyboardController {
            key_map,
            state: KeyState::new(),
            old_state: KeyState::new(),
            trigger: KeyState::new(),
        }
    }

    /// Reads the bound keys from the keys held this frame.
    pub fn update(&mut self, held: &Vec<u32>)
        requires
            old(self).wf(),
        ensures
            *final(self) == old(self).updated(held@),
            final(self).wf(),
    {
        let m = self.key_map;
        let mut state = self.state;
        state.set(LEFT, is_held(held, m.left));
        state.set(RIGHT, is_held(held, m.right));
        state.set(UP, is_held(held, m.up));
        state.set(DOWN, is_held(held, m.down));
        state.set(MAP, is_held(held, m.map));
        state.set(INVENTORY, is_held(held, m.inventory));
        state.set(JUMP, is_held(held, m.jump));
        state.set(SHOOT, is_held(held, m.shoot));
        state.set(NEXT_WEAPON, is_held(held, m.next_weapon));
        state.set(PREV_WEAPON, is_held(held, m.prev_weapon));
        state.set(START, is_held(held, KEY_ESCAPE));
        self.state = state;
    }

    /// Records which buttons went down since the previous call and makes the
    /// current buttons the previous ones.
    pub fn update_trigger(&mut self)
        requires
            old(self).wf(),
        ensures
            *final(self) == old(self).triggered(),
            final(self).wf(),
    {
        self.trigger = self.state.rising_from(&self.old_state);
        self.old_state = self.state;
    }

    pub fn move_up(&self) -> (r: bool)
        ensures
            r == self.state.has(UP),
    {
        self.state.get(UP)
    }

    pub fn move_left(&self) -> (r: bool)
        ensures
            r == self.state.has(LEFT),
    {
        self.state.get(LEFT)
    }

    pub fn move_down(&self) -> (r: bool)
        ensures
            r == self.state.has(DOWN),
    {
        self.state.get(DOWN)
    }

    pub fn move_right(&self) -> (r: bool)
        ensures
            r == self.state.has(RIGHT),
    {
        self.state.get(RIGHT)
    }

    pub fn prev_weapon(&self) -> (r: bool)
        ensures
            r == self.state.has(PREV_WEAPON),
    {
        self.state.get(PREV_WEAPON)
    }

    pub fn next_weapon(&self) -> (r: bool)
        ensures
            r == self.state.has(NEXT_WEAPON),
    {
        self.state.get(NEXT_WEAPON)
    }

    pub fn jump(&self) -> (r: bool)
        ensures
            r == self.state.has(JUMP),
    {
        self.state.get(JUMP)
    }

    pub fn shoot(&self) -> (r: bool)
        ensures
            r == self.state.has(SHOOT),
    {
        self.state.get(SHOOT)
    }

    pub fn trigger_up(&self) -> (r: bool)
        ensures
            r == self.trigger.has(UP),
    {
        self.trigger.get(UP)
    }

    pub fn trigger_left(&self) -> (r: bool)
        ensures
            r == self.trigger.has(LEFT),
    {
        self.trigger.get(LEFT)
    }

    pub fn trigger_down(&self) -> (r: bool)
        ensures
            r == self.trigger.has(DOWN),
    {
        self.trigger.get(DOWN)
    }

    pub fn trigger_right(&self) -> (r: bool)
        ensures
            r == self.trigger.has(RIGHT),
    {
        self.trigger.get(RIGHT)
    }

    pub fn trigger_prev_weapon(&self) -> (r: bool)
        ensures
            r == self.trigger.has(PREV_WEAPON),
    {
        self.trigger.get(PREV_WEAPON)
    }

    pub fn trigger_next_weapon(&self) -> (r: bool)
        ensures
            r == self.trigger.has(NEXT_WEAPON),
    {
        self.trigger.get(NEXT_WEAPON)
    }

    pub fn trigger_jump(&self) -> (r: bool)
        ensures
            r == self.trigger.has(JUMP),
    {
        self.trigger.get(JUMP)
    }

    pub fn trigger_shoot(&self) -> (r: bool)
        ensures
            r == self.trigger.has(SHOOT),
    {
        self.trigger.get(SHOOT)
    }

    /// Confirms in menus: the jump button went down.
    pub fn trigger_menu_ok(&self) -> (r: bool)
        ensures
            r == self.trigger.has(JUMP),
    {
        self.trigger.get(JUMP)
    }

    /// Goes back in menus: the shoot button went down.
    pub fn trigger_menu_back(&self) -> (r: bool)
        ensures
            r == self.trigger.has(SHOOT),
    {
        self.trigger.get(SHOOT)
    }

    /// Pauses: the start button went down.
    pub fn trigger_menu_pause(&self) -> (r: bool)
        ensures
            r == self.trigger.has(START),
    {
        self.trigger.get(START)
    }

    /// The keyboard has one direction set, so looking follows moving.
    pub fn look_up(&self) -> (r: bool)
        ensures
            r == self.state.has(UP),
    {
        self.state.get(UP)
    }

    pub fn look_left(&self) -> (r: bool)
        ensures
            r == self.state.has(LEFT),
    {
        self.state.get(LEFT)
    }

    pub fn look_down(&self) -> (r: bool)
        ensures
            r == self.state.has(DOWN),
    {
        self.state.get(DOWN)
    }

    pub fn look_right(&self) -> (r: bool)
        ensures
            r == self.state.has(RIGHT),
    {
        self.state.get(RIGHT)
    }

    /// -1.0, 0.0 or 1.0 from the left and right keys.
    pub fn move_analog_x(&self) -> (r: AxisValue)
        ensures
            r == keys_axis(self.state.has(LEFT), self.state.has(RIGHT)),
    {
        axis_from_keys(self.state.get(LEFT), self.state.get(RIGHT))
    }

    /// -1.0, 0.0 or 1.0 from the down and up keys.
    pub fn move_analog_y(&self) -> (r: AxisValue)
        ensures
            r == keys_axis(self.state.has(DOWN), self.state.has(UP)),
    {
        axis_from_keys(self.state.get(DOWN), self.state.get(UP))
    }
}

fn axis_from_keys(negative: bool, positive: bool) -> (r: AxisValue)
    ensures
        r == keys_axis(negative, positive),
{
    if negative && !positive {
        AxisValue::from_bits(MINUS_ONE_BITS)
    } else if positive && !negative {
        AxisValue::from_bits(ONE_BITS)
    } else {
        AxisValue::new_zero()
    }
}

} // verus!
