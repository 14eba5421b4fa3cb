use vstd::prelude::*;

use crate::analog::{AxisValue, THRESHOLD_BITS};
use crate::gilrs_player_controller::{DeviceSample, GilrsPlayerController};
use crate::key_state::{
    group_key_state, KeyState, BUTTON_COUNT, DOWN, JUMP, LEFT, NEXT_WEAPON, PREV_WEAPON, RIGHT, SHOOT, START, UP,
};
use crate::keyboard_player_controller::{keys_axis, KeyboardController};
use crate::settings::{controller_for, ControllerType, PlayerKeyMap};

verus! {

broadcast use group_key_state;

/// Everything the input sources report for one frame.
#[derive(Debug)]
pub struct FrameInput {
    /// Codes of the keys held down.
    pub held_keys: Vec<u32>,
    /// One sample per connected gamepad; empty when there is no gamepad
    /// support.
    pub gamepads: Vec<DeviceSample>,
}

/// A player's controller, of either shape.
#[derive(Clone, Copy, Debug, PartialEq, Eq)]
pub enum PlayerController {
    Keyboard(KeyboardController),
    Gamepad(GilrsPlayerController),
}

impl PlayerController {
    pub open spec fn wf(self) -> bool {
        match self {
            PlayerController::Keyboard(k) => k.wf(),
            PlayerController::Gamepad(g) => g.wf(),
        }
    }

    /// Buttons held in the latest sample.
    pub open spec fn state(self) -> KeyState {
        match self {
            PlayerController::Keyboard(k) => k.state,
            PlayerController::Gamepad(g) => g.state,
        }
    }

    /// Buttons held before the latest sample.
    pub open spec fn old_state(self) -> KeyState {
        match self {
            PlayerController::Keyboard(k) => k.old_state,
            PlayerController::Gamepad(g) => g.old_state,
        }
    }

    /// Buttons that went down with the latest sample.
    pub open spec fn trigger(self) -> KeyState {
        match self {
            PlayerController::Keyboard(k) => k.trigger,
            PlayerController::Gamepad(g) => g.trigger,
        }
    }

    pub open spec fn updated(self, input: FrameInput) -> PlayerController {
        match self {
            PlayerController::Keyboard(k) => PlayerController::Keyboard(k.updated(input.held_keys@)),
            PlayerController::Gamepad(g) => PlayerController::Gamepad(g.updated(input.gamepads@)),
        }
    }

    pub open spec fn triggered(self) -> PlayerController {
        match self {
            PlayerController::Keyboard(k) => PlayerController::Keyboard(k.triggered()),
            PlayerController::Gamepad(g) => PlayerController::Gamepad(g.triggered()),
        }
    }

    /// One whole frame: the update, then the trigger step.
    pub open spec fn stepped(self, input: FrameInput) -> PlayerController {
        self.updated(input).triggered()
    }

    /// The direction queries: from the left stick on a gamepad, from the
    /// direction keys on a keyboard.
    pub open spec fn moving_up(self) -> bool {
        match self {
            PlayerController::Keyboard(k) => k.state.has(UP),
            PlayerController::Gamepad(g) => g.left_y.greater_than(THRESHOLD_BITS),
        }
    }

    pub open spec fn moving_left(self) -> bool {
        match self {
            PlayerController::Keyboard(k) => k.state.has(LEFT),
            PlayerController::Gamepad(g) => g.left_x.less_than_negated(THRESHOLD_BITS),
        }
    }

    pub open spec fn moving_down(self) -> bool {
        match self {
            PlayerController::Keyboard(k) => k.state.has(DOWN),
            PlayerController::Gamepad(g) => g.left_y.less_than_negated(THRESHOLD_BITS),
        }
    }

    pub open spec fn moving_right(self) -> bool {
        match self {
            PlayerController::Keyboard(k) => k.state.has(RIGHT),
            PlayerController::Gamepad(g) => g.left_x.greater_than(THRESHOLD_BITS),
        }
    }

    /// The look queries: either stick on a gamepad, the direction keys on a
    /// keyboard.
    pub open spec fn looking_up(self) -> bool {
        match self {
            PlayerController::Keyboard(k) => k.state.has(UP),
            PlayerController::Gamepad(g) => g.left_y.greater_than(THRESHOLD_BITS)
                || g.right_y.greater_than(THRESHOLD_BITS),
        }
    }

    pub open spec fn looking_left(self) -> bool {
        match self {
            PlayerController::Keyboard(k) => k.state.has(LEFT),
            PlayerController::Gamepad(g) => g.left_x.less_than_negated(THRESHOLD_BITS)
                || g.right_x.less_than_negated(THRESHOLD_BITS),
        }
    }

    pub open spec fn looking_down(self) -> bool {
        match self {
            PlayerController::Keyboard(k) => k.state.has(DOWN),
            PlayerController::Gamepad(g) => g.left_y.less_than_negated(THRESHOLD_BITS)
                || g.right_y.less_than_negated(THRESHOLD_BITS),
        }
    }

    pub open spec fn looking_right(self) -> bool {
        match self {
            PlayerController::Keyboard(k) => k.state.has(RIGHT),
            PlayerController::Gamepad(g) => g.left_x.greater_than(THRESHOLD_BITS)
                || g.right_x.greater_than(THRESHOLD_BITS),
        }
    }

    pub open spec fn analog_x(self) -> AxisValue {
        match self {
            PlayerController::Keyboard(k) => keys_axis(k.state.has(LEFT), k.state.has(RIGHT)),
            PlayerController::Gamepad(g) => g.left_x,
        }
    }

    pub open spec fn analog_y(self) -> AxisValue {
        match self {
            PlayerController::Keyboard(k) => keys_axis(k.state.has(DOWN), k.state.has(UP)),
            PlayerController::Gamepad(g) => g.left_y,
        }
    }

    /// Samples the input source. Never touches the trigger.
    pub fn update(&mut self, input: &FrameInput)
        requires
            old(self).wf(),
        ensures
            *final(self) == old(self).updated(*input),
            final(self).wf(),
    {
        match self {
            PlayerController::Keyboard(k) => k.update(&input.held_keys),
            PlayerController::Gamepad(g) => g.update(&input.gamepads),
        }
    }

    /// Computes the buttons that went down and rotates the current buttons into
    /// the previous ones; called once per frame, after `update`.
    pub fn update_trigger(&mut self)
        requires
            old(self).wf(),
        ensures
            *final(self) == old(self).triggered(),
            final(self).wf(),
    {
        match self {
            PlayerController::Keyboard(k) => k.update_trigger(),
            PlayerController::Gamepad(g) => g.update_trigger(),
        }
    }

    /// The current buttons.
    fn buttons(&self) -> (r: KeyState)
        ensures
            r == self.state(),
    {
        match self {
            PlayerController::Keyboard(k) => k.state,
            PlayerController::Gamepad(g) => g.state,
        }
    }

    /// The buttons that went down with the latest sample.
    fn edges(&self) -> (r: KeyState)
        ensures
            r == self.trigger(),
    {
        match self {
            PlayerController::Keyboard(k) => k.trigger,
            PlayerController::Gamepad(g) => g.trigger,
        }
    }

    pub fn move_up(&self) -> (r: bool)
        ensures
            r == self.moving_up(),
    {
        match self {
            PlayerController::Keyboard(k) => k.move_up(),
            PlayerController::Gamepad(g) => g.move_up(),
        }
    }

    pub fn move_left(&self) -> (r: bool)
        ensures
            r == self.moving_left(),
    {
        match self {
            PlayerController::Keyboard(k) => k.move_left(),
            PlayerController::Gamepad(g) => g.move_left(),
        }
    }

    pub fn move_down(&self) -> (r: bool)
        ensures
            r == self.moving_down(),
    {
        match self {
            PlayerController::Keyboard(k) => k.move_down(),
            PlayerController::Gamepad(g) => g.move_down(),
        }
    }

    pub fn move_right(&self) -> (r: bool)
        ensures
            r == self.moving_right(),
    {
        match self {
            PlayerController::Keyboard(k) => k.move_right(),
            PlayerController::Gamepad(g) => g.move_right(),
        }
    }

    pub fn look_up(&self) -> (r: bool)
        ensures
            r == self.looking_up(),
    {
        match self {
            PlayerController::Keyboard(k) => k.look_up(),
            PlayerController::Gamepad(g) => g.look_up(),
        }
    }

    pub fn look_left(&self) -> (r: bool)
        ensures
            r == self.looking_left(),
    {
        match self {
            PlayerController::Keyboard(k) => k.look_left(),
            PlayerController::Gamepad(g) => g.look_left(),
        }
    }

    pub fn look_down(&self) -> (r: bool)
        ensures
            r == self.looking_down(),
    {
        match self {
            PlayerController::Keyboard(k) => k.look_down(),
            PlayerController::Gamepad(g) => g.look_down(),
        }
    }

    pub fn look_right(&self) -> (r: bool)
        ensures
            r == self.looking_right(),
    {
        match self {
            PlayerController::Keyboard(k) => k.look_right(),
            PlayerController::Gamepad(g) => g.look_right(),
        }
    }

    pub fn move_analog_x(&self) -> (r: AxisValue)
        ensures
            r == self.analog_x(),
    {
        match self {
            PlayerController::Keyboard(k) => k.move_analog_x(),
            PlayerController::Gamepad(g) => g.move_analog_x(),
        }
    }

    pub fn move_analog_y(&self) -> (r: AxisValue)
        ensures
            r == self.analog_y(),
    {
        match self {
            PlayerController::Keyboard(k) => k.move_analog_y(),
            PlayerController::Gamepad(g) => g.move_analog_y(),
        }
    }
    pub fn prev_weapon(&self) -> (r: bool)
        ensures
            r == self.state().has(PREV_WEAPON),
    {
        self.buttons().get(PREV_WEAPON)
    }

    pub fn next_weapon(&self) -> (r: bool)
        ensures
            r == self.state().has(NEXT_WEAPON),
    {
        self.buttons().get(NEXT_WEAPON)
    }

    pub fn jump(&self) -> (r: bool)
        ensures
            r == self.state().has(JUMP),
    {
        self.buttons().get(JUMP)
    }

    pub fn shoot(&self) -> (r: bool)
        ensures
            r == self.state().has(SHOOT),
    {
        self.buttons().get(SHOOT)
    }

    pub fn trigger_up(&self) -> (r: bool)
        ensures
            r == self.trigger().has(UP),
    {
        self.edges().get(UP)
    }

    pub fn trigger_left(&self) -> (r: bool)
        ensures
            r == self.trigger().has(LEFT),
    {
        self.edges().get(LEFT)
    }

    pub fn trigger_down(&self) -> (r: bool)
        ensures
            r == self.trigger().has(DOWN),
    {
        self.edges().get(DOWN)
    }

    pub fn trigger_right(&self) -> (r: bool)
        ensures
            r == self.trigger().has(RIGHT),
    {
        self.edges().get(RIGHT)
    }

    pub fn trigger_prev_weapon(&self) -> (r: bool)
        ensures
            r == self.trigger().has(PREV_WEAPON),
    {
        self.edges().get(PREV_WEAPON)
    }

    pub fn trigger_next_weapon(&self) -> (r: bool)
        ensures
            r == self.trigger().has(NEXT_WEAPON),
    {
        self.edges().get(NEXT_WEAPON)
    }

    pub fn trigger_jump(&self) -> (r: bool)
        ensures
            r == self.trigger().has(JUMP),
    {
        self.edges().get(JUMP)
    }

    pub fn trigger_shoot(&self) -> (r: bool)
        ensures
            r == self.trigger().has(SHOOT),
    {
        self.edges().get(SHOOT)
    }

    /// Confirms in menus: the jump button went down.
    pub fn trigger_menu_ok(&self) -> (r: bool)
        ensures
            r == self.trigger().has(JUMP),
    {
        self.edges().get(JUMP)
    }

    /// Goes back in menus: the shoot button went down.
    pub fn trigger_menu_back(&self) -> (r: bool)
        ensures
            r == self.trigger().has(SHOOT),
    {
        self.edges().get(SHOOT)
    }

    /// Pauses: the start button went down.
    pub fn trigger_menu_pause(&self) -> (r: bool)
        ensures
            r == self.trigger().has(START),
    {
        self.edges().get(START)
    }
    /// The controller after the given frames, in order.
    pub open spec fn run(self, frames: Seq<FrameInput>) -> PlayerController
        decreases frames.len(),
    {
        if frames.len() == 0 {
            self
        } else {
            self.run(frames.drop_last()).stepped(frames.last())
        }
    }

    /// Between frames the previous buttons are the current ones.
    pub open spec fn at_frame_boundary(self) -> bool {
        self.wf() && self.old_state() == self.state()
    }

    /// An update samples the buttons and leaves the previous buttons and the
    /// trigger alone.
    pub proof fn lemma_update_keeps_trigger(self, input: FrameInput)
        requires
            self.wf(),
        ensures
            self.updated(input).wf(),
            self.updated(input).old_state() == self.old_state(),
            self.updated(input).trigger() == self.trigger(),
    {
    }

    /// A whole frame ends at a frame boundary, and its trigger holds exactly
    /// the buttons that are down now and were up at the end of the frame
    /// before.
    pub proof fn lemma_step_rising_edge(self, input: FrameInput, b: u16)
        requires
            self.at_frame_boundary(),
            b < 16,
        ensures
            self.stepped(input).at_frame_boundary(),
            self.stepped(input).trigger().has(b) == (self.stepped(input).state().has(b)
                && !self.state().has(b)),
    {
        self.lemma_update_keeps_trigger(input);
    }

    /// Every run of frames from a boundary ends at a boundary.
    pub proof fn lemma_run_boundary(self, frames: Seq<FrameInput>)
        requires
            self.at_frame_boundary(),
        ensures
            self.run(frames).at_frame_boundary(),
        decreases frames.len(),
    {
        if frames.len() > 0 {
            self.lemma_run_boundary(frames.drop_last());
            self.run(frames.drop_last()).lemma_step_rising_edge(frames.last(), 0);
        }
    }
}

/// For a freshly created controller and any sequence of frames: before the
/// first frame no button has gone down, and after frame `i` a button has gone
/// down exactly when it is held after frame `i` and was not after frame
/// `i - 1`. For the jump button this is `trigger_jump`, and for the start
/// button `trigger_menu_pause`.
pub proof fn lemma_trigger_is_rising_edge(
    kind: ControllerType,
    key_map: PlayerKeyMap,
    connected: Seq<usize>,
    frames: Seq<FrameInput>,
    i: int,
    b: u16,
)
    requires
        0 < i <= frames.len(),
        b < BUTTON_COUNT,
    ensures
        !controller_for(kind, key_map, connected).trigger().has(b),
        ({
            let c = controller_for(kind, key_map, connected);
            c.run(frames.take(i)).trigger().has(b) == (c.run(frames.take(i)).state().has(b)
                && !c.run(frames.take(i - 1)).state().has(b))
        }),
{
    let c = controller_for(kind, key_map, connected);
    KeyState::lemma_empty(b);
    assert(c.at_frame_boundary());
    c.lemma_run_boundary(frames.take(i - 1));
    assert(frames.take(i).drop_last() =~= frames.take(i - 1));
    c.run(frames.take(i - 1)).lemma_step_rising_edge(frames[i - 1], b);
}

} // verus!
