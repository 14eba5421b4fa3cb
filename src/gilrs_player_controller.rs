use vstd::prelude::*;

use crate::analog::{AxisValue, DEADZONE_BITS, SIGN_BIT, THRESHOLD_BITS};
use crate::key_state::{
    group_key_state, KeyState, DOWN, JUMP, LEFT, NEXT_WEAPON, PREV_WEAPON, RIGHT, SHOOT, START, UP,
};

verus! {

broadcast use group_key_state;

/// What was read from one connected gamepad during a frame.
///
/// An axis the device does not report is `None`; the buttons are read as
/// pressed or not.
#[derive(Clone, Copy, Debug, PartialEq, Eq)]
pub struct DeviceSample {
    /// The device's stable identifier.
    pub id: usize,
    pub left_x: Option<AxisValue>,
    pub left_y: Option<AxisValue>,
    pub right_x: Option<AxisValue>,
    pub right_y: Option<AxisValue>,
    /// The lower face button, bound to jump.
    pub south: bool,
    /// The right face button, bound to shoot.
    pub east: bool,
    pub left_trigger: bool,
    pub right_trigger: bool,
    pub start: bool,
}

/// The sample of the first device in `devices` with identifier `id`.
pub open spec fn sample_for(devices: Seq<DeviceSample>, id: usize) -> Option<DeviceSample>
    decreases devices.len(),
{
    if devices.len() == 0 {
        None
    } else if devices[0].id == id {
        Some(devices[0])
    } else {
        sample_for(devices.drop_first(), id)
    }
}

/// An axis after a frame: the filtered reading, or the last value when the
/// device does not report that axis.
pub open spec fn axis_after(last: AxisValue, read: Option<AxisValue>) -> AxisValue {
    match read {
        Some(v) => v.filtered(),
        None => last,
    }
}

/// A controller backed by a gamepad.
#[derive(Clone, Copy, Debug, PartialEq, Eq)]
pub struct GilrsPlayerController {
    /// The device this controller reads; `None` when no device was found for
    /// it, in which case it stays neutral.
    pub gamepad_id: Option<usize>,
    pub left_x: AxisValue,
    pub left_y: AxisValue,
    pub right_x: AxisValue,
    pub right_y: AxisValue,
    /// Buttons held in the latest sample.
    pub state: KeyState,
    /// Buttons held before the latest sample.
    pub old_state: KeyState,
    /// Buttons that went down with the latest sample.
    pub trigger: KeyState,
}

impl GilrsPlayerController {
    /// Buttons and axes are well formed.
    pub open spec fn wf(self) -> bool {
        self.state.wf() && self.old_state.wf() && self.trigger.wf()
    }

    /// The controller after taking in one sample of its device.
    pub open spec fn sampled(self, s: DeviceSample) -> GilrsPlayerController {
        let lx = axis_after(self.left_x, s.left_x);
        let ly = axis_after(self.left_y, s.left_y);
        GilrsPlayerController {
            left_x: lx,
            left_y: ly,
            right_x: axis_after(self.right_x, s.right_x),
            right_y: axis_after(self.right_y, s.right_y),
            state: self.state.with(UP, ly.greater_than(THRESHOLD_BITS)).with(
                LEFT,
                lx.less_than_negated(THRESHOLD_BITS),
            ).with(DOWN, ly.less_than_negated(THRESHOLD_BITS)).with(
                RIGHT,
                lx.greater_than(THRESHOLD_BITS),
            ).with(JUMP, s.south).with(SHOOT, s.east).with(PREV_WEAPON, s.left_trigger).with(
                NEXT_WEAPON,
                s.right_trigger,
            ).with(START, s.start),
            ..self
        }
    }

    /// The controller after a frame's update: sampled when its device is among
    /// the connected ones, unchanged otherwise.
    pub open spec fn updated(self, devices: Seq<DeviceSample>) -> GilrsPlayerController {
        match self.gamepad_id {
            Some(id) => match sample_for(devices, id) {
                Some(s) => self.sampled(s),
                None => self,
            },
            None => self,
        }
    }

    /// The controller after the trigger step: the buttons that went down since
    /// the previous step become the trigger, and the current buttons become the
    /// previous ones.
    pub open spec fn triggered(self) -> GilrsPlayerController {
        GilrsPlayerController {
            trigger: self.state.rising(self.old_state),
            old_state: self.state,
            ..self
        }
    }

    /// A neutral controller for the given device.
    pub fn new(gamepad_id: Option<usize>) -> (r: GilrsPlayerController)
        ensures
            r.gamepad_id == gamepad_id,
            r.left_x == AxisValue::zero(),
            r.left_y == AxisValue::zero(),
            r.right_x == AxisValue::zero(),
            r.right_y == AxisValue::zero(),
            r.state == KeyState::empty(),
            r.old_state == KeyState::empty(),
            r.trigger == KeyState::empty(),
            r.wf(),
    {
        GilrsPlayerController {
            gamepad_id,
            left_x: AxisValue::new_zero(),
            left_y: AxisValue::new_zero(),
            right_x: AxisValue::new_zero(),
            right_y: AxisValue::new_zero(),
            state: KeyState::new(),
            old_state: KeyState::new(),
            trigger: KeyState::new(),
        }
    }

    /// Takes in one sample of the device: filters the axes it reports, derives
    /// the directions from the left stick and reads the buttons. The trigger
    /// and the previous buttons are left alone.
    pub fn apply_sample(&mut self, s: &DeviceSample)
        requires
            old(self).wf(),
        ensures
            *final(self) == old(self).sampled(*s),
            final(self).wf(),
    {
        if let Some(v) = s.left_x {
            self.left_x = v.deadzone();
        }
        if let Some(v) = s.left_y {
            self.left_y = v.deadzone();
        }
        if let Some(v) = s.right_x {
            self.right_x = v.deadzone();
        }
        if let Some(v) = s.right_y {
            self.right_y = v.deadzone();
        }
        let up = self.left_y.exceeds(THRESHOLD_BITS);
        let left = self.left_x.below_negated(THRESHOLD_BITS);
        let down = self.left_y.below_negated(THRESHOLD_BITS);
        let right = self.left_x.exceeds(THRESHOLD_BITS);
        let mut state = self.state;
        state.set(UP, up);
        state.set(LEFT, left);
        state.set(DOWN, down);
        state.set(RIGHT, right);
        state.set(JUMP, s.south);
        state.set(SHOOT, s.east);
        state.set(PREV_WEAPON, s.left_trigger);
        state.set(NEXT_WEAPON, s.right_trigger);
        state.set(START, s.start);
        self.state = state;
    }

    /// Samples the controller's device if it is among `devices`; a device that
    /// is not connected leaves every value as it was.
    pub fn update(&mut self, devices: &Vec<DeviceSample>)
        requires
            old(self).wf(),
        ensures
            *final(self) == old(self).updated(devices@),
            final(self).wf(),
    {
        if let Some(id) = self.gamepad_id {
            let mut i: usize = 0;
            assert(devices@.subrange(0, devices.len() as int) =~= devices@);
            while i < devices.len()
                invariant
                    0 <= i <= devices.len(),
                    *self == *old(self),
                    self.gamepad_id == Some(id),
                    self.wf(),
                    sample_for(devices@, id) == sample_for(devices@.subrange(i as int, devices.len() as int), id),
                decreases devices.len() - i,
            {
                let ghost rest = devices@.subrange(i as int, devices.len() as int);
                assert(rest.drop_first() =~= devices@.subrange(i + 1, devices.len() as int));
                if devices[i].id == id {
                    self.apply_sample(&devices[i]);
                    return;
                }
                i = i + 1;
            }
            assert(devices@.subrange(i as int, devices.len() as int).len() == 0);
        }
    }

    /// Records which buttons went down since the previous call and makes the
    /// current buttons the previous ones.
    pub fn update_trigger(&mut self)
        requires
            old(self).wf(),
        ensures
            *final(self) == old(self).triggered(),
            final(self).wf(),
    {
        self.trigger = self.state.rising_from(&self.old_state);
        self.old_state = self.state;
    }

    pub fn move_up(&self) -> (r: bool)
        ensures
            r == self.left_y.greater_than(THRESHOLD_BITS),
    {
        self.left_y.exceeds(THRESHOLD_BITS)
    }

    pub fn move_left(&self) -> (r: bool)
        ensures
            r == self.left_x.less_than_negated(THRESHOLD_BITS),
    {
        self.left_x.below_negated(THRESHOLD_BITS)
    }

    pub fn move_down(&self) -> (r: bool)
        ensures
            r == self.left_y.less_than_negated(THRESHOLD_BITS),
    {
        self.left_y.below_negated(THRESHOLD_BITS)
    }

    pub fn move_right(&self) -> (r: bool)
        ensures
            r == self.left_x.greater_than(THRESHOLD_BITS),
    {
        self.left_x.exceeds(THRESHOLD_BITS)
    }

    pub fn prev_weapon(&self) -> (r: bool)
        ensures
            r == self.state.has(PREV_WEAPON),
    {
        self.state.get(PREV_WEAPON)
    }

    pub fn next_weapon(&self) -> (r: bool)
        ensures
            r == self.state.has(NEXT_WEAPON),
    {
        self.state.get(NEXT_WEAPON)
    }

    pub fn jump(&self) -> (r: bool)
        ensures
            r == self.state.has(JUMP),
    {
        self.state.get(JUMP)
    }

    pub fn shoot(&self) -> (r: bool)
        ensures
            r == self.state.has(SHOOT),
    {
        self.state.get(SHOOT)
    }

    pub fn trigger_up(&self) -> (r: bool)
        ensures
            r == self.trigger.has(UP),
    {
        self.trigger.get(UP)
    }

    pub fn trigger_left(&self) -> (r: bool)
        ensures
            r == self.trigger.has(LEFT),
    {
        self.trigger.get(LEFT)
    }

    pub fn trigger_down(&self) -> (r: bool)
        ensures
            r == self.trigger.has(DOWN),
    {
        self.trigger.get(DOWN)
    }

    pub fn trigger_right(&self) -> (r: bool)
        ensures
            r == self.trigger.has(RIGHT),
    {
        self.trigger.get(RIGHT)
    }

    pub fn trigger_prev_weapon(&self) -> (r: bool)
        ensures
            r == self.trigger.has(PREV_WEAPON),
    {
        self.trigger.get(PREV_WEAPON)
    }

    pub fn trigger_next_weapon(&self) -> (r: bool)
        ensures
            r == self.trigger.has(NEXT_WEAPON),
    {
        self.trigger.get(NEXT_WEAPON)
    }

    pub fn trigger_jump(&self) -> (r: bool)
        ensures
            r == self.trigger.has(JUMP),
    {
        self.trigger.get(JUMP)
    }

    pub fn trigger_shoot(&self) -> (r: bool)
        ensures
            r == self.trigger.has(SHOOT),
    {
        self.trigger.get(SHOOT)
    }

    /// Confirms in menus: the jump button went down.
    pub fn trigger_menu_ok(&self) -> (r: bool)
        ensures
            r == self.trigger.has(JUMP),
    {
        self.trigger.get(JUMP)
    }

    /// Goes back in menus: the shoot button went down.
    pub fn trigger_menu_back(&self) -> (r: bool)
        ensures
            r == self.trigger.has(SHOOT),
    {
        self.trigger.get(SHOOT)
    }

    /// Pauses: the start button went down.
    pub fn trigger_menu_pause(&self) -> (r: bool)
        ensures
            r == self.trigger.has(START),
    {
        self.trigger.get(START)
    }

    pub fn look_up(&self) -> (r: bool)
        ensures
            r == (self.left_y.greater_than(THRESHOLD_BITS) || self.right_y.greater_than(
                THRESHOLD_BITS,
            )),
    {
        self.left_y.exceeds(THRESHOLD_BITS) || self.right_y.exceeds(THRESHOLD_BITS)
    }

    pub fn look_left(&self) -> (r: bool)
        ensures
            r == (self.left_x.less_than_negated(THRESHOLD_BITS) || self.right_x.less_than_negated(
                THRESHOLD_BITS,
            )),
    {
        self.left_x.below_negated(THRESHOLD_BITS) || self.right_x.below_negated(THRESHOLD_BITS)
    }

    pub fn look_down(&self) -> (r: bool)
        ensures
            r == (self.left_y.less_than_negated(THRESHOLD_BITS) || self.right_y.less_than_negated(
                THRESHOLD_BITS,
            )),
    {
        self.left_y.below_negated(THRESHOLD_BITS) || self.right_y.below_negated(THRESHOLD_BITS)
    }

    pub fn look_right(&self) -> (r: bool)
        ensures
            r == (self.left_x.greater_than(THRESHOLD_BITS) || self.right_x.greater_than(
                THRESHOLD_BITS,
            )),
    {
        self.left_x.exceeds(THRESHOLD_BITS) || self.right_x.exceeds(THRESHOLD_BITS)
    }

    /// The filtered horizontal reading of the left stick.
    pub fn move_analog_x(&self) -> (r: AxisValue)
        ensures
            r == self.left_x,
    {
        self.left_x
    }

    /// The filtered vertical reading of the left stick.
    pub fn move_analog_y(&self) -> (r: AxisValue)
        ensures
            r == self.left_y,
    {
        self.left_y
    }
}

/// A reported axis ends as exactly zero when its magnitude is under 0.12 and
/// as the reading itself otherwise.
pub proof fn lemma_deadzone(c: GilrsPlayerController, s: DeviceSample)
    ensures
        s.left_x is Some ==> c.sampled(s).left_x == (if s.left_x->0.magnitude_less_than(
            DEADZONE_BITS,
        ) {
            AxisValue::zero()
        } else {
            s.left_x->0
        }),
        s.left_y is Some ==> c.sampled(s).left_y == (if s.left_y->0.magnitude_less_than(
            DEADZONE_BITS,
        ) {
            AxisValue::zero()
        } else {
            s.left_y->0
        }),
        s.right_x is Some ==> c.sampled(s).right_x == (if s.right_x->0.magnitude_less_than(
            DEADZONE_BITS,
        ) {
            AxisValue::zero()
        } else {
            s.right_x->0
        }),
        s.right_y is Some ==> c.sampled(s).right_y == (if s.right_y->0.magnitude_less_than(
            DEADZONE_BITS,
        ) {
            AxisValue::zero()
        } else {
            s.right_y->0
        }),
{
}

/// The direction threshold is strict: a stick at exactly 0.3 does not count as
/// pushed, the next larger value does.
pub proof fn lemma_threshold_is_strict()
    ensures
        !(AxisValue { bits: THRESHOLD_BITS }).greater_than(THRESHOLD_BITS),
        (AxisValue { bits: (THRESHOLD_BITS + 1) as u64 }).greater_than(THRESHOLD_BITS),
        !(AxisValue { bits: (THRESHOLD_BITS + SIGN_BIT) as u64 }).less_than_negated(THRESHOLD_BITS),
        (AxisValue { bits: (THRESHOLD_BITS + SIGN_BIT + 1) as u64 }).less_than_negated(
            THRESHOLD_BITS,
        ),
{
}

/// While the controller's device is not among the connected ones, updates keep
/// every sampled value: axes, buttons and trigger.
pub proof fn lemma_disconnected_keeps_state(c: GilrsPlayerController, devices: Seq<DeviceSample>)
    requires
        c.gamepad_id is Some ==> sample_for(devices, c.gamepad_id->0) is None,
    ensures
        c.updated(devices) == c,
{
}

} // verus!
