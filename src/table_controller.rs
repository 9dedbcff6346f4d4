//! The movement arbiter: one control step per tick, manual switches first,
//! automatic motion toward a target height with a deadband otherwise.
use vstd::prelude::*;
use crate::signal_decoder::{SignalDecoder, height_after, push_sample};
use crate::table_info::TableInfo;

verus! {

/// Line numbers of the six lines the controller uses.
pub struct ControlPins {
    pub up_motor_pin: u64,
    pub up_controller_pin: u64,
    pub down_motor_pin: u64,
    pub down_controller_pin: u64,
    pub signal_motor_pin: u64,
    pub signal_controller_pin: u64,
}

/// The direction of an automatic move.
#[derive(Clone, Copy, Debug, PartialEq, Eq, Structural)]
pub enum Direction {
    Up,
    Down,
    Idle,
}

/// Values to drive onto the two motor lines.
#[derive(Clone, Copy, Debug, PartialEq, Eq, Structural)]
pub struct MotorOutputs {
    pub up: u8,
    pub down: u8,
}

/// What the lines and the API hand to one tick.
#[derive(Clone, Copy, Debug, PartialEq, Eq, Structural)]
pub struct TickInput {
    /// The latest target height requested since the last tick, if any.
    pub new_target_height: Option<i32>,
    /// Whether a snapshot was requested since the last tick.
    pub info_requested: bool,
    /// The sample read from the signal line.
    pub signal_bit: u8,
    /// The value read from the up switch.
    pub up_switch: u8,
    /// The value read from the down switch.
    pub down_switch: u8,
}

/// What one tick hands back to the lines and the API.
#[derive(Clone, Copy, Debug, PartialEq, Eq, Structural)]
pub struct TickOutput {
    /// The snapshot to answer, when one was requested.
    pub table_info: Option<TableInfo>,
    /// The value to mirror onto the relay line.
    pub relay_bit: u8,
    /// The values to drive onto the motor lines, when they are to be driven.
    pub motors: Option<MotorOutputs>,
}

/// Direction of a move toward `target` from `current`: down when the target
/// lies below a known height, up otherwise.
pub open spec fn direction_toward(target: i32, current: Option<i32>) -> Direction {
    match current {
        Some(c) => if target < c { Direction::Down } else { Direction::Up },
        None => Direction::Up,
    }
}

/// An upward move is under way and the height is still below the deadband.
pub open spec fn up_move_due(direction: Direction, current: Option<i32>, target: Option<i32>) -> bool {
    direction == Direction::Up && current is Some && target is Some
        && current.unwrap() < target.unwrap() - 1
}

/// A downward move is under way and the height is still above the deadband.
pub open spec fn down_move_due(direction: Direction, current: Option<i32>, target: Option<i32>) -> bool {
    direction == Direction::Down && current is Some && target is Some
        && current.unwrap() > target.unwrap() + 1
}

/// The motor values `up` and `down`.
pub open spec fn motors(up: u8, down: u8) -> MotorOutputs {
    MotorOutputs { up, down }
}

/// Motor values of the automatic step: none outside automatic mode or while
/// the current or the target height is unknown, else keep moving while a
/// move is due and stop otherwise.
pub open spec fn movement_outputs(auto: bool, direction: Direction, current: Option<i32>, target: Option<i32>) -> Option<MotorOutputs> {
    if !auto || current is None || target is None {
        None
    } else if up_move_due(direction, current, target) {
        Some(motors(1, 0))
    } else if down_move_due(direction, current, target) {
        Some(motors(0, 1))
    } else {
        Some(motors(0, 0))
    }
}

/// The automatic step stops the table: both heights are known and no move
/// is due.
pub open spec fn movement_stops(auto: bool, direction: Direction, current: Option<i32>, target: Option<i32>) -> bool {
    auto && current is Some && target is Some && !up_move_due(direction, current, target) && !down_move_due(direction, current, target)
}

/// Motor values of the switch step: the switches are mirrored while one is
/// pressed, and once more when both are released in manual mode.
pub open spec fn switch_outputs(up: u8, down: u8, auto: bool) -> Option<MotorOutputs> {
    if up > 0 || down > 0 || !auto { Some(motors(up, down)) } else { None }
}

/// Automatic mode after the switch step.
pub open spec fn auto_after_switches(up: u8, down: u8, auto: bool) -> bool {
    auto && up == 0 && down == 0
}

/// Direction after the switch step: a pressed switch ends any automatic move.
pub open spec fn direction_after_switches(up: u8, down: u8, direction: Direction) -> Direction {
    if up > 0 || down > 0 { Direction::Idle } else { direction }
}

/// Motor values of a tick's switch and movement steps together, from the mode,
/// direction and target after the target step and the height after decoding.
pub open spec fn tick_motors(auto: bool, direction: Direction, current: Option<i32>, target: Option<i32>, up: u8, down: u8) -> Option<MotorOutputs> {
    if switch_outputs(up, down, auto) is Some {
        switch_outputs(up, down, auto)
    } else {
        movement_outputs(auto_after_switches(up, down, auto), direction, current, target)
    }
}

/// The table's control state and decoder.
pub struct TableController {
    pub is_auto_mode: bool,
    pub direction: Direction,
    pub target_height: Option<i32>,
    pub signal_decoder: SignalDecoder,
}

impl TableController {
    /// The decoder's buffer is within its capacity.
    pub open spec fn wf(&self) -> bool {
        self.signal_decoder.wf()
    }

    /// Idle in automatic mode, with no target and no height known.
    pub fn new() -> (r: TableController)
        ensures
            r.wf(),
            r.is_auto_mode,
            r.direction == Direction::Idle,
            r.target_height.is_none(),
            r.signal_decoder.current_height.is_none(),
            r.signal_decoder.bits@.len() == 0,
    {
        TableController {
            is_auto_mode: true,
            direction: Direction::Idle,
            target_height: None,
            signal_decoder: SignalDecoder::new(),
        }
    }

    /// Takes `val` as the new target: re-enters automatic mode and heads
    /// down if the target lies below the known height, up otherwise.
    pub fn receive_new_target_height(&mut self, val: i32)
        ensures
            final(self).target_height == Some(val),
            final(self).is_auto_mode,
            final(self).direction == direction_toward(val, old(self).signal_decoder.current_height),
            final(self).signal_decoder == old(self).signal_decoder,
    {
        self.target_height = Some(val);
        self.is_auto_mode = true;
        self.direction = match self.signal_decoder.current_height {
            Some(c) => if val < c { Direction::Down } else { Direction::Up },
            None => Direction::Up,
        };
    }

    /// Snapshot of the current and target heights.
    pub fn table_info(&self) -> (r: TableInfo)
        ensures
            r.current_height == self.signal_decoder.current_height,
            r.target_height == self.target_height,
    {
        TableInfo { current_height: self.signal_decoder.current_height, target_height: self.target_height }
    }

    /// Feeds the sample read from the signal line to the decoder.
    pub fn handle_current_signal_bit(&mut self, bit: u8)
        requires
            old(self).wf(),
        ensures
            final(self).wf(),
            final(self).signal_decoder.bits@ == push_sample(old(self).signal_decoder.bits@, bit),
            final(self).signal_decoder.current_height
                == height_after(old(self).signal_decoder.current_height, final(self).signal_decoder.bits@),
            final(self).is_auto_mode == old(self).is_auto_mode,
            final(self).direction == old(self).direction,
            final(self).target_height == old(self).target_height,
    {
        self.signal_decoder.process_bit(bit);
    }

    /// The switch step: a pressed switch puts the controller in manual mode,
    /// with no automatic direction, and is mirrored onto its motor line; in manual mode released switches
    /// are mirrored too, which stops the motors.
    pub fn handle_switch_inputs(&mut self, up_switch: u8, down_switch: u8) -> (r: Option<MotorOutputs>)
        ensures
            r == switch_outputs(up_switch, down_switch, old(self).is_auto_mode),
            final(self).is_auto_mode == auto_after_switches(up_switch, down_switch, old(self).is_auto_mode),
            final(self).direction == direction_after_switches(up_switch, down_switch, old(self).direction),
            final(self).target_height == old(self).target_height,
            final(self).signal_decoder == old(self).signal_decoder,
    {
        if up_switch > 0 || down_switch > 0 {
            self.is_auto_mode = false;
            self.direction = Direction::Idle;
            Some(MotorOutputs { up: up_switch, down: down_switch })
        } else if !self.is_auto_mode {
            Some(MotorOutputs { up: up_switch, down: down_switch })
        } else {
            None
        }
    }

    /// The automatic step: nothing outside automatic mode, and nothing while
    /// the current or the target height is unknown, which holds the move until
    /// a height is decoded; otherwise keep moving while the height is outside
    /// the deadband on the side the move heads from, and stop the table once
    /// it is not.
    pub fn control_table_movement(&mut self) -> (r: Option<MotorOutputs>)
        ensures
            r == movement_outputs(old(self).is_auto_mode, old(self).direction,
                old(self).signal_decoder.current_height, old(self).target_height),
            movement_stops(old(self).is_auto_mode, old(self).direction,
                old(self).signal_decoder.current_height, old(self).target_height) ==> {
                &&& final(self).direction == Direction::Idle
                &&& !final(self).is_auto_mode
            },
            !movement_stops(old(self).is_auto_mode, old(self).direction,
                old(self).signal_decoder.current_height, old(self).target_height) ==> {
                &&& final(self).direction == old(self).direction
                &&& final(self).is_auto_mode == old(self).is_auto_mode
            },
            final(self).target_height == old(self).target_height,
            final(self).signal_decoder == old(self).signal_decoder,
    {
        if !self.is_auto_mode || self.signal_decoder.current_height.is_none() || self.target_height.is_none() {
            None
        } else if self.should_move_up() {
            Some(move_table_up())
        } else if self.should_move_down() {
            Some(move_table_down())
        } else {
            Some(self.stop_table())
        }
    }

    /// One control step: apply a new target, answer a snapshot request,
    /// decode the signal sample, then the switch step and the automatic step.
    pub fn tick(&mut self, input: TickInput) -> (r: TickOutput)
        requires
            old(self).wf(),
        ensures
            final(self).wf(),
            ({
                let auto1 = input.new_target_height is Some || old(self).is_auto_mode;
                let dir1 = match input.new_target_height {
                    Some(v) => direction_toward(v, old(self).signal_decoder.current_height),
                    None => old(self).direction,
                };
                let target1 = if input.new_target_height is Some {
                    input.new_target_height
                } else {
                    old(self).target_height
                };
                let bits2 = push_sample(old(self).signal_decoder.bits@, input.signal_bit);
                let current2 = height_after(old(self).signal_decoder.current_height, bits2);
                let auto3 = auto_after_switches(input.up_switch, input.down_switch, auto1);
                let dir3 = direction_after_switches(input.up_switch, input.down_switch, dir1);
                &&& r.table_info == (if input.info_requested {
                    Some(TableInfo { current_height: old(self).signal_decoder.current_height, target_height: target1 })
                } else {
                    None
                })
                &&& r.relay_bit == input.signal_bit
                &&& r.motors == tick_motors(auto1, dir1, current2, target1, input.up_switch, input.down_switch)
                &&& final(self).signal_decoder.bits@ == bits2
                &&& final(self).signal_decoder.current_height == current2
                &&& final(self).target_height == target1
                &&& final(self).direction == (if movement_stops(auto3, dir3, current2, target1) {
                    Direction::Idle
                } else {
                    dir3
                })
                &&& final(self).is_auto_mode == (auto3 && !movement_stops(auto3, dir3, current2, target1))
            }),
    {
        if let Some(val) = input.new_target_height {
            self.receive_new_target_height(val);
        }
        let table_info = if input.info_requested { Some(self.table_info()) } else { None };
        self.handle_current_signal_bit(input.signal_bit);
        let switched = self.handle_switch_inputs(input.up_switch, input.down_switch);
        let moved = self.control_table_movement();
        let motors = if switched.is_some() { switched } else { moved };
        TickOutput { table_info, relay_bit: input.signal_bit, motors }
    }

    /// Whether an upward move is under way and the height is below the deadband.
    pub fn should_move_up(&self) -> (r: bool)
        ensures
            r == up_move_due(self.direction, self.signal_decoder.current_height, self.target_height),
    {
        match (self.signal_decoder.current_height, self.target_height) {
            (Some(c), Some(t)) => self.direction == Direction::Up && (c as i64) < t as i64 - 1,
            _ => false,
        }
    }

    /// Whether a downward move is under way and the height is above the deadband.
    pub fn should_move_down(&self) -> (r: bool)
        ensures
            r == down_move_due(self.direction, self.signal_decoder.current_height, self.target_height),
    {
        match (self.signal_decoder.current_height, self.target_height) {
            (Some(c), Some(t)) => self.direction == Direction::Down && (c as i64) > t as i64 + 1,
            _ => false,
        }
    }

    /// Stops both motors and falls back to idle: the direction is cleared and
    /// automatic mode left until a new target arrives.
    pub fn stop_table(&mut self) -> (r: MotorOutputs)
        ensures
            r == motors(0, 0),
            final(self).direction == Direction::Idle,
            !final(self).is_auto_mode,
            final(self).target_height == old(self).target_height,
            final(self).signal_decoder == old(self).signal_decoder,
    {
        self.direction = Direction::Idle;
        self.is_auto_mode = false;
        MotorOutputs { up: 0, down: 0 }
    }
}

/// While either switch is pressed, a tick drives the motor lines with exactly
/// the switch values, whatever the mode, direction and heights.
pub proof fn lemma_switch_priority(auto: bool, direction: Direction, current: Option<i32>, target: Option<i32>, up: u8, down: u8)
    requires
        up > 0 || down > 0,
    ensures
        tick_motors(auto, direction, current, target, up, down) == Some(motors(up, down)),
{
}

/// Within one unit of the target an automatic move stops: both motors off,
/// no direction, and automatic mode left; a tick with no switch pressed
/// drives exactly that.
pub proof fn lemma_deadband_stops(direction: Direction, current: i32, target: i32)
    requires
        target - 1 <= current <= target + 1,
    ensures
        movement_stops(true, direction, Some(current), Some(target)),
        movement_outputs(true, direction, Some(current), Some(target)) == Some(motors(0, 0)),
        tick_motors(true, direction, Some(current), Some(target), 0, 0) == Some(motors(0, 0)),
{
}

/// Drives the table down.
pub fn move_table_down() -> (r: MotorOutputs)
    ensures
        r == motors(0, 1),
{
    MotorOutputs { up: 0, down: 1 }
}

/// Drives the table up.
pub fn move_table_up() -> (r: MotorOutputs)
    ensures
        r == motors(1, 0),
{
    MotorOutputs { up: 1, down: 0 }
}

} // verus!
