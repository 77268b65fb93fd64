//! A single move of one axis: the conversion between lengths and pulses, the
//! decision taken before each pulse, and the bookkeeping of the position.
//!
//! A move is driven from outside. The driver starts it with [`move_steps`],
//! which answers with a [`PulseTrain`], has the driver of the stepper
//! enabled in the direction of the move and asks for real-time priority.
//! While the train is not done, the driver reads the limit switch that the
//! train watches, the emergency stop and the state of the run, and hands
//! them to [`PulseTrain::next_pulse`], which answers with the pulse to send
//! or with the order to stop. When the train is done,
//! [`PulseTrain::finish`] has the driver of the stepper disabled, gives the
//! priority up, records the new position and gives the result of the move.
//! The lines of a stepper and the priority are in the machine as what they
//! are to be; whoever holds the pins sets them after each of these calls.

use vstd::prelude::*;
use crate::structs_and_consts::{
    get_stepper, AxisDirection, Inch, MoveResult, Pi, ProcedureExecutionStateEnum, PulseCount, Stepper,
    JAR_SPACING, JAR_TOLERANCE, LEFT_POSITION,
};
use crate::timing::{generate_wait_times_two, wait_times_two};

verus! {

/// The frequency that a move starts with, and gains with each band of pulses.
pub const MOVE_BAND_HZ: u64 = 400;

/// The highest frequency of a move.
pub const MOVE_MAX_HZ: u64 = 17000;

/// The limit switch at one end of an axis.
#[derive(Debug, Clone, Copy, PartialEq, Eq, Structural)]
pub enum LimitSwitch {
    Low,
    High,
}

/// Why a move stopped before its last pulse.
#[derive(Debug, Clone, Copy, PartialEq, Eq, Structural)]
pub enum StopCause {
    /// The limit switch in the direction of travel was triggered.
    LimitSwitch,
    /// The emergency stop was pressed.
    EStop,
    /// The run was paused or stopped.
    SoftStop,
}

/// What the driver does next in a move.
#[derive(Debug, Clone, Copy, PartialEq, Eq, Structural)]
pub enum PulseAction {
    /// Raise the pulse line, wait `half_period_ns`, lower it and wait again.
    Pulse { half_period_ns: u64 },
    /// Send no further pulse. With `pause_procedure`, also set the state of
    /// the run to paused and switch the light of an active run off.
    Stop { pause_procedure: bool },
}

/// A move under way: its direction, the delays of its pulses and how far it
/// has come.
#[derive(Debug, Clone)]
pub struct PulseTrain {
    pub axis: AxisDirection,
    pub forward: bool,
    pub is_homing: bool,
    pub skip_soft_estop_check: bool,
    /// The limit switch to read before each pulse, if one is wired in the
    /// direction of travel.
    pub watched: Option<LimitSwitch>,
    /// The delay of each pulse, in nanoseconds.
    pub times: Vec<u64>,
    /// The number of pulses sent so far.
    pub emitted: usize,
    /// Why the move stopped, once it has.
    pub stopped: Option<StopCause>,
}

impl Stepper {
    /// The pulse count that stands for a length: the length times the pulses
    /// of a revolution, divided by the travel of a revolution, rounded down;
    /// zero for a length below zero, and the largest count where it would
    /// not fit.
    pub open spec fn pulses_at(&self, inches: int) -> int {
        let pulses = self.pulses_per_revolution * inches / (self.travel_distance_per_turn as int);
        if inches <= 0 {
            0
        } else if pulses > u64::MAX {
            u64::MAX as int
        } else {
            pulses
        }
    }

    /// The length that stands for a pulse count: the count times the travel
    /// of a revolution, divided by the pulses of a revolution, rounded down;
    /// the largest length where it would not fit.
    pub open spec fn inches_at(&self, pulses: int) -> int {
        let inches = pulses * self.travel_distance_per_turn / (self.pulses_per_revolution as int);
        if inches > i64::MAX {
            i64::MAX as int
        } else {
            inches
        }
    }

    /// The pulse count of the high end of the axis.
    pub open spec fn limit_pulses(&self) -> int {
        self.pulses_at(self.position_limit as int)
    }

    /// The limit switch that a move in a direction has to watch, if it is wired.
    pub open spec fn watched_switch(&self, forward: bool) -> Option<LimitSwitch> {
        if forward && self.limit_switch_high {
            Some(LimitSwitch::High)
        } else if !forward && self.limit_switch_low {
            Some(LimitSwitch::Low)
        } else {
            None
        }
    }
}

/// The pulse count of a length on an axis.
pub fn inches_to_pulses(inches: Inch, stepper: &Stepper) -> (pulses: PulseCount)
    requires
        stepper.calibrated(),
    ensures
        pulses == stepper.pulses_at(inches as int),
{
    if inches <= 0 {
        return 0;
    }
    let per_revolution: u64 = stepper.pulses_per_revolution;
    let travel: Inch = stepper.travel_distance_per_turn;
    assert(per_revolution * inches <= 0xffff_ffff_ffff_ffff * 0x7fff_ffff_ffff_ffff)
        by (nonlinear_arith)
        requires
            0 <= per_revolution <= 0xffff_ffff_ffff_ffff,
            0 <= inches <= 0x7fff_ffff_ffff_ffff,
    ;
    let scaled: u128 = (per_revolution as u128) * (inches as u128);
    let pulses: u128 = scaled / (travel as u128);
    if pulses > u64::MAX as u128 {
        u64::MAX
    } else {
        pulses as u64
    }
}

/// The length of a pulse count on an axis.
pub fn pulses_to_inches(pulses: PulseCount, stepper: &Stepper) -> (inches: Inch)
    requires
        stepper.calibrated(),
    ensures
        inches == stepper.inches_at(pulses as int),
{
    let per_revolution: u64 = stepper.pulses_per_revolution;
    let travel: Inch = stepper.travel_distance_per_turn;
    assert(pulses * travel <= 0xffff_ffff_ffff_ffff * 0x7fff_ffff_ffff_ffff) by (nonlinear_arith)
        requires
            0 <= pulses <= 0xffff_ffff_ffff_ffff,
            0 <= travel <= 0x7fff_ffff_ffff_ffff,
    ;
    assert(0 <= pulses * travel) by (nonlinear_arith)
        requires
            0 <= pulses,
            0 <= travel,
    ;
    let scaled: u128 = (pulses as u128) * (travel as u128);
    let inches: u128 = scaled / (per_revolution as u128);
    if inches > i64::MAX as u128 {
        i64::MAX
    } else {
        inches as i64
    }
}

/// Where a jar stands on the x-axis: the first jar at the left position,
/// each further jar one spacing on. Jars are counted from one.
pub open spec fn jar_inches(jar_number: int) -> int {
    LEFT_POSITION + JAR_SPACING * (jar_number - 1)
}

/// Where a jar stands on the x-axis.
pub fn jar_position(jar_number: i32) -> (inches: Inch)
    ensures
        inches == jar_inches(jar_number as int),
{
    LEFT_POSITION + JAR_SPACING * (jar_number as i64 - 1)
}

/// The x-axis is homed, and its position is less than the tolerance away
/// from a jar.
pub open spec fn at_jar(pi: Pi, jar_number: int) -> bool {
    match pi.stepper_x.pos {
        None => false,
        Some(pulses) => {
            let current = pi.stepper_x.inches_at(pulses as int);
            let target = jar_inches(jar_number);
            -JAR_TOLERANCE < target - current < JAR_TOLERANCE
        },
    }
}

/// Tells whether the rack is known to stand at a jar: the x-axis is homed and
/// less than the tolerance away from the jar's position.
pub fn known_to_be_at_jar_position(pi: &Pi, jar_number: i32) -> (known: bool)
    requires
        pi.stepper_x.calibrated(),
    ensures
        known == at_jar(*pi, jar_number as int),
{
    match pi.stepper_x.pos {
        None => false,
        Some(pulses) => {
            let current: i128 = pulses_to_inches(pulses, &pi.stepper_x) as i128;
            let target: i128 = jar_position(jar_number) as i128;
            let tolerance: i128 = JAR_TOLERANCE as i128;
            -tolerance < target - current && target - current < tolerance
        },
    }
}

/// Why a move stops before its next pulse, if it does. The limit switch in
/// the direction of travel comes first, then the emergency stop, then a run
/// that is paused or stopped; the last is passed over by a move that is
/// allowed while the run is paused.
pub open spec fn stop_cause(
    watched: Option<LimitSwitch>,
    skip_soft_estop_check: bool,
    limit_switch: bool,
    estop: bool,
    state: Option<ProcedureExecutionStateEnum>,
) -> Option<StopCause> {
    if watched.is_some() && limit_switch {
        Some(StopCause::LimitSwitch)
    } else if estop {
        Some(StopCause::EStop)
    } else if !skip_soft_estop_check && (state == Some(ProcedureExecutionStateEnum::Paused)
        || state == Some(ProcedureExecutionStateEnum::Stopped)) {
        Some(StopCause::SoftStop)
    } else {
        None
    }
}

/// Whether a stop pauses the run: the emergency stop does, where the move
/// knows of a run and is not one that is allowed while the run is paused.
pub open spec fn pauses_procedure(
    cause: StopCause,
    skip_soft_estop_check: bool,
    state: Option<ProcedureExecutionStateEnum>,
) -> bool {
    cause == StopCause::EStop && state.is_some() && !skip_soft_estop_check
}

/// No move passes over the emergency stop: whatever the move is and whatever
/// the state of the run, no pulse is sent while the emergency stop is
/// pressed. A limit switch that is wired in the direction of travel and
/// triggered stops every move as well.
pub proof fn lemma_emergency_stop_always_stops(
    watched: Option<LimitSwitch>,
    skip_soft_estop_check: bool,
    limit_switch: bool,
    estop: bool,
    state: Option<ProcedureExecutionStateEnum>,
)
    ensures
        estop ==> stop_cause(watched, skip_soft_estop_check, limit_switch, estop, state).is_some(),
        watched.is_some() && limit_switch ==> stop_cause(
            watched,
            skip_soft_estop_check,
            limit_switch,
            estop,
            state,
        ) == Some(StopCause::LimitSwitch),
{
}

/// A run that is paused or stopped holds up the moves that belong to it and
/// no others: with no switch triggered and the emergency stop not pressed, a
/// move stops exactly if it knows of a run that is paused or stopped and is
/// not one that is allowed while the run is paused.
pub proof fn lemma_paused_run_stops_its_moves(
    watched: Option<LimitSwitch>,
    skip_soft_estop_check: bool,
    state: Option<ProcedureExecutionStateEnum>,
)
    ensures
        stop_cause(watched, skip_soft_estop_check, false, false, state).is_some() <==> {
            &&& !skip_soft_estop_check
            &&& (state == Some(ProcedureExecutionStateEnum::Paused) || state == Some(
                ProcedureExecutionStateEnum::Stopped,
            ))
        },
{
}

/// The position of a stepper after a move. A triggered limit switch sets it
/// to the end of the axis that the switch stands at, whatever was counted.
/// Otherwise a homing move leaves it as it was, and any other move adds the
/// pulses sent to it, or takes them from it, without leaving the range of a
/// pulse count.
pub open spec fn position_after(
    stepper: Stepper,
    forward: bool,
    is_homing: bool,
    stopped: Option<StopCause>,
    emitted: int,
) -> Option<PulseCount> {
    if stopped == Some(StopCause::LimitSwitch) {
        if forward {
            Some(stepper.limit_pulses() as u64)
        } else {
            Some(0u64)
        }
    } else if is_homing {
        stepper.pos
    } else {
        match stepper.pos {
            None => None,
            Some(before) => if forward {
                if before + emitted > u64::MAX {
                    Some(u64::MAX)
                } else {
                    Some((before + emitted) as u64)
                }
            } else {
                if before < emitted {
                    Some(0u64)
                } else {
                    Some((before - emitted) as u64)
                }
            },
        }
    }
}

/// The result of a move of a stepper. A triggered limit switch gives
/// `HitLimitSwitch`. Otherwise a homing move has failed; a move of an axis
/// that is not homed was refused; a move stopped by the emergency stop or by
/// the state of the run gives `HitEStop`; and a move that sent all its pulses
/// gives `MovedFullDistance`.
pub open spec fn result_after(stepper: Stepper, is_homing: bool, stopped: Option<StopCause>) -> MoveResult {
    if stopped == Some(StopCause::LimitSwitch) {
        MoveResult::HitLimitSwitch
    } else if is_homing {
        MoveResult::FailedToHome
    } else if stepper.pos.is_none() {
        MoveResult::FailedDueToNotHomed
    } else if stopped.is_some() {
        MoveResult::HitEStop
    } else {
        MoveResult::MovedFullDistance
    }
}

impl PulseTrain {
    /// No more pulses were sent than the move has.
    pub open spec fn wf(&self) -> bool {
        self.emitted <= self.times@.len()
    }

    /// The move has stopped or has sent its last pulse.
    pub open spec fn done(&self) -> bool {
        self.stopped.is_some() || self.emitted == self.times@.len()
    }

    /// Tells whether the move has stopped or has sent its last pulse.
    pub fn is_done(&self) -> (done: bool)
        ensures
            done == self.done(),
    {
        self.stopped.is_some() || self.emitted == self.times.len()
    }

    /// Decides what happens before the next pulse, from what the driver read:
    /// `limit_switch` is the reading of the switch that the move watches
    /// (anything where it watches none), `estop` the reading of the emergency
    /// stop, `state` the state of the run where the move knows of one.
    ///
    /// The move stops for the first of the causes of [`stop_cause`] that
    /// holds, and the train records the cause. Otherwise the next pulse is
    /// sent with its own delay, and the train counts it.
    pub fn next_pulse(
        &mut self,
        limit_switch: bool,
        estop: bool,
        state: Option<ProcedureExecutionStateEnum>,
    ) -> (action: PulseAction)
        requires
            old(self).wf(),
            !old(self).done(),
        ensures
            final(self).wf(),
            match stop_cause(
                old(self).watched,
                old(self).skip_soft_estop_check,
                limit_switch,
                estop,
                state,
            ) {
                Some(cause) => {
                    &&& *final(self) == (PulseTrain { stopped: Some(cause), ..*old(self) })
                    &&& action == (PulseAction::Stop {
                        pause_procedure: pauses_procedure(
                            cause,
                            old(self).skip_soft_estop_check,
                            state,
                        ),
                    })
                },
                None => {
                    &&& *final(self) == (PulseTrain {
                        emitted: (old(self).emitted + 1) as usize,
                        ..*old(self)
                    })
                    &&& action == (PulseAction::Pulse {
                        half_period_ns: old(self).times@[old(self).emitted as int],
                    })
                },
            },
    {
        if self.watched.is_some() && limit_switch {
            self.stopped = Some(StopCause::LimitSwitch);
            return PulseAction::Stop { pause_procedure: false };
        }
        if estop {
            self.stopped = Some(StopCause::EStop);
            return PulseAction::Stop {
                pause_procedure: state.is_some() && !self.skip_soft_estop_check,
            };
        }
        if !self.skip_soft_estop_check {
            match state {
                Some(ProcedureExecutionStateEnum::Paused) | Some(
                    ProcedureExecutionStateEnum::Stopped,
                ) => {
                    self.stopped = Some(StopCause::SoftStop);
                    return PulseAction::Stop { pause_procedure: false };
                },
                _ => {},
            }
        }
        let size: usize = self.times.len();
        let half_period_ns: u64 = self.times[self.emitted];
        assert(self.emitted < size);
        self.emitted = self.emitted + 1;
        PulseAction::Pulse { half_period_ns }
    }

    /// Ends the move: disables the driver of the stepper, gives the
    /// real-time priority up, records the position of the axis as
    /// [`position_after`] gives it, and gives the result of the move as
    /// [`result_after`] does. Nothing else of the machine changes.
    pub fn finish(&self, pi: &mut Pi) -> (result: MoveResult)
        requires
            self.wf(),
            self.done(),
            old(pi).stepper(self.axis).calibrated(),
        ensures
            result == result_after(old(pi).stepper(self.axis), self.is_homing, self.stopped),
            *final(pi) == (Pi { real_time: false, ..*old(pi) }).with_stepper(
                self.axis,
                Stepper {
                    ena: false,
                    pos: position_after(
                        old(pi).stepper(self.axis),
                        self.forward,
                        self.is_homing,
                        self.stopped,
                        self.emitted as int,
                    ),
                    ..old(pi).stepper(self.axis)
                },
            ),
    {
        pi.real_time = false;
        let stepper = get_stepper(pi, &self.axis);
        stepper.ena = false;
        let hit_limit_switch: bool = match self.stopped {
            Some(StopCause::LimitSwitch) => true,
            _ => false,
        };
        if hit_limit_switch {
            if self.forward {
                stepper.pos = Some(inches_to_pulses(stepper.position_limit, stepper));
            } else {
                stepper.pos = Some(0);
            }
            return MoveResult::HitLimitSwitch;
        }
        if self.is_homing {
            return MoveResult::FailedToHome;
        }
        let before: u64 = match stepper.pos {
            None => {
                return MoveResult::FailedDueToNotHomed;
            },
            Some(before) => before,
        };
        let emitted: u64 = self.emitted as u64;
        if self.forward {
            stepper.pos = Some(before.saturating_add(emitted));
        } else {
            stepper.pos = Some(before.saturating_sub(emitted));
        }
        if self.stopped.is_some() {
            MoveResult::HitEStop
        } else {
            MoveResult::MovedFullDistance
        }
    }
}

/// Starts a move of `pulses` pulses on an axis, forward or backward.
///
/// An axis that is not homed is moved only to home it: any other move of it
/// is refused with `FailedDueToNotHomed`, and the machine stays as it is.
/// Otherwise real-time priority is asked for, the driver of the stepper is
/// enabled and its direction line set, and the move starts with no pulse
/// sent, the delays of the banded ramp and the limit switch of the stepper
/// that lies in the direction of travel.
pub fn move_steps(
    pi: &mut Pi,
    axis: AxisDirection,
    forward: bool,
    pulses: PulseCount,
    is_homing: bool,
    skip_soft_estop_check: bool,
) -> (started: Result<PulseTrain, MoveResult>)
    requires
        pulses <= usize::MAX,
    ensures
        started.is_err() <==> !is_homing && old(pi).stepper(axis).pos.is_none(),
        started.is_err() ==> started == Err::<PulseTrain, MoveResult>(
            MoveResult::FailedDueToNotHomed,
        ) && *final(pi) == *old(pi),
        started.is_ok() ==> {
            let train = started->Ok_0;
            &&& *final(pi) == (Pi { real_time: true, ..*old(pi) }).with_stepper(
                axis,
                Stepper { ena: true, dir: forward, ..old(pi).stepper(axis) },
            )
            &&& train.axis == axis
            &&& train.forward == forward
            &&& train.is_homing == is_homing
            &&& train.skip_soft_estop_check == skip_soft_estop_check
            &&& train.watched == old(pi).stepper(axis).watched_switch(forward)
            &&& train.times@ == wait_times_two(
                pulses as int,
                MOVE_BAND_HZ as int,
                MOVE_MAX_HZ as int,
            )
            &&& train.emitted == 0
            &&& train.stopped.is_none()
            &&& train.wf()
        },
{
    let homed: bool = match axis {
        AxisDirection::X => pi.stepper_x.pos.is_some(),
        AxisDirection::Z => pi.stepper_z.pos.is_some(),
    };
    if !is_homing && !homed {
        return Err(MoveResult::FailedDueToNotHomed);
    }
    pi.real_time = true;
    let stepper = get_stepper(pi, &axis);
    stepper.ena = true;
    stepper.dir = forward;
    let watched: Option<LimitSwitch> = if forward && stepper.limit_switch_high {
        Some(LimitSwitch::High)
    } else if !forward && stepper.limit_switch_low {
        Some(LimitSwitch::Low)
    } else {
        None
    };
    let times: Vec<u64> = generate_wait_times_two(pulses, MOVE_BAND_HZ, MOVE_MAX_HZ);
    Ok(
        PulseTrain {
            axis,
            forward,
            is_homing,
            skip_soft_estop_check,
            watched,
            times,
            emitted: 0,
            stopped: None,
        },
    )
}

} // verus!
