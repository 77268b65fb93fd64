//! Moves made of several single moves: homing, moving to a position, and
//! moving the rack into a jar.
//!
//! A composite move is a plan that is carried out one single move at a time.
//! Each function here answers with a [`Step`]: either the composite move is
//! done, with its result, or a single move is to be run, with what is pending
//! after it. The driver runs the single move (see [`crate::motion`]) and hands
//! its result to [`Pending::resume`], which answers with the next step.

use vstd::prelude::*;
use crate::motion::{at_jar, inches_to_pulses, jar_inches, jar_position, known_to_be_at_jar_position};
use crate::structs_and_consts::{
    AxisDirection, Inch, MoveResult, Pi, PulseCount, Stepper, LEFT_POSITION, UP_POSITION,
};

verus! {

/// The pulses of the move that homes the z-axis: more than its whole travel.
pub const HOME_Z_PULSES: PulseCount = 160_000;

/// The pulses of the move that homes the x-axis: more than its whole travel.
pub const HOME_X_PULSES: PulseCount = 320_000;

/// A single move to run: the arguments of one call of `move_steps`.
#[derive(Debug, Clone, Copy, PartialEq, Eq, Structural)]
pub struct MoveCommand {
    pub axis: AxisDirection,
    pub forward: bool,
    pub pulses: PulseCount,
    pub is_homing: bool,
    pub skip_soft_estop_check: bool,
}

/// Which single move of homing is under way.
#[derive(Debug, Clone, Copy, PartialEq, Eq, Structural)]
pub enum HomeStage {
    /// The z-axis is driven up to its limit switch.
    SeekingZ,
    /// The x-axis is driven back to its limit switch; `first` is how the
    /// z-axis fared.
    SeekingX { first: MoveResult },
    /// Both switches were found and the rack is driven to the up position;
    /// `second` is how the x-axis fared.
    Raising { second: MoveResult },
    /// The rack is driven to the left position.
    MovingLeft { second: MoveResult },
}

/// Which part of a move to a position is under way.
#[derive(Debug, Clone, Copy, PartialEq, Eq, Structural)]
pub enum PosStage {
    /// The axis was not homed: the machine is being homed first.
    Homing(HomeStage),
    /// The axis is driven to the position.
    Moving,
}

/// A move to a position that is under way.
#[derive(Debug, Clone, Copy, PartialEq, Eq, Structural)]
pub struct PosPlan {
    pub axis: AxisDirection,
    pub inches: Inch,
    pub skip_soft_estop_check: bool,
    pub stage: PosStage,
}

/// Which part of a move to a jar is under way.
#[derive(Debug, Clone, Copy, PartialEq, Eq, Structural)]
pub enum JarStage {
    /// The rack is raised to the up position.
    Raising,
    /// The rack travels along the jars.
    Traversing,
    /// The rack is lowered into the jar.
    Lowering,
}

/// What is left of a composite move while one of its single moves is run.
#[derive(Debug, Clone, Copy, PartialEq, Eq, Structural)]
pub enum Pending {
    Home(HomeStage),
    Pos(PosPlan),
    Jar { jar_number: i32, stage: JarStage, inner: PosPlan },
}

/// What a composite move asks for next.
#[derive(Debug, Clone, Copy, PartialEq, Eq, Structural)]
pub enum Step {
    /// Run the single move `command`, then resume `pending` with its result.
    Run { command: MoveCommand, pending: Pending },
    /// The composite move is over, with this result.
    Done(MoveResult),
}

/// What homing asks for next.
#[derive(Debug, Clone, Copy, PartialEq, Eq, Structural)]
pub enum HomeStep {
    Run(MoveCommand, HomeStage),
    Done(MoveResult),
}

/// What a move to a position asks for next.
#[derive(Debug, Clone, Copy, PartialEq, Eq, Structural)]
pub enum PosStep {
    Run(MoveCommand, PosPlan),
    Done(MoveResult),
}

/// The move that homes the z-axis: up, further than the axis is long.
pub open spec fn homing_z() -> MoveCommand {
    MoveCommand {
        axis: AxisDirection::Z,
        forward: true,
        pulses: HOME_Z_PULSES,
        is_homing: true,
        skip_soft_estop_check: false,
    }
}

/// The move that homes the x-axis: back, further than the axis is long.
pub open spec fn homing_x() -> MoveCommand {
    MoveCommand {
        axis: AxisDirection::X,
        forward: false,
        pulses: HOME_X_PULSES,
        is_homing: true,
        skip_soft_estop_check: false,
    }
}

/// The move that takes a homed stepper from where it stands to a length:
/// forward where the length lies ahead, over as many pulses as lie between.
pub open spec fn command_toward(
    stepper: Stepper,
    axis: AxisDirection,
    inches: int,
    skip_soft_estop_check: bool,
) -> MoveCommand {
    let current = stepper.pos->Some_0 as int;
    let target = stepper.pulses_at(inches);
    MoveCommand {
        axis,
        forward: current < target,
        pulses: if current < target {
            (target - current) as u64
        } else {
            (current - target) as u64
        },
        is_homing: false,
        skip_soft_estop_check,
    }
}

/// The last part of homing: the move to the left position.
pub open spec fn home_left(pi: Pi, second: MoveResult) -> HomeStep {
    if pi.stepper_x.pos.is_some() {
        HomeStep::Run(
            command_toward(pi.stepper_x, AxisDirection::X, LEFT_POSITION as int, false),
            HomeStage::MovingLeft { second },
        )
    } else {
        HomeStep::Done(second)
    }
}

/// The part of homing that follows the finding of both switches: the move to
/// the up position, then the move to the left position.
pub open spec fn home_up(pi: Pi, second: MoveResult) -> HomeStep {
    if pi.stepper_z.pos.is_some() {
        HomeStep::Run(
            command_toward(pi.stepper_z, AxisDirection::Z, UP_POSITION as int, false),
            HomeStage::Raising { second },
        )
    } else {
        home_left(pi, second)
    }
}

/// How homing goes on after the single move of `stage` ended with `last`.
///
/// The z-axis is homed first. If it was stopped or did not find its switch,
/// homing has failed. Then the x-axis is homed, and its result is the result
/// of homing. If both axes found their switches, the rack is first driven to
/// the up position and then to the left position, whatever becomes of these
/// two moves.
pub open spec fn home_next(stage: HomeStage, pi: Pi, last: MoveResult) -> HomeStep {
    match stage {
        HomeStage::SeekingZ => if last == MoveResult::HitEStop || last == MoveResult::FailedToHome {
            HomeStep::Done(MoveResult::FailedToHome)
        } else {
            HomeStep::Run(homing_x(), HomeStage::SeekingX { first: last })
        },
        HomeStage::SeekingX { first } => if first == MoveResult::HitLimitSwitch && last
            == MoveResult::HitLimitSwitch {
            home_up(pi, last)
        } else {
            HomeStep::Done(last)
        },
        HomeStage::Raising { second } => home_left(pi, second),
        HomeStage::MovingLeft { second } => HomeStep::Done(second),
    }
}

/// How a move to a position starts: with homing where the axis is not homed,
/// else with the move to the position.
pub open spec fn pos_first(
    pi: Pi,
    axis: AxisDirection,
    inches: Inch,
    skip_soft_estop_check: bool,
) -> (MoveCommand, PosPlan) {
    if pi.stepper(axis).pos.is_none() {
        (
            homing_z(),
            PosPlan { axis, inches, skip_soft_estop_check, stage: PosStage::Homing(HomeStage::SeekingZ) },
        )
    } else {
        (
            command_toward(pi.stepper(axis), axis, inches as int, skip_soft_estop_check),
            PosPlan { axis, inches, skip_soft_estop_check, stage: PosStage::Moving },
        )
    }
}

/// How a move to a position goes on after a single move ended with `last`.
///
/// While the machine is being homed, homing goes on. When homing has failed,
/// or has left the axis without a position, the move fails with
/// `FailedDueToNotHomed`; else the axis is driven to the position, and the
/// result of that move is the result of the whole.
pub open spec fn pos_next(plan: PosPlan, pi: Pi, last: MoveResult) -> PosStep {
    match plan.stage {
        PosStage::Homing(stage) => match home_next(stage, pi, last) {
            HomeStep::Run(command, stage) => PosStep::Run(
                command,
                PosPlan { stage: PosStage::Homing(stage), ..plan },
            ),
            HomeStep::Done(homed) => if homed == MoveResult::FailedToHome || pi.stepper(
                plan.axis,
            ).pos.is_none() {
                PosStep::Done(MoveResult::FailedDueToNotHomed)
            } else {
                PosStep::Run(
                    command_toward(
                        pi.stepper(plan.axis),
                        plan.axis,
                        plan.inches as int,
                        plan.skip_soft_estop_check,
                    ),
                    PosPlan { stage: PosStage::Moving, ..plan },
                )
            },
        },
        PosStage::Moving => PosStep::Done(last),
    }
}

/// The axis that a part of a move to a jar drives.
pub open spec fn jar_stage_axis(stage: JarStage) -> AxisDirection {
    match stage {
        JarStage::Raising => AxisDirection::Z,
        JarStage::Traversing => AxisDirection::X,
        JarStage::Lowering => AxisDirection::Z,
    }
}

/// The length that a part of a move to a jar drives its axis to: the up
/// position, the position of the jar, and zero.
pub open spec fn jar_stage_inches(jar_number: i32, stage: JarStage) -> Inch {
    match stage {
        JarStage::Raising => UP_POSITION,
        JarStage::Traversing => jar_inches(jar_number as int) as i64,
        JarStage::Lowering => 0,
    }
}

/// How a part of a move to a jar starts: as the move to its position does.
pub open spec fn jar_stage_first(pi: Pi, jar_number: i32, stage: JarStage) -> Step {
    let first = pos_first(pi, jar_stage_axis(stage), jar_stage_inches(jar_number, stage), false);
    Step::Run { command: first.0, pending: Pending::Jar { jar_number, stage, inner: first.1 } }
}

/// A result that ends a move to a jar before the rack is lowered.
pub open spec fn aborts_jar(result: MoveResult) -> bool {
    result == MoveResult::HitLimitSwitch || result == MoveResult::HitEStop || result
        == MoveResult::FailedDueToNotHomed
}

/// How a move to a jar starts: where the rack is known to stand at the jar
/// it is lowered at once, else it is raised first.
pub open spec fn jar_first(pi: Pi, jar_number: i32) -> Step {
    if at_jar(pi, jar_number as int) {
        jar_stage_first(pi, jar_number, JarStage::Lowering)
    } else {
        jar_stage_first(pi, jar_number, JarStage::Raising)
    }
}

/// How a move to a jar goes on after a single move ended with `last`.
///
/// The rack is raised, driven along the jars and lowered, each by a move to
/// a position. A limit switch, a stop or an axis that is not homed ends the
/// move to the jar with the result of the part in which it happened; the
/// result of lowering is the result of the whole.
pub open spec fn jar_next(jar_number: i32, stage: JarStage, inner: PosPlan, pi: Pi, last: MoveResult) -> Step {
    match pos_next(inner, pi, last) {
        PosStep::Run(command, inner) => Step::Run {
            command,
            pending: Pending::Jar { jar_number, stage, inner },
        },
        PosStep::Done(result) => match stage {
            JarStage::Raising => if aborts_jar(result) {
                Step::Done(result)
            } else {
                jar_stage_first(pi, jar_number, JarStage::Traversing)
            },
            JarStage::Traversing => if aborts_jar(result) {
                Step::Done(result)
            } else {
                jar_stage_first(pi, jar_number, JarStage::Lowering)
            },
            JarStage::Lowering => Step::Done(result),
        },
    }
}

/// How a composite move goes on after its single move ended with `last`, on
/// the machine as that move left it.
pub open spec fn next_step(pending: Pending, pi: Pi, last: MoveResult) -> Step {
    match pending {
        Pending::Home(stage) => match home_next(stage, pi, last) {
            HomeStep::Run(command, stage) => Step::Run { command, pending: Pending::Home(stage) },
            HomeStep::Done(result) => Step::Done(result),
        },
        Pending::Pos(plan) => match pos_next(plan, pi, last) {
            PosStep::Run(command, plan) => Step::Run { command, pending: Pending::Pos(plan) },
            PosStep::Done(result) => Step::Done(result),
        },
        Pending::Jar { jar_number, stage, inner } => jar_next(jar_number, stage, inner, pi, last),
    }
}

/// How homing starts: with the z-axis.
pub open spec fn home_first() -> Step {
    Step::Run { command: homing_z(), pending: Pending::Home(HomeStage::SeekingZ) }
}

/// How a move to a position starts, as a step.
pub open spec fn move_to_pos_first(
    pi: Pi,
    axis: AxisDirection,
    inches: Inch,
    skip_soft_estop_check: bool,
) -> Step {
    let first = pos_first(pi, axis, inches, skip_soft_estop_check);
    Step::Run { command: first.0, pending: Pending::Pos(first.1) }
}

fn toward(stepper: &Stepper, axis: AxisDirection, inches: Inch, skip_soft_estop_check: bool) -> (command:
    MoveCommand)
    requires
        stepper.calibrated(),
        stepper.pos.is_some(),
    ensures
        command == command_toward(*stepper, axis, inches as int, skip_soft_estop_check),
{
    let current: u64 = match stepper.pos {
        Some(current) => current,
        None => 0,
    };
    let target: u64 = inches_to_pulses(inches, stepper);
    let forward: bool = current < target;
    let pulses: u64 = if current < target {
        target - current
    } else {
        current - target
    };
    MoveCommand { axis, forward, pulses, is_homing: false, skip_soft_estop_check }
}

fn left_of_home(pi: &Pi, second: MoveResult) -> (step: HomeStep)
    requires
        pi.calibrated(),
    ensures
        step == home_left(*pi, second),
{
    if pi.stepper_x.pos.is_some() {
        HomeStep::Run(
            toward(&pi.stepper_x, AxisDirection::X, LEFT_POSITION, false),
            HomeStage::MovingLeft { second },
        )
    } else {
        HomeStep::Done(second)
    }
}

fn up_of_home(pi: &Pi, second: MoveResult) -> (step: HomeStep)
    requires
        pi.calibrated(),
    ensures
        step == home_up(*pi, second),
{
    if pi.stepper_z.pos.is_some() {
        HomeStep::Run(
            toward(&pi.stepper_z, AxisDirection::Z, UP_POSITION, false),
            HomeStage::Raising { second },
        )
    } else {
        left_of_home(pi, second)
    }
}

fn resume_home(stage: HomeStage, pi: &Pi, last: MoveResult) -> (step: HomeStep)
    requires
        pi.calibrated(),
    ensures
        step == home_next(stage, *pi, last),
{
    match stage {
        HomeStage::SeekingZ => {
            if last == MoveResult::HitEStop || last == MoveResult::FailedToHome {
                HomeStep::Done(MoveResult::FailedToHome)
            } else {
                HomeStep::Run(
                    MoveCommand {
                        axis: AxisDirection::X,
                        forward: false,
                        pulses: HOME_X_PULSES,
                        is_homing: true,
                        skip_soft_estop_check: false,
                    },
                    HomeStage::SeekingX { first: last },
                )
            }
        },
        HomeStage::SeekingX { first } => {
            if first == MoveResult::HitLimitSwitch && last == MoveResult::HitLimitSwitch {
                up_of_home(pi, last)
            } else {
                HomeStep::Done(last)
            }
        },
        HomeStage::Raising { second } => left_of_home(pi, second),
        HomeStage::MovingLeft { second } => HomeStep::Done(second),
    }
}

fn stepper_of(pi: &Pi, axis: AxisDirection) -> (stepper: &Stepper)
    ensures
        *stepper == pi.stepper(axis),
{
    match axis {
        AxisDirection::X => &pi.stepper_x,
        AxisDirection::Z => &pi.stepper_z,
    }
}

fn first_of_pos(pi: &Pi, axis: AxisDirection, inches: Inch, skip_soft_estop_check: bool) -> (first: (
    MoveCommand,
    PosPlan,
))
    requires
        pi.calibrated(),
    ensures
        first == pos_first(*pi, axis, inches, skip_soft_estop_check),
{
    let stepper = stepper_of(pi, axis);
    if stepper.pos.is_none() {
        (
            MoveCommand {
                axis: AxisDirection::Z,
                forward: true,
                pulses: HOME_Z_PULSES,
                is_homing: true,
                skip_soft_estop_check: false,
            },
            PosPlan { axis, inches, skip_soft_estop_check, stage: PosStage::Homing(HomeStage::SeekingZ) },
        )
    } else {
        (
            toward(stepper, axis, inches, skip_soft_estop_check),
            PosPlan { axis, inches, skip_soft_estop_check, stage: PosStage::Moving },
        )
    }
}

fn resume_pos(plan: PosPlan, pi: &Pi, last: MoveResult) -> (step: PosStep)
    requires
        pi.calibrated(),
    ensures
        step == pos_next(plan, *pi, last),
{
    match plan.stage {
        PosStage::Homing(stage) => match resume_home(stage, pi, last) {
            HomeStep::Run(command, stage) => PosStep::Run(
                command,
                PosPlan {
                    axis: plan.axis,
                    inches: plan.inches,
                    skip_soft_estop_check: plan.skip_soft_estop_check,
                    stage: PosStage::Homing(stage),
                },
            ),
            HomeStep::Done(homed) => {
                let stepper = stepper_of(pi, plan.axis);
                if homed == MoveResult::FailedToHome || stepper.pos.is_none() {
                    PosStep::Done(MoveResult::FailedDueToNotHomed)
                } else {
                    PosStep::Run(
                        toward(stepper, plan.axis, plan.inches, plan.skip_soft_estop_check),
                        PosPlan {
                            axis: plan.axis,
                            inches: plan.inches,
                            skip_soft_estop_check: plan.skip_soft_estop_check,
                            stage: PosStage::Moving,
                        },
                    )
                }
            },
        },
        PosStage::Moving => PosStep::Done(last),
    }
}

fn first_of_jar_stage(pi: &Pi, jar_number: i32, stage: JarStage) -> (step: Step)
    requires
        pi.calibrated(),
    ensures
        step == jar_stage_first(*pi, jar_number, stage),
{
    let first = match stage {
        JarStage::Raising => first_of_pos(pi, AxisDirection::Z, UP_POSITION, false),
        JarStage::Traversing => first_of_pos(pi, AxisDirection::X, jar_position(jar_number), false),
        JarStage::Lowering => first_of_pos(pi, AxisDirection::Z, 0, false),
    };
    Step::Run { command: first.0, pending: Pending::Jar { jar_number, stage, inner: first.1 } }
}

fn ends_jar(result: MoveResult) -> (ends: bool)
    ensures
        ends == aborts_jar(result),
{
    result == MoveResult::HitLimitSwitch || result == MoveResult::HitEStop || result
        == MoveResult::FailedDueToNotHomed
}

impl Pending {
    /// Goes on with a composite move: `last` is the result of the single
    /// move that was run, `pi` the machine as that move left it. The answer
    /// is the next step, as [`next_step`] gives it.
    pub fn resume(self, pi: &Pi, last: MoveResult) -> (step: Step)
        requires
            pi.calibrated(),
        ensures
            step == next_step(self, *pi, last),
    {
        match self {
            Pending::Home(stage) => match resume_home(stage, pi, last) {
                HomeStep::Run(command, stage) => Step::Run { command, pending: Pending::Home(stage) },
                HomeStep::Done(result) => Step::Done(result),
            },
            Pending::Pos(plan) => match resume_pos(plan, pi, last) {
                PosStep::Run(command, plan) => Step::Run { command, pending: Pending::Pos(plan) },
                PosStep::Done(result) => Step::Done(result),
            },
            Pending::Jar { jar_number, stage, inner } => match resume_pos(inner, pi, last) {
                PosStep::Run(command, inner) => Step::Run {
                    command,
                    pending: Pending::Jar { jar_number, stage, inner },
                },
                PosStep::Done(result) => match stage {
                    JarStage::Raising => if ends_jar(result) {
                        Step::Done(result)
                    } else {
                        first_of_jar_stage(pi, jar_number, JarStage::Traversing)
                    },
                    JarStage::Traversing => if ends_jar(result) {
                        Step::Done(result)
                    } else {
                        first_of_jar_stage(pi, jar_number, JarStage::Lowering)
                    },
                    JarStage::Lowering => Step::Done(result),
                },
            },
        }
    }
}

/// Drives an axis to a position, given as a length from the axis' zero.
///
/// An axis that is not homed has the machine homed first; if homing fails,
/// the move ends with `FailedDueToNotHomed`. Then the axis is driven from
/// where it stands to the position, and the result of that single move is
/// the result of the whole.
pub fn move_to_pos(pi: &Pi, axis: AxisDirection, inches: Inch, skip_soft_estop_check: bool) -> (step: Step)
    requires
        pi.calibrated(),
    ensures
        step == move_to_pos_first(*pi, axis, inches, skip_soft_estop_check),
{
    let first = first_of_pos(pi, axis, inches, skip_soft_estop_check);
    Step::Run { command: first.0, pending: Pending::Pos(first.1) }
}

/// Raises the rack to the up position.
pub fn move_to_up_position(pi: &Pi, skip_soft_estop_check: bool) -> (step: Step)
    requires
        pi.calibrated(),
    ensures
        step == move_to_pos_first(*pi, AxisDirection::Z, UP_POSITION, skip_soft_estop_check),
{
    move_to_pos(pi, AxisDirection::Z, UP_POSITION, skip_soft_estop_check)
}

/// Lowers the rack to the bottom of the z-axis.
pub fn move_to_down_position(pi: &Pi, skip_soft_estop_check: bool) -> (step: Step)
    requires
        pi.calibrated(),
    ensures
        step == move_to_pos_first(*pi, AxisDirection::Z, 0, skip_soft_estop_check),
{
    move_to_pos(pi, AxisDirection::Z, 0, skip_soft_estop_check)
}

/// Drives the rack to the left position, over the first jar.
pub fn move_to_left_position(pi: &Pi) -> (step: Step)
    requires
        pi.calibrated(),
    ensures
        step == move_to_pos_first(*pi, AxisDirection::X, LEFT_POSITION, false),
{
    move_to_pos(pi, AxisDirection::X, LEFT_POSITION, false)
}

/// Homes the machine: the z-axis first, then the x-axis, each driven toward
/// its limit switch over more pulses than the axis is long. When both
/// switches were found the rack is driven to the up and to the left position.
/// Homing fails with `FailedToHome` as soon as an axis is stopped or does not
/// find its switch; when it succeeds its result is `HitLimitSwitch`.
pub fn home() -> (step: Step)
    ensures
        step == home_first(),
{
    Step::Run {
        command: MoveCommand {
            axis: AxisDirection::Z,
            forward: true,
            pulses: HOME_Z_PULSES,
            is_homing: true,
            skip_soft_estop_check: false,
        },
        pending: Pending::Home(HomeStage::SeekingZ),
    }
}

/// Moves the rack into a jar; jars are counted from one.
///
/// Where the rack is known to stand at the jar already, it is only lowered.
/// Else it is raised to the up position, driven to the position of the jar
/// and lowered; a limit switch, a stop or an axis that is not homed ends the
/// move with the result of the part in which it happened.
pub fn move_to_jar(pi: &Pi, jar_number: i32) -> (step: Step)
    requires
        pi.calibrated(),
    ensures
        step == jar_first(*pi, jar_number),
{
    if known_to_be_at_jar_position(pi, jar_number) {
        first_of_jar_stage(pi, jar_number, JarStage::Lowering)
    } else {
        first_of_jar_stage(pi, jar_number, JarStage::Raising)
    }
}

} // verus!
