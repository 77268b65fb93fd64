//! Whole runs of composite moves, and what holds of them.
//!
//! What the switches and the emergency stop do during a single move is not in
//! the hands of this crate. A [`PulseOutcome`] says how one single move went:
//! why it stopped, if it did, and how many pulses it had sent. [`run`] carries
//! a composite move out over a sequence of such outcomes, one for each single
//! move, exactly as the driver does with `move_steps`, `PulseTrain::finish`
//! and `Pending::resume`. The laws at the end of this file hold of every run,
//! whatever the outcomes were.

use vstd::prelude::*;
use vstd::arithmetic::div_mod::{lemma_div_is_ordered, lemma_fundamental_div_mod};
use vstd::arithmetic::mul::lemma_mul_inequality;
use crate::composite::{
    command_toward, home_first, homing_x, homing_z, jar_first, move_to_pos_first, next_step,
    HomeStage, JarStage, MoveCommand, Pending, PosPlan, PosStage, Step, HOME_X_PULSES,
    HOME_Z_PULSES,
};
use crate::motion::{at_jar, jar_inches, position_after, result_after, PulseTrain, StopCause};
use crate::structs_and_consts::{
    machine_at_start, AxisDirection, Inch, MoveResult, Pi, Stepper, JAR_TOLERANCE, LEFT_POSITION,
    UP_POSITION, X_POSITION_LIMIT,
};

verus! {

/// How a single move went: why it stopped before its last pulse, if it did,
/// and how many pulses it had sent by then.
pub struct PulseOutcome {
    pub stopped: Option<StopCause>,
    pub emitted: int,
}

/// An outcome that a command can have: no more pulses sent than it asked
/// for, and all of them where nothing stopped the move.
pub open spec fn fits(command: MoveCommand, outcome: PulseOutcome) -> bool {
    &&& 0 <= outcome.emitted <= command.pulses
    &&& outcome.stopped.is_none() ==> outcome.emitted == command.pulses
}

/// A move that `move_steps` refuses: any but a homing move of an axis that
/// is not homed.
pub open spec fn refused(pi: Pi, command: MoveCommand) -> bool {
    !command.is_homing && pi.stepper(command.axis).pos.is_none()
}

/// The machine after a single move: as `move_steps` and `PulseTrain::finish`
/// leave it, with the driver of the stepper disabled and the real-time
/// priority given up again, and unchanged where the move was refused.
pub open spec fn machine_after(pi: Pi, command: MoveCommand, outcome: PulseOutcome) -> Pi {
    if refused(pi, command) {
        pi
    } else {
        (Pi { real_time: false, ..pi }).with_stepper(
            command.axis,
            Stepper {
                ena: false,
                dir: command.forward,
                pos: position_after(
                    pi.stepper(command.axis),
                    command.forward,
                    command.is_homing,
                    outcome.stopped,
                    outcome.emitted,
                ),
                ..pi.stepper(command.axis)
            },
        )
    }
}

/// The result of a single move: as `PulseTrain::finish` gives it, and
/// `FailedDueToNotHomed` where the move was refused.
pub open spec fn result_of(pi: Pi, command: MoveCommand, outcome: PulseOutcome) -> MoveResult {
    if refused(pi, command) {
        MoveResult::FailedDueToNotHomed
    } else {
        result_after(pi.stepper(command.axis), command.is_homing, outcome.stopped)
    }
}

/// Carries a composite move out from `step` on, with one outcome for each
/// single move that it runs. Gives the machine and the result at the end, and
/// nothing where the outcomes do not fit the moves or are not as many as the
/// moves that were run.
pub open spec fn run(step: Step, pi: Pi, outcomes: Seq<PulseOutcome>) -> Option<(Pi, MoveResult)>
    decreases outcomes.len(),
{
    match step {
        Step::Done(result) => if outcomes.len() == 0 {
            Some((pi, result))
        } else {
            None
        },
        Step::Run { command, pending } => if outcomes.len() == 0 || !fits(command, outcomes[0]) {
            None
        } else {
            let after = machine_after(pi, command, outcomes[0]);
            let result = result_of(pi, command, outcomes[0]);
            run(next_step(pending, after, result), after, outcomes.subrange(1, outcomes.len() as int))
        },
    }
}

/// A statement about steps and machines that every single move hands on
/// to the step that follows it.
pub open spec fn handed_on(inv: spec_fn(Step, Pi) -> bool) -> bool {
    forall|command: MoveCommand, pending: Pending, pi: Pi, outcome: PulseOutcome|
        #![trigger inv(Step::Run { command, pending }, pi), fits(command, outcome)]
        inv(Step::Run { command, pending }, pi) && fits(command, outcome) ==> inv(
            next_step(pending, machine_after(pi, command, outcome), result_of(pi, command, outcome)),
            machine_after(pi, command, outcome),
        )
}

/// What holds at the start of a run and is handed on by every single move
/// holds at its end.
pub proof fn lemma_run_keeps(
    inv: spec_fn(Step, Pi) -> bool,
    step: Step,
    pi: Pi,
    outcomes: Seq<PulseOutcome>,
)
    requires
        inv(step, pi),
        handed_on(inv),
        run(step, pi, outcomes).is_some(),
    ensures
        inv(Step::Done(run(step, pi, outcomes)->Some_0.1), run(step, pi, outcomes)->Some_0.0),
    decreases outcomes.len(),
{
    match step {
        Step::Done(result) => {},
        Step::Run { command, pending } => {
            let outcome = outcomes[0];
            assert(inv(Step::Run { command, pending }, pi) && fits(command, outcome));
            let after = machine_after(pi, command, outcome);
            let result = result_of(pi, command, outcome);
            lemma_run_keeps(
                inv,
                next_step(pending, after, result),
                after,
                outcomes.subrange(1, outcomes.len() as int),
            );
        },
    }
}

impl Stepper {
    /// The stepper is homed and stands between its zero and its limit.
    pub open spec fn within_travel(&self) -> bool {
        match self.pos {
            None => false,
            Some(pulses) => pulses <= self.limit_pulses(),
        }
    }

    /// One pulse moves the axis by less than the tolerance of a jar, with a
    /// millionth of an inch to spare.
    pub open spec fn finer_than_tolerance(&self) -> bool {
        self.travel_distance_per_turn <= (JAR_TOLERANCE - 1) * self.pulses_per_revolution
    }
}

/// A longer length has no fewer pulses.
pub proof fn lemma_pulses_at_ordered(stepper: Stepper, shorter: int, longer: int)
    requires
        stepper.calibrated(),
        shorter <= longer,
    ensures
        0 <= stepper.pulses_at(shorter) <= stepper.pulses_at(longer) <= u64::MAX,
{
    let per_revolution = stepper.pulses_per_revolution as int;
    let travel = stepper.travel_distance_per_turn as int;
    if longer > 0 {
        assert(0 <= per_revolution * longer) by (nonlinear_arith)
            requires
                0 <= per_revolution,
                0 <= longer,
        ;
        lemma_div_is_ordered(0, per_revolution * longer, travel);
        if shorter > 0 {
            lemma_mul_inequality(shorter, longer, per_revolution);
            assert(per_revolution * shorter == shorter * per_revolution) by (nonlinear_arith);
            assert(per_revolution * longer == longer * per_revolution) by (nonlinear_arith);
            assert(0 <= per_revolution * shorter) by (nonlinear_arith)
                requires
                    0 <= per_revolution,
                    0 <= shorter,
            ;
            lemma_div_is_ordered(0, per_revolution * shorter, travel);
            lemma_div_is_ordered(per_revolution * shorter, per_revolution * longer, travel);
        }
    }
}

/// An axis that was driven to the pulse count of a length stands less than
/// the tolerance of a jar below that length, and not above it.
pub proof fn lemma_arrival_within_tolerance(stepper: Stepper, inches: int)
    requires
        stepper.calibrated(),
        stepper.finer_than_tolerance(),
        0 < inches <= i64::MAX,
        stepper.pulses_per_revolution * inches / (stepper.travel_distance_per_turn as int)
            <= u64::MAX,
    ensures
        inches - JAR_TOLERANCE < stepper.inches_at(stepper.pulses_at(inches)) <= inches,
{
    let per_revolution = stepper.pulses_per_revolution as int;
    let travel = stepper.travel_distance_per_turn as int;
    let scaled = per_revolution * inches;
    let pulses = scaled / travel;
    assert(stepper.pulses_at(inches) == pulses);
    lemma_fundamental_div_mod(scaled, travel);
    assert(0 <= scaled % travel < travel);
    let back = pulses * travel;
    assert(back == travel * pulses) by (nonlinear_arith)
        requires
            back == pulses * travel,
    ;
    assert(back <= scaled < back + travel);
    let landed = back / per_revolution;
    lemma_fundamental_div_mod(back, per_revolution);
    assert(0 <= back % per_revolution < per_revolution);
    let whole = per_revolution * landed;
    assert(whole <= back < whole + per_revolution);
    assert(landed <= inches) by (nonlinear_arith)
        requires
            whole == per_revolution * landed,
            scaled == per_revolution * inches,
            whole <= scaled,
            per_revolution > 0,
    ;
    assert(landed > inches - JAR_TOLERANCE) by (nonlinear_arith)
        requires
            whole == per_revolution * landed,
            scaled == per_revolution * inches,
            whole + per_revolution > scaled - travel,
            travel <= (JAR_TOLERANCE - 1) * per_revolution,
            per_revolution > 0,
    ;
}

/// The up position lies within the travel of the z-axis and the left
/// position within the travel of the x-axis.
pub open spec fn references_within_travel(pi: Pi) -> bool {
    UP_POSITION <= pi.stepper_z.position_limit && LEFT_POSITION <= pi.stepper_x.position_limit
}

/// A move of a homed stepper that ends within its travel if it is not
/// stopped: it is no homing move, and forward it does not pass the limit.
spec fn stays_within(stepper: Stepper, command: MoveCommand) -> bool {
    &&& !command.is_homing
    &&& command.forward ==> stepper.pos->Some_0 + command.pulses <= stepper.limit_pulses()
}

/// What holds at each step of homing.
spec fn homing_holds(step: Step, pi: Pi) -> bool {
    &&& pi.calibrated()
    &&& references_within_travel(pi)
    &&& match step {
        Step::Run { command, pending: Pending::Home(HomeStage::SeekingZ) } => command == homing_z(),
        Step::Run { command, pending: Pending::Home(HomeStage::SeekingX { first }) } => {
            &&& command == homing_x()
            &&& first == MoveResult::HitLimitSwitch
            &&& pi.stepper_z.within_travel()
        },
        Step::Run { command, pending: Pending::Home(HomeStage::Raising { second }) } => {
            &&& second == MoveResult::HitLimitSwitch
            &&& pi.stepper_z.within_travel()
            &&& pi.stepper_x.within_travel()
            &&& command.axis == AxisDirection::Z
            &&& stays_within(pi.stepper_z, command)
        },
        Step::Run { command, pending: Pending::Home(HomeStage::MovingLeft { second }) } => {
            &&& second == MoveResult::HitLimitSwitch
            &&& pi.stepper_z.within_travel()
            &&& pi.stepper_x.within_travel()
            &&& command.axis == AxisDirection::X
            &&& stays_within(pi.stepper_x, command)
        },
        Step::Run { .. } => false,
        Step::Done(result) => result != MoveResult::FailedToHome ==> {
            &&& result == MoveResult::HitLimitSwitch
            &&& pi.stepper_z.within_travel()
            &&& pi.stepper_x.within_travel()
        },
    }
}

/// A move within the travel of a homed stepper leaves it within its travel,
/// however it ends.
proof fn lemma_stays_within(stepper: Stepper, command: MoveCommand, outcome: PulseOutcome)
    requires
        stepper.calibrated(),
        stepper.within_travel(),
        stays_within(stepper, command),
        fits(command, outcome),
    ensures
        (Stepper {
            pos: position_after(
                stepper,
                command.forward,
                command.is_homing,
                outcome.stopped,
                outcome.emitted,
            ),
            ..stepper
        }).within_travel(),
{
    lemma_pulses_at_ordered(stepper, stepper.position_limit as int, stepper.position_limit as int);
}

/// The move toward a length within the travel of a stepper stays within it.
proof fn lemma_toward_stays_within(stepper: Stepper, axis: AxisDirection, inches: int, skip: bool)
    requires
        stepper.calibrated(),
        stepper.within_travel(),
        inches <= stepper.position_limit,
    ensures
        stays_within(stepper, command_toward(stepper, axis, inches, skip)),
        command_toward(stepper, axis, inches, skip).axis == axis,
{
    lemma_pulses_at_ordered(stepper, inches, stepper.position_limit as int);
}

proof fn lemma_homing_handed_on()
    ensures
        handed_on(|step: Step, pi: Pi| homing_holds(step, pi)),
{
    let inv = |step: Step, pi: Pi| homing_holds(step, pi);
    assert forall|command: MoveCommand, pending: Pending, pi: Pi, outcome: PulseOutcome|
        #![trigger inv(Step::Run { command, pending }, pi), fits(command, outcome)]
        inv(Step::Run { command, pending }, pi) && fits(command, outcome) implies inv(
        next_step(pending, machine_after(pi, command, outcome), result_of(pi, command, outcome)),
        machine_after(pi, command, outcome),
    ) by {
        let after = machine_after(pi, command, outcome);
        let result = result_of(pi, command, outcome);
        lemma_pulses_at_ordered(
            pi.stepper_z,
            pi.stepper_z.position_limit as int,
            pi.stepper_z.position_limit as int,
        );
        lemma_pulses_at_ordered(
            pi.stepper_x,
            pi.stepper_x.position_limit as int,
            pi.stepper_x.position_limit as int,
        );
        match pending {
            Pending::Home(HomeStage::SeekingZ) => {},
            Pending::Home(HomeStage::SeekingX { first }) => {
                if result == MoveResult::HitLimitSwitch {
                    lemma_toward_stays_within(
                        after.stepper_z,
                        AxisDirection::Z,
                        UP_POSITION as int,
                        false,
                    );
                }
            },
            Pending::Home(HomeStage::Raising { second }) => {
                lemma_stays_within(pi.stepper_z, command, outcome);
                lemma_toward_stays_within(
                    after.stepper_x,
                    AxisDirection::X,
                    LEFT_POSITION as int,
                    false,
                );
            },
            Pending::Home(HomeStage::MovingLeft { second }) => {
                lemma_stays_within(pi.stepper_x, command, outcome);
            },
            _ => {},
        }
    }
}

/// When a homing move finds the limit switch, the axis is homed at the end
/// that the switch stands at: at its limit after a move forward, at zero
/// after a move back. When it does not find the switch, it fails and both
/// positions stay as they were.
pub proof fn lemma_homing_move_sets_position(pi: Pi, command: MoveCommand, outcome: PulseOutcome)
    requires
        command.is_homing,
    ensures
        result_of(pi, command, outcome) == MoveResult::HitLimitSwitch || result_of(
            pi,
            command,
            outcome,
        ) == MoveResult::FailedToHome,
        result_of(pi, command, outcome) == MoveResult::HitLimitSwitch <==> outcome.stopped == Some(
            StopCause::LimitSwitch,
        ),
        result_of(pi, command, outcome) == MoveResult::HitLimitSwitch ==> machine_after(
            pi,
            command,
            outcome,
        ).stepper(command.axis).pos == Some(
            if command.forward {
                pi.stepper(command.axis).limit_pulses() as u64
            } else {
                0u64
            },
        ),
        result_of(pi, command, outcome) == MoveResult::FailedToHome ==> {
            &&& machine_after(pi, command, outcome).stepper_x.pos == pi.stepper_x.pos
            &&& machine_after(pi, command, outcome).stepper_z.pos == pi.stepper_z.pos
        },
{
}

/// Homing either fails with `FailedToHome` or leaves both axes homed: its
/// result is then `HitLimitSwitch`, and on a machine whose up and left
/// positions lie within the travel of their axes each axis stands between
/// its zero and its limit. This holds whatever the outcomes of the single
/// moves were.
pub proof fn lemma_home_leaves_axes_homed(pi: Pi, outcomes: Seq<PulseOutcome>)
    requires
        pi.calibrated(),
        references_within_travel(pi),
        run(home_first(), pi, outcomes).is_some(),
        run(home_first(), pi, outcomes)->Some_0.1 != MoveResult::FailedToHome,
    ensures
        run(home_first(), pi, outcomes)->Some_0.1 == MoveResult::HitLimitSwitch,
        run(home_first(), pi, outcomes)->Some_0.0.stepper_x.within_travel(),
        run(home_first(), pi, outcomes)->Some_0.0.stepper_z.within_travel(),
{
    let inv = |step: Step, pi: Pi| homing_holds(step, pi);
    lemma_homing_handed_on();
    assert(inv(home_first(), pi));
    lemma_run_keeps(inv, home_first(), pi, outcomes);
}

/// The machine is one on which a move to a jar arrives at the jar: both
/// steppers are calibrated, the jar is counted from one, a pulse of the
/// x-axis is finer than the tolerance, and the pulse count of the jar's
/// position fits a pulse count.
pub open spec fn suits_jar(pi: Pi, jar_number: i32) -> bool {
    &&& pi.calibrated()
    &&& jar_number >= 1
    &&& pi.stepper_x.finer_than_tolerance()
    &&& pi.stepper_x.pulses_per_revolution * jar_inches(jar_number as int) / (
    pi.stepper_x.travel_distance_per_turn as int) <= u64::MAX
}

/// Both axes are homed.
pub open spec fn homed(pi: Pi) -> bool {
    pi.stepper_x.pos.is_some() && pi.stepper_z.pos.is_some()
}

/// A single move leaves a homed axis homed.
proof fn lemma_homed_handed_on()
    ensures
        handed_on(|step: Step, pi: Pi| homed(pi)),
{
}

/// On a homed machine a move to a jar that moved the full distance leaves
/// the rack at the jar, and a second move to the same jar travels along no
/// jar: it starts with lowering the rack, that single move leaves the x-axis
/// as it was, and its result ends the move. This holds whatever the outcomes
/// of the single moves were.
pub proof fn lemma_second_move_to_jar_only_lowers(pi: Pi, jar_number: i32, outcomes: Seq<PulseOutcome>)
    requires
        suits_jar(pi, jar_number),
        homed(pi),
        run(jar_first(pi, jar_number), pi, outcomes).is_some(),
        run(jar_first(pi, jar_number), pi, outcomes)->Some_0.1 == MoveResult::MovedFullDistance,
    ensures
        ({
            let after = run(jar_first(pi, jar_number), pi, outcomes)->Some_0.0;
            let lowering = command_toward(after.stepper_z, AxisDirection::Z, 0, false);
            let pending = Pending::Jar {
                jar_number,
                stage: JarStage::Lowering,
                inner: PosPlan {
                    axis: AxisDirection::Z,
                    inches: 0,
                    skip_soft_estop_check: false,
                    stage: PosStage::Moving,
                },
            };
            &&& homed(after)
            &&& at_jar(after, jar_number as int)
            &&& jar_first(after, jar_number) == (Step::Run { command: lowering, pending })
            &&& forall|outcome: PulseOutcome| #[trigger]
                machine_after(after, lowering, outcome).stepper_x == after.stepper_x
            &&& forall|then: Pi, result: MoveResult| #[trigger]
                next_step(pending, then, result) == Step::Done(result)
        }),
{
    let inv = |step: Step, pi: Pi| homed(pi);
    lemma_homed_handed_on();
    lemma_run_keeps(inv, jar_first(pi, jar_number), pi, outcomes);
    lemma_move_to_jar_arrives(pi, jar_number, outcomes);
    lemma_calibration_stays(jar_first(pi, jar_number), pi, outcomes);
}

impl Stepper {
    /// The position, where it is known, lies between zero and the limit of
    /// the axis.
    pub open spec fn sound(&self) -> bool {
        self.pos.is_none() || self.within_travel()
    }

    /// A length whose pulse count does not pass the limit of the axis.
    pub open spec fn reaches(&self, inches: int) -> bool {
        self.pulses_at(inches) <= self.limit_pulses()
    }
}

/// Both steppers are sound.
pub open spec fn sound(pi: Pi) -> bool {
    pi.stepper_x.sound() && pi.stepper_z.sound()
}

/// What holds of a single move of homing and of the machine before it, as
/// far as the travel of the axes goes.
spec fn home_within(command: MoveCommand, stage: HomeStage, pi: Pi) -> bool {
    match stage {
        HomeStage::SeekingZ => command == homing_z(),
        HomeStage::SeekingX { first } => command == homing_x(),
        HomeStage::Raising { second } => {
            &&& command.axis == AxisDirection::Z
            &&& pi.stepper_z.within_travel()
            &&& stays_within(pi.stepper_z, command)
        },
        HomeStage::MovingLeft { second } => {
            &&& command.axis == AxisDirection::X
            &&& pi.stepper_x.within_travel()
            &&& stays_within(pi.stepper_x, command)
        },
    }
}

/// The same of a single move of a move to a position.
spec fn pos_within(command: MoveCommand, plan: PosPlan, pi: Pi) -> bool {
    &&& pi.stepper(plan.axis).reaches(plan.inches as int)
    &&& match plan.stage {
        PosStage::Homing(stage) => home_within(command, stage, pi),
        PosStage::Moving => {
            &&& command.axis == plan.axis
            &&& pi.stepper(plan.axis).within_travel()
            &&& stays_within(pi.stepper(plan.axis), command)
        },
    }
}

/// What holds at each step of a composite move that aims within the travel
/// of the axes.
spec fn travel_holds(step: Step, pi: Pi) -> bool {
    &&& pi.calibrated()
    &&& references_within_travel(pi)
    &&& sound(pi)
    &&& match step {
        Step::Run { command, pending: Pending::Home(stage) } => home_within(command, stage, pi),
        Step::Run { command, pending: Pending::Pos(plan) } => pos_within(command, plan, pi),
        Step::Run { command, pending: Pending::Jar { jar_number, stage, inner } } => {
            &&& pi.stepper_x.reaches(jar_inches(jar_number as int))
            &&& pos_within(command, inner, pi)
        },
        Step::Done(result) => true,
    }
}

/// The move toward a length that a stepper reaches stays within its travel.
proof fn lemma_toward_reach_stays_within(stepper: Stepper, axis: AxisDirection, inches: int, skip: bool)
    requires
        stepper.calibrated(),
        stepper.within_travel(),
        stepper.reaches(inches),
    ensures
        stays_within(stepper, command_toward(stepper, axis, inches, skip)),
        command_toward(stepper, axis, inches, skip).axis == axis,
{
    lemma_pulses_at_ordered(stepper, inches, inches);
}

/// A single move that `travel_holds` allows leaves both steppers sound.
proof fn lemma_single_move_keeps_sound(command: MoveCommand, pending: Pending, pi: Pi, outcome: PulseOutcome)
    requires
        travel_holds(Step::Run { command, pending }, pi),
        fits(command, outcome),
    ensures
        sound(machine_after(pi, command, outcome)),
        machine_after(pi, command, outcome).calibrated(),
        references_within_travel(machine_after(pi, command, outcome)),
        machine_after(pi, command, outcome).stepper_x.position_limit == pi.stepper_x.position_limit,
        machine_after(pi, command, outcome).stepper_z.position_limit == pi.stepper_z.position_limit,
        forall|inches: int|
            pi.stepper_x.reaches(inches) ==> #[trigger] machine_after(
                pi,
                command,
                outcome,
            ).stepper_x.reaches(inches),
        forall|inches: int|
            pi.stepper_z.reaches(inches) ==> #[trigger] machine_after(
                pi,
                command,
                outcome,
            ).stepper_z.reaches(inches),
{
    lemma_pulses_at_ordered(
        pi.stepper_z,
        pi.stepper_z.position_limit as int,
        pi.stepper_z.position_limit as int,
    );
    lemma_pulses_at_ordered(
        pi.stepper_x,
        pi.stepper_x.position_limit as int,
        pi.stepper_x.position_limit as int,
    );
    if !command.is_homing && !refused(pi, command) {
        lemma_stays_within(pi.stepper(command.axis), command, outcome);
    }
}

proof fn lemma_travel_handed_on()
    ensures
        handed_on(|step: Step, pi: Pi| travel_holds(step, pi)),
{
    let inv = |step: Step, pi: Pi| travel_holds(step, pi);
    assert forall|command: MoveCommand, pending: Pending, pi: Pi, outcome: PulseOutcome|
        #![trigger inv(Step::Run { command, pending }, pi), fits(command, outcome)]
        inv(Step::Run { command, pending }, pi) && fits(command, outcome) implies inv(
        next_step(pending, machine_after(pi, command, outcome), result_of(pi, command, outcome)),
        machine_after(pi, command, outcome),
    ) by {
        let after = machine_after(pi, command, outcome);
        lemma_single_move_keeps_sound(command, pending, pi, outcome);
        lemma_pulses_at_ordered(after.stepper_z, UP_POSITION as int, after.stepper_z.position_limit as int);
        lemma_pulses_at_ordered(after.stepper_x, LEFT_POSITION as int, after.stepper_x.position_limit as int);
        lemma_pulses_at_ordered(after.stepper_z, 0, 0);
        if after.stepper_z.pos.is_some() {
            lemma_toward_reach_stays_within(after.stepper_z, AxisDirection::Z, UP_POSITION as int, false);
            lemma_toward_reach_stays_within(after.stepper_z, AxisDirection::Z, 0, false);
        }
        if after.stepper_x.pos.is_some() {
            lemma_toward_reach_stays_within(after.stepper_x, AxisDirection::X, LEFT_POSITION as int, false);
        }
        match pending {
            Pending::Home(stage) => {},
            Pending::Pos(plan) => {
                if after.stepper(plan.axis).pos.is_some() {
                    lemma_toward_reach_stays_within(
                        after.stepper(plan.axis),
                        plan.axis,
                        plan.inches as int,
                        plan.skip_soft_estop_check,
                    );
                }
            },
            Pending::Jar { jar_number, stage, inner } => {
                if after.stepper(inner.axis).pos.is_some() {
                    lemma_toward_reach_stays_within(
                        after.stepper(inner.axis),
                        inner.axis,
                        inner.inches as int,
                        inner.skip_soft_estop_check,
                    );
                }
                if after.stepper_x.pos.is_some() {
                    lemma_toward_reach_stays_within(
                        after.stepper_x,
                        AxisDirection::X,
                        jar_inches(jar_number as int),
                        false,
                    );
                }
            },
        }
    }
}

/// Homing keeps the positions sound: on a machine whose up and left
/// positions lie within the travel of their axes, and whose positions are
/// sound, they are sound after homing, however it went.
pub proof fn lemma_home_keeps_sound(pi: Pi, outcomes: Seq<PulseOutcome>)
    requires
        pi.calibrated(),
        references_within_travel(pi),
        sound(pi),
        run(home_first(), pi, outcomes).is_some(),
    ensures
        sound(run(home_first(), pi, outcomes)->Some_0.0),
{
    let inv = |step: Step, pi: Pi| travel_holds(step, pi);
    lemma_travel_handed_on();
    assert(inv(home_first(), pi));
    lemma_run_keeps(inv, home_first(), pi, outcomes);
}

/// A move to a position that the axis reaches keeps the positions sound,
/// however it went and whether or not the machine had to be homed first.
pub proof fn lemma_move_to_pos_keeps_sound(
    pi: Pi,
    axis: AxisDirection,
    inches: Inch,
    skip_soft_estop_check: bool,
    outcomes: Seq<PulseOutcome>,
)
    requires
        pi.calibrated(),
        references_within_travel(pi),
        sound(pi),
        pi.stepper(axis).reaches(inches as int),
        run(move_to_pos_first(pi, axis, inches, skip_soft_estop_check), pi, outcomes).is_some(),
    ensures
        sound(run(move_to_pos_first(pi, axis, inches, skip_soft_estop_check), pi, outcomes)->Some_0.0),
{
    let inv = |step: Step, pi: Pi| travel_holds(step, pi);
    let first = move_to_pos_first(pi, axis, inches, skip_soft_estop_check);
    lemma_travel_handed_on();
    if pi.stepper(axis).pos.is_some() {
        lemma_toward_reach_stays_within(pi.stepper(axis), axis, inches as int, skip_soft_estop_check);
    }
    assert(inv(first, pi));
    lemma_run_keeps(inv, first, pi, outcomes);
}

/// A move to a jar whose position the x-axis reaches keeps the positions
/// sound, however it went and whether or not the machine had to be homed
/// first.
pub proof fn lemma_move_to_jar_keeps_sound(pi: Pi, jar_number: i32, outcomes: Seq<PulseOutcome>)
    requires
        pi.calibrated(),
        references_within_travel(pi),
        sound(pi),
        pi.stepper_x.reaches(jar_inches(jar_number as int)),
        run(jar_first(pi, jar_number), pi, outcomes).is_some(),
    ensures
        sound(run(jar_first(pi, jar_number), pi, outcomes)->Some_0.0),
{
    let inv = |step: Step, pi: Pi| travel_holds(step, pi);
    let first = jar_first(pi, jar_number);
    lemma_travel_handed_on();
    lemma_pulses_at_ordered(pi.stepper_z, UP_POSITION as int, pi.stepper_z.position_limit as int);
    lemma_pulses_at_ordered(pi.stepper_z, 0, 0);
    if pi.stepper_z.pos.is_some() {
        lemma_toward_reach_stays_within(pi.stepper_z, AxisDirection::Z, UP_POSITION as int, false);
        lemma_toward_reach_stays_within(pi.stepper_z, AxisDirection::Z, 0, false);
    }
    assert(inv(first, pi));
    lemma_run_keeps(inv, first, pi, outcomes);
}

/// What holds at each step of a move of an axis to a position.
spec fn arrival_holds(axis: AxisDirection, inches: Inch, step: Step, pi: Pi) -> bool {
    &&& pi.calibrated()
    &&& match step {
        Step::Run { command, pending: Pending::Pos(plan) } => {
            &&& plan.axis == axis
            &&& plan.inches == inches
            &&& plan.stage == PosStage::Moving ==> {
                &&& pi.stepper(axis).pos.is_some()
                &&& command == command_toward(
                    pi.stepper(axis),
                    axis,
                    inches as int,
                    plan.skip_soft_estop_check,
                )
            }
        },
        Step::Run { .. } => false,
        Step::Done(result) => result == MoveResult::MovedFullDistance ==> pi.stepper(axis).pos
            == Some(pi.stepper(axis).pulses_at(inches as int) as u64),
    }
}

proof fn lemma_arrival_handed_on(axis: AxisDirection, inches: Inch)
    ensures
        handed_on(|step: Step, pi: Pi| arrival_holds(axis, inches, step, pi)),
{
    let inv = |step: Step, pi: Pi| arrival_holds(axis, inches, step, pi);
    assert forall|command: MoveCommand, pending: Pending, pi: Pi, outcome: PulseOutcome|
        #![trigger inv(Step::Run { command, pending }, pi), fits(command, outcome)]
        inv(Step::Run { command, pending }, pi) && fits(command, outcome) implies inv(
        next_step(pending, machine_after(pi, command, outcome), result_of(pi, command, outcome)),
        machine_after(pi, command, outcome),
    ) by {
        lemma_pulses_at_ordered(pi.stepper(axis), inches as int, inches as int);
    }
}

/// A move to a position that moved the full distance has arrived: the axis
/// stands at the pulse count of the position, whether or not the machine
/// had to be homed first. A move to a position of an axis that is not homed
/// starts with homing, and of any other with the move to the position.
pub proof fn lemma_move_to_pos_arrives(
    pi: Pi,
    axis: AxisDirection,
    inches: Inch,
    skip_soft_estop_check: bool,
    outcomes: Seq<PulseOutcome>,
)
    requires
        pi.calibrated(),
        run(move_to_pos_first(pi, axis, inches, skip_soft_estop_check), pi, outcomes).is_some(),
    ensures
        move_to_pos_first(pi, axis, inches, skip_soft_estop_check) is Run,
        move_to_pos_first(pi, axis, inches, skip_soft_estop_check)->command == if pi.stepper(
            axis,
        ).pos.is_none() {
            homing_z()
        } else {
            command_toward(pi.stepper(axis), axis, inches as int, skip_soft_estop_check)
        },
        ({
            let end = run(
                move_to_pos_first(pi, axis, inches, skip_soft_estop_check),
                pi,
                outcomes,
            )->Some_0;
            end.1 == MoveResult::MovedFullDistance ==> end.0.stepper(axis).pos == Some(
                pi.stepper(axis).pulses_at(inches as int) as u64,
            )
        }),
{
    let inv = |step: Step, pi: Pi| arrival_holds(axis, inches, step, pi);
    let first = move_to_pos_first(pi, axis, inches, skip_soft_estop_check);
    lemma_arrival_handed_on(axis, inches);
    assert(inv(first, pi));
    lemma_run_keeps(inv, first, pi, outcomes);
    lemma_calibration_stays(first, pi, outcomes);
}

/// A run of a composite move changes neither the calibration of a stepper
/// nor what is known of its limit switches.
pub proof fn lemma_calibration_stays(step: Step, pi: Pi, outcomes: Seq<PulseOutcome>)
    requires
        run(step, pi, outcomes).is_some(),
    ensures
        ({
            let after = run(step, pi, outcomes)->Some_0.0;
            &&& after.current_procedure == pi.current_procedure
            &&& after.run_status == pi.run_status
            &&& forall|axis: AxisDirection|
                #![trigger after.stepper(axis)]
                {
                    &&& after.stepper(axis).position_limit == pi.stepper(axis).position_limit
                    &&& after.stepper(axis).pulses_per_revolution == pi.stepper(
                        axis,
                    ).pulses_per_revolution
                    &&& after.stepper(axis).travel_distance_per_turn == pi.stepper(
                        axis,
                    ).travel_distance_per_turn
                    &&& after.stepper(axis).limit_switch_low == pi.stepper(axis).limit_switch_low
                    &&& after.stepper(axis).limit_switch_high == pi.stepper(axis).limit_switch_high
                    &&& forall|inches: int|
                        #[trigger] after.stepper(axis).pulses_at(inches) == pi.stepper(
                            axis,
                        ).pulses_at(inches)
                }
        }),
    decreases outcomes.len(),
{
    match step {
        Step::Done(result) => {},
        Step::Run { command, pending } => {
            let after = machine_after(pi, command, outcomes[0]);
            let result = result_of(pi, command, outcomes[0]);
            lemma_calibration_stays(
                next_step(pending, after, result),
                after,
                outcomes.subrange(1, outcomes.len() as int),
            );
        },
    }
}

/// What holds at each step of a move to a jar, on any machine.
spec fn jar_arrival_holds(jar_number: i32, step: Step, pi: Pi) -> bool {
    &&& suits_jar(pi, jar_number)
    &&& match step {
        Step::Run { command, pending: Pending::Jar { jar_number: jar, stage, inner } } => {
            &&& jar == jar_number
            &&& match stage {
                JarStage::Raising => {
                    &&& inner.axis == AxisDirection::Z
                    &&& inner.stage == PosStage::Moving ==> {
                        &&& pi.stepper_z.pos.is_some()
                        &&& command.axis == AxisDirection::Z
                        &&& !command.is_homing
                    }
                },
                JarStage::Traversing => {
                    &&& pi.stepper_z.pos.is_some()
                    &&& inner.axis == AxisDirection::X
                    &&& inner.inches == jar_inches(jar_number as int)
                    &&& !inner.skip_soft_estop_check
                    &&& inner.stage == PosStage::Moving ==> {
                        &&& pi.stepper_x.pos.is_some()
                        &&& command == command_toward(
                            pi.stepper_x,
                            AxisDirection::X,
                            jar_inches(jar_number as int),
                            false,
                        )
                    }
                },
                JarStage::Lowering => {
                    &&& pi.stepper_z.pos.is_some()
                    &&& inner.stage == PosStage::Moving
                    &&& command.axis == AxisDirection::Z
                    &&& at_jar(pi, jar_number as int)
                },
            }
        },
        Step::Run { .. } => false,
        Step::Done(result) => result == MoveResult::MovedFullDistance ==> at_jar(
            pi,
            jar_number as int,
        ),
    }
}

proof fn lemma_jar_arrival_handed_on(jar_number: i32)
    ensures
        handed_on(|step: Step, pi: Pi| jar_arrival_holds(jar_number, step, pi)),
{
    let inv = |step: Step, pi: Pi| jar_arrival_holds(jar_number, step, pi);
    assert forall|command: MoveCommand, pending: Pending, pi: Pi, outcome: PulseOutcome|
        #![trigger inv(Step::Run { command, pending }, pi), fits(command, outcome)]
        inv(Step::Run { command, pending }, pi) && fits(command, outcome) implies inv(
        next_step(pending, machine_after(pi, command, outcome), result_of(pi, command, outcome)),
        machine_after(pi, command, outcome),
    ) by {
        let after = machine_after(pi, command, outcome);
        let result = result_of(pi, command, outcome);
        let target = jar_inches(jar_number as int);
        lemma_pulses_at_ordered(pi.stepper_x, target, target);
        match pending {
            Pending::Jar { jar_number: jar, stage: JarStage::Traversing, inner } => {
                if inner.stage == PosStage::Moving && result == MoveResult::MovedFullDistance {
                    assert(after.stepper_x.pos == Some(pi.stepper_x.pulses_at(target) as u64));
                    lemma_arrival_within_tolerance(pi.stepper_x, target);
                    assert(at_jar(after, jar_number as int));
                }
            },
            Pending::Jar { jar_number: jar, stage: JarStage::Lowering, inner } => {
                assert(after.stepper_x == pi.stepper_x);
            },
            _ => {},
        }
    }
}

/// A move to a jar that moved the full distance has arrived: the rack
/// stands at the jar, whether or not the machine had to be homed on the way.
/// This holds of a machine that a move to the jar suits, but for one whose
/// x-axis stands at the jar while its z-axis is not homed: there lowering
/// the rack homes the machine, which takes the rack to the first jar.
pub proof fn lemma_move_to_jar_arrives(pi: Pi, jar_number: i32, outcomes: Seq<PulseOutcome>)
    requires
        suits_jar(pi, jar_number),
        at_jar(pi, jar_number as int) ==> pi.stepper_z.pos.is_some(),
        run(jar_first(pi, jar_number), pi, outcomes).is_some(),
        run(jar_first(pi, jar_number), pi, outcomes)->Some_0.1 == MoveResult::MovedFullDistance,
    ensures
        at_jar(run(jar_first(pi, jar_number), pi, outcomes)->Some_0.0, jar_number as int),
{
    let inv = |step: Step, pi: Pi| jar_arrival_holds(jar_number, step, pi);
    lemma_jar_arrival_handed_on(jar_number);
    assert(inv(jar_first(pi, jar_number), pi));
    lemma_run_keeps(inv, jar_first(pi, jar_number), pi, outcomes);
}

/// The machine as it is built is one of which the laws of this file speak.
/// Its steppers are calibrated and sound; the up and the left position lie
/// within the travel of their axes; a pulse is finer than the tolerance of
/// a jar; the first six jars stand within the travel of the x-axis; and
/// each homing move is longer than the axis that it homes, so that it
/// cannot end before the limit switch is reached.
pub proof fn lemma_machine_as_built(jar_number: i32)
    requires
        1 <= jar_number <= 6,
    ensures
        machine_at_start().calibrated(),
        sound(machine_at_start()),
        references_within_travel(machine_at_start()),
        machine_at_start().stepper_x.finer_than_tolerance(),
        machine_at_start().stepper_z.finer_than_tolerance(),
        suits_jar(machine_at_start(), jar_number),
        machine_at_start().stepper_x.reaches(jar_inches(jar_number as int)),
        machine_at_start().stepper_z.limit_pulses() < HOME_Z_PULSES,
        machine_at_start().stepper_x.limit_pulses() < HOME_X_PULSES,
{
    let x = machine_at_start().stepper_x;
    let z = machine_at_start().stepper_z;
    let jar = jar_inches(jar_number as int);
    assert(350_000 <= jar <= 9_850_000);
    assert(x.limit_pulses() == 126_984);
    assert(z.limit_pulses() == 47_619);
    lemma_pulses_at_ordered(x, jar, X_POSITION_LIMIT as int);
    assert(x.pulses_per_revolution * jar == 800 * jar);
    assert(800 * jar / 63_000 <= 800 * 9_850_000 / 63_000);
}

/// A move that is done fits the command that started it: it sent no more
/// pulses than the command asked for, and all of them where nothing stopped
/// it.
pub proof fn lemma_done_train_fits(train: PulseTrain)
    requires
        train.wf(),
        train.done(),
        train.times@.len() <= u64::MAX,
    ensures
        fits(
            MoveCommand {
                axis: train.axis,
                forward: train.forward,
                pulses: train.times@.len() as u64,
                is_homing: train.is_homing,
                skip_soft_estop_check: train.skip_soft_estop_check,
            },
            PulseOutcome { stopped: train.stopped, emitted: train.emitted as int },
        ),
{
}

} // verus!
