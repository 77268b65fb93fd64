//! The data model: axes, steppers, the machine, procedures and the results of moves.

use vstd::prelude::*;
use vstd::std_specs::convert::FromSpecImpl;
use vstd::string::{StrSliceExecFns, StringExecFns};

verus! {

/// The address of the document store that holds the procedures and the settings.
pub const COUCHDB_URL: &'static str = "http://localhost:5984/slide_stainer";

/// A length along an axis, counted in millionths of an inch.
pub type Inch = i64;

/// A number of pulses sent to a stepper driver; one pulse is one micro-step.
pub type PulseCount = u64;

/// Where the rack stands on the x-axis when it is over the first staining jar.
pub const LEFT_POSITION: Inch = 350_000;

/// The raised position on the z-axis, from which the rack can travel over the jars.
pub const UP_POSITION: Inch = 3_500_000;

/// The distance from one jar to the next.
pub const JAR_SPACING: Inch = 1_900_000;

/// How far the rack may stand from a jar's position and still count as being at that jar.
pub const JAR_TOLERANCE: Inch = 100_000;

/// The length of travel of the x-axis.
pub const X_POSITION_LIMIT: Inch = 10_000_000;

/// The length of travel of the z-axis.
pub const Z_POSITION_LIMIT: Inch = 3_750_000;

/// The pulses that turn the motor of either axis once.
pub const PULSES_PER_REVOLUTION: u64 = 800;

/// The length that either axis travels while its motor turns once.
pub const TRAVEL_DISTANCE_PER_TURN: Inch = 63_000;

/// How a move ended.
#[derive(Debug, Clone, Copy, PartialEq, Eq, Structural)]
pub enum MoveResult {
    MovedFullDistance,
    HitLimitSwitch,
    HitEStop,
    FailedDueToNotHomed,
    FailedToHome,
}

/// One of the two axes of the machine: `X` carries the rack along the row of
/// jars, `Z` raises and lowers it.
#[derive(Debug, Clone, Copy, PartialEq, Eq, Structural)]
pub enum AxisDirection {
    X,
    Z,
}

/// Where the run of a procedure stands.
#[derive(Debug, Clone, Copy, PartialEq, Eq, Structural)]
pub enum ProcedureExecutionStateEnum {
    NotStarted,
    Paused,
    Stopped,
    Running,
    Completed,
}

/// One axis: the lines of its driver, which limit switches are wired, the
/// calibration, and the position as far as it is known.
#[derive(Debug, Clone, Copy, PartialEq, Eq, Structural)]
pub struct Stepper {
    /// Whether the driver is to be enabled. It is enabled for the time of a
    /// move and disabled otherwise.
    pub ena: bool,
    /// The direction line: whether the driver is to step forward.
    pub dir: bool,
    /// Whether a limit switch is wired at the low end of the axis.
    pub limit_switch_low: bool,
    /// Whether a limit switch is wired at the high end of the axis.
    pub limit_switch_high: bool,
    /// Pulses from the axis' zero; `None` until the axis has been homed.
    pub pos: Option<PulseCount>,
    /// The length of travel of the axis: the position of its high end.
    pub position_limit: Inch,
    /// The pulses that turn the motor once.
    pub pulses_per_revolution: u64,
    /// The length that the axis travels while the motor turns once.
    pub travel_distance_per_turn: Inch,
}

impl Stepper {
    /// The calibration fixes a conversion between pulses and lengths: both
    /// constants of the ratio are positive.
    pub open spec fn calibrated(&self) -> bool {
        self.pulses_per_revolution > 0 && self.travel_distance_per_turn > 0
    }

    /// Tells whether the calibration constants fix a conversion.
    pub fn is_calibrated(&self) -> (b: bool)
        ensures
            b == self.calibrated(),
    {
        self.pulses_per_revolution > 0 && self.travel_distance_per_turn > 0
    }
}

/// Progress of the procedure that is running: the step and the cycle, both
/// counted from one, and the state of the run as this record last saw it.
#[derive(Debug, Clone, Copy, PartialEq, Eq, Structural)]
pub struct ProcedureRunStatus {
    pub current_procedure_step_number: i32,
    pub current_cycle_number: i32,
    pub run_state: ProcedureExecutionStateEnum,
}

/// A single step in a staining procedure.
#[derive(Debug, Clone)]
pub struct ProcedureStep {
    /// The substance contained in the jar.
    pub substance: String,
    /// The time (in seconds) to immerse the slide in the staining jar.
    pub time_in_seconds: i32,
    /// The one-indexed jar number in which the slide is to be immersed.
    pub jar_number: i32,
}

/// A staining procedure.
#[derive(Debug, Clone)]
pub struct Procedure {
    pub id: String,
    pub rev: String,
    pub type_: String,
    /// Name of the procedure.
    pub name: String,
    /// What substance is in which jar.
    pub jar_contents: Vec<String>,
    /// The steps of the procedure, in the order in which they are run.
    pub procedure_steps: Vec<ProcedureStep>,
    /// Number of times to repeat the steps in a single run; once where it is absent.
    pub repeat: Option<i32>,
    /// Number of times this procedure has ever been run.
    pub runs: Option<i32>,
}

/// The machine: both steppers, the procedure that was loaded last and the
/// progress of the run, if one is under way.
#[derive(Debug, Clone)]
pub struct Pi {
    pub stepper_x: Stepper,
    pub stepper_z: Stepper,
    /// Whether the thread that sends the pulses is to run at real-time
    /// priority. It is for the time of a move, so that the pulses come
    /// evenly, and not otherwise.
    pub real_time: bool,
    pub current_procedure: Option<Procedure>,
    pub run_status: Option<ProcedureRunStatus>,
}

/// The machine as it is built and switched on: the x-axis with a limit
/// switch at its low end, the z-axis with one at its high end, both drivers
/// disabled, no axis homed, no move, no procedure loaded and no run under
/// way.
pub open spec fn machine_at_start() -> Pi {
    Pi {
        stepper_x: Stepper {
            ena: false,
            dir: false,
            limit_switch_low: true,
            limit_switch_high: false,
            pos: None,
            position_limit: X_POSITION_LIMIT,
            pulses_per_revolution: PULSES_PER_REVOLUTION,
            travel_distance_per_turn: TRAVEL_DISTANCE_PER_TURN,
        },
        stepper_z: Stepper {
            ena: false,
            dir: false,
            limit_switch_low: false,
            limit_switch_high: true,
            pos: None,
            position_limit: Z_POSITION_LIMIT,
            pulses_per_revolution: PULSES_PER_REVOLUTION,
            travel_distance_per_turn: TRAVEL_DISTANCE_PER_TURN,
        },
        real_time: false,
        current_procedure: None,
        run_status: None,
    }
}

impl Pi {
    /// The machine as it is built and switched on.
    pub fn new() -> (pi: Pi)
        ensures
            pi == machine_at_start(),
            pi.calibrated(),
    {
        Pi {
            stepper_x: Stepper {
                ena: false,
                dir: false,
                limit_switch_low: true,
                limit_switch_high: false,
                pos: None,
                position_limit: X_POSITION_LIMIT,
                pulses_per_revolution: PULSES_PER_REVOLUTION,
                travel_distance_per_turn: TRAVEL_DISTANCE_PER_TURN,
            },
            stepper_z: Stepper {
                ena: false,
                dir: false,
                limit_switch_low: false,
                limit_switch_high: true,
                pos: None,
                position_limit: Z_POSITION_LIMIT,
                pulses_per_revolution: PULSES_PER_REVOLUTION,
                travel_distance_per_turn: TRAVEL_DISTANCE_PER_TURN,
            },
            real_time: false,
            current_procedure: None,
            run_status: None,
        }
    }

    /// The stepper of an axis.
    pub open spec fn stepper(&self, axis: AxisDirection) -> Stepper {
        match axis {
            AxisDirection::X => self.stepper_x,
            AxisDirection::Z => self.stepper_z,
        }
    }

    /// The machine with the stepper of an axis replaced.
    pub open spec fn with_stepper(self, axis: AxisDirection, stepper: Stepper) -> Pi {
        match axis {
            AxisDirection::X => Pi { stepper_x: stepper, ..self },
            AxisDirection::Z => Pi { stepper_z: stepper, ..self },
        }
    }

    /// Both steppers are calibrated.
    pub open spec fn calibrated(&self) -> bool {
        self.stepper_x.calibrated() && self.stepper_z.calibrated()
    }

    /// Tells whether both steppers are calibrated.
    pub fn is_calibrated(&self) -> (b: bool)
        ensures
            b == self.calibrated(),
    {
        self.stepper_x.is_calibrated() && self.stepper_z.is_calibrated()
    }
}

/// The stepper of an axis, to read or to change.
pub fn get_stepper<'a>(pi: &'a mut Pi, axis: &AxisDirection) -> (stepper: &'a mut Stepper)
    ensures
        *stepper == old(pi).stepper(*axis),
        *final(pi) == old(pi).with_stepper(*axis, *final(stepper)),
{
    match axis {
        AxisDirection::X => &mut pi.stepper_x,
        AxisDirection::Z => &mut pi.stepper_z,
    }
}

/// A single step in a staining procedure, as it is handed in to be saved.
#[derive(Debug, Clone)]
pub struct ProcedureStepInputObject {
    /// The substance contained in the jar.
    pub substance: String,
    /// The time (in seconds) to immerse the slide in the staining jar.
    pub time_in_seconds: i32,
    /// The one-indexed jar number in which the slide is to be immersed.
    pub jar_number: i32,
}

/// A staining procedure, as it is handed in to be saved: one that was never
/// saved has neither id nor revision.
#[derive(Debug, Clone)]
pub struct ProcedureInputObject {
    pub id: Option<String>,
    pub rev: Option<String>,
    pub type_: String,
    /// Name of the procedure.
    pub name: String,
    /// What substance is in which jar.
    pub jar_contents: Vec<String>,
    /// The steps of the procedure, in the order in which they are run.
    pub procedure_steps: Vec<ProcedureStepInputObject>,
    /// Number of times to repeat the steps in a single run.
    pub repeat: Option<i32>,
    /// Number of times this procedure has ever been run.
    pub runs: Option<i32>,
}

/// The settings document.
#[derive(Debug, Clone)]
pub struct Settings {
    pub id: String,
    pub rev: String,
    /// The developer flag.
    pub developer: bool,
}

/// The settings document, as it is handed in to be saved.
#[derive(Debug, Clone)]
pub struct SettingsInputObject {
    pub id: String,
    pub rev: String,
    /// The developer flag.
    pub developer: bool,
}

/// The step as it is handed in: the same substance, time and jar.
pub open spec fn step_input(step: ProcedureStep) -> ProcedureStepInputObject {
    ProcedureStepInputObject {
        substance: step.substance,
        time_in_seconds: step.time_in_seconds,
        jar_number: step.jar_number,
    }
}

/// The settings as they are handed in: the same id, revision and flag.
pub open spec fn settings_input(settings: Settings) -> SettingsInputObject {
    SettingsInputObject { id: settings.id, rev: settings.rev, developer: settings.developer }
}

/// `input` is the procedure as it is handed in: it has the id and the
/// revision of the procedure, the same type, name, jar contents, repeat and
/// runs, and step for step the same steps.
pub open spec fn is_procedure_input(procedure: Procedure, input: ProcedureInputObject) -> bool {
    &&& input.id == Some(procedure.id)
    &&& input.rev == Some(procedure.rev)
    &&& input.type_ == procedure.type_
    &&& input.name == procedure.name
    &&& input.jar_contents == procedure.jar_contents
    &&& input.repeat == procedure.repeat
    &&& input.runs == procedure.runs
    &&& input.procedure_steps@.len() == procedure.procedure_steps@.len()
    &&& forall|i: int|
        0 <= i < procedure.procedure_steps@.len() ==> #[trigger] input.procedure_steps@[i]
            == step_input(procedure.procedure_steps@[i])
}

impl From<ProcedureStep> for ProcedureStepInputObject {
    fn from(step: ProcedureStep) -> (input: Self) {
        ProcedureStepInputObject {
            substance: step.substance,
            time_in_seconds: step.time_in_seconds,
            jar_number: step.jar_number,
        }
    }
}

impl FromSpecImpl<ProcedureStep> for ProcedureStepInputObject {
    open spec fn obeys_from_spec() -> bool {
        true
    }

    open spec fn from_spec(step: ProcedureStep) -> Self {
        step_input(step)
    }
}

impl From<Procedure> for ProcedureInputObject {
    /// The procedure as it is handed in to be saved again.
    fn from(procedure: Procedure) -> (input: Self)
        ensures
            is_procedure_input(procedure, input),
    {
        let mut procedure_steps: Vec<ProcedureStepInputObject> = Vec::new();
        let steps = procedure.procedure_steps;
        for step in it: steps
            invariant
                procedure_steps@.len() == it.index(),
                forall|j: int|
                    0 <= j < it.index() ==> #[trigger] procedure_steps@[j] == step_input(it.seq()[j]),
        {
            procedure_steps.push(ProcedureStepInputObject::from(step));
        }
        ProcedureInputObject {
            id: Some(procedure.id),
            rev: Some(procedure.rev),
            type_: procedure.type_,
            name: procedure.name,
            jar_contents: procedure.jar_contents,
            procedure_steps,
            repeat: procedure.repeat,
            runs: procedure.runs,
        }
    }
}

impl FromSpecImpl<Procedure> for ProcedureInputObject {
    /// What `from` gives is stated by its own contract: a vector of steps
    /// cannot be written down as a value here.
    open spec fn obeys_from_spec() -> bool {
        false
    }

    open spec fn from_spec(procedure: Procedure) -> Self {
        arbitrary()
    }
}

impl From<Settings> for SettingsInputObject {
    fn from(settings: Settings) -> (input: Self) {
        SettingsInputObject { id: settings.id, rev: settings.rev, developer: settings.developer }
    }
}

impl FromSpecImpl<Settings> for SettingsInputObject {
    open spec fn obeys_from_spec() -> bool {
        true
    }

    open spec fn from_spec(settings: Settings) -> Self {
        settings_input(settings)
    }
}

impl AxisDirection {
    /// The name of the axis: `x` or `z`.
    pub open spec fn name(&self) -> Seq<char> {
        match self {
            AxisDirection::X => seq!['x'],
            AxisDirection::Z => seq!['z'],
        }
    }

    /// Reads an axis from its name. Any text but `x` and `z` names no axis
    /// and is handed back.
    pub fn from_param(param: &str) -> (axis: Result<AxisDirection, &str>)
        ensures
            match axis {
                Ok(axis) => param@ == axis.name(),
                Err(rest) => rest@ == param@ && param@ != AxisDirection::X.name() && param@
                    != AxisDirection::Z.name(),
            },
    {
        if param.unicode_len() == 1 {
            let letter: char = param.get_char(0);
            if letter == 'x' {
                assert(param@ =~= seq!['x']);
                return Ok(AxisDirection::X);
            }
            if letter == 'z' {
                assert(param@ =~= seq!['z']);
                return Ok(AxisDirection::Z);
            }
        }
        assert(seq!['x'].len() == 1 && seq!['x'][0] == 'x');
        assert(seq!['z'].len() == 1 && seq!['z'][0] == 'z');
        Err(param)
    }

    /// The name of the axis, as `from_param` reads it.
    pub fn to_string(&self) -> (name: String)
        ensures
            name@ == self.name(),
    {
        proof {
            reveal_strlit("x");
            reveal_strlit("z");
        }
        match self {
            AxisDirection::X => {
                let name = String::from_str("x");
                assert(name@ =~= seq!['x']);
                name
            },
            AxisDirection::Z => {
                let name = String::from_str("z");
                assert(name@ =~= seq!['z']);
                name
            },
        }
    }
}

} // verus!
