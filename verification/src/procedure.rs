//! The run of a staining procedure.
//!
//! A run takes the rack to the jar of each step, lets it dwell there for the
//! time of the step, repeats the steps as often as the procedure says, raises
//! the rack and is complete. The operator can pause it with the emergency
//! stop and resume it with the green button; time spent paused is no part of
//! a dwell.
//!
//! The run is driven from outside. The driver asks [`request_run`] whether a
//! run may start, loads the procedure and hands it to [`RunRequest::loaded`].
//! When the run is complete it has the store count the run and hands the
//! answer to [`run_counted`].
//! From then on it reads the state of the run, the emergency stop, the green
//! button and its clock, hands them to [`ProcedureRun::poll`], carries out
//! the [`RunOutput`] that comes back and polls again; after a move that the
//! run asked for it calls [`ProcedureRun::moved`] with the result instead.

use vstd::prelude::*;
use crate::structs_and_consts::{
    MoveResult, Pi, Procedure, ProcedureExecutionStateEnum, ProcedureRunStatus,
};

verus! {

/// Milliseconds between two polls while the rack is on its way.
pub const SEEK_POLL_MS: u64 = 10;

/// Milliseconds between two polls during a dwell.
pub const DWELL_POLL_MS: u64 = 20;

/// Microseconds in a second.
pub const MICROS_PER_SECOND: u64 = 1_000_000;

/// The two indicator lights: the red one shows a run that is active, the
/// green one a run that waits for the operator.
#[derive(Debug, Clone, Copy, PartialEq, Eq, Structural)]
pub struct Lights {
    pub red: bool,
    pub green: bool,
}

/// What the driver read before a poll.
#[derive(Debug, Clone, Copy, PartialEq, Eq, Structural)]
pub struct RunInputs {
    /// The state of the run.
    pub state: ProcedureExecutionStateEnum,
    /// Whether the emergency stop is pressed.
    pub estop: bool,
    /// Whether the green button is pressed.
    pub green_button: bool,
    /// Microseconds since the poll before this one.
    pub elapsed_us: u64,
}

/// What the driver does after a poll, once it has carried out the rest of
/// the output.
#[derive(Debug, Clone, Copy, PartialEq, Eq, Structural)]
pub enum RunAction {
    /// Move the rack into the jar, then report the result with `moved`.
    MoveToJar { jar_number: i32 },
    /// Raise the rack to the up position, then report the result with `moved`.
    MoveToUpPosition,
    /// Wait, then poll again.
    Wait { millis: u64 },
    /// The run is complete: have the count of runs of the procedure raised.
    Complete,
}

/// What a poll answers: the state to store, the lights to set and the
/// seconds of the dwell to publish, each where there is one, and what to do
/// then.
#[derive(Debug, Clone, Copy, PartialEq, Eq, Structural)]
pub struct RunOutput {
    pub store: Option<ProcedureExecutionStateEnum>,
    pub lights: Option<Lights>,
    pub seconds_remaining: Option<u64>,
    pub action: RunAction,
}

/// The part of a run that is under way.
#[derive(Debug, Clone, Copy, PartialEq, Eq, Structural)]
pub enum RunPhase {
    /// The rack is on its way to the jar of the current step.
    Seeking,
    /// The rack dwells in the jar of the current step.
    Dwelling,
    /// All steps are done and the rack is on its way up.
    Raising,
    /// The run is complete.
    Finished,
}

/// A run under way: the cycle and the step, both counted from zero, the
/// phase, and what is left of the dwell in microseconds.
#[derive(Debug, Clone, Copy, PartialEq, Eq, Structural)]
pub struct ProcedureRun {
    pub repeat: i32,
    pub step: usize,
    pub phase: RunPhase,
    pub us_remaining: u64,
}

/// A request to run a procedure that was accepted, while the procedure is
/// being loaded.
#[derive(Debug, Clone, Copy, PartialEq, Eq, Structural)]
pub struct RunRequest {
    /// The state of the run when the request came.
    pub previous: ProcedureExecutionStateEnum,
}

/// The answer to a request to run a procedure.
#[derive(Debug, Clone, Copy, PartialEq, Eq, Structural)]
pub enum RunDecision {
    /// A run is under way: nothing is stored, loaded or changed.
    Refused,
    /// The run may start: `store` is the state to set before the procedure
    /// is loaded.
    Accepted { request: RunRequest, store: ProcedureExecutionStateEnum },
}

/// The lights of a run that is active.
pub open spec fn active_lights() -> Lights {
    Lights { red: true, green: false }
}

/// The lights of a run that waits for the operator.
pub open spec fn waiting_lights() -> Lights {
    Lights { red: false, green: true }
}

/// The lights of a machine that runs nothing.
pub open spec fn idle_lights() -> Lights {
    Lights { red: false, green: false }
}

/// A run may start unless one is running or paused.
pub open spec fn accepts_run(state: ProcedureExecutionStateEnum) -> bool {
    state != ProcedureExecutionStateEnum::Running && state != ProcedureExecutionStateEnum::Paused
}

/// How often the steps of the loaded procedure are run: once where the
/// procedure does not say, never where no procedure is loaded.
pub open spec fn repeats_of(pi: Pi) -> int {
    match pi.current_procedure {
        None => 0,
        Some(procedure) => match procedure.repeat {
            None => 1,
            Some(repeat) => repeat as int,
        },
    }
}

/// The number of steps of the loaded procedure.
pub open spec fn steps_of(pi: Pi) -> int {
    match pi.current_procedure {
        None => 0,
        Some(procedure) => procedure.procedure_steps@.len() as int,
    }
}

/// The jar of a step of the loaded procedure.
pub open spec fn jar_of(pi: Pi, step: int) -> i32 {
    pi.current_procedure->Some_0.procedure_steps@[step].jar_number
}

/// The dwell of a step of the loaded procedure in microseconds; none for a
/// time below zero.
pub open spec fn dwell_of(pi: Pi, step: int) -> int {
    let seconds = pi.current_procedure->Some_0.procedure_steps@[step].time_in_seconds;
    if seconds <= 0 {
        0
    } else {
        seconds * MICROS_PER_SECOND
    }
}

/// The number that a count from zero has when counted from one, as far as it
/// fits.
pub open spec fn one_indexed(index: int) -> i32 {
    if index + 1 > i32::MAX {
        i32::MAX
    } else {
        (index + 1) as i32
    }
}

/// The run at the start of a procedure: at the first step of the first
/// cycle where there is one, else on the way up.
pub open spec fn first_run(pi: Pi) -> ProcedureRun {
    ProcedureRun {
        repeat: 0,
        step: 0,
        phase: if repeats_of(pi) >= 1 && steps_of(pi) >= 1 {
            RunPhase::Seeking
        } else {
            RunPhase::Raising
        },
        us_remaining: 0,
    }
}

/// The run after the dwell of a step: at the next step, else at the first
/// step of the next cycle, else on the way up.
pub open spec fn next_run(run: ProcedureRun, pi: Pi) -> ProcedureRun {
    if run.step + 1 < steps_of(pi) {
        ProcedureRun {
            repeat: run.repeat,
            step: (run.step + 1) as usize,
            phase: RunPhase::Seeking,
            us_remaining: 0,
        }
    } else if run.repeat + 1 < repeats_of(pi) {
        ProcedureRun {
            repeat: (run.repeat + 1) as i32,
            step: 0,
            phase: RunPhase::Seeking,
            us_remaining: 0,
        }
    } else {
        ProcedureRun { repeat: run.repeat, step: run.step, phase: RunPhase::Raising, us_remaining: 0 }
    }
}

/// The state that a paused run gets when the operator is looked for: running
/// where the green button is pressed. Nothing is stored for a run that is
/// not paused, or whose button is not pressed.
pub open spec fn operator_store(
    state: ProcedureExecutionStateEnum,
    green_button: bool,
) -> Option<ProcedureExecutionStateEnum> {
    if state == ProcedureExecutionStateEnum::Paused && green_button {
        Some(ProcedureExecutionStateEnum::Running)
    } else {
        None
    }
}

/// The lights that a run gets when the operator is looked for: those of a
/// waiting run while it is paused, those of an active run once the green
/// button resumes it, and none to set where the run is not paused.
pub open spec fn operator_lights(state: ProcedureExecutionStateEnum, green_button: bool) -> Option<
    Lights,
> {
    if state == ProcedureExecutionStateEnum::Paused {
        if green_button {
            Some(active_lights())
        } else {
            Some(waiting_lights())
        }
    } else {
        None
    }
}

/// What is left of a dwell after a poll: the time since the poll before
/// counts against it while the run is running, and not otherwise.
pub open spec fn dwell_after(us_remaining: u64, state: ProcedureExecutionStateEnum, elapsed_us: u64) -> u64 {
    if state == ProcedureExecutionStateEnum::Running {
        if elapsed_us >= us_remaining {
            0
        } else {
            (us_remaining - elapsed_us) as u64
        }
    } else {
        us_remaining
    }
}

/// The state that a poll during a dwell stores: paused where the emergency
/// stop is pressed, and running again where the green button is pressed as
/// well as the run is, or has just been, paused.
pub open spec fn dwell_store(inputs: RunInputs) -> Option<ProcedureExecutionStateEnum> {
    let stopped = if inputs.estop {
        ProcedureExecutionStateEnum::Paused
    } else {
        inputs.state
    };
    match operator_store(stopped, inputs.green_button) {
        Some(state) => Some(state),
        None => if inputs.estop {
            Some(ProcedureExecutionStateEnum::Paused)
        } else {
            None
        },
    }
}

/// The lights that a poll during a dwell sets.
pub open spec fn dwell_lights(inputs: RunInputs) -> Option<Lights> {
    let stopped = if inputs.estop {
        ProcedureExecutionStateEnum::Paused
    } else {
        inputs.state
    };
    operator_lights(stopped, inputs.green_button)
}

/// The state of the run after an output: the state that it stores, else the
/// state that was read.
pub open spec fn state_after(
    state: ProcedureExecutionStateEnum,
    store: Option<ProcedureExecutionStateEnum>,
) -> ProcedureExecutionStateEnum {
    match store {
        Some(stored) => stored,
        None => state,
    }
}

/// The progress record with the state of the run brought up to date.
pub open spec fn mirrored_status(
    status: Option<ProcedureRunStatus>,
    state: ProcedureExecutionStateEnum,
) -> Option<ProcedureRunStatus> {
    match status {
        None => None,
        Some(status) => Some(ProcedureRunStatus { run_state: state, ..status }),
    }
}

/// The output of a poll that only looks for the operator and waits.
pub open spec fn waiting_output(inputs: RunInputs) -> RunOutput {
    RunOutput {
        store: operator_store(inputs.state, inputs.green_button),
        lights: operator_lights(inputs.state, inputs.green_button),
        seconds_remaining: None,
        action: RunAction::Wait { millis: SEEK_POLL_MS },
    }
}

/// The output of a poll that asks for a move.
pub open spec fn moving_output(action: RunAction) -> RunOutput {
    RunOutput { store: None, lights: Some(active_lights()), seconds_remaining: None, action }
}

/// The output that asks for the next poll at once.
pub open spec fn quiet_output() -> RunOutput {
    RunOutput {
        store: None,
        lights: None,
        seconds_remaining: None,
        action: RunAction::Wait { millis: 0 },
    }
}

/// The output of a poll of a run that is complete.
pub open spec fn finished_output() -> RunOutput {
    RunOutput { store: None, lights: None, seconds_remaining: None, action: RunAction::Complete }
}

/// What a poll makes of a run, of the progress record and of what was read.
pub struct Polled {
    pub run: ProcedureRun,
    pub status: Option<ProcedureRunStatus>,
    pub output: RunOutput,
}

/// A poll.
///
/// On the way to a jar the progress record gets the step and the cycle,
/// counted from one. A run that is running asks for the move to the jar, with
/// the lights of an active run; any other waits, and a paused one looks for
/// the operator. Where the step does not exist, the run goes on with raising
/// the rack.
///
/// During a dwell the time since the poll before counts against the dwell
/// while the run is running. The emergency stop pauses the run, a paused run
/// looks for the operator, and the whole seconds that are left are
/// published. When nothing is left, the run goes on with the next step, the
/// next cycle, or with raising the rack.
///
/// On the way up a run that is running asks for the move to the up
/// position; any other waits, and a paused one looks for the operator.
pub open spec fn polled(run: ProcedureRun, pi: Pi, inputs: RunInputs) -> Polled {
    match run.phase {
        RunPhase::Seeking => if run.step < steps_of(pi) {
            let output = if inputs.state == ProcedureExecutionStateEnum::Running {
                moving_output(RunAction::MoveToJar { jar_number: jar_of(pi, run.step as int) })
            } else {
                waiting_output(inputs)
            };
            Polled {
                run,
                status: Some(
                    ProcedureRunStatus {
                        current_procedure_step_number: one_indexed(run.step as int),
                        current_cycle_number: one_indexed(run.repeat as int),
                        run_state: state_after(inputs.state, output.store),
                    },
                ),
                output,
            }
        } else {
            Polled {
                run: ProcedureRun { phase: RunPhase::Raising, us_remaining: 0, ..run },
                status: pi.run_status,
                output: quiet_output(),
            }
        },
        RunPhase::Dwelling => {
            let left = dwell_after(run.us_remaining, inputs.state, inputs.elapsed_us);
            let store = dwell_store(inputs);
            Polled {
                run: if left > 0 {
                    ProcedureRun { us_remaining: left, ..run }
                } else {
                    next_run(run, pi)
                },
                status: mirrored_status(pi.run_status, state_after(inputs.state, store)),
                output: RunOutput {
                    store,
                    lights: dwell_lights(inputs),
                    seconds_remaining: Some(left / MICROS_PER_SECOND),
                    action: RunAction::Wait { millis: DWELL_POLL_MS },
                },
            }
        },
        RunPhase::Raising => {
            let output = if inputs.state == ProcedureExecutionStateEnum::Running {
                moving_output(RunAction::MoveToUpPosition)
            } else {
                waiting_output(inputs)
            };
            Polled {
                run,
                status: mirrored_status(pi.run_status, state_after(inputs.state, output.store)),
                output,
            }
        },
        RunPhase::Finished => Polled { run, status: pi.run_status, output: finished_output() },
    }
}

/// The end of a move that the run asked for.
///
/// A move to a jar that moved the full distance starts the dwell of the
/// step, or, where the step has no dwell, takes the run on to what follows
/// the step. A move to the up position that moved the full distance
/// completes the run: the progress record is cleared, the lights go off and
/// the state of the run becomes completed. After any other result the move
/// is tried again, once the run is running: a paused run looks for the
/// operator first. A result that no move was asked for changes nothing.
pub open spec fn moved_on(run: ProcedureRun, pi: Pi, result: MoveResult, inputs: RunInputs) -> Polled {
    match run.phase {
        RunPhase::Seeking => if result == MoveResult::MovedFullDistance {
            Polled {
                run: if run.step < steps_of(pi) && dwell_of(pi, run.step as int) > 0 {
                    ProcedureRun {
                        phase: RunPhase::Dwelling,
                        us_remaining: dwell_of(pi, run.step as int) as u64,
                        ..run
                    }
                } else {
                    next_run(run, pi)
                },
                status: pi.run_status,
                output: quiet_output(),
            }
        } else {
            let output = waiting_output(inputs);
            Polled {
                run,
                status: mirrored_status(pi.run_status, state_after(inputs.state, output.store)),
                output,
            }
        },
        RunPhase::Raising => if result == MoveResult::MovedFullDistance {
            Polled {
                run: ProcedureRun { phase: RunPhase::Finished, ..run },
                status: None,
                output: RunOutput {
                    store: Some(ProcedureExecutionStateEnum::Completed),
                    lights: Some(idle_lights()),
                    seconds_remaining: None,
                    action: RunAction::Complete,
                },
            }
        } else {
            let output = waiting_output(inputs);
            Polled {
                run,
                status: mirrored_status(pi.run_status, state_after(inputs.state, output.store)),
                output,
            }
        },
        RunPhase::Dwelling => Polled { run, status: pi.run_status, output: quiet_output() },
        RunPhase::Finished => Polled { run, status: pi.run_status, output: finished_output() },
    }
}

/// Decides on a request to run a procedure, from the state of the run: the
/// request is refused while a run is running or paused, and nothing is then
/// to be stored or changed. Otherwise it is accepted, and the state of the
/// run is to be set to running before the procedure is loaded.
pub fn request_run(state: ProcedureExecutionStateEnum) -> (decision: RunDecision)
    ensures
        decision == if accepts_run(state) {
            RunDecision::Accepted {
                request: RunRequest { previous: state },
                store: ProcedureExecutionStateEnum::Running,
            }
        } else {
            RunDecision::Refused
        },
{
    match state {
        ProcedureExecutionStateEnum::Running | ProcedureExecutionStateEnum::Paused => RunDecision::Refused,
        _ => RunDecision::Accepted {
            request: RunRequest { previous: state },
            store: ProcedureExecutionStateEnum::Running,
        },
    }
}

/// Records what the store answered when it was asked to count the run: the
/// procedure as the store now holds it becomes the current procedure. Where
/// the store gave none, the machine stays as it is.
pub fn run_counted(pi: &mut Pi, refreshed: Option<Procedure>)
    ensures
        *final(pi) == match refreshed {
            Some(procedure) => Pi { current_procedure: Some(procedure), ..*old(pi) },
            None => *old(pi),
        },
{
    match refreshed {
        Some(procedure) => {
            pi.current_procedure = Some(procedure);
        },
        None => {},
    }
}

fn looks_for_operator(state: ProcedureExecutionStateEnum, green_button: bool) -> (found: (
    Option<ProcedureExecutionStateEnum>,
    Option<Lights>,
))
    ensures
        found.0 == operator_store(state, green_button),
        found.1 == operator_lights(state, green_button),
{
    match state {
        ProcedureExecutionStateEnum::Paused => if green_button {
            (Some(ProcedureExecutionStateEnum::Running), Some(Lights { red: true, green: false }))
        } else {
            (None, Some(Lights { red: false, green: true }))
        },
        _ => (None, None),
    }
}

fn waits(inputs: &RunInputs) -> (output: RunOutput)
    ensures
        output == waiting_output(*inputs),
{
    let found = looks_for_operator(inputs.state, inputs.green_button);
    RunOutput {
        store: found.0,
        lights: found.1,
        seconds_remaining: None,
        action: RunAction::Wait { millis: SEEK_POLL_MS },
    }
}

fn asks_for(action: RunAction) -> (output: RunOutput)
    ensures
        output == moving_output(action),
{
    RunOutput {
        store: None,
        lights: Some(Lights { red: true, green: false }),
        seconds_remaining: None,
        action,
    }
}

fn quiet() -> (output: RunOutput)
    ensures
        output == quiet_output(),
{
    RunOutput { store: None, lights: None, seconds_remaining: None, action: RunAction::Wait { millis: 0 } }
}

fn state_with(state: ProcedureExecutionStateEnum, store: Option<ProcedureExecutionStateEnum>) -> (after:
    ProcedureExecutionStateEnum)
    ensures
        after == state_after(state, store),
{
    match store {
        Some(stored) => stored,
        None => state,
    }
}

fn mirror(pi: &mut Pi, state: ProcedureExecutionStateEnum)
    ensures
        *final(pi) == (Pi { run_status: mirrored_status(old(pi).run_status, state), ..*old(pi) }),
{
    match pi.run_status {
        None => {},
        Some(status) => {
            pi.run_status = Some(
                ProcedureRunStatus {
                    current_procedure_step_number: status.current_procedure_step_number,
                    current_cycle_number: status.current_cycle_number,
                    run_state: state,
                },
            );
        },
    }
}

fn count_from_one(index: usize) -> (number: i32)
    ensures
        number == one_indexed(index as int),
{
    if index >= i32::MAX as usize {
        i32::MAX
    } else {
        (index + 1) as i32
    }
}

fn cycle_from_one(repeat: i32) -> (number: i32)
    ensures
        number == one_indexed(repeat as int),
{
    if repeat == i32::MAX {
        i32::MAX
    } else {
        repeat + 1
    }
}

fn step_count(pi: &Pi) -> (count: usize)
    ensures
        count == steps_of(*pi),
{
    match &pi.current_procedure {
        None => 0,
        Some(procedure) => procedure.procedure_steps.len(),
    }
}

fn repeat_count(pi: &Pi) -> (count: i32)
    ensures
        count == repeats_of(*pi),
{
    match &pi.current_procedure {
        None => 0,
        Some(procedure) => match procedure.repeat {
            None => 1,
            Some(repeat) => repeat,
        },
    }
}

fn jar_at(pi: &Pi, step: usize) -> (jar_number: i32)
    requires
        step < steps_of(*pi),
    ensures
        jar_number == jar_of(*pi, step as int),
{
    match &pi.current_procedure {
        None => 0,
        Some(procedure) => procedure.procedure_steps[step].jar_number,
    }
}

fn dwell_at(pi: &Pi, step: usize) -> (micros: u64)
    requires
        step < steps_of(*pi),
    ensures
        micros == dwell_of(*pi, step as int),
{
    match &pi.current_procedure {
        None => 0,
        Some(procedure) => {
            let seconds: i32 = procedure.procedure_steps[step].time_in_seconds;
            if seconds <= 0 {
                0
            } else {
                (seconds as u64) * MICROS_PER_SECOND
            }
        },
    }
}

fn first(pi: &Pi) -> (run: ProcedureRun)
    ensures
        run == first_run(*pi),
{
    let phase = if repeat_count(pi) >= 1 && step_count(pi) >= 1 {
        RunPhase::Seeking
    } else {
        RunPhase::Raising
    };
    ProcedureRun { repeat: 0, step: 0, phase, us_remaining: 0 }
}

fn following(run: &ProcedureRun, pi: &Pi) -> (next: ProcedureRun)
    ensures
        next == next_run(*run, *pi),
{
    let steps: usize = step_count(pi);
    if run.step < steps && run.step + 1 < steps {
        ProcedureRun { repeat: run.repeat, step: run.step + 1, phase: RunPhase::Seeking, us_remaining: 0 }
    } else if run.repeat < repeat_count(pi) && run.repeat + 1 < repeat_count(pi) {
        ProcedureRun { repeat: run.repeat + 1, step: 0, phase: RunPhase::Seeking, us_remaining: 0 }
    } else {
        ProcedureRun { repeat: run.repeat, step: run.step, phase: RunPhase::Raising, us_remaining: 0 }
    }
}

impl RunRequest {
    /// The state to set when the procedure could not be loaded: the state
    /// that the run had when the request came, so that a run that did not
    /// start does not count as running.
    pub fn not_loaded(self) -> (restore: ProcedureExecutionStateEnum)
        ensures
            restore == self.previous,
    {
        self.previous
    }

    /// Starts the run of the procedure that was loaded. The procedure becomes
    /// the current procedure of the machine, the progress record is created
    /// with step and cycle zero and a running state, and the lights of an
    /// active run are set. The steppers stay as they are.
    pub fn loaded(self, pi: &mut Pi, procedure: Procedure) -> (started: (ProcedureRun, RunOutput))
        ensures
            *final(pi) == (Pi {
                current_procedure: Some(procedure),
                run_status: Some(
                    ProcedureRunStatus {
                        current_procedure_step_number: 0,
                        current_cycle_number: 0,
                        run_state: ProcedureExecutionStateEnum::Running,
                    },
                ),
                ..*old(pi)
            }),
            started.0 == first_run(*final(pi)),
            started.1 == moving_output(RunAction::Wait { millis: 0 }),
    {
        pi.current_procedure = Some(procedure);
        pi.run_status = Some(
            ProcedureRunStatus {
                current_procedure_step_number: 0,
                current_cycle_number: 0,
                run_state: ProcedureExecutionStateEnum::Running,
            },
        );
        (first(pi), asks_for(RunAction::Wait { millis: 0 }))
    }
}

impl ProcedureRun {
    /// Takes the run one poll further, as [`polled`] describes it. Of the
    /// machine only the progress record changes.
    pub fn poll(&mut self, pi: &mut Pi, inputs: RunInputs) -> (output: RunOutput)
        ensures
            *final(self) == polled(*old(self), *old(pi), inputs).run,
            *final(pi) == (Pi {
                run_status: polled(*old(self), *old(pi), inputs).status,
                ..*old(pi)
            }),
            output == polled(*old(self), *old(pi), inputs).output,
    {
        match self.phase {
            RunPhase::Seeking => {
                if self.step < step_count(pi) {
                    let output = match inputs.state {
                        ProcedureExecutionStateEnum::Running => asks_for(
                            RunAction::MoveToJar { jar_number: jar_at(pi, self.step) },
                        ),
                        _ => waits(&inputs),
                    };
                    pi.run_status = Some(
                        ProcedureRunStatus {
                            current_procedure_step_number: count_from_one(self.step),
                            current_cycle_number: cycle_from_one(self.repeat),
                            run_state: state_with(inputs.state, output.store),
                        },
                    );
                    output
                } else {
                    self.phase = RunPhase::Raising;
                    self.us_remaining = 0;
                    quiet()
                }
            },
            RunPhase::Dwelling => {
                let left: u64 = match inputs.state {
                    ProcedureExecutionStateEnum::Running => self.us_remaining.saturating_sub(
                        inputs.elapsed_us,
                    ),
                    _ => self.us_remaining,
                };
                let stopped = if inputs.estop {
                    ProcedureExecutionStateEnum::Paused
                } else {
                    inputs.state
                };
                let found = looks_for_operator(stopped, inputs.green_button);
                let store = match found.0 {
                    Some(state) => Some(state),
                    None => if inputs.estop {
                        Some(ProcedureExecutionStateEnum::Paused)
                    } else {
                        None
                    },
                };
                if left > 0 {
                    self.us_remaining = left;
                } else {
                    let next = following(self, pi);
                    *self = next;
                }
                mirror(pi, state_with(inputs.state, store));
                RunOutput {
                    store,
                    lights: found.1,
                    seconds_remaining: Some(left / MICROS_PER_SECOND),
                    action: RunAction::Wait { millis: DWELL_POLL_MS },
                }
            },
            RunPhase::Raising => {
                let output = match inputs.state {
                    ProcedureExecutionStateEnum::Running => asks_for(RunAction::MoveToUpPosition),
                    _ => waits(&inputs),
                };
                mirror(pi, state_with(inputs.state, output.store));
                output
            },
            RunPhase::Finished => RunOutput {
                store: None,
                lights: None,
                seconds_remaining: None,
                action: RunAction::Complete,
            },
        }
    }

    /// Takes the run on after a move that it asked for, as [`moved_on`]
    /// describes it: `result` is the result of the move, `inputs` what the
    /// driver read after it. Of the machine only the progress record changes.
    pub fn moved(&mut self, pi: &mut Pi, result: MoveResult, inputs: RunInputs) -> (output: RunOutput)
        ensures
            *final(self) == moved_on(*old(self), *old(pi), result, inputs).run,
            *final(pi) == (Pi {
                run_status: moved_on(*old(self), *old(pi), result, inputs).status,
                ..*old(pi)
            }),
            output == moved_on(*old(self), *old(pi), result, inputs).output,
    {
        let arrived: bool = match result {
            MoveResult::MovedFullDistance => true,
            _ => false,
        };
        match self.phase {
            RunPhase::Seeking => {
                if arrived {
                    let dwell: u64 = if self.step < step_count(pi) {
                        dwell_at(pi, self.step)
                    } else {
                        0
                    };
                    if dwell > 0 {
                        self.phase = RunPhase::Dwelling;
                        self.us_remaining = dwell;
                    } else {
                        let next = following(self, pi);
                        *self = next;
                    }
                    quiet()
                } else {
                    let output = waits(&inputs);
                    mirror(pi, state_with(inputs.state, output.store));
                    output
                }
            },
            RunPhase::Raising => {
                if arrived {
                    self.phase = RunPhase::Finished;
                    pi.run_status = None;
                    RunOutput {
                        store: Some(ProcedureExecutionStateEnum::Completed),
                        lights: Some(Lights { red: false, green: false }),
                        seconds_remaining: None,
                        action: RunAction::Complete,
                    }
                } else {
                    let output = waits(&inputs);
                    mirror(pi, state_with(inputs.state, output.store));
                    output
                }
            },
            RunPhase::Dwelling => quiet(),
            RunPhase::Finished => RunOutput {
                store: None,
                lights: None,
                seconds_remaining: None,
                action: RunAction::Complete,
            },
        }
    }
}

/// The time that counts against a dwell over a sequence of polls: the time
/// since the poll before, summed over the polls that found the run running.
pub open spec fn running_time(polls: Seq<RunInputs>) -> int
    decreases polls.len(),
{
    if polls.len() == 0 {
        0
    } else {
        running_time(polls.drop_last()) + if polls.last().state
            == ProcedureExecutionStateEnum::Running {
            polls.last().elapsed_us as int
        } else {
            0
        }
    }
}

/// The run and the machine after a sequence of polls, each taken on what the
/// poll before left.
pub open spec fn poll_all(run: ProcedureRun, pi: Pi, polls: Seq<RunInputs>) -> (ProcedureRun, Pi)
    decreases polls.len(),
{
    if polls.len() == 0 {
        (run, pi)
    } else {
        let before = poll_all(run, pi, polls.drop_last());
        let last = polled(before.0, before.1, polls.last());
        (last.run, Pi { run_status: last.status, ..before.1 })
    }
}

/// The time that counts against a dwell is never negative and does not
/// shrink with a further poll.
pub proof fn lemma_running_time_grows(polls: Seq<RunInputs>)
    ensures
        0 <= running_time(polls),
        polls.len() > 0 ==> running_time(polls.drop_last()) <= running_time(polls),
    decreases polls.len(),
{
    if polls.len() > 0 {
        lemma_running_time_grows(polls.drop_last());
    }
}

/// A dwell lasts as long as it says, in time that the run spent running:
/// while the polls have found less running time than the dwell had left, the
/// run still dwells at the same step, and what is left of the dwell is what
/// was left less that running time. Time that the run spent paused, however
/// often it was paused and resumed, takes nothing from the dwell. Polls
/// change nothing of the machine but its progress record.
pub proof fn lemma_dwell_lasts(run: ProcedureRun, pi: Pi, polls: Seq<RunInputs>)
    requires
        run.phase == RunPhase::Dwelling,
        running_time(polls) < run.us_remaining,
    ensures
        poll_all(run, pi, polls).0 == (ProcedureRun {
            us_remaining: (run.us_remaining - running_time(polls)) as u64,
            ..run
        }),
        poll_all(run, pi, polls).1 == (Pi { run_status: poll_all(run, pi, polls).1.run_status, ..pi }),
    decreases polls.len(),
{
    lemma_running_time_grows(polls);
    if polls.len() > 0 {
        let earlier = polls.drop_last();
        lemma_running_time_grows(earlier);
        lemma_dwell_lasts(run, pi, earlier);
        let before = poll_all(run, pi, earlier);
        let last = polled(before.0, before.1, polls.last());
        assert(before.0.us_remaining == run.us_remaining - running_time(earlier));
        assert(dwell_after(before.0.us_remaining, polls.last().state, polls.last().elapsed_us)
            == run.us_remaining - running_time(polls));
        assert(last.run == (ProcedureRun {
            us_remaining: (run.us_remaining - running_time(polls)) as u64,
            ..run
        }));
    }
}

/// A dwell ends with the poll at which the running time reaches what the
/// dwell had left: after that poll the run has gone on to what follows the
/// step, and zero seconds were published.
pub proof fn lemma_dwell_ends(run: ProcedureRun, pi: Pi, polls: Seq<RunInputs>)
    requires
        run.phase == RunPhase::Dwelling,
        polls.len() > 0,
        running_time(polls.drop_last()) < run.us_remaining <= running_time(polls),
    ensures
        poll_all(run, pi, polls).0 == next_run(run, pi),
        polled(
            poll_all(run, pi, polls.drop_last()).0,
            poll_all(run, pi, polls.drop_last()).1,
            polls.last(),
        ).output.seconds_remaining == Some(0u64),
{
    lemma_dwell_lasts(run, pi, polls.drop_last());
}

/// The lights follow the state of the run: whenever a poll or the end of a
/// move sets the lights, the red one is lit exactly if the run is running
/// after it, and the green one exactly if the run is paused after it.
pub proof fn lemma_lights_follow_state(run: ProcedureRun, pi: Pi, result: MoveResult, inputs: RunInputs)
    ensures
        ({
            let output = polled(run, pi, inputs).output;
            output.lights.is_some() ==> {
                &&& output.lights->Some_0.red == (state_after(inputs.state, output.store)
                    == ProcedureExecutionStateEnum::Running)
                &&& output.lights->Some_0.green == (state_after(inputs.state, output.store)
                    == ProcedureExecutionStateEnum::Paused)
            }
        }),
        ({
            let output = moved_on(run, pi, result, inputs).output;
            output.lights.is_some() ==> {
                &&& output.lights->Some_0.red == (state_after(inputs.state, output.store)
                    == ProcedureExecutionStateEnum::Running)
                &&& output.lights->Some_0.green == (state_after(inputs.state, output.store)
                    == ProcedureExecutionStateEnum::Paused)
            }
        }),
{
}

/// The number of steps that a run has behind it when it stands at a step of
/// a cycle.
pub open spec fn steps_before(run: ProcedureRun, pi: Pi) -> int {
    run.repeat * steps_of(pi) + run.step
}

/// A run takes the steps one after the other, each cycle through, and every
/// step of every cycle once: a run starts with no step behind it, what
/// follows a step has exactly one step more behind it, and the rack is
/// raised when the steps of all cycles are behind.
pub proof fn lemma_steps_in_order(run: ProcedureRun, pi: Pi)
    requires
        0 <= run.repeat < repeats_of(pi),
        run.step < steps_of(pi),
    ensures
        steps_before(first_run(pi), pi) == 0,
        first_run(pi).phase == RunPhase::Seeking,
        steps_before(run, pi) < repeats_of(pi) * steps_of(pi),
        steps_before(run, pi) + 1 < repeats_of(pi) * steps_of(pi) ==> {
            &&& next_run(run, pi).phase == RunPhase::Seeking
            &&& 0 <= next_run(run, pi).repeat < repeats_of(pi)
            &&& next_run(run, pi).step < steps_of(pi)
            &&& steps_before(next_run(run, pi), pi) == steps_before(run, pi) + 1
        },
        steps_before(run, pi) + 1 == repeats_of(pi) * steps_of(pi) ==> next_run(run, pi).phase
            == RunPhase::Raising,
{
    broadcast use vstd::std_specs::vec::axiom_spec_len;

    let repeats = repeats_of(pi);
    let steps = steps_of(pi);
    let repeat = run.repeat as int;
    assert(steps == pi.current_procedure->Some_0.procedure_steps.len());
    assert(0 * steps == 0);
    assert(repeat * steps + steps <= repeats * steps) by (nonlinear_arith)
        requires
            0 <= repeat,
            repeat + 1 <= repeats,
            0 < steps,
    ;
    assert((repeat + 1) * steps == repeat * steps + steps) by (nonlinear_arith);
    if run.step + 1 >= steps && repeat + 1 < repeats {
        assert((repeat + 1) * steps + steps <= repeats * steps) by (nonlinear_arith)
            requires
                0 <= repeat,
                repeat + 2 <= repeats,
                0 < steps,
        ;
    }
    if repeat + 1 == repeats {
        assert((repeat + 1) * steps == repeats * steps);
    }
}

/// A run stays where it is while it is not running: a poll of a run that is
/// paused, stopped or not started asks for no move, takes nothing from the
/// dwell and leaves the step and the cycle as they are.
pub proof fn lemma_only_running_goes_on(run: ProcedureRun, pi: Pi, inputs: RunInputs)
    requires
        inputs.state != ProcedureExecutionStateEnum::Running,
        run.phase != RunPhase::Finished,
        run.phase == RunPhase::Seeking ==> run.step < steps_of(pi),
        run.phase == RunPhase::Dwelling ==> run.us_remaining > 0,
    ensures
        polled(run, pi, inputs).run == run,
        polled(run, pi, inputs).output.action is Wait,
{
}

} // verus!
