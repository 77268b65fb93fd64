use slide_stainer::composite::{move_to_jar, move_to_up_position, MoveCommand, Step};
use slide_stainer::couchdb::increment_run_count;
use slide_stainer::motion::{move_steps, LimitSwitch, PulseAction};
use slide_stainer::procedure::{
    request_run, run_counted, ProcedureRun, RunAction, RunDecision, RunInputs, RunOutput,
};
use slide_stainer::structs_and_consts::{
    AxisDirection, MoveResult, Pi, Procedure, ProcedureExecutionStateEnum, ProcedureStep, Stepper,
};

const PAUSED: ProcedureExecutionStateEnum = ProcedureExecutionStateEnum::Paused;
const RUNNING: ProcedureExecutionStateEnum = ProcedureExecutionStateEnum::Running;
const COMPLETED: ProcedureExecutionStateEnum = ProcedureExecutionStateEnum::Completed;

const Z_TOP: i64 = 47619;

/// A machine on the bench: the rack as it really stands, the state of the
/// run, the lights, a clock, and a script of when the emergency stop and
/// the green button are pressed.
struct Bench {
    pi: Pi,
    x: i64,
    z: i64,
    state: ProcedureExecutionStateEnum,
    seconds_remaining: u64,
    red: bool,
    green: bool,
    clock_us: u64,
    polled_us: u64,
    /// The emergency stop is pressed once this many pulses were sent.
    estop_in: Option<u64>,
    /// The green button is pressed at every poll from this time on.
    button_from_us: Option<u64>,
    commands: Vec<MoveCommand>,
    log: Vec<String>,
}

fn bench() -> Bench {
    Bench {
        pi: Pi {
            stepper_x: Stepper {
                ena: false,
                dir: false,
                limit_switch_low: true,
                limit_switch_high: false,
                pos: None,
                position_limit: 10_000_000,
                pulses_per_revolution: 800,
                travel_distance_per_turn: 63_000,
            },
            stepper_z: Stepper {
                ena: false,
                dir: false,
                limit_switch_low: false,
                limit_switch_high: true,
                pos: None,
                position_limit: 3_750_000,
                pulses_per_revolution: 800,
                travel_distance_per_turn: 63_000,
            },
            real_time: false,
            current_procedure: None,
            run_status: None,
        },
        x: 5000,
        z: 10000,
        state: ProcedureExecutionStateEnum::NotStarted,
        seconds_remaining: 0,
        red: false,
        green: false,
        clock_us: 0,
        polled_us: 0,
        estop_in: None,
        button_from_us: None,
        commands: Vec::new(),
        log: Vec::new(),
    }
}

fn procedure() -> Procedure {
    Procedure {
        id: "he-stain".to_string(),
        rev: "1-a".to_string(),
        type_: "procedure".to_string(),
        name: "H&E".to_string(),
        jar_contents: vec!["hematoxylin".to_string(), "eosin".to_string()],
        procedure_steps: vec![
            ProcedureStep { substance: "hematoxylin".to_string(), time_in_seconds: 5, jar_number: 1 },
            ProcedureStep { substance: "eosin".to_string(), time_in_seconds: 3, jar_number: 2 },
        ],
        repeat: Some(2),
        runs: Some(11),
    }
}

fn run_command(bench: &mut Bench, command: &MoveCommand) -> MoveResult {
    bench.commands.push(*command);
    let started = move_steps(
        &mut bench.pi,
        command.axis,
        command.forward,
        command.pulses,
        command.is_homing,
        command.skip_soft_estop_check,
    );
    let mut train = match started {
        Ok(train) => train,
        Err(result) => return result,
    };
    while !train.is_done() {
        let limit_switch: bool = match train.watched {
            Some(LimitSwitch::Low) => bench.x <= 0,
            Some(LimitSwitch::High) => bench.z >= Z_TOP,
            None => false,
        };
        let estop: bool = bench.estop_in == Some(0);
        match train.next_pulse(limit_switch, estop, Some(bench.state)) {
            PulseAction::Pulse { half_period_ns } => {
                let by: i64 = if command.forward { 1 } else { -1 };
                match command.axis {
                    AxisDirection::X => bench.x += by,
                    AxisDirection::Z => bench.z += by,
                }
                bench.clock_us += 2 * half_period_ns / 1000;
                bench.estop_in = bench.estop_in.map(|left| left - 1);
            }
            PulseAction::Stop { pause_procedure } => {
                if pause_procedure {
                    bench.state = PAUSED;
                    bench.red = false;
                }
                if estop {
                    bench.estop_in = None;
                }
            }
        }
    }
    train.finish(&mut bench.pi)
}

fn drive(bench: &mut Bench, first: Step) -> MoveResult {
    let mut step = first;
    loop {
        match step {
            Step::Done(result) => return result,
            Step::Run { command, pending } => {
                let result = run_command(bench, &command);
                step = pending.resume(&bench.pi, result);
            }
        }
    }
}

fn read(bench: &mut Bench) -> RunInputs {
    let elapsed_us: u64 = bench.clock_us - bench.polled_us;
    bench.polled_us = bench.clock_us;
    RunInputs {
        state: bench.state,
        estop: false,
        green_button: bench.button_from_us.map_or(false, |from| bench.clock_us >= from),
        elapsed_us,
    }
}

fn carry_out(bench: &mut Bench, output: &RunOutput) {
    if let Some(state) = output.store {
        if state != bench.state {
            bench.log.push(format!("{:?}", state));
        }
        bench.state = state;
    }
    if let Some(seconds) = output.seconds_remaining {
        bench.seconds_remaining = seconds;
    }
    if let Some(lights) = output.lights {
        bench.red = lights.red;
        bench.green = lights.green;
    }
    assert_eq!(bench.red, bench.state == RUNNING);
    assert_eq!(bench.green, bench.state == PAUSED);
}

/// Runs the loaded procedure to its end, as the driver of the machine does.
fn run_to_the_end(bench: &mut Bench, first: (ProcedureRun, RunOutput)) {
    let (mut run, output) = first;
    carry_out(bench, &output);
    let mut action = output.action;
    let mut dwelt_us: u64 = 0;
    for _ in 0..1_000_000 {
        let output = match action {
            RunAction::Complete => return,
            RunAction::Wait { millis } => {
                bench.clock_us += millis * 1000;
                let inputs = read(bench);
                let left_before: u64 = run.us_remaining;
                let output = run.poll(&mut bench.pi, inputs);
                if left_before > 0 && inputs.state == RUNNING {
                    dwelt_us += inputs.elapsed_us;
                    if run.us_remaining == 0 {
                        bench.log.push(format!("dwell {} ms", dwelt_us / 1000));
                        dwelt_us = 0;
                    }
                }
                output
            }
            RunAction::MoveToJar { jar_number } => {
                let first = move_to_jar(&bench.pi, jar_number);
                let result = drive(bench, first);
                bench.log.push(format!("jar {} {:?} x={} z={}", jar_number, result, bench.x, bench.z));
                let inputs = read(bench);
                run.moved(&mut bench.pi, result, inputs)
            }
            RunAction::MoveToUpPosition => {
                let first = move_to_up_position(&bench.pi, false);
                let result = drive(bench, first);
                bench.log.push(format!("up {:?} x={} z={}", result, bench.x, bench.z));
                let inputs = read(bench);
                run.moved(&mut bench.pi, result, inputs)
            }
        };
        carry_out(bench, &output);
        action = output.action;
    }
    panic!("the run did not end");
}

fn request(bench: &mut Bench) -> Option<(ProcedureRun, RunOutput)> {
    match request_run(bench.state) {
        RunDecision::Refused => None,
        RunDecision::Accepted { request, store } => {
            bench.state = store;
            Some(request.loaded(&mut bench.pi, procedure()))
        }
    }
}

#[test]
fn procedure_of_two_steps_run_twice() {
    let mut bench = bench();
    let first = match request(&mut bench) {
        Some(first) => first,
        None => panic!("the request was refused"),
    };
    assert_eq!(bench.state, RUNNING);
    run_to_the_end(&mut bench, first);
    assert_eq!(
        bench.log,
        vec![
            "jar 1 MovedFullDistance x=4444 z=0",
            "dwell 5000 ms",
            "jar 2 MovedFullDistance x=28571 z=0",
            "dwell 3000 ms",
            "jar 1 MovedFullDistance x=4444 z=0",
            "dwell 5000 ms",
            "jar 2 MovedFullDistance x=28571 z=0",
            "dwell 3000 ms",
            "up MovedFullDistance x=28571 z=44444",
            "Completed",
        ]
    );
    assert_eq!(bench.state, COMPLETED);
    assert!(!bench.red && !bench.green);
    assert_eq!(bench.seconds_remaining, 0);
    assert_eq!(bench.pi.run_status, None);
    assert_eq!(bench.pi.stepper_x.pos, Some(28571));
    assert_eq!(bench.pi.stepper_z.pos, Some(44444));

    let mut counted = match bench.pi.current_procedure.clone() {
        Some(current) => current,
        None => panic!("no current procedure"),
    };
    increment_run_count(&mut counted);
    run_counted(&mut bench.pi, Some(counted));
    assert_eq!(bench.pi.current_procedure.as_ref().and_then(|current| current.runs), Some(12));
}

#[test]
fn second_request_is_refused_and_changes_nothing() {
    let mut bench = bench();
    let first = request(&mut bench);
    assert!(first.is_some());
    let status = bench.pi.run_status;
    let loaded = bench.pi.current_procedure.as_ref().map(|current| current.id.clone());
    for state in [RUNNING, PAUSED] {
        bench.state = state;
        assert!(request(&mut bench).is_none());
        assert_eq!(bench.state, state);
        assert_eq!(bench.pi.run_status, status);
        assert_eq!(bench.pi.current_procedure.as_ref().map(|current| current.id.clone()), loaded);
    }
}

#[test]
fn emergency_stop_in_the_middle_of_a_move_of_the_run() {
    let mut bench = bench();
    let first = match request(&mut bench) {
        Some(first) => first,
        None => panic!("the request was refused"),
    };
    // Homing and the way to the first jar take 165,000 pulses and more; the
    // stop comes while the rack travels to the second jar.
    let (run, output) = first;
    let mut run = run;
    carry_out(&mut bench, &output);
    let inputs = read(&mut bench);
    assert_eq!(run.poll(&mut bench.pi, inputs).action, RunAction::MoveToJar { jar_number: 1 });
    let first_move = move_to_jar(&bench.pi, 1);
    assert_eq!(drive(&mut bench, first_move), MoveResult::MovedFullDistance);
    let inputs = read(&mut bench);
    run.moved(&mut bench.pi, MoveResult::MovedFullDistance, inputs);
    while run.us_remaining > 0 {
        bench.clock_us += 20_000;
        let inputs = read(&mut bench);
        let output = run.poll(&mut bench.pi, inputs);
        carry_out(&mut bench, &output);
    }

    bench.commands.clear();
    bench.clock_us += 20_000;
    let inputs = read(&mut bench);
    let asks = run.poll(&mut bench.pi, inputs);
    carry_out(&mut bench, &asks);
    assert_eq!(asks.action, RunAction::MoveToJar { jar_number: 2 });
    assert!(bench.red);

    // The rack is raised over 44444 pulses; 10,000 pulses into the travel
    // along the jars the emergency stop is pressed.
    bench.estop_in = Some(44444 + 10_000);
    let second_move = move_to_jar(&bench.pi, 2);
    assert_eq!(drive(&mut bench, second_move), MoveResult::HitEStop);
    assert_eq!(bench.state, PAUSED);
    assert!(!bench.red);
    assert_eq!(bench.pi.stepper_x.pos, Some(4444 + 10_000));
    assert_eq!(bench.x, 4444 + 10_000);

    let inputs = read(&mut bench);
    let output = run.moved(&mut bench.pi, MoveResult::HitEStop, inputs);
    carry_out(&mut bench, &output);
    assert_eq!(output.action, RunAction::Wait { millis: 10 });
    assert!(bench.green && !bench.red);

    // While the run is paused nothing moves.
    for _ in 0..100 {
        bench.clock_us += 10_000;
        let inputs = read(&mut bench);
        let output = run.poll(&mut bench.pi, inputs);
        carry_out(&mut bench, &output);
        assert_eq!(output.action, RunAction::Wait { millis: 10 });
        assert_eq!(bench.state, PAUSED);
    }

    // The green button resumes the run, and the move goes on from where
    // the rack stands.
    bench.button_from_us = Some(bench.clock_us);
    bench.clock_us += 10_000;
    let inputs = read(&mut bench);
    let output = run.poll(&mut bench.pi, inputs);
    carry_out(&mut bench, &output);
    assert_eq!(bench.state, RUNNING);
    assert!(bench.red && !bench.green);
    bench.button_from_us = None;

    bench.commands.clear();
    bench.clock_us += 10_000;
    let inputs = read(&mut bench);
    let asks = run.poll(&mut bench.pi, inputs);
    assert_eq!(asks.action, RunAction::MoveToJar { jar_number: 2 });
    let third_move = move_to_jar(&bench.pi, 2);
    assert_eq!(drive(&mut bench, third_move), MoveResult::MovedFullDistance);
    assert_eq!(
        bench.commands,
        vec![
            MoveCommand {
                axis: AxisDirection::Z,
                forward: false,
                pulses: 0,
                is_homing: false,
                skip_soft_estop_check: false,
            },
            MoveCommand {
                axis: AxisDirection::X,
                forward: true,
                pulses: 28571 - 4444 - 10_000,
                is_homing: false,
                skip_soft_estop_check: false,
            },
            MoveCommand {
                axis: AxisDirection::Z,
                forward: false,
                pulses: 44444,
                is_homing: false,
                skip_soft_estop_check: false,
            },
        ]
    );
    assert_eq!(bench.x, 28571);
}
