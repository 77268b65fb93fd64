use slide_stainer::composite::{
    home, move_to_down_position, move_to_jar, move_to_left_position, move_to_pos,
    move_to_up_position, HomeStage, JarStage, MoveCommand, Pending, PosPlan, PosStage, Step,
    HOME_X_PULSES, HOME_Z_PULSES,
};
use slide_stainer::motion::{move_steps, LimitSwitch, PulseAction};
use slide_stainer::structs_and_consts::{
    AxisDirection, MoveResult, Pi, ProcedureExecutionStateEnum, Stepper,
};

fn machine(x: Option<u64>, z: Option<u64>) -> Pi {
    Pi {
        stepper_x: Stepper {
            ena: false,
            dir: false,
            limit_switch_low: true,
            limit_switch_high: false,
            pos: x,
            position_limit: 10_000_000,
            pulses_per_revolution: 800,
            travel_distance_per_turn: 63_000,
        },
        stepper_z: Stepper {
            ena: false,
            dir: false,
            limit_switch_low: false,
            limit_switch_high: true,
            pos: z,
            position_limit: 3_750_000,
            pulses_per_revolution: 800,
            travel_distance_per_turn: 63_000,
        },
        real_time: false,
        current_procedure: None,
        run_status: None,
    }
}

/// The rack as it really stands, in pulses, with a switch at the low end of
/// the x-axis and one at the high end of the z-axis; the emergency stop is
/// pressed once `estop_in` pulses were sent.
struct Rack {
    x: i64,
    z: i64,
    estop_in: Option<u64>,
    commands: Vec<MoveCommand>,
    paused: bool,
}

const Z_TOP: i64 = 47619;

fn rack(x: i64, z: i64) -> Rack {
    Rack { x, z, estop_in: None, commands: Vec::new(), paused: false }
}

fn run_command(pi: &mut Pi, rack: &mut Rack, command: &MoveCommand) -> MoveResult {
    rack.commands.push(*command);
    let started = move_steps(
        &mut *pi,
        command.axis,
        command.forward,
        command.pulses,
        command.is_homing,
        command.skip_soft_estop_check,
    );
    let mut train = match started {
        Ok(train) => train,
        Err(result) => return result,
    };
    while !train.is_done() {
        let limit_switch: bool = match train.watched {
            Some(LimitSwitch::Low) => rack.x <= 0,
            Some(LimitSwitch::High) => rack.z >= Z_TOP,
            None => false,
        };
        let estop: bool = rack.estop_in == Some(0);
        match train.next_pulse(limit_switch, estop, Some(ProcedureExecutionStateEnum::Running)) {
            PulseAction::Pulse { .. } => {
                let by: i64 = if command.forward { 1 } else { -1 };
                match command.axis {
                    AxisDirection::X => rack.x += by,
                    AxisDirection::Z => rack.z += by,
                }
                rack.estop_in = rack.estop_in.map(|left| left - 1);
            }
            PulseAction::Stop { pause_procedure } => {
                rack.paused = pause_procedure;
                if estop {
                    rack.estop_in = None;
                }
            }
        }
    }
    train.finish(pi)
}

fn drive(pi: &mut Pi, rack: &mut Rack, first: Step) -> MoveResult {
    let mut step = first;
    loop {
        match step {
            Step::Done(result) => return result,
            Step::Run { command, pending } => {
                let result = run_command(pi, rack, &command);
                step = pending.resume(pi, result);
            }
        }
    }
}

fn homing_z() -> MoveCommand {
    MoveCommand {
        axis: AxisDirection::Z,
        forward: true,
        pulses: HOME_Z_PULSES,
        is_homing: true,
        skip_soft_estop_check: false,
    }
}

fn homing_x() -> MoveCommand {
    MoveCommand {
        axis: AxisDirection::X,
        forward: false,
        pulses: HOME_X_PULSES,
        is_homing: true,
        skip_soft_estop_check: false,
    }
}

fn to(axis: AxisDirection, forward: bool, pulses: u64) -> MoveCommand {
    MoveCommand { axis, forward, pulses, is_homing: false, skip_soft_estop_check: false }
}

#[test]
fn homing_constants() {
    assert_eq!(HOME_Z_PULSES, 160_000);
    assert_eq!(HOME_X_PULSES, 320_000);
}

#[test]
fn homing_finds_both_switches_and_goes_up_and_left() {
    let mut pi = machine(None, None);
    let mut rack = rack(9000, 1200);
    assert_eq!(drive(&mut pi, &mut rack, home()), MoveResult::HitLimitSwitch);
    assert_eq!(pi.stepper_z.pos, Some(44444));
    assert_eq!(pi.stepper_x.pos, Some(4444));
    assert_eq!((rack.x, rack.z), (4444, 44444));
    assert_eq!(
        rack.commands,
        vec![
            homing_z(),
            homing_x(),
            to(AxisDirection::Z, false, 47619 - 44444),
            to(AxisDirection::X, true, 4444),
        ]
    );
}

#[test]
fn homing_fails_when_the_first_axis_is_stopped() {
    let mut pi = machine(None, None);
    let mut rack = rack(9000, 1200);
    rack.estop_in = Some(500);
    assert_eq!(drive(&mut pi, &mut rack, home()), MoveResult::FailedToHome);
    assert_eq!(rack.commands, vec![homing_z()]);
    assert_eq!(pi.stepper_z.pos, None);
    assert_eq!(pi.stepper_x.pos, None);
    assert!(rack.paused);
}

#[test]
fn homing_fails_when_the_second_axis_is_stopped() {
    let mut pi = machine(None, None);
    let mut rack = rack(9000, 47000);
    rack.estop_in = Some(700);
    assert_eq!(drive(&mut pi, &mut rack, home()), MoveResult::FailedToHome);
    assert_eq!(rack.commands, vec![homing_z(), homing_x()]);
    assert_eq!(pi.stepper_z.pos, Some(47619));
    assert_eq!(pi.stepper_x.pos, None);
}

#[test]
fn homing_fails_when_a_switch_is_not_found() {
    let mut pi = machine(None, None);
    // The z-axis stands further from its switch than the homing move is long.
    let mut rack = rack(10, Z_TOP - 200_000);
    assert_eq!(drive(&mut pi, &mut rack, home()), MoveResult::FailedToHome);
    assert_eq!(rack.commands, vec![homing_z()]);
    assert_eq!(pi.stepper_z.pos, None);
}

#[test]
fn homing_steps_one_by_one() {
    let pi = machine(None, None);
    let first = home();
    assert_eq!(
        first,
        Step::Run { command: homing_z(), pending: Pending::Home(HomeStage::SeekingZ) }
    );
    let seeking_z = Pending::Home(HomeStage::SeekingZ);
    assert_eq!(seeking_z.resume(&pi, MoveResult::HitEStop), Step::Done(MoveResult::FailedToHome));
    assert_eq!(seeking_z.resume(&pi, MoveResult::FailedToHome), Step::Done(MoveResult::FailedToHome));
    assert_eq!(
        seeking_z.resume(&pi, MoveResult::HitLimitSwitch),
        Step::Run {
            command: homing_x(),
            pending: Pending::Home(HomeStage::SeekingX { first: MoveResult::HitLimitSwitch }),
        }
    );
    let seeking_x = Pending::Home(HomeStage::SeekingX { first: MoveResult::HitLimitSwitch });
    assert_eq!(seeking_x.resume(&pi, MoveResult::FailedToHome), Step::Done(MoveResult::FailedToHome));
    let homed = machine(Some(0), Some(47619));
    assert_eq!(
        seeking_x.resume(&homed, MoveResult::HitLimitSwitch),
        Step::Run {
            command: to(AxisDirection::Z, false, 3175),
            pending: Pending::Home(HomeStage::Raising { second: MoveResult::HitLimitSwitch }),
        }
    );
    let raising = Pending::Home(HomeStage::Raising { second: MoveResult::HitLimitSwitch });
    assert_eq!(
        raising.resume(&homed, MoveResult::HitEStop),
        Step::Run {
            command: to(AxisDirection::X, true, 4444),
            pending: Pending::Home(HomeStage::MovingLeft { second: MoveResult::HitLimitSwitch }),
        }
    );
    let left = Pending::Home(HomeStage::MovingLeft { second: MoveResult::HitLimitSwitch });
    assert_eq!(left.resume(&homed, MoveResult::HitEStop), Step::Done(MoveResult::HitLimitSwitch));
}

#[test]
fn move_to_pos_homes_an_unhomed_machine_first() {
    let mut pi = machine(None, None);
    let mut rack = rack(3000, 20000);
    let first = move_to_pos(&pi, AxisDirection::X, 2_000_000, false);
    assert_eq!(drive(&mut pi, &mut rack, first), MoveResult::MovedFullDistance);
    assert_eq!(pi.stepper_x.pos, Some(25396));
    assert_eq!(pi.stepper_z.pos, Some(44444));
    assert_eq!(
        rack.commands,
        vec![
            homing_z(),
            homing_x(),
            to(AxisDirection::Z, false, 3175),
            to(AxisDirection::X, true, 4444),
            to(AxisDirection::X, true, 25396 - 4444),
        ]
    );
    assert_eq!(rack.x, 25396);
}

#[test]
fn move_to_pos_fails_when_homing_fails() {
    let mut pi = machine(None, None);
    let mut rack = rack(3000, 20000);
    rack.estop_in = Some(100);
    let first = move_to_pos(&pi, AxisDirection::X, 2_000_000, false);
    assert_eq!(drive(&mut pi, &mut rack, first), MoveResult::FailedDueToNotHomed);
    assert_eq!(rack.commands, vec![homing_z()]);
}

#[test]
fn move_to_pos_of_a_homed_axis() {
    let mut pi = machine(Some(25396), Some(44444));
    let mut rack = rack(25396, 44444);
    let back = move_to_pos(&pi, AxisDirection::X, 350_000, true);
    assert_eq!(
        back,
        Step::Run {
            command: MoveCommand {
                axis: AxisDirection::X,
                forward: false,
                pulses: 25396 - 4444,
                is_homing: false,
                skip_soft_estop_check: true,
            },
            pending: Pending::Pos(PosPlan {
                axis: AxisDirection::X,
                inches: 350_000,
                skip_soft_estop_check: true,
                stage: PosStage::Moving,
            }),
        }
    );
    assert_eq!(drive(&mut pi, &mut rack, back), MoveResult::MovedFullDistance);
    assert_eq!(pi.stepper_x.pos, Some(4444));
    let stay = move_to_pos(&pi, AxisDirection::X, 350_000, false);
    assert_eq!(drive(&mut pi, &mut rack, stay), MoveResult::MovedFullDistance);
    assert_eq!(rack.commands[1], to(AxisDirection::X, false, 0));
    assert_eq!(pi.stepper_x.pos, Some(4444));
}

#[test]
fn move_to_pos_below_zero_goes_to_zero() {
    let mut pi = machine(Some(50), Some(44444));
    let mut rack = rack(50, 44444);
    let first = move_to_pos(&pi, AxisDirection::X, -1_000_000, false);
    assert_eq!(drive(&mut pi, &mut rack, first), MoveResult::MovedFullDistance);
    assert_eq!(pi.stepper_x.pos, Some(0));
}

#[test]
fn move_to_pos_is_stopped_by_the_emergency_stop() {
    let mut pi = machine(Some(0), Some(44444));
    let mut rack = rack(0, 44444);
    rack.estop_in = Some(1000);
    let first = move_to_pos(&pi, AxisDirection::X, 2_000_000, false);
    assert_eq!(drive(&mut pi, &mut rack, first), MoveResult::HitEStop);
    assert_eq!(pi.stepper_x.pos, Some(1000));
    assert!(rack.paused);
}

#[test]
fn named_positions() {
    let pi = machine(Some(0), Some(0));
    assert_eq!(move_to_up_position(&pi, true), move_to_pos(&pi, AxisDirection::Z, 3_500_000, true));
    assert_eq!(move_to_up_position(&pi, false), move_to_pos(&pi, AxisDirection::Z, 3_500_000, false));
    assert_eq!(move_to_down_position(&pi, true), move_to_pos(&pi, AxisDirection::Z, 0, true));
    assert_eq!(move_to_left_position(&pi), move_to_pos(&pi, AxisDirection::X, 350_000, false));
    match move_to_up_position(&pi, false) {
        Step::Run { command, .. } => assert_eq!(command, to(AxisDirection::Z, true, 44444)),
        Step::Done(result) => panic!("nothing to run, but {:?}", result),
    }
}

#[test]
fn move_to_jar_raises_travels_and_lowers() {
    let mut pi = machine(Some(4444), Some(0));
    let mut rack = rack(4444, 0);
    let first = move_to_jar(&pi, 3);
    assert_eq!(drive(&mut pi, &mut rack, first), MoveResult::MovedFullDistance);
    // Jar 3 stands at 4.15 inches, which is 52698 pulses.
    assert_eq!(pi.stepper_x.pos, Some(52698));
    assert_eq!(pi.stepper_z.pos, Some(0));
    assert_eq!(
        rack.commands,
        vec![
            to(AxisDirection::Z, true, 44444),
            to(AxisDirection::X, true, 52698 - 4444),
            to(AxisDirection::Z, false, 44444),
        ]
    );
}

#[test]
fn second_move_to_the_same_jar_only_lowers() {
    let mut pi = machine(Some(0), Some(44444));
    let mut rack = rack(0, 44444);
    for jar_number in [1, 2, 6] {
        let first = move_to_jar(&pi, jar_number);
        assert_eq!(drive(&mut pi, &mut rack, first), MoveResult::MovedFullDistance);
        let x_before = pi.stepper_x;
        rack.commands.clear();
        let again = move_to_jar(&pi, jar_number);
        match again {
            Step::Run { pending: Pending::Jar { stage, .. }, .. } => assert_eq!(stage, JarStage::Lowering),
            other => panic!("the move starts with {:?}", other),
        }
        assert_eq!(drive(&mut pi, &mut rack, again), MoveResult::MovedFullDistance);
        assert_eq!(rack.commands, vec![to(AxisDirection::Z, false, 0)]);
        assert_eq!(pi.stepper_x, x_before);
    }
}

#[test]
fn move_to_jar_ends_where_a_part_is_stopped() {
    let mut pi = machine(Some(4444), Some(0));
    let mut rack = rack(4444, 0);
    rack.estop_in = Some(100);
    let first = move_to_jar(&pi, 2);
    assert_eq!(drive(&mut pi, &mut rack, first), MoveResult::HitEStop);
    assert_eq!(rack.commands, vec![to(AxisDirection::Z, true, 44444)]);
    assert_eq!(pi.stepper_z.pos, Some(100));

    let mut rack = rack_at(&pi);
    rack.estop_in = Some(44344 + 10);
    let retry = move_to_jar(&pi, 2);
    assert_eq!(drive(&mut pi, &mut rack, retry), MoveResult::HitEStop);
    assert_eq!(
        rack.commands,
        vec![to(AxisDirection::Z, true, 44344), to(AxisDirection::X, true, 28571 - 4444)]
    );
    assert_eq!(pi.stepper_x.pos, Some(4454));
    assert_eq!(pi.stepper_z.pos, Some(44444));
}

fn rack_at(pi: &Pi) -> Rack {
    rack(pi.stepper_x.pos.unwrap_or(0) as i64, pi.stepper_z.pos.unwrap_or(0) as i64)
}

#[test]
fn move_to_jar_ends_at_a_limit_switch() {
    // The rack stands lower on the x-axis than the machine believes.
    let mut pi = machine(Some(30000), Some(44444));
    let mut rack = rack(100, 44444);
    let first = move_to_jar(&pi, 1);
    assert_eq!(drive(&mut pi, &mut rack, first), MoveResult::HitLimitSwitch);
    assert_eq!(pi.stepper_x.pos, Some(0));
    assert_eq!(
        rack.commands,
        vec![to(AxisDirection::Z, false, 0), to(AxisDirection::X, false, 30000 - 4444)]
    );
}

#[test]
fn move_to_jar_homes_an_unhomed_machine() {
    let mut pi = machine(None, None);
    let mut rack = rack(700, 800);
    let first = move_to_jar(&pi, 2);
    assert_eq!(drive(&mut pi, &mut rack, first), MoveResult::MovedFullDistance);
    assert_eq!(pi.stepper_x.pos, Some(28571));
    assert_eq!(pi.stepper_z.pos, Some(0));
    assert_eq!(rack.commands.len(), 7);
    assert_eq!(rack.commands[4], to(AxisDirection::Z, false, 0));
    assert_eq!(rack.commands[5], to(AxisDirection::X, true, 28571 - 4444));
    assert_eq!(rack.commands[6], to(AxisDirection::Z, false, 44444));
}

#[test]
fn move_to_jar_fails_when_homing_fails() {
    let mut pi = machine(None, None);
    let mut rack = rack(700, 800);
    rack.estop_in = Some(5);
    let first = move_to_jar(&pi, 2);
    assert_eq!(drive(&mut pi, &mut rack, first), MoveResult::FailedDueToNotHomed);
    assert_eq!(rack.commands, vec![homing_z()]);
}

#[test]
fn lowering_at_a_jar_homes_a_machine_whose_z_axis_is_not_homed() {
    // The rack stands at the second jar, and nothing is known of the z-axis.
    let mut pi = machine(Some(28571), None);
    let mut rack = rack(28571, 3000);
    let first = move_to_jar(&pi, 2);
    assert_eq!(drive(&mut pi, &mut rack, first), MoveResult::MovedFullDistance);
    // Homing has taken the rack to the left position, over the first jar.
    assert_eq!(rack.commands[0], homing_z());
    assert_eq!(rack.commands[1], homing_x());
    assert_eq!(pi.stepper_x.pos, Some(4444));
    assert_eq!(pi.stepper_z.pos, Some(0));
    assert_eq!(rack.commands.len(), 5);
}
