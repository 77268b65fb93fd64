use slide_stainer::couchdb::{
    doc_url, increment_run_count, procedures_url, revision_url, SingleViewResultWithIncludeDocs,
    ViewResult,
};
use slide_stainer::graphql::Query;
use slide_stainer::structs_and_consts::{
    AxisDirection, Pi, Procedure, ProcedureInputObject, ProcedureStep,
    ProcedureStepInputObject, Settings, SettingsInputObject, Stepper, COUCHDB_URL, JAR_SPACING,
    JAR_TOLERANCE, LEFT_POSITION, PULSES_PER_REVOLUTION, TRAVEL_DISTANCE_PER_TURN, UP_POSITION,
    X_POSITION_LIMIT, Z_POSITION_LIMIT,
};
use slide_stainer::motion::inches_to_pulses;

fn procedure(runs: Option<i32>) -> Procedure {
    Procedure {
        id: "he-stain".to_string(),
        rev: "3-abc".to_string(),
        type_: "procedure".to_string(),
        name: "H&E".to_string(),
        jar_contents: vec!["water".to_string(), "eosin".to_string()],
        procedure_steps: vec![
            ProcedureStep { substance: "water".to_string(), time_in_seconds: 5, jar_number: 1 },
            ProcedureStep { substance: "eosin".to_string(), time_in_seconds: 3, jar_number: 2 },
        ],
        repeat: Some(2),
        runs,
    }
}

#[test]
fn constants_of_the_machine() {
    assert_eq!(LEFT_POSITION, 350_000);
    assert_eq!(UP_POSITION, 3_500_000);
    assert_eq!(JAR_SPACING, 1_900_000);
    assert_eq!(JAR_TOLERANCE, 100_000);
    assert_eq!(COUCHDB_URL, "http://localhost:5984/slide_stainer");
}

#[test]
fn machine_as_it_is_built() {
    let pi = Pi::new();
    assert!(pi.is_calibrated());
    for stepper in [pi.stepper_x, pi.stepper_z] {
        assert!(!stepper.ena && !stepper.dir);
        assert_eq!(stepper.pos, None);
        assert_eq!(stepper.pulses_per_revolution, 800);
        assert_eq!(stepper.travel_distance_per_turn, 63_000);
    }
    assert!(pi.stepper_x.limit_switch_low && !pi.stepper_x.limit_switch_high);
    assert!(!pi.stepper_z.limit_switch_low && pi.stepper_z.limit_switch_high);
    assert_eq!(pi.stepper_x.position_limit, 10_000_000);
    assert_eq!(pi.stepper_z.position_limit, 3_750_000);
    assert_eq!(
        (X_POSITION_LIMIT, Z_POSITION_LIMIT, PULSES_PER_REVOLUTION, TRAVEL_DISTANCE_PER_TURN),
        (10_000_000, 3_750_000, 800, 63_000)
    );
    assert!(!pi.real_time);
    assert!(pi.current_procedure.is_none());
    assert_eq!(pi.run_status, None);
    // Each axis is shorter than the move that homes it.
    assert_eq!(inches_to_pulses(X_POSITION_LIMIT, &pi.stepper_x), 126_984);
    assert_eq!(inches_to_pulses(Z_POSITION_LIMIT, &pi.stepper_z), 47_619);
}

#[test]
fn step_as_input() {
    let step = ProcedureStep { substance: "xylene".to_string(), time_in_seconds: 90, jar_number: 4 };
    let input = ProcedureStepInputObject::from(step);
    assert_eq!(input.substance, "xylene");
    assert_eq!(input.time_in_seconds, 90);
    assert_eq!(input.jar_number, 4);
}

#[test]
fn procedure_as_input() {
    let input = ProcedureInputObject::from(procedure(Some(7)));
    assert_eq!(input.id, Some("he-stain".to_string()));
    assert_eq!(input.rev, Some("3-abc".to_string()));
    assert_eq!(input.type_, "procedure");
    assert_eq!(input.name, "H&E");
    assert_eq!(input.jar_contents, vec!["water".to_string(), "eosin".to_string()]);
    assert_eq!(input.repeat, Some(2));
    assert_eq!(input.runs, Some(7));
    assert_eq!(input.procedure_steps.len(), 2);
    assert_eq!(input.procedure_steps[0].substance, "water");
    assert_eq!(input.procedure_steps[0].time_in_seconds, 5);
    assert_eq!(input.procedure_steps[0].jar_number, 1);
    assert_eq!(input.procedure_steps[1].substance, "eosin");
    assert_eq!(input.procedure_steps[1].time_in_seconds, 3);
    assert_eq!(input.procedure_steps[1].jar_number, 2);
}

#[test]
fn procedure_without_steps_as_input() {
    let mut empty = procedure(None);
    empty.procedure_steps.clear();
    empty.repeat = None;
    let input = ProcedureInputObject::from(empty);
    assert!(input.procedure_steps.is_empty());
    assert_eq!(input.repeat, None);
    assert_eq!(input.runs, None);
}

#[test]
fn settings_as_input() {
    let settings = Settings { id: "settings".to_string(), rev: "1-x".to_string(), developer: true };
    let input = SettingsInputObject::from(settings);
    assert_eq!(input.id, "settings");
    assert_eq!(input.rev, "1-x");
    assert!(input.developer);
}

#[test]
fn axis_from_its_name() {
    assert_eq!(AxisDirection::from_param("x"), Ok(AxisDirection::X));
    assert_eq!(AxisDirection::from_param("z"), Ok(AxisDirection::Z));
    assert_eq!(AxisDirection::from_param("y"), Err("y"));
    assert_eq!(AxisDirection::from_param(""), Err(""));
    assert_eq!(AxisDirection::from_param("X"), Err("X"));
    assert_eq!(AxisDirection::from_param("xz"), Err("xz"));
    assert_eq!(AxisDirection::from_param("\u{e9}"), Err("\u{e9}"));
}

#[test]
fn axis_to_its_name() {
    assert_eq!(AxisDirection::X.to_string(), "x");
    assert_eq!(AxisDirection::Z.to_string(), "z");
    for axis in [AxisDirection::X, AxisDirection::Z] {
        assert_eq!(AxisDirection::from_param(&axis.to_string()), Ok(axis));
    }
}

#[test]
fn addresses_of_documents() {
    assert_eq!(doc_url("settings"), "http://localhost:5984/slide_stainer/settings");
    assert_eq!(doc_url(""), "http://localhost:5984/slide_stainer/");
    assert_eq!(
        revision_url("he-stain", "3-abc"),
        "http://localhost:5984/slide_stainer/he-stain?rev=3-abc"
    );
    assert_eq!(
        procedures_url(),
        "http://localhost:5984/slide_stainer/_design/procedures/_view/procedures?include_docs=true"
    );
}

#[test]
fn documents_of_a_view() {
    let view = ViewResult {
        total_rows: 3,
        offset: 0,
        rows: vec![
            SingleViewResultWithIncludeDocs { id: "a".to_string(), key: "a".to_string(), doc: 10 },
            SingleViewResultWithIncludeDocs { id: "b".to_string(), key: "b".to_string(), doc: 30 },
            SingleViewResultWithIncludeDocs { id: "c".to_string(), key: "c".to_string(), doc: 20 },
        ],
    };
    assert_eq!(view.into_docs(), vec![10, 30, 20]);
    let none: ViewResult<u8> = ViewResult { total_rows: 0, offset: 0, rows: Vec::new() };
    assert_eq!(none.into_docs(), Vec::<u8>::new());
}

#[test]
fn one_more_run() {
    let mut first = procedure(None);
    increment_run_count(&mut first);
    assert_eq!(first.runs, Some(1));
    let mut later = procedure(Some(41));
    increment_run_count(&mut later);
    assert_eq!(later.runs, Some(42));
    assert_eq!(later.id, "he-stain");
    assert_eq!(later.rev, "3-abc");
    assert_eq!(later.name, "H&E");
    assert_eq!(later.repeat, Some(2));
    assert_eq!(later.procedure_steps.len(), 2);
    assert_eq!(later.jar_contents.len(), 2);
    let mut full = procedure(Some(i32::MAX));
    increment_run_count(&mut full);
    assert_eq!(full.runs, Some(i32::MAX));
    let mut negative = procedure(Some(-1));
    increment_run_count(&mut negative);
    assert_eq!(negative.runs, Some(0));
}

#[test]
fn version_of_the_interface() {
    assert_eq!(Query::apiVersion(), "1.0");
}

#[test]
fn position_of_an_axis() {
    let stepper = Stepper {
        ena: false,
        dir: false,
        limit_switch_low: true,
        limit_switch_high: false,
        pos: Some(4444),
        position_limit: 10_000_000,
        pulses_per_revolution: 800,
        travel_distance_per_turn: 63_000,
    };
    let pi = Pi {
        stepper_x: stepper,
        stepper_z: Stepper { pos: None, ..stepper },
        real_time: false,
        current_procedure: None,
        run_status: None,
    };
    assert_eq!(Query::axis(&pi, AxisDirection::X), Some(349_965));
    assert_eq!(Query::axis(&pi, AxisDirection::Z), None);
    assert_eq!(Query::axis(&pi, AxisDirection::X), Some(349_965));
    assert_eq!(pi.stepper_x.pos, Some(4444));
}
