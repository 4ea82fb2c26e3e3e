use brew_engine::dynamics::{ControlType, Dynamics, InputType, InterpolationType, Point};
use brew_engine::profile::{Profile, ProfileError, Stage, StageLog, StageVariables, TimeStamp};

fn one_stage() -> Stage {
    Stage::new(
        ControlType::Flow,
        Dynamics::new(
            InputType::Time,
            InterpolationType::Linear,
            vec![Point { x: 0, y: 85 }],
        ),
        Vec::new(),
        Vec::new(),
    )
}

#[test]
fn profile_accessors_and_fresh_logs() {
    let profile = Profile::new(925, 800, true, false, vec![one_stage(), one_stage()]);
    assert_eq!(profile.get_starting_temp(), 925);
    assert_eq!(profile.get_target_weight(), 800);
    assert!(profile.wait_after_heating());
    assert!(!profile.auto_purge());
    assert_eq!(profile.get_stages().len(), 2);
    let logs = profile.get_stage_logs();
    assert_eq!(logs.len(), 2);
    for log in logs.iter() {
        assert!(!log.is_valid());
        assert!(log.get_entry().is_none());
        assert!(log.get_exit().is_none());
    }
}

#[test]
fn stage_accessors() {
    let stage = one_stage();
    assert_eq!(stage.ctrl(), ControlType::Flow);
    assert_eq!(stage.dynamics().input_type(), InputType::Time);
    assert!(stage.exit_triggers().is_empty());
    assert!(stage.limits().is_empty());
}

#[test]
fn stage_log_records_entry_and_exit() {
    let mut log = StageLog::default();
    assert!(!log.is_valid());

    let entry = StageVariables::new(85, 41, 500, TimeStamp(11_000));
    assert!(log.put_entry_log(entry).is_none());
    assert!(log.is_valid());
    let got = log.get_entry().unwrap();
    assert_eq!(*got.get_timestamp(), TimeStamp(11_000));
    assert_eq!(got.flow, 85);
    assert_eq!(got.pressure, 41);
    assert_eq!(got.piston_pos, 500);

    let exit = StageVariables::new(60, 39, 700, TimeStamp(13_500));
    assert!(log.put_exit_log(exit).is_none());
    assert_eq!(*log.get_exit().unwrap().get_timestamp(), TimeStamp(13_500));

    // a second write hands the first snapshot back
    let prev = log.put_entry_log(StageVariables::new(0, 0, 0, TimeStamp(20_000)));
    assert_eq!(*prev.unwrap().get_timestamp(), TimeStamp(11_000));
}

#[test]
fn control_type_percentage_split() {
    assert!(ControlType::Power.is_percentage());
    assert!(ControlType::PistonPosition.is_percentage());
    assert!(!ControlType::Pressure.is_percentage());
    assert!(!ControlType::Flow.is_percentage());
}

#[test]
fn profile_error_constructors() {
    match ProfileError::no_name("temperature") {
        ProfileError::Name(s) => assert_eq!(s, "temperature"),
        other => panic!("wrong variant: {:?}", other),
    }
    match ProfileError::unexpected_type("string") {
        ProfileError::Type(s) => assert_eq!(s, "string"),
        other => panic!("wrong variant: {:?}", other),
    }
}
