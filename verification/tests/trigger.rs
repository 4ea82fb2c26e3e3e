use brew_engine::exit_trigger::{
    scan_triggers, ExitComparison, ExitTrigger, ExitType, ScanOutcome, TriggerError,
    TRIGGER_VALUE_MAX,
};
use brew_engine::sensor::SensorSnapshot;

fn all_types() -> Vec<ExitType> {
    vec![
        ExitType::Pressure,
        ExitType::Flow,
        ExitType::TimeRelative,
        ExitType::TimeAbsolute,
        ExitType::Weight,
        ExitType::PistonPosition,
        ExitType::Power,
        ExitType::Temperature,
        ExitType::Button,
    ]
}

fn all_comps() -> Vec<ExitComparison> {
    vec![
        ExitComparison::Smaller,
        ExitComparison::SmallerStrict,
        ExitComparison::Greater,
        ExitComparison::GreaterStrict,
    ]
}

fn snapshot() -> SensorSnapshot {
    SensorSnapshot {
        piston_position: 0,
        water_flow: 0,
        water_pressure: 0,
        weight: 0,
        stable_temperature: 0,
        button_gesture: false,
    }
}

#[test]
fn round_trip_all_legal_combinations() {
    let targets: Vec<Option<u8>> = vec![None, Some(1), Some(7), Some(255)];
    let values: Vec<u32> = vec![0, 1, 2, 1000, TRIGGER_VALUE_MAX];
    for &ty in all_types().iter() {
        for &comp in all_comps().iter() {
            for &target in targets.iter() {
                for &value in values.iter() {
                    let t = ExitTrigger::new(ty, comp, target, value);
                    assert_eq!(t.exit_type(), ty);
                    assert_eq!(t.exit_comp(), comp);
                    assert_eq!(t.target_stage(), target);
                    assert_eq!(t.value(), value);
                }
            }
        }
    }
}

#[test]
fn try_new_checks_the_bit_width() {
    assert!(ExitTrigger::try_new(
        ExitType::Pressure,
        ExitComparison::Greater,
        None,
        TRIGGER_VALUE_MAX + 1,
    )
    .is_none());
    let t = ExitTrigger::try_new(
        ExitType::Pressure,
        ExitComparison::Greater,
        None,
        TRIGGER_VALUE_MAX,
    )
    .unwrap();
    assert_eq!(t.value(), TRIGGER_VALUE_MAX);
}

#[test]
fn target_stage_zero_means_none() {
    let t = ExitTrigger::new(ExitType::Flow, ExitComparison::Smaller, Some(0), 5);
    assert_eq!(t.target_stage(), None);
}

#[test]
fn comparison_boundary_at_equality() {
    // measured == threshold: inclusive comparisons hold, strict ones do not
    assert!(ExitComparison::Smaller.comp(42, 42));
    assert!(!ExitComparison::SmallerStrict.comp(42, 42));
    assert!(ExitComparison::Greater.comp(42, 42));
    assert!(!ExitComparison::GreaterStrict.comp(42, 42));
}

#[test]
fn check_cond_at_equality_through_the_codec() {
    // threshold 4 whole units against a measured 40 tenths
    let mut snap = snapshot();
    snap.water_pressure = 40;
    for (comp, expect) in [
        (ExitComparison::Smaller, true),
        (ExitComparison::SmallerStrict, false),
        (ExitComparison::Greater, true),
        (ExitComparison::GreaterStrict, false),
    ] {
        let t = ExitTrigger::new(ExitType::Pressure, comp, None, 4);
        assert_eq!(t.check_cond(&snap, 0, 0), Ok(expect));
    }
}

#[test]
fn check_cond_reads_each_sensor() {
    let mut snap = snapshot();
    snap.water_pressure = 41;
    snap.water_flow = 85;
    snap.weight = 799;
    snap.piston_position = 500;
    snap.stable_temperature = 925;

    let p = ExitTrigger::new(ExitType::Pressure, ExitComparison::Greater, None, 4);
    assert_eq!(p.check_cond(&snap, 0, 0), Ok(true)); // 41 >= 40

    let f = ExitTrigger::new(ExitType::Flow, ExitComparison::GreaterStrict, None, 9);
    assert_eq!(f.check_cond(&snap, 0, 0), Ok(false)); // 85 > 90 fails

    let w = ExitTrigger::new(ExitType::Weight, ExitComparison::Greater, None, 80);
    assert_eq!(w.check_cond(&snap, 0, 0), Ok(false)); // 799 >= 800 fails

    let pp = ExitTrigger::new(ExitType::PistonPosition, ExitComparison::Smaller, None, 50);
    assert_eq!(pp.check_cond(&snap, 0, 0), Ok(true)); // 500 <= 500

    let temp = ExitTrigger::new(ExitType::Temperature, ExitComparison::Greater, None, 92);
    assert_eq!(temp.check_cond(&snap, 0, 0), Ok(true)); // 925 >= 920
}

#[test]
fn check_cond_time_variants_use_their_elapsed() {
    let snap = snapshot();
    let rel = ExitTrigger::new(ExitType::TimeRelative, ExitComparison::Greater, None, 2);
    assert_eq!(rel.check_cond(&snap, 20, 5), Ok(true)); // stage elapsed 2.0 s
    assert_eq!(rel.check_cond(&snap, 19, 100), Ok(false));
    let abs = ExitTrigger::new(ExitType::TimeAbsolute, ExitComparison::Greater, None, 3);
    assert_eq!(abs.check_cond(&snap, 100, 30), Ok(true)); // profile elapsed 3.0 s
    assert_eq!(abs.check_cond(&snap, 100, 29), Ok(false));
}

#[test]
fn check_cond_button_sentinel() {
    let mut snap = snapshot();
    let greater = ExitTrigger::new(ExitType::Button, ExitComparison::Greater, None, 1);
    let smaller = ExitTrigger::new(ExitType::Button, ExitComparison::Smaller, None, 1);
    snap.button_gesture = true;
    assert_eq!(greater.check_cond(&snap, 0, 0), Ok(true));
    assert_eq!(smaller.check_cond(&snap, 0, 0), Ok(false));
    snap.button_gesture = false;
    assert_eq!(greater.check_cond(&snap, 0, 0), Ok(false));
    assert_eq!(smaller.check_cond(&snap, 0, 0), Ok(true));
}

#[test]
fn check_cond_power_is_unimplemented() {
    let t = ExitTrigger::new(ExitType::Power, ExitComparison::Greater, None, 1);
    assert_eq!(
        t.check_cond(&snapshot(), 0, 0),
        Err(TriggerError::UnimplementedExitType)
    );
}

#[test]
fn scan_is_first_match_wins() {
    let mut snap = snapshot();
    snap.water_flow = 25;
    let ts = vec![
        ExitTrigger::new(ExitType::Pressure, ExitComparison::Greater, None, 4), // 0 >= 40: no
        ExitTrigger::new(ExitType::Flow, ExitComparison::Greater, None, 2),     // 25 >= 20: fires
        ExitTrigger::new(ExitType::Flow, ExitComparison::Greater, None, 1),     // would fire too
    ];
    assert_eq!(scan_triggers(&ts, &snap, 0, 0), ScanOutcome::Fired(1));
}

#[test]
fn scan_reports_unimplemented_and_no_match() {
    let snap = snapshot();
    let with_power = vec![
        ExitTrigger::new(ExitType::Pressure, ExitComparison::Greater, None, 4),
        ExitTrigger::new(ExitType::Power, ExitComparison::Greater, None, 1),
        ExitTrigger::new(ExitType::Flow, ExitComparison::Smaller, None, 9),
    ];
    assert_eq!(
        scan_triggers(&with_power, &snap, 0, 0),
        ScanOutcome::Unimplemented
    );
    let none = vec![
        ExitTrigger::new(ExitType::Pressure, ExitComparison::Greater, None, 4),
        ExitTrigger::new(ExitType::Weight, ExitComparison::GreaterStrict, None, 1),
    ];
    assert_eq!(scan_triggers(&none, &snap, 0, 0), ScanOutcome::NoMatch);
    assert_eq!(scan_triggers(&Vec::new(), &snap, 0, 0), ScanOutcome::NoMatch);
}
