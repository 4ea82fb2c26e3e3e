use brew_engine::dynamics::{evaluate, Dynamics, InputType, InterpolationType, Point};

fn pts(v: &[(i64, i64)]) -> Vec<Point> {
    v.iter().map(|&(x, y)| Point { x, y }).collect()
}

#[test]
fn single_point_curve_is_constant() {
    let p = pts(&[(50, 73)]);
    assert_eq!(evaluate(&p, -1000), 73);
    assert_eq!(evaluate(&p, 0), 73);
    assert_eq!(evaluate(&p, 50), 73);
    assert_eq!(evaluate(&p, 51), 73);
    assert_eq!(evaluate(&p, 1_000_000), 73);
}

#[test]
fn clamps_before_first_point() {
    let p = pts(&[(10, 100), (20, 50), (30, 40)]);
    assert_eq!(evaluate(&p, 9), 100);
    assert_eq!(evaluate(&p, 10), 100);
    assert_eq!(evaluate(&p, -5), 100);
}

#[test]
fn clamps_after_last_point() {
    let p = pts(&[(10, 100), (20, 50), (30, 40)]);
    assert_eq!(evaluate(&p, 30), 40);
    assert_eq!(evaluate(&p, 31), 40);
    assert_eq!(evaluate(&p, 10_000), 40);
}

#[test]
fn linear_exactness() {
    // points (0,100),(10,50): halfway gives exactly 75
    let p = pts(&[(0, 100), (10, 50)]);
    assert_eq!(evaluate(&p, 5), 75);
}

#[test]
fn interpolates_each_segment() {
    let p = pts(&[(0, 100), (10, 50), (20, 40)]);
    assert_eq!(evaluate(&p, 5), 75); // first segment, descending
    assert_eq!(evaluate(&p, 12), 48); // second segment: 50 - 10*2/10
    assert_eq!(evaluate(&p, 10), 50); // exact hit on an interior point
}

#[test]
fn interpolates_ascending_segment() {
    let p = pts(&[(0, 10), (100, 60)]);
    assert_eq!(evaluate(&p, 40), 30); // 10 + 50*40/100
    assert_eq!(evaluate(&p, 100), 60);
}

#[test]
fn rounds_toward_lower_indexed_point() {
    // 0 + 1*(1)/3 rounds down to 0; descending twin rounds toward 10
    let up = pts(&[(0, 0), (3, 1)]);
    assert_eq!(evaluate(&up, 1), 0);
    let down = pts(&[(0, 10), (3, 9)]);
    assert_eq!(evaluate(&down, 1), 10);
}

#[test]
fn dynamics_accessors_and_sampling() {
    let d = Dynamics::new(
        InputType::PistonPosition,
        InterpolationType::Linear,
        pts(&[(0, 1000), (100, 500), (200, 400)]),
    );
    assert_eq!(d.input_type(), InputType::PistonPosition);
    assert_eq!(d.points().len(), 3);
    assert_eq!(d.run_interpolation(50), 750);
    assert_eq!(d.run_interpolation(0), 1000);
    assert_eq!(d.run_interpolation(500), 400);
}
