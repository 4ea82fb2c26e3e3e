//! Control curves and their evaluator.
//!
//! A stage drives one physical quantity (its [`ControlType`]) along a
//! piecewise-linear curve whose x-axis is selected by [`InputType`]. The
//! evaluator clamps before the first and after the last point and
//! interpolates linearly in between.

use vstd::arithmetic::div_mod::{lemma_div_is_ordered, lemma_div_multiples_vanish,
    lemma_div_pos_is_pos};
use vstd::arithmetic::mul::{lemma_mul_inequality, lemma_mul_upper_bound};
use vstd::prelude::*;

verus! {

/// The physical quantity a stage drives: which setpoint the sampled curve
/// output is written to.
#[derive(Clone, Copy, Debug, PartialEq, Eq, Structural)]
pub enum ControlType {
    Pressure,
    Flow,
    Power,
    PistonPosition,
}

impl ControlType {
    /// Whether the curve's y values are percentages (power and piston
    /// position) rather than physical units (bar, ml/s).
    pub fn is_percentage(&self) -> (r: bool)
        ensures
            r == (*self == ControlType::Power || *self == ControlType::PistonPosition),
    {
        match self {
            ControlType::Power | ControlType::PistonPosition => true,
            _ => false,
        }
    }
}

/// The x-axis of a stage's curve: what the progress input is read from.
#[derive(Clone, Copy, Debug, PartialEq, Eq, Structural)]
pub enum InputType {
    /// Elapsed profile time, in tenths of a second.
    Time,
    /// Measured piston position, in tenths of a percent.
    PistonPosition,
    /// Measured weight, in tenths of a gram.
    Weight,
}

/// The interpolation strategy between curve points: a closed, enumerable set
/// so that further strategies can be added without touching the engine.
#[derive(Clone, Copy, Debug, PartialEq, Eq, Structural)]
pub enum InterpolationType {
    Linear,
}

/// One point of a control curve. `x` is a progress value on the stage's input
/// axis, `y` the setpoint output, both in tenths of their unit.
#[derive(Clone, Copy, Debug, PartialEq, Eq, Structural)]
pub struct Point {
    pub x: i64,
    pub y: i64,
}

/// A safety ceiling applied unconditionally on every Brewing tick,
/// independent of the computed setpoint. Values in tenths of a unit.
#[derive(Clone, Copy, Debug, PartialEq, Eq, Structural)]
pub enum Limit {
    /// Pressure ceiling, tenths of a bar.
    Pressure(i64),
    /// Flow ceiling, tenths of a ml/s.
    Flow(i64),
}

/// Linear interpolation on the segment from `p0` to `p1`, evaluated at
/// `input`, with the quotient rounded toward `p0.y`. Meaningful when
/// `p0.x < input <= p1.x`; the result then lies between `p0.y` and `p1.y`.
pub open spec fn interp_at(p0: Point, p1: Point, input: int) -> int {
    if p1.y >= p0.y {
        p0.y + ((p1.y - p0.y) * (input - p0.x)) / (p1.x - p0.x)
    } else {
        p0.y - ((p0.y - p1.y) * (input - p0.x)) / (p1.x - p0.x)
    }
}

/// The interior of the evaluation: starting at segment `i`, find the first
/// point whose x is at or after `input` and interpolate between it and its
/// predecessor; the last segment catches everything else. Meaningful when
/// `points[i].x < input < points[points.len() - 1].x`.
pub open spec fn eval_from(points: Seq<Point>, input: int, i: int) -> int
    decreases points.len() - i,
{
    if i + 2 >= points.len() || input <= points[i + 1].x {
        interp_at(points[i], points[i + 1], input)
    } else {
        eval_from(points, input, i + 1)
    }
}

/// What the curve evaluator returns: the single point's y for a degenerate
/// curve, the first point's y at or before the first point, the last point's
/// y at or after the last point, and the linear interpolation of the
/// enclosing segment otherwise.
pub open spec fn eval_curve(points: Seq<Point>, input: int) -> int
    recommends
        points.len() >= 1,
{
    if points.len() == 1 {
        points[0].y as int
    } else if input <= points[0].x {
        points[0].y as int
    } else if input >= points[points.len() - 1].x {
        points[points.len() - 1].y as int
    } else {
        eval_from(points, input, 0)
    }
}

/// The curve points have non-decreasing x values.
pub open spec fn x_non_decreasing(points: Seq<Point>) -> bool {
    forall|i: int, j: int| 0 <= i <= j < points.len() ==> points[i].x <= points[j].x
}

/// Law: a single-point curve is constant; it evaluates to that point's y for
/// every input.
pub proof fn lemma_single_point_curve(points: Seq<Point>, input: int)
    requires
        points.len() == 1,
    ensures
        eval_curve(points, input) == points[0].y,
{
}

/// Law: at or before the first point of a monotonic curve, the evaluator
/// clamps to the first point's y.
pub proof fn lemma_clamp_before_first(points: Seq<Point>, input: int)
    requires
        points.len() >= 1,
        x_non_decreasing(points),
        input <= points[0].x,
    ensures
        eval_curve(points, input) == points[0].y,
{
}

/// Law: at or after the last point of a monotonic curve, the evaluator
/// clamps to the last point's y. A multi-point curve whose x values are all
/// equal is left out: at that very x the evaluator answers with the first
/// point's y, not the last one's.
pub proof fn lemma_clamp_after_last(points: Seq<Point>, input: int)
    requires
        points.len() >= 1,
        x_non_decreasing(points),
        points.len() > 1 ==> points[0].x < points[points.len() - 1].x,
        input >= points[points.len() - 1].x,
    ensures
        eval_curve(points, input) == points[points.len() - 1].y,
{
}

/// Exact linear interpolation on one segment, carried out on unsigned
/// magnitudes so that no intermediate value can overflow.
fn interp_segment(p0: Point, p1: Point, input: i64) -> (r: i64)
    requires
        p0.x < input <= p1.x,
    ensures
        r == interp_at(p0, p1, input as int),
{
    let dx: u128 = (p1.x as i128 - p0.x as i128) as u128;
    let di: u128 = (input as i128 - p0.x as i128) as u128;
    if p1.y >= p0.y {
        let dy: u128 = (p1.y as i128 - p0.y as i128) as u128;
        proof {
            lemma_mul_upper_bound(dy as int, u64::MAX as int, di as int, u64::MAX as int);
        }
        let q: u128 = (dy * di) / dx;
        proof {
            lemma_div_pos_is_pos((dy * di) as int, dx as int);
            lemma_mul_inequality(di as int, dx as int, dy as int);
            lemma_div_is_ordered((dy * di) as int, (dy * dx) as int, dx as int);
            lemma_div_multiples_vanish(dy as int, dx as int);
            assert(dy * di == di * dy) by (nonlinear_arith);
            assert(dy * dx == dx * dy) by (nonlinear_arith);
            assert(q <= dy);
        }
        (p0.y as i128 + q as i128) as i64
    } else {
        let dy: u128 = (p0.y as i128 - p1.y as i128) as u128;
        proof {
            lemma_mul_upper_bound(dy as int, u64::MAX as int, di as int, u64::MAX as int);
        }
        let q: u128 = (dy * di) / dx;
        proof {
            lemma_div_pos_is_pos((dy * di) as int, dx as int);
            lemma_mul_inequality(di as int, dx as int, dy as int);
            lemma_div_is_ordered((dy * di) as int, (dy * dx) as int, dx as int);
            lemma_div_multiples_vanish(dy as int, dx as int);
            assert(dy * di == di * dy) by (nonlinear_arith);
            assert(dy * dx == dx * dy) by (nonlinear_arith);
            assert(q <= dy);
        }
        (p0.y as i128 - q as i128) as i64
    }
}

/// Evaluate a control curve at `input`: clamp outside the covered range,
/// interpolate linearly on the enclosing segment inside it.
pub fn evaluate(points: &Vec<Point>, input: i64) -> (r: i64)
    requires
        points@.len() >= 1,
    ensures
        r == eval_curve(points@, input as int),
{
    let n = points.len();
    if n == 1 {
        return points[0].y;
    }
    if input <= points[0].x {
        return points[0].y;
    }
    if input >= points[n - 1].x {
        return points[n - 1].y;
    }
    let mut i: usize = 0;
    loop
        invariant
            n == points@.len(),
            2 <= n,
            i + 2 <= n,
            points@[0].x < input,
            points@[i as int].x < input,
            input < points@[n - 1].x,
            eval_from(points@, input as int, 0) == eval_from(points@, input as int, i as int),
        decreases n - i,
    {
        if i + 2 >= n || input <= points[i + 1].x {
            return interp_segment(points[i], points[i + 1], input);
        }
        proof {
            assert(eval_from(points@, input as int, i as int)
                == eval_from(points@, input as int, i + 1));
        }
        i = i + 1;
    }
}

/// A stage's curve: the input axis, the interpolation strategy, and the
/// ordered list of points. A curve holds at least one point; x values are
/// expected non-decreasing but are not defensively enforced here (the
/// profile validator owns that), and the evaluator stays total without it.
#[derive(Clone, Debug)]
pub struct Dynamics {
    pub input_select: InputType,
    pub interpolation: InterpolationType,
    pub points: Vec<Point>,
}

impl Dynamics {
    /// A curve is well-formed when it holds at least one point.
    pub open spec fn wf(&self) -> bool {
        self.points@.len() >= 1
    }

    pub fn new(input_select: InputType, interpolation: InterpolationType, points: Vec<Point>)
        -> (r: Dynamics)
        requires
            points@.len() >= 1,
        ensures
            r.wf(),
            r.input_select == input_select,
            r.interpolation == interpolation,
            r.points@ == points@,
    {
        Dynamics { input_select, interpolation, points }
    }

    pub fn input_type(&self) -> (r: InputType)
        ensures
            r == self.input_select,
    {
        self.input_select
    }

    pub fn points(&self) -> (r: &Vec<Point>)
        ensures
            r@ == self.points@,
    {
        &self.points
    }

    /// Sample the curve at `input` on the stage's input axis.
    pub fn run_interpolation(&self, input: i64) -> (r: i64)
        requires
            self.wf(),
        ensures
            r == eval_curve(self.points@, input as int),
    {
        evaluate(&self.points, input)
    }
}

} // verus!
