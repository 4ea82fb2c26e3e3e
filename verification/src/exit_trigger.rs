//! Exit triggers: the condition codec and its evaluator.
//!
//! A trigger is a condition that, when satisfied, ends the current stage and
//! selects the next one. For memory density on the constrained hardware it is
//! packed into one 32-bit word:
//!
//! ```text
//! bits 0..4    condition type
//! bits 4..6    comparison operator
//! bits 6..14   jump-target stage id (0 = none configured)
//! bits 14..32  threshold value, whole units
//! ```
//!
//! The threshold is carried in whole physical units as the profile document
//! gives it; the evaluator scales it by ten to compare against the
//! tenths-of-a-unit sensor readings and elapsed times.

use crate::sensor::SensorSnapshot;
use vstd::prelude::*;

verus! {

/// The largest threshold value the 18 reserved bits can carry. Encoding a
/// larger value is a construction-time contract violation.
pub const TRIGGER_VALUE_MAX: u32 = 0x3FFFF;

/// The measured quantity an exit condition compares against its threshold.
#[derive(Clone, Copy, Debug, PartialEq, Eq, Structural)]
pub enum ExitType {
    Pressure,
    Flow,
    /// Wall-clock time since the current stage started, threshold in seconds.
    TimeRelative,
    /// Wall-clock time since the brew started, threshold in seconds.
    TimeAbsolute,
    Weight,
    PistonPosition,
    /// Not implemented; evaluating it raises a clear not-implemented
    /// signal rather than silently doing nothing.
    Power,
    Temperature,
    /// A button gesture this tick; mapped to a sentinel that satisfies any
    /// "greater" comparison and fails any "smaller" one (placeholder policy).
    Button,
}

/// The comparison applied as `measured OP threshold`.
#[derive(Clone, Copy, Debug, PartialEq, Eq, Structural)]
pub enum ExitComparison {
    /// measured <= threshold
    Smaller,
    /// measured < threshold
    SmallerStrict,
    /// measured >= threshold
    Greater,
    /// measured > threshold
    GreaterStrict,
}

/// The signal raised when a condition cannot be evaluated.
#[derive(Clone, Copy, Debug, PartialEq, Eq, Structural)]
pub enum TriggerError {
    /// The power exit condition is not implemented.
    UnimplementedExitType,
}

/// The 4-bit code of a condition type.
pub open spec fn type_code(t: ExitType) -> u32 {
    match t {
        ExitType::Pressure => 0,
        ExitType::Flow => 1,
        ExitType::TimeRelative => 2,
        ExitType::TimeAbsolute => 3,
        ExitType::Weight => 4,
        ExitType::PistonPosition => 5,
        ExitType::Power => 6,
        ExitType::Temperature => 7,
        ExitType::Button => 8,
    }
}

/// The condition type of a 4-bit code; codes that no constructor produces
/// fall together with the highest one.
pub open spec fn type_of_code(c: u32) -> ExitType {
    if c == 0 {
        ExitType::Pressure
    } else if c == 1 {
        ExitType::Flow
    } else if c == 2 {
        ExitType::TimeRelative
    } else if c == 3 {
        ExitType::TimeAbsolute
    } else if c == 4 {
        ExitType::Weight
    } else if c == 5 {
        ExitType::PistonPosition
    } else if c == 6 {
        ExitType::Power
    } else if c == 7 {
        ExitType::Temperature
    } else {
        ExitType::Button
    }
}

/// The 2-bit code of a comparison.
pub open spec fn comp_code(c: ExitComparison) -> u32 {
    match c {
        ExitComparison::Smaller => 0,
        ExitComparison::SmallerStrict => 1,
        ExitComparison::Greater => 2,
        ExitComparison::GreaterStrict => 3,
    }
}

/// The comparison of a 2-bit code.
pub open spec fn comp_of_code(c: u32) -> ExitComparison {
    if c == 0 {
        ExitComparison::Smaller
    } else if c == 1 {
        ExitComparison::SmallerStrict
    } else if c == 2 {
        ExitComparison::Greater
    } else {
        ExitComparison::GreaterStrict
    }
}

/// The packed word for the four field codes.
pub open spec fn pack_trigger(t: u32, c: u32, g: u32, v: u32) -> u32 {
    (v << 14) | (g << 6) | (c << 4) | t
}

/// The packed word a trigger is encoded to: field codes of the type, the
/// comparison, the optional jump target (absent encodes as 0) and the value.
pub open spec fn spec_encode(
    exit_type: ExitType,
    comparison: ExitComparison,
    target_stage: Option<u8>,
    value: u32,
) -> u32 {
    pack_trigger(
        type_code(exit_type),
        comp_code(comparison),
        match target_stage {
            Some(g) => g as u32,
            None => 0,
        },
        value,
    )
}

/// Whether `lhs OP rhs` holds for the comparison.
pub open spec fn comp_holds(c: ExitComparison, lhs: int, rhs: int) -> bool {
    match c {
        ExitComparison::Smaller => lhs <= rhs,
        ExitComparison::SmallerStrict => lhs < rhs,
        ExitComparison::Greater => lhs >= rhs,
        ExitComparison::GreaterStrict => lhs > rhs,
    }
}

impl ExitComparison {
    /// Apply the comparison to a measured left-hand side and a threshold
    /// right-hand side.
    pub fn comp(&self, lhs: i64, rhs: i64) -> (r: bool)
        ensures
            r == comp_holds(*self, lhs as int, rhs as int),
    {
        match self {
            ExitComparison::Smaller => lhs <= rhs,
            ExitComparison::SmallerStrict => lhs < rhs,
            ExitComparison::Greater => lhs >= rhs,
            ExitComparison::GreaterStrict => lhs > rhs,
        }
    }
}

/// A condition to exit the current stage, packed into one 32-bit word.
#[derive(Clone, Copy, Debug, PartialEq, Eq, Structural)]
pub struct ExitTrigger {
    value: u32,
}

/// Unpacking recovers each field that was packed.
proof fn lemma_unpack(t: u32, c: u32, g: u32, v: u32)
    by (bit_vector)
    requires
        t <= 8,
        c <= 3,
        g <= 255,
        v <= 0x3FFFF,
    ensures
        pack_trigger(t, c, g, v) & 0xF == t,
        (pack_trigger(t, c, g, v) >> 4) & 3 == c,
        (pack_trigger(t, c, g, v) >> 6) & 0xFF == g,
        pack_trigger(t, c, g, v) >> 14 == v,
{
}

impl ExitTrigger {
    /// The packed 32-bit word itself.
    pub closed spec fn spec_raw(&self) -> u32 {
        self.value
    }

    /// The decoded condition type.
    pub closed spec fn spec_exit_type(&self) -> ExitType {
        type_of_code(self.value & 0xF)
    }

    /// The decoded comparison.
    pub closed spec fn spec_exit_comp(&self) -> ExitComparison {
        comp_of_code((self.value >> 4) & 3)
    }

    /// The decoded threshold value, in whole units.
    pub closed spec fn spec_value(&self) -> u32 {
        self.value >> 14
    }

    /// The decoded jump target: the stage id to move to when the condition
    /// fires, or `None` to fall through to the next sequential stage.
    pub closed spec fn spec_target_stage(&self) -> Option<u8> {
        let g = (self.value >> 6) & 0xFF;
        if g == 0 {
            None
        } else {
            Some(g as u8)
        }
    }

    /// Encode a trigger. The value must fit the reserved bit width; profiles
    /// are validated before a brew starts, so a larger value is a
    /// construction-time contract violation, never a run-time one.
    /// A target of stage id 0 means no target, as 0 is not a stage id.
    pub fn new(
        exit_type: ExitType,
        comparison: ExitComparison,
        target_stage: Option<u8>,
        value: u32,
    ) -> (r: ExitTrigger)
        requires
            value <= TRIGGER_VALUE_MAX,
        ensures
            r.spec_raw() == spec_encode(exit_type, comparison, target_stage, value),
            r.spec_exit_type() == exit_type,
            r.spec_exit_comp() == comparison,
            r.spec_value() == value,
            r.spec_target_stage() == (if target_stage == Some(0u8) {
                None::<u8>
            } else {
                target_stage
            }),
    {
        let t: u32 = match exit_type {
            ExitType::Pressure => 0,
            ExitType::Flow => 1,
            ExitType::TimeRelative => 2,
            ExitType::TimeAbsolute => 3,
            ExitType::Weight => 4,
            ExitType::PistonPosition => 5,
            ExitType::Power => 6,
            ExitType::Temperature => 7,
            ExitType::Button => 8,
        };
        let c: u32 = match comparison {
            ExitComparison::Smaller => 0,
            ExitComparison::SmallerStrict => 1,
            ExitComparison::Greater => 2,
            ExitComparison::GreaterStrict => 3,
        };
        let g: u32 = match target_stage {
            Some(s) => s as u32,
            None => 0,
        };
        let packed = (value << 14) | (g << 6) | (c << 4) | t;
        proof {
            lemma_unpack(t, c, g, value);
        }
        ExitTrigger { value: packed }
    }

    /// Encode a trigger after checking the width validation that `new`
    /// demands: `None` exactly when the value does not fit the reserved bits.
    pub fn try_new(
        exit_type: ExitType,
        comparison: ExitComparison,
        target_stage: Option<u8>,
        value: u32,
    ) -> (r: Option<ExitTrigger>)
        ensures
            value > TRIGGER_VALUE_MAX ==> r is None,
            value <= TRIGGER_VALUE_MAX ==> (match r {
                Some(t) => {
                    &&& t.spec_exit_type() == exit_type
                    &&& t.spec_exit_comp() == comparison
                    &&& t.spec_value() == value
                    &&& t.spec_target_stage() == (if target_stage == Some(0u8) {
                        None::<u8>
                    } else {
                        target_stage
                    })
                },
                None => false,
            }),
    {
        if value <= TRIGGER_VALUE_MAX {
            Some(ExitTrigger::new(exit_type, comparison, target_stage, value))
        } else {
            None
        }
    }

    /// Decode the condition type.
    pub fn exit_type(&self) -> (r: ExitType)
        ensures
            r == self.spec_exit_type(),
    {
        let c = self.value & 0xF;
        if c == 0 {
            ExitType::Pressure
        } else if c == 1 {
            ExitType::Flow
        } else if c == 2 {
            ExitType::TimeRelative
        } else if c == 3 {
            ExitType::TimeAbsolute
        } else if c == 4 {
            ExitType::Weight
        } else if c == 5 {
            ExitType::PistonPosition
        } else if c == 6 {
            ExitType::Power
        } else if c == 7 {
            ExitType::Temperature
        } else {
            ExitType::Button
        }
    }

    /// Decode the comparison.
    pub fn exit_comp(&self) -> (r: ExitComparison)
        ensures
            r == self.spec_exit_comp(),
    {
        let c = (self.value >> 4) & 3;
        if c == 0 {
            ExitComparison::Smaller
        } else if c == 1 {
            ExitComparison::SmallerStrict
        } else if c == 2 {
            ExitComparison::Greater
        } else {
            ExitComparison::GreaterStrict
        }
    }

    /// Decode the threshold value, in whole units.
    pub fn value(&self) -> (r: u32)
        ensures
            r == self.spec_value(),
            r <= TRIGGER_VALUE_MAX,
    {
        proof {
            let w = self.value;
            assert(w >> 14 <= 0x3FFFFu32) by (bit_vector);
        }
        self.value >> 14
    }

    /// Decode the jump target, `None` when no target is configured.
    pub fn target_stage(&self) -> (r: Option<u8>)
        ensures
            r == self.spec_target_stage(),
    {
        let g = (self.value >> 6) & 0xFF;
        proof {
            let w = self.value;
            assert((w >> 6) & 0xFF <= 0xFFu32) by (bit_vector);
        }
        if g == 0 {
            None
        } else {
            Some(g as u8)
        }
    }

    /// Check the condition against one tick's sensor snapshot and the two
    /// elapsed times (since stage start and since profile start, in tenths of
    /// a second). The threshold is scaled from whole units to tenths for the
    /// comparison. The power condition is unimplemented and raises its
    /// signal.
    pub fn check_cond(
        &self,
        snap: &SensorSnapshot,
        stage_elapsed: i64,
        profile_elapsed: i64,
    ) -> (r: Result<bool, TriggerError>)
        ensures
            r == spec_check_cond(*self, *snap, stage_elapsed as int, profile_elapsed as int),
    {
        let lhs: i64 = match self.exit_type() {
            ExitType::Pressure => snap.water_pressure,
            ExitType::Flow => snap.water_flow,
            ExitType::TimeRelative => stage_elapsed,
            ExitType::TimeAbsolute => profile_elapsed,
            ExitType::Weight => snap.weight,
            ExitType::PistonPosition => snap.piston_position,
            ExitType::Button => if snap.button_gesture {
                i64::MAX
            } else {
                i64::MIN
            },
            ExitType::Temperature => snap.stable_temperature,
            ExitType::Power => {
                return Err(TriggerError::UnimplementedExitType);
            },
        };
        let rhs: i64 = (self.value() as i64) * 10;
        Ok(self.exit_comp().comp(lhs, rhs))
    }
}

/// The measured left-hand side a trigger compares, in tenths of a unit.
/// Meaningful for every condition type but the unimplemented power one.
pub open spec fn spec_measured(
    t: ExitTrigger,
    snap: SensorSnapshot,
    stage_elapsed: int,
    profile_elapsed: int,
) -> int {
    match t.spec_exit_type() {
        ExitType::Pressure => snap.water_pressure as int,
        ExitType::Flow => snap.water_flow as int,
        ExitType::TimeRelative => stage_elapsed,
        ExitType::TimeAbsolute => profile_elapsed,
        ExitType::Weight => snap.weight as int,
        ExitType::PistonPosition => snap.piston_position as int,
        ExitType::Button => if snap.button_gesture {
            i64::MAX as int
        } else {
            i64::MIN as int
        },
        ExitType::Temperature => snap.stable_temperature as int,
        ExitType::Power => 0,
    }
}

/// What checking a condition returns: the comparison of the measured value
/// against ten times the threshold, or the not-implemented signal for the
/// power condition.
pub open spec fn spec_check_cond(
    t: ExitTrigger,
    snap: SensorSnapshot,
    stage_elapsed: int,
    profile_elapsed: int,
) -> Result<bool, TriggerError> {
    if t.spec_exit_type() == ExitType::Power {
        Err(TriggerError::UnimplementedExitType)
    } else {
        Ok(comp_holds(
            t.spec_exit_comp(),
            spec_measured(t, snap, stage_elapsed, profile_elapsed),
            10 * t.spec_value(),
        ))
    }
}

/// The outcome of scanning a stage's trigger list on one tick.
#[derive(Clone, Copy, Debug, PartialEq, Eq, Structural)]
pub enum ScanOutcome {
    /// The trigger at this index is the first whose condition holds.
    Fired(usize),
    /// A trigger with the unimplemented power condition was reached before
    /// any condition held.
    Unimplemented,
    /// No condition held.
    NoMatch,
}

/// Whether a trigger's condition holds on this tick.
pub open spec fn spec_fires(
    t: ExitTrigger,
    snap: SensorSnapshot,
    stage_elapsed: int,
    profile_elapsed: int,
) -> bool {
    spec_check_cond(t, snap, stage_elapsed, profile_elapsed) == Ok::<bool, TriggerError>(true)
}

/// Scan the trigger list from index `i` on: evaluation is strictly ordered
/// and first-match-wins, and a trigger after the first match is not
/// evaluated at all that tick.
pub open spec fn scan_from(
    ts: Seq<ExitTrigger>,
    snap: SensorSnapshot,
    stage_elapsed: int,
    profile_elapsed: int,
    i: int,
) -> ScanOutcome
    decreases ts.len() - i,
{
    if i < 0 || i >= ts.len() {
        ScanOutcome::NoMatch
    } else if ts[i].spec_exit_type() == ExitType::Power {
        ScanOutcome::Unimplemented
    } else if spec_fires(ts[i], snap, stage_elapsed, profile_elapsed) {
        ScanOutcome::Fired(i as usize)
    } else {
        scan_from(ts, snap, stage_elapsed, profile_elapsed, i + 1)
    }
}

/// Evaluate a stage's trigger list in declared order, stopping at the first
/// condition that holds or at an unimplemented condition.
pub fn scan_triggers(
    ts: &Vec<ExitTrigger>,
    snap: &SensorSnapshot,
    stage_elapsed: i64,
    profile_elapsed: i64,
) -> (r: ScanOutcome)
    ensures
        r == scan_from(ts@, *snap, stage_elapsed as int, profile_elapsed as int, 0),
        r matches ScanOutcome::Fired(i) ==> i < ts@.len(),
{
    let n = ts.len();
    let mut i: usize = 0;
    while i < n
        invariant
            i <= n,
            n == ts@.len(),
            scan_from(ts@, *snap, stage_elapsed as int, profile_elapsed as int, 0) == scan_from(
                ts@,
                *snap,
                stage_elapsed as int,
                profile_elapsed as int,
                i as int,
            ),
        decreases n - i,
    {
        let t = ts[i];
        match t.check_cond(snap, stage_elapsed, profile_elapsed) {
            Err(_) => {
                return ScanOutcome::Unimplemented;
            },
            Ok(true) => {
                return ScanOutcome::Fired(i);
            },
            Ok(false) => {},
        }
        i = i + 1;
    }
    ScanOutcome::NoMatch
}

/// First-match-wins, characterized: when the scan fires at index `i`, that
/// trigger's condition holds, and every trigger before it was evaluated, is
/// not the unimplemented power condition, and did not hold.
pub proof fn lemma_scan_fired(
    ts: Seq<ExitTrigger>,
    snap: SensorSnapshot,
    stage_elapsed: int,
    profile_elapsed: int,
    j: int,
    i: usize,
)
    requires
        0 <= j,
        ts.len() <= usize::MAX,
        scan_from(ts, snap, stage_elapsed, profile_elapsed, j) == ScanOutcome::Fired(i),
    ensures
        j <= i < ts.len(),
        ts[i as int].spec_exit_type() != ExitType::Power,
        spec_fires(ts[i as int], snap, stage_elapsed, profile_elapsed),
        forall|k: int| j <= k < i ==> (#[trigger] ts[k]).spec_exit_type() != ExitType::Power
            && !spec_fires(ts[k], snap, stage_elapsed, profile_elapsed),
    decreases ts.len() - j,
{
    if j >= ts.len() {
        // the scan would have returned NoMatch
    } else if ts[j].spec_exit_type() == ExitType::Power {
        // the scan would have returned Unimplemented
    } else if spec_fires(ts[j], snap, stage_elapsed, profile_elapsed) {
        // the scan fired here, so i == j
    } else {
        lemma_scan_fired(ts, snap, stage_elapsed, profile_elapsed, j + 1, i);
    }
}

/// Law: decoding recovers every legal combination that was encoded: a
/// trigger whose packed word is the encoding of legal fields decodes to
/// exactly those fields. A legal target is absent or a nonzero stage id,
/// since 0 encodes "no target".
pub proof fn lemma_trigger_round_trip(
    t: ExitTrigger,
    exit_type: ExitType,
    comparison: ExitComparison,
    target_stage: Option<u8>,
    value: u32,
)
    requires
        value <= TRIGGER_VALUE_MAX,
        target_stage != Some(0u8),
        t.spec_raw() == spec_encode(exit_type, comparison, target_stage, value),
    ensures
        t.spec_exit_type() == exit_type,
        t.spec_exit_comp() == comparison,
        t.spec_value() == value,
        t.spec_target_stage() == target_stage,
{
    let tc = type_code(exit_type);
    let cc = comp_code(comparison);
    let g: u32 = match target_stage {
        Some(s) => s as u32,
        None => 0,
    };
    lemma_unpack(tc, cc, g, value);
}

/// Law: at equality of the measured value and the threshold, the inclusive
/// comparisons hold and the strict ones do not.
pub proof fn lemma_comparison_at_equality(v: int)
    ensures
        comp_holds(ExitComparison::Smaller, v, v),
        !comp_holds(ExitComparison::SmallerStrict, v, v),
        comp_holds(ExitComparison::Greater, v, v),
        !comp_holds(ExitComparison::GreaterStrict, v, v),
{
}

} // verus!
