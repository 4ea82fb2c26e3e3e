//! The profile store: the validated brew recipe and its per-stage execution
//! log.
//!
//! A [`Profile`] is built once by the (external) parsing collaborator and
//! then owned by the engine for the lifetime of one brew run; the engine is
//! its only mutator, and only of the log. Stage ids are 1-based and assigned
//! in declaration order; id `i` names `stages[i - 1]`.

use crate::dynamics::{ControlType, Dynamics, Limit};
use crate::exit_trigger::ExitTrigger;
use vstd::prelude::*;
use vstd::string::StringExecFns;

verus! {

/// A wall-clock instant, in milliseconds. The engine never reads a clock
/// itself: the caller stamps each tick's input.
#[derive(Clone, Copy, Debug, PartialEq, Eq, Structural)]
pub struct TimeStamp(pub i64);

impl TimeStamp {
    /// Instants the engine accepts: non-negative and far from the `i64`
    /// edge, so differences of two instants never overflow.
    pub open spec fn wf(&self) -> bool {
        0 <= self.0 <= 0x4000_0000_0000_0000
    }
}

/// The error taxonomy the profile-parsing collaborator surfaces before an
/// engine is ever built: a missing entry, a wrong value type, or a malformed
/// document. Closed; the core never raises these mid-run.
#[derive(Debug, Clone, PartialEq)]
pub enum ProfileError {
    /// An expected entry name was missing, or an enumerated name was not
    /// recognized.
    Name(String),
    /// An entry had the wrong value type.
    Type(String),
    /// The document itself was malformed.
    JsonParsing(String),
}

impl ProfileError {
    /// The error for an entry of the wrong type; `t` names the expected type.
    pub fn unexpected_type(t: &str) -> (r: ProfileError)
        ensures
            r matches ProfileError::Type(s) && s@ == t@,
    {
        ProfileError::Type(String::from_str(t))
    }

    /// The error for a missing entry; `t` names the expected entry.
    pub fn no_name(t: &str) -> (r: ProfileError)
        ensures
            r matches ProfileError::Name(s) && s@ == t@,
    {
        ProfileError::Name(String::from_str(t))
    }
}

/// The sensor values captured when a stage is entered or exited.
#[derive(Clone, Copy, Debug, PartialEq, Eq, Structural)]
pub struct StageVariables {
    /// Water flow, tenths of a ml/s.
    pub flow: i64,
    /// Water pressure, tenths of a bar.
    pub pressure: i64,
    /// Piston position, tenths of a percent.
    pub piston_pos: i64,
    /// When the snapshot was taken.
    pub timestamp: TimeStamp,
}

impl StageVariables {
    pub fn new(flow: i64, pressure: i64, piston_pos: i64, timestamp: TimeStamp)
        -> (r: StageVariables)
        ensures
            r == (StageVariables { flow, pressure, piston_pos, timestamp }),
    {
        StageVariables { flow, pressure, piston_pos, timestamp }
    }

    pub fn get_timestamp(&self) -> (r: &TimeStamp)
        ensures
            *r == self.timestamp,
    {
        &self.timestamp
    }
}

/// One stage's execution log: an optional entry snapshot and an optional
/// exit snapshot. The log is valid once the stage has been entered.
#[derive(Clone, Copy, Debug, PartialEq, Eq, Structural)]
pub struct StageLog {
    pub entry: Option<StageVariables>,
    pub exit: Option<StageVariables>,
}

impl Default for StageLog {
    /// A fresh log: no snapshot recorded yet.
    fn default() -> (r: StageLog)
        ensures
            r.entry is None,
            r.exit is None,
    {
        StageLog { entry: None, exit: None }
    }
}

impl StageLog {
    /// A log is valid once its entry snapshot is present.
    pub fn is_valid(&self) -> (r: bool)
        ensures
            r == (self.entry is Some),
    {
        self.entry.is_some()
    }

    pub fn get_entry(&self) -> (r: Option<&StageVariables>)
        ensures
            match r {
                Some(v) => self.entry == Some(*v),
                None => self.entry is None,
            },
    {
        self.entry.as_ref()
    }

    pub fn get_exit(&self) -> (r: Option<&StageVariables>)
        ensures
            match r {
                Some(v) => self.exit == Some(*v),
                None => self.exit is None,
            },
    {
        self.exit.as_ref()
    }

    /// Record the entry snapshot, handing back whatever was there before.
    pub fn put_entry_log(&mut self, vars: StageVariables) -> (prev: Option<StageVariables>)
        ensures
            final(self).entry == Some(vars),
            final(self).exit == old(self).exit,
            prev == old(self).entry,
    {
        let prev = self.entry;
        self.entry = Some(vars);
        prev
    }

    /// Record the exit snapshot, handing back whatever was there before.
    pub fn put_exit_log(&mut self, vars: StageVariables) -> (prev: Option<StageVariables>)
        ensures
            final(self).exit == Some(vars),
            final(self).entry == old(self).entry,
            prev == old(self).exit,
    {
        let prev = self.exit;
        self.exit = Some(vars);
        prev
    }
}

/// One phase of a brew: its control target, curve, exit conditions and
/// safety limits. Immutable after construction.
#[derive(Clone, Debug)]
pub struct Stage {
    pub control_type: ControlType,
    pub dynamics: Dynamics,
    pub exit_trigger: Vec<ExitTrigger>,
    pub limits: Vec<Limit>,
}

impl Stage {
    /// A stage is well-formed when its curve is.
    pub open spec fn wf(&self) -> bool {
        self.dynamics.wf()
    }

    pub fn new(
        control_type: ControlType,
        dynamics: Dynamics,
        exit_trigger: Vec<ExitTrigger>,
        limits: Vec<Limit>,
    ) -> (r: Stage)
        requires
            dynamics.wf(),
        ensures
            r.wf(),
            r.control_type == control_type,
            r.dynamics == dynamics,
            r.exit_trigger == exit_trigger,
            r.limits == limits,
    {
        Stage { control_type, dynamics, exit_trigger, limits }
    }

    pub fn dynamics(&self) -> (r: &Dynamics)
        ensures
            *r == self.dynamics,
    {
        &self.dynamics
    }

    pub fn exit_triggers(&self) -> (r: &Vec<ExitTrigger>)
        ensures
            r@ == self.exit_trigger@,
    {
        &self.exit_trigger
    }

    pub fn limits(&self) -> (r: &Vec<Limit>)
        ensures
            r@ == self.limits@,
    {
        &self.limits
    }

    pub fn ctrl(&self) -> (r: ControlType)
        ensures
            r == self.control_type,
    {
        self.control_type
    }
}

/// The complete brew recipe: global parameters, the ordered stages, and the
/// parallel per-stage log.
#[derive(Clone, Debug)]
pub struct Profile {
    /// Starting temperature, tenths of a degree Celsius.
    pub starting_temp: i64,
    /// Target final weight, tenths of a gram.
    pub target_weight: i64,
    /// Whether to hold in Ready after heating until released.
    pub wait_after_heating: bool,
    /// Whether to purge automatically once the brew is done.
    pub auto_purge: bool,
    /// The stages, in brew order; stage id `i` is `stages[i - 1]`.
    pub stages: Vec<Stage>,
    /// The per-stage log, keyed identically to `stages`.
    pub stage_log: Vec<StageLog>,
}

impl Profile {
    /// Well-formedness: the log domain equals the stage domain, every stage
    /// is well-formed, and the stage count stays inside the one-byte id
    /// namespace that jump targets use.
    pub open spec fn wf(&self) -> bool {
        &&& self.stage_log@.len() == self.stages@.len()
        &&& self.stages@.len() <= 255
        &&& forall|i: int| 0 <= i < self.stages@.len() ==> (#[trigger] self.stages@[i]).wf()
    }

    /// Build a validated profile with a fresh (empty) log per stage.
    pub fn new(
        starting_temp: i64,
        target_weight: i64,
        wait_after_heating: bool,
        auto_purge: bool,
        stages: Vec<Stage>,
    ) -> (r: Profile)
        requires
            stages@.len() <= 255,
            forall|i: int| 0 <= i < stages@.len() ==> (#[trigger] stages@[i]).wf(),
        ensures
            r.wf(),
            r.starting_temp == starting_temp,
            r.target_weight == target_weight,
            r.wait_after_heating == wait_after_heating,
            r.auto_purge == auto_purge,
            r.stages == stages,
            r.stage_log@.len() == stages@.len(),
            forall|i: int| 0 <= i < r.stage_log@.len()
                ==> (#[trigger] r.stage_log@[i]).entry is None && r.stage_log@[i].exit is None,
    {
        let mut stage_log: Vec<StageLog> = Vec::new();
        let n = stages.len();
        let mut i: usize = 0;
        while i < n
            invariant
                i <= n,
                stage_log@.len() == i,
                forall|j: int| 0 <= j < i as int
                    ==> (#[trigger] stage_log@[j]).entry is None && stage_log@[j].exit is None,
            decreases n - i,
        {
            stage_log.push(StageLog::default());
            i = i + 1;
        }
        Profile { starting_temp, target_weight, wait_after_heating, auto_purge, stages, stage_log }
    }

    pub fn get_starting_temp(&self) -> (r: i64)
        ensures
            r == self.starting_temp,
    {
        self.starting_temp
    }

    pub fn get_target_weight(&self) -> (r: i64)
        ensures
            r == self.target_weight,
    {
        self.target_weight
    }

    pub fn wait_after_heating(&self) -> (r: bool)
        ensures
            r == self.wait_after_heating,
    {
        self.wait_after_heating
    }

    pub fn get_stages(&self) -> (r: &Vec<Stage>)
        ensures
            r@ == self.stages@,
    {
        &self.stages
    }

    pub fn get_stage_logs(&self) -> (r: &Vec<StageLog>)
        ensures
            r@ == self.stage_log@,
    {
        &self.stage_log
    }

    pub fn auto_purge(&self) -> (r: bool)
        ensures
            r == self.auto_purge,
    {
        self.auto_purge
    }
}

} // verus!
