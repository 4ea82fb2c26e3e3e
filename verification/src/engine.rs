//! The stage sequencer: a synchronous, poll-driven state machine.
//!
//! The caller repeatedly invokes [`ProfileEngineRunning::step`] with one
//! tick's [`StepInput`]; the engine inspects its phase, asks the curve
//! evaluator for an output and the trigger evaluator for transition
//! decisions, updates the profile's log, and hands back its next state
//! together with the driver writes to perform. Stepping consumes the running
//! handle and returns it (or the idle one) in the result, so one session can
//! never be stepped re-entrantly or concurrently.

use crate::dynamics::{eval_curve, ControlType, InputType, Limit};
use crate::exit_trigger::{scan_from, ExitTrigger, ScanOutcome, TriggerError};
use crate::profile::{Profile, StageLog, StageVariables, TimeStamp};
use crate::sensor::{DriverAction, SensorSnapshot};
use vstd::prelude::*;

verus! {

/// The engine's phase.
#[derive(Default, Debug, Clone, Copy, PartialEq, Eq, Structural)]
pub enum ProfileState {
    #[default]
    Start,
    Heating,
    Ready,
    Retracting,
    Brewing,
    Done,
    Purging,
}

/// The piston position (tenths of a percent) at or below which the piston
/// counts as retracted.
pub const PISTON_RETRACTED_MAX: i64 = 10;

/// The piston position (tenths of a percent) at or above which the purge is
/// complete.
pub const PISTON_PURGED_MIN: i64 = 990;

/// Everything the engine reads from the outside world on one tick: the
/// clock, the sensor readings, and the driver's two predicates.
#[derive(Clone, Copy, Debug, PartialEq, Eq, Structural)]
pub struct StepInput {
    /// The current instant.
    pub now: TimeStamp,
    /// This tick's sensor readings.
    pub sensors: SensorSnapshot,
    /// The driver's heating-finished predicate.
    pub heating_finished: bool,
    /// The driver's final-weight-reached predicate.
    pub final_weight_reached: bool,
}

impl StepInput {
    pub open spec fn wf(&self) -> bool {
        self.now.wf()
    }
}

/// Why an engine could not be built.
#[derive(Clone, Copy, Debug, PartialEq, Eq, Structural)]
pub enum EngineError {
    /// A profile with no stages is not allowed.
    EmptyProfile,
}

/// What one tick returns: the running engine for the next tick, the idle
/// engine when the session terminated, or the fatal signal that ends the
/// run; the caller must then stop driving the engine.
pub enum EngineStepResult {
    Next(ProfileEngineRunning),
    Finished(ProfileEngineIdle),
    Error(TriggerError),
}

/// A constructed engine that is not yet running. It owns the profile.
pub struct ProfileEngineIdle {
    pub profile: Profile,
}

/// A running engine: the profile, the two clocks, the phase and the current
/// stage id (1-based; 0 until the first stage is selected).
pub struct ProfileEngineRunning {
    pub profile: Profile,
    pub profile_start_time: TimeStamp,
    pub stage_start_time: TimeStamp,
    pub state: ProfileState,
    pub current_stage_id: u16,
}

/// Elapsed time between two instants, in tenths of a second: the magnitude
/// of the difference of the two millisecond counts, truncated. A skewed
/// clock is taken on magnitude rather than trapped.
pub open spec fn spec_elapsed_ds(now: TimeStamp, start: TimeStamp) -> int {
    if now.0 >= start.0 {
        (now.0 - start.0) / 100
    } else {
        (start.0 - now.0) / 100
    }
}

/// Elapsed tenths of a second between two instants.
pub fn elapsed_ds(now: TimeStamp, start: TimeStamp) -> (r: i64)
    requires
        now.wf(),
        start.wf(),
    ensures
        r == spec_elapsed_ds(now, start),
        r >= 0,
{
    let d: i64 = if now.0 >= start.0 {
        now.0 - start.0
    } else {
        start.0 - now.0
    };
    ((d as u64) / 100) as i64
}

/// The sensor values written to a stage's log snapshot at instant `ts`.
pub open spec fn snapshot_vars(snap: SensorSnapshot, ts: TimeStamp) -> StageVariables {
    StageVariables {
        flow: snap.water_flow,
        pressure: snap.water_pressure,
        piston_pos: snap.piston_position,
        timestamp: ts,
    }
}

/// The log after lazy entry logging: unchanged if an entry snapshot exists,
/// else with this tick's snapshot as the entry.
pub open spec fn entry_logged(log: StageLog, snap: SensorSnapshot, now: TimeStamp) -> StageLog {
    if log.entry is Some {
        log
    } else {
        StageLog { entry: Some(snapshot_vars(snap, now)), exit: log.exit }
    }
}

/// The log after recording the exit snapshot, stamped with the stage's own
/// start instant.
pub open spec fn exit_logged(log: StageLog, snap: SensorSnapshot, ts: TimeStamp) -> StageLog {
    StageLog { entry: log.entry, exit: Some(snapshot_vars(snap, ts)) }
}

/// The stage id a fired trigger resolves to: its configured jump target, or
/// the next sequential id if none is configured.
pub open spec fn next_stage_id(t: ExitTrigger, current: u16) -> int {
    match t.spec_target_stage() {
        Some(g) => g as int,
        None => current + 1,
    }
}

/// The driver write for one safety limit.
pub open spec fn limit_action(l: Limit) -> DriverAction {
    match l {
        Limit::Pressure(p) => DriverAction::SetPressureLimit(p),
        Limit::Flow(f) => DriverAction::SetFlowLimit(f),
    }
}

/// The driver write for a stage's primary setpoint.
pub open spec fn setpoint_action(c: ControlType, out: i64) -> DriverAction {
    match c {
        ControlType::Pressure => DriverAction::SetTargetPressure(out),
        ControlType::Flow => DriverAction::SetTargetFlow(out),
        ControlType::Power => DriverAction::SetTargetPower(out),
        ControlType::PistonPosition => DriverAction::SetTargetPistonPosition(out),
    }
}

/// The curve input for a stage's declared axis: elapsed profile time, or a
/// measured quantity.
pub open spec fn curve_input(it: InputType, snap: SensorSnapshot, profile_elapsed: int) -> int {
    match it {
        InputType::Time => profile_elapsed,
        InputType::PistonPosition => snap.piston_position as int,
        InputType::Weight => snap.weight as int,
    }
}

/// The two engines hold the same profile, state, stage pointer and clocks,
/// except that the second is in phase `st`.
pub open spec fn same_engine_but_state(
    pre: ProfileEngineRunning,
    post: ProfileEngineRunning,
    st: ProfileState,
) -> bool {
    &&& post.state == st
    &&& post.profile == pre.profile
    &&& post.profile_start_time == pre.profile_start_time
    &&& post.stage_start_time == pre.stage_start_time
    &&& post.current_stage_id == pre.current_stage_id
}

/// The two profiles agree on everything but the log, which in the second
/// holds `logs`.
pub open spec fn same_profile_but_logs(p1: Profile, p2: Profile, logs: Seq<StageLog>) -> bool {
    &&& p2.starting_temp == p1.starting_temp
    &&& p2.target_weight == p1.target_weight
    &&& p2.wait_after_heating == p1.wait_after_heating
    &&& p2.auto_purge == p1.auto_purge
    &&& p2.stages == p1.stages
    &&& p2.stage_log@ == logs
}

/// The outcome of scanning the current stage's trigger list on this tick, in
/// declared order and first-match-wins.
pub open spec fn brewing_scan(pre: ProfileEngineRunning, input: StepInput) -> ScanOutcome {
    scan_from(
        pre.profile.stages@[pre.current_stage_id - 1].exit_trigger@,
        input.sensors,
        spec_elapsed_ds(input.now, pre.stage_start_time),
        spec_elapsed_ds(input.now, pre.profile_start_time),
        0,
    )
}

/// What one Brewing tick does. In order: the global final-weight override
/// (checked before everything else); lazy entry logging for the current
/// stage; the trigger scan, whose first match records the exit snapshot and
/// resolves the next stage id (falling to Done when that id has no stage);
/// and otherwise the curve evaluation, the unconditional limit writes and
/// the primary setpoint write.
pub open spec fn brewing_step_spec(
    pre: ProfileEngineRunning,
    input: StepInput,
    r: EngineStepResult,
    actions: Seq<DriverAction>,
) -> bool {
    let idx = pre.current_stage_id - 1;
    let stage = pre.profile.stages@[idx];
    let pe = spec_elapsed_ds(input.now, pre.profile_start_time);
    if input.final_weight_reached {
        &&& actions.len() == 0
        &&& r matches EngineStepResult::Next(e2) && same_engine_but_state(
            pre,
            e2,
            ProfileState::Done,
        )
    } else {
        let log1 = entry_logged(pre.profile.stage_log@[idx], input.sensors, input.now);
        match brewing_scan(pre, input) {
            ScanOutcome::Unimplemented => {
                &&& actions.len() == 0
                &&& r matches EngineStepResult::Error(e) && e
                    == TriggerError::UnimplementedExitType
            },
            ScanOutcome::Fired(i) => {
                let nid = next_stage_id(stage.exit_trigger@[i as int], pre.current_stage_id);
                let log2 = exit_logged(log1, input.sensors, pre.stage_start_time);
                &&& actions.len() == 0
                &&& r matches EngineStepResult::Next(e2) && {
                    &&& same_profile_but_logs(
                        pre.profile,
                        e2.profile,
                        pre.profile.stage_log@.update(idx, log2),
                    )
                    &&& e2.profile_start_time == pre.profile_start_time
                    &&& if 1 <= nid <= pre.profile.stages@.len() {
                        &&& e2.state == ProfileState::Brewing
                        &&& e2.current_stage_id == nid
                        &&& e2.stage_start_time == input.now
                    } else {
                        // the resolved id names no stage: the run is done, and
                        // the stage pointer stays on the last stage that ran
                        &&& e2.state == ProfileState::Done
                        &&& e2.current_stage_id == pre.current_stage_id
                        &&& e2.stage_start_time == pre.stage_start_time
                    }
                }
            },
            ScanOutcome::NoMatch => {
                let out = eval_curve(
                    stage.dynamics.points@,
                    curve_input(stage.dynamics.input_select, input.sensors, pe),
                );
                &&& actions == stage.limits@.map_values(|l: Limit| limit_action(l)).push(
                    setpoint_action(stage.control_type, out as i64),
                )
                &&& r matches EngineStepResult::Next(e2) && {
                    &&& same_profile_but_logs(
                        pre.profile,
                        e2.profile,
                        pre.profile.stage_log@.update(idx, log1),
                    )
                    &&& e2.state == ProfileState::Brewing
                    &&& e2.current_stage_id == pre.current_stage_id
                    &&& e2.profile_start_time == pre.profile_start_time
                    &&& e2.stage_start_time == pre.stage_start_time
                }
            },
        }
    }
}

/// The engine's whole per-tick behavior, phase by phase.
pub open spec fn step_spec(
    pre: ProfileEngineRunning,
    input: StepInput,
    r: EngineStepResult,
    actions: Seq<DriverAction>,
) -> bool {
    match pre.state {
        ProfileState::Start => {
            &&& actions.len() == 0
            &&& r matches EngineStepResult::Next(e2) && same_engine_but_state(
                pre,
                e2,
                ProfileState::Heating,
            )
        },
        ProfileState::Heating => {
            &&& actions == seq![
                DriverAction::SetTargetTemperature(pre.profile.starting_temp),
                DriverAction::SetTargetWeight(pre.profile.target_weight),
            ]
            &&& r matches EngineStepResult::Next(e2) && same_engine_but_state(
                pre,
                e2,
                if input.heating_finished {
                    ProfileState::Ready
                } else {
                    ProfileState::Heating
                },
            )
        },
        ProfileState::Ready => {
            &&& actions.len() == 0
            &&& r matches EngineStepResult::Next(e2) && {
                &&& e2.current_stage_id == 1
                &&& e2.state == if !pre.profile.wait_after_heating {
                    ProfileState::Retracting
                } else {
                    ProfileState::Ready
                }
                &&& e2.profile == pre.profile
                &&& e2.profile_start_time == pre.profile_start_time
                &&& e2.stage_start_time == pre.stage_start_time
            }
        },
        ProfileState::Retracting => {
            &&& actions == seq![DriverAction::SetTargetPistonPosition(0i64)]
            &&& r matches EngineStepResult::Next(e2) && {
                if input.sensors.piston_position <= PISTON_RETRACTED_MAX {
                    // the brew clock begins at this instant
                    &&& e2.state == ProfileState::Brewing
                    &&& e2.profile_start_time == input.now
                    &&& e2.stage_start_time == input.now
                    &&& e2.profile == pre.profile
                    &&& e2.current_stage_id == pre.current_stage_id
                } else {
                    same_engine_but_state(pre, e2, ProfileState::Retracting)
                }
            }
        },
        ProfileState::Brewing => brewing_step_spec(pre, input, r, actions),
        ProfileState::Done => {
            &&& actions.len() == 0
            &&& r matches EngineStepResult::Next(e2) && same_engine_but_state(
                pre,
                e2,
                if pre.profile.auto_purge {
                    ProfileState::Retracting
                } else {
                    ProfileState::Done
                },
            )
        },
        ProfileState::Purging => {
            &&& actions == seq![DriverAction::SetTargetPistonPosition(1000i64)]
            &&& if input.sensors.piston_position >= PISTON_PURGED_MIN {
                r matches EngineStepResult::Finished(idle) && idle.profile == pre.profile
            } else {
                r matches EngineStepResult::Next(e2) && same_engine_but_state(
                    pre,
                    e2,
                    ProfileState::Purging,
                )
            }
        },
    }
}

impl ProfileEngineIdle {
    /// Build an idle engine around a validated profile. A profile with no
    /// stages is refused.
    pub fn try_new(profile: Profile) -> (r: Result<ProfileEngineIdle, EngineError>)
        requires
            profile.wf(),
        ensures
            match r {
                Ok(idle) => idle.profile == profile && profile.stages@.len() >= 1,
                Err(e) => e == EngineError::EmptyProfile && profile.stages@.len() == 0,
            },
    {
        if profile.get_stages().len() == 0 {
            return Err(EngineError::EmptyProfile);
        }
        Ok(ProfileEngineIdle { profile })
    }

    /// Start the brew: the engine transitions unconditionally to Heating and
    /// stamps both the profile and the stage clock with `now`.
    pub fn start(self, now: TimeStamp) -> (r: ProfileEngineRunning)
        requires
            self.profile.wf(),
            self.profile.stages@.len() >= 1,
            now.wf(),
        ensures
            r.wf(),
            r.profile == self.profile,
            r.state == ProfileState::Heating,
            r.current_stage_id == 0,
            r.profile_start_time == now,
            r.stage_start_time == now,
    {
        ProfileEngineRunning {
            profile: self.profile,
            profile_start_time: now,
            stage_start_time: now,
            state: ProfileState::Heating,
            current_stage_id: 0,
        }
    }

    /// The profile, with whatever log the run has written so far.
    pub fn profile(&self) -> (r: &Profile)
        ensures
            *r == self.profile,
    {
        &self.profile
    }

    /// Give the profile back to the caller.
    pub fn into_profile(self) -> (r: Profile)
        ensures
            r == self.profile,
    {
        self.profile
    }
}

impl ProfileEngineRunning {
    /// A running engine is well-formed when its profile is, its clocks are,
    /// and — once a stage has been selected (Retracting, Brewing, Done) —
    /// its current stage id names a stage.
    pub open spec fn wf(&self) -> bool {
        &&& self.profile.wf()
        &&& self.profile.stages@.len() >= 1
        &&& self.profile_start_time.wf()
        &&& self.stage_start_time.wf()
        &&& ((self.state == ProfileState::Retracting || self.state == ProfileState::Brewing
            || self.state == ProfileState::Done) ==> 1 <= self.current_stage_id
            <= self.profile.stages@.len())
    }

    /// The current phase.
    pub fn get_state(&self) -> (r: ProfileState)
        ensures
            r == self.state,
    {
        self.state
    }

    /// The profile, with whatever log the run has written so far.
    pub fn profile(&self) -> (r: &Profile)
        ensures
            *r == self.profile,
    {
        &self.profile
    }

    /// Advance the engine by one tick. Consumes the handle; the result
    /// carries the engine on (`Next`), hands the idle engine back
    /// (`Finished`), or ends the run with the fatal signal (`Error`). The
    /// second element lists the driver writes to perform, in order.
    pub fn step(self, input: &StepInput) -> (r: (EngineStepResult, Vec<DriverAction>))
        requires
            self.wf(),
            input.wf(),
        ensures
            step_spec(self, *input, r.0, r.1@),
            match r.0 {
                EngineStepResult::Next(e2) => e2.wf(),
                EngineStepResult::Finished(idle) => idle.profile.wf()
                    && idle.profile.stages@.len() >= 1,
                EngineStepResult::Error(_) => true,
            },
    {
        let ProfileEngineRunning {
            profile: mut profile,
            profile_start_time,
            stage_start_time,
            state,
            current_stage_id,
        } = self;
        let mut actions: Vec<DriverAction> = Vec::new();
        match state {
            ProfileState::Start => {
                (
                    EngineStepResult::Next(ProfileEngineRunning {
                        profile,
                        profile_start_time,
                        stage_start_time,
                        state: ProfileState::Heating,
                        current_stage_id,
                    }),
                    actions,
                )
            },
            ProfileState::Heating => {
                actions.push(DriverAction::SetTargetTemperature(profile.get_starting_temp()));
                actions.push(DriverAction::SetTargetWeight(profile.get_target_weight()));
                let next_state = if input.heating_finished {
                    ProfileState::Ready
                } else {
                    ProfileState::Heating
                };
                proof {
                    assert(actions@ =~= seq![
                        DriverAction::SetTargetTemperature(profile.starting_temp),
                        DriverAction::SetTargetWeight(profile.target_weight),
                    ]);
                }
                (
                    EngineStepResult::Next(ProfileEngineRunning {
                        profile,
                        profile_start_time,
                        stage_start_time,
                        state: next_state,
                        current_stage_id,
                    }),
                    actions,
                )
            },
            ProfileState::Ready => {
                let next_state = if !profile.wait_after_heating() {
                    ProfileState::Retracting
                } else {
                    ProfileState::Ready
                };
                (
                    EngineStepResult::Next(ProfileEngineRunning {
                        profile,
                        profile_start_time,
                        stage_start_time,
                        state: next_state,
                        current_stage_id: 1,
                    }),
                    actions,
                )
            },
            ProfileState::Retracting => {
                actions.push(DriverAction::SetTargetPistonPosition(0));
                proof {
                    assert(actions@ =~= seq![DriverAction::SetTargetPistonPosition(0i64)]);
                }
                if input.sensors.piston_position <= PISTON_RETRACTED_MAX {
                    (
                        EngineStepResult::Next(ProfileEngineRunning {
                            profile,
                            profile_start_time: input.now,
                            stage_start_time: input.now,
                            state: ProfileState::Brewing,
                            current_stage_id,
                        }),
                        actions,
                    )
                } else {
                    (
                        EngineStepResult::Next(ProfileEngineRunning {
                            profile,
                            profile_start_time,
                            stage_start_time,
                            state: ProfileState::Retracting,
                            current_stage_id,
                        }),
                        actions,
                    )
                }
            },
            ProfileState::Brewing => {
                if input.final_weight_reached {
                    return (
                        EngineStepResult::Next(ProfileEngineRunning {
                            profile,
                            profile_start_time,
                            stage_start_time,
                            state: ProfileState::Done,
                            current_stage_id,
                        }),
                        actions,
                    );
                }
                let idx = (current_stage_id - 1) as usize;
                let ghost old_logs = profile.stage_log@;
                let ghost log1 = entry_logged(old_logs[idx as int], input.sensors, input.now);
                let profile_elapsed = elapsed_ds(input.now, profile_start_time);
                let stage_elapsed = elapsed_ds(input.now, stage_start_time);
                if !profile.stage_log[idx].is_valid() {
                    let vars = StageVariables::new(
                        input.sensors.water_flow,
                        input.sensors.water_pressure,
                        input.sensors.piston_position,
                        input.now,
                    );
                    let prior = profile.stage_log[idx];
                    profile.stage_log.set(idx, StageLog { entry: Some(vars), exit: prior.exit });
                }
                proof {
                    assert(profile.stage_log@ =~= old_logs.update(idx as int, log1));
                }
                let scan = crate::exit_trigger::scan_triggers(
                    &profile.stages[idx].exit_trigger,
                    &input.sensors,
                    stage_elapsed,
                    profile_elapsed,
                );
                match scan {
                    ScanOutcome::Unimplemented => {
                        (EngineStepResult::Error(TriggerError::UnimplementedExitType), actions)
                    },
                    ScanOutcome::Fired(i) => {
                        let vars = StageVariables::new(
                            input.sensors.water_flow,
                            input.sensors.water_pressure,
                            input.sensors.piston_position,
                            stage_start_time,
                        );
                        let prior = profile.stage_log[idx];
                        profile.stage_log.set(
                            idx,
                            StageLog { entry: prior.entry, exit: Some(vars) },
                        );
                        proof {
                            assert(profile.stage_log@ =~= old_logs.update(
                                idx as int,
                                exit_logged(log1, input.sensors, stage_start_time),
                            ));
                        }
                        let next_id: u16 = match profile.stages[idx].exit_trigger[i].target_stage()
                        {
                            Some(g) => g as u16,
                            None => current_stage_id + 1,
                        };
                        if 1 <= next_id && next_id as usize <= profile.stages.len() {
                            (
                                EngineStepResult::Next(ProfileEngineRunning {
                                    profile,
                                    profile_start_time,
                                    stage_start_time: input.now,
                                    state: ProfileState::Brewing,
                                    current_stage_id: next_id,
                                }),
                                actions,
                            )
                        } else {
                            (
                                EngineStepResult::Next(ProfileEngineRunning {
                                    profile,
                                    profile_start_time,
                                    stage_start_time,
                                    state: ProfileState::Done,
                                    current_stage_id,
                                }),
                                actions,
                            )
                        }
                    },
                    ScanOutcome::NoMatch => {
                        let ci: i64 = match profile.stages[idx].dynamics.input_type() {
                            InputType::Time => profile_elapsed,
                            InputType::PistonPosition => input.sensors.piston_position,
                            InputType::Weight => input.sensors.weight,
                        };
                        let out = profile.stages[idx].dynamics.run_interpolation(ci);
                        let ghost limits_seq = profile.stages@[idx as int].limits@;
                        let nlim = profile.stages[idx].limits.len();
                        let mut k: usize = 0;
                        while k < nlim
                            invariant
                                k <= nlim,
                                idx < profile.stages@.len(),
                                nlim == profile.stages@[idx as int].limits@.len(),
                                limits_seq == profile.stages@[idx as int].limits@,
                                actions@ =~= limits_seq.subrange(0, k as int).map_values(
                                    |l: Limit| limit_action(l),
                                ),
                            decreases nlim - k,
                        {
                            match profile.stages[idx].limits[k] {
                                Limit::Pressure(p) => {
                                    actions.push(DriverAction::SetPressureLimit(p));
                                },
                                Limit::Flow(f) => {
                                    actions.push(DriverAction::SetFlowLimit(f));
                                },
                            }
                            proof {
                                assert(limits_seq.subrange(0, k + 1) =~= limits_seq.subrange(
                                    0,
                                    k as int,
                                ).push(limits_seq[k as int]));
                                assert(limits_seq.subrange(0, k + 1).map_values(
                                    |l: Limit| limit_action(l),
                                ) =~= limits_seq.subrange(0, k as int).map_values(
                                    |l: Limit| limit_action(l),
                                ).push(limit_action(limits_seq[k as int])));
                            }
                            k = k + 1;
                        }
                        proof {
                            assert(limits_seq.subrange(0, limits_seq.len() as int) =~= limits_seq);
                        }
                        match profile.stages[idx].ctrl() {
                            ControlType::Pressure => {
                                actions.push(DriverAction::SetTargetPressure(out));
                            },
                            ControlType::Flow => {
                                actions.push(DriverAction::SetTargetFlow(out));
                            },
                            ControlType::Power => {
                                actions.push(DriverAction::SetTargetPower(out));
                            },
                            ControlType::PistonPosition => {
                                actions.push(DriverAction::SetTargetPistonPosition(out));
                            },
                        }
                        (
                            EngineStepResult::Next(ProfileEngineRunning {
                                profile,
                                profile_start_time,
                                stage_start_time,
                                state: ProfileState::Brewing,
                                current_stage_id,
                            }),
                            actions,
                        )
                    },
                }
            },
            ProfileState::Done => {
                let next_state = if profile.auto_purge() {
                    ProfileState::Retracting
                } else {
                    ProfileState::Done
                };
                (
                    EngineStepResult::Next(ProfileEngineRunning {
                        profile,
                        profile_start_time,
                        stage_start_time,
                        state: next_state,
                        current_stage_id,
                    }),
                    actions,
                )
            },
            ProfileState::Purging => {
                actions.push(DriverAction::SetTargetPistonPosition(1000));
                proof {
                    assert(actions@ =~= seq![DriverAction::SetTargetPistonPosition(1000i64)]);
                }
                if input.sensors.piston_position >= PISTON_PURGED_MIN {
                    (EngineStepResult::Finished(ProfileEngineIdle { profile }), actions)
                } else {
                    (
                        EngineStepResult::Next(ProfileEngineRunning {
                            profile,
                            profile_start_time,
                            stage_start_time,
                            state: ProfileState::Purging,
                            current_stage_id,
                        }),
                        actions,
                    )
                }
            },
        }
    }
}

/// Law: reaching the final weight during any Brewing tick transitions
/// directly to Done. The override precedes trigger evaluation: no action is
/// taken and the profile, its log included, is left untouched.
pub proof fn lemma_final_weight_overrides(
    pre: ProfileEngineRunning,
    input: StepInput,
    r: EngineStepResult,
    actions: Seq<DriverAction>,
)
    requires
        step_spec(pre, input, r, actions),
        pre.state == ProfileState::Brewing,
        input.final_weight_reached,
    ensures
        r matches EngineStepResult::Next(e2) && e2.state == ProfileState::Done && e2.profile
            == pre.profile,
        actions.len() == 0,
{
}

/// Law: when a fired trigger resolves to a stage id with no corresponding
/// stage, the tick ends in Done.
pub proof fn lemma_unresolved_stage_yields_done(
    pre: ProfileEngineRunning,
    input: StepInput,
    r: EngineStepResult,
    actions: Seq<DriverAction>,
    i: usize,
)
    requires
        step_spec(pre, input, r, actions),
        pre.state == ProfileState::Brewing,
        !input.final_weight_reached,
        brewing_scan(pre, input) == ScanOutcome::Fired(i),
        next_stage_id(
            pre.profile.stages@[pre.current_stage_id - 1].exit_trigger@[i as int],
            pre.current_stage_id,
        ) > pre.profile.stages@.len(),
    ensures
        r matches EngineStepResult::Next(e2) && e2.state == ProfileState::Done,
{
}

} // verus!
