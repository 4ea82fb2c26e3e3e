//! Stage-sequencing and setpoint-generation core of an espresso-machine brew
//! controller.
//!
//! The crate holds the three pieces of the real-time decision loop:
//!
//! * the curve evaluator ([`dynamics`]): piecewise-linear interpolation over a
//!   stage's control curve;
//! * the exit-trigger codec and evaluator ([`exit_trigger`]): a compact
//!   bit-packed condition record plus the check of a condition against a
//!   sensor snapshot;
//! * the stage sequencer ([`engine`]): the phase state machine that computes
//!   hardware setpoints tick by tick.
//!
//! Physical quantities are carried as fixed-point integers in tenths of the
//! physical unit (tenths of a bar, of a ml/s, of a gram, of a percent, of a
//! degree, of a second), matching the resolution of the packed records used on
//! the constrained hardware this controller targets. Timestamps are plain
//! millisecond counts. The caller owns scheduling and hardware access: it
//! reads the sensors into a sensor snapshot, advances the engine one tick, and
//! performs the driver-action writes the engine hands back.

pub mod dynamics;
pub mod engine;
pub mod exit_trigger;
pub mod profile;
pub mod sensor;
