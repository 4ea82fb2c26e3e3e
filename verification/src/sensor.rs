//! The sensor/driver capability boundary, as plain data.
//!
//! The engine is synchronous and poll-driven: the caller reads the hardware
//! into a [`SensorSnapshot`] before each tick and performs the
//! [`DriverAction`] writes the engine returns. All quantities are fixed-point
//! integers in tenths of the physical unit.

use vstd::prelude::*;

verus! {

/// One tick's sensor readings, in tenths of a unit: bar, ml/s, gram, percent
/// and degree Celsius respectively.
#[derive(Clone, Copy, Debug, PartialEq, Eq, Structural)]
pub struct SensorSnapshot {
    /// Piston position, tenths of a percent (0 retracted, 1000 extended).
    pub piston_position: i64,
    /// Water flow, tenths of a ml/s.
    pub water_flow: i64,
    /// Water pressure, tenths of a bar.
    pub water_pressure: i64,
    /// Extracted weight, tenths of a gram.
    pub weight: i64,
    /// Stabilized temperature, tenths of a degree Celsius.
    pub stable_temperature: i64,
    /// Whether the exit-gesture (a single tap of the encoder button) was
    /// observed this tick.
    pub button_gesture: bool,
}

/// A setpoint or limit write the caller must perform on the hardware driver.
/// Values are in tenths of the written quantity's unit.
#[derive(Clone, Copy, Debug, PartialEq, Eq, Structural)]
pub enum DriverAction {
    /// Target temperature, tenths of a degree Celsius.
    SetTargetTemperature(i64),
    /// Target (final) weight, tenths of a gram.
    SetTargetWeight(i64),
    /// Target pressure, tenths of a bar.
    SetTargetPressure(i64),
    /// Pressure ceiling, tenths of a bar.
    SetPressureLimit(i64),
    /// Target flow, tenths of a ml/s.
    SetTargetFlow(i64),
    /// Flow ceiling, tenths of a ml/s.
    SetFlowLimit(i64),
    /// Target power, tenths of a percent.
    SetTargetPower(i64),
    /// Target piston position, tenths of a percent.
    SetTargetPistonPosition(i64),
}

} // verus!
