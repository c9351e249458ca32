//! Stream (telemetry) message definitions.
//!
//! Stream messages carry one-way telemetry from the device to the host. They
//! have no correlation identifier: the router fans them out to every current
//! subscriber instead of matching them to a waiter.
use vstd::prelude::*;

verus! {

/// Representation of a stream message.
#[derive(Clone, Copy, Debug, PartialEq, Eq)]
pub struct Message {
    pub payload: Payload,
}

/// Payload of a stream message.
#[derive(Clone, Copy, Debug, PartialEq, Eq)]
pub enum Payload {
    /// Payload contains an AHRS sample.
    Ahrs(AhrsBody),
}

/// Ahrs sample.
///
/// All arrays are `[x, y, z]`.
///
/// Interpretation of the values are left up to upper layers.
#[derive(Clone, Copy, Debug, PartialEq, Eq)]
pub struct AhrsBody {
    /// Acceleration.
    pub acc: [i16; 3],
    /// Angular velocity.
    pub gyro: [i16; 3],
    /// Magnetometer.
    pub mag: [i16; 3],
    /// Device timestamp.
    pub time_ms: u32,
}

} // verus!
