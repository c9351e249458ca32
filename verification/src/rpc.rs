//! RPC message definitions.
//!
//! An RPC message pairs a 16-bit correlation identifier with one payload out
//! of a closed catalog of request/reply variants. The identifier of a reply
//! must equal the identifier of the request that it answers.
//!
//! Real-valued fields (motion-profile parameters, steering positions) are
//! carried as IEEE-754 bit patterns (`u32` for single precision, `u64` for
//! double precision). The protocol engine never interprets them numerically;
//! it only transports them, so the bit pattern is the natural model and makes
//! the codec's round trip exact.
use vstd::prelude::*;

verus! {

/// Representation of a RPC message.
#[derive(Clone, Copy, Debug, PartialEq, Eq)]
pub struct Message {
    /// Message identifier.
    /// Must be the same as the originating message for replies.
    pub id: u16,
    pub payload: Payload,
}

/// The payload of a RPC message.
#[derive(Clone, Copy, Debug, PartialEq, Eq)]
pub enum Payload {
    /// Ping request.
    PingReq(PingReqBody),
    PingRep(PingRepBody),

    /// Move request.
    MoveReq(MoveReqBody),
    MoveRep(MoveRepBody),

    /// Move status request.
    MoveStatusReq(MoveStatusReqBody),
    MoveStatusRep(MoveStatusRepBody),

    /// Move cancel request.
    MoveCancelReq(MoveCancelReqBody),
    MoveCancelRep(MoveCancelRepBody),

    /// PID parameters update request.
    PidParamUpdateReq(PidParamUpdateReqBody),
    PidParamUpdateRep(PidParamUpdateRepBody),

    /// Raw teleop request.
    ///
    /// Allows for direct control over steering servo and drive wheels.
    RawTeleOpReq(RawTeleOpReqBody),
    RawTeleOpRep(RawTeleOpRepBody),
}

pub type PingReqBody = ();

#[derive(Clone, Copy, Debug, PartialEq, Eq)]
pub struct PingRepBody {
    /// Time at the remote in milliseconds.
    ///
    /// All remote timestamps are relative to the start of the remote.
    pub time_ms: u32,
}

/// Time intervals of an S-Curve motion profile.
///
/// Every field is the bit pattern of a double-precision duration in seconds.
#[derive(Clone, Copy, Debug, PartialEq, Eq)]
pub struct SCurveTimeIntervals {
    /// Constant-jerk interval of the acceleration phase.
    pub t_j1: u64,
    /// Constant-jerk interval of the deceleration phase.
    pub t_j2: u64,
    /// Acceleration period.
    pub t_a: u64,
    /// Constant velocity period.
    pub t_v: u64,
    /// Deceleration period.
    pub t_d: u64,
}

/// Start and end conditions of an S-Curve motion profile.
///
/// Every field is the bit pattern of a double-precision value.
#[derive(Clone, Copy, Debug, PartialEq, Eq)]
pub struct SCurveStartConditions {
    /// Start position.
    pub q0: u64,
    /// End position.
    pub q1: u64,
    /// Start velocity.
    pub v0: u64,
    /// End velocity.
    pub v1: u64,
}

/// Final parametrization of an S-Curve motion profile.
///
/// Every scalar field is the bit pattern of a double-precision value.
#[derive(Clone, Copy, Debug, PartialEq, Eq)]
pub struct SCurveParameters {
    /// Time intervals of the trajectory.
    pub time_intervals: SCurveTimeIntervals,
    /// Maximum jerk.
    pub j_max: u64,
    /// Minimum jerk.
    pub j_min: u64,
    /// Maximum achieved acceleration during the acceleration phase.
    pub a_lim_a: u64,
    /// Minimum achieved acceleration during the deceleration phase.
    pub a_lim_d: u64,
    /// Maximum achieved velocity.
    pub v_lim: u64,
    /// Start conditions of the trajectory.
    pub conditions: SCurveStartConditions,
}

/// Body of a move request.
///
/// All units are in encoder counts.
#[derive(Clone, Copy, Debug, PartialEq, Eq)]
pub struct MoveReqBody {
    /// Calculated S-Curve parameters.
    pub params: SCurveParameters,
    /// Ratio of other wheel's position relative to reference wheel.
    ///
    /// Bit pattern of a single-precision value.
    pub ratio: u32,
    /// True if the left wheel is the reference wheel.
    ///
    /// The right wheel is used as the reference otherwise.
    pub ref_left: bool,
    /// Steering value in `[-1, 1]`.
    ///
    /// Bit pattern of a single-precision value.
    pub steering: u32,
    /// Duration to wait for steering to stabilize before starting move.
    ///
    /// In units of milliseconds.
    pub steering_setup_ms: u16,
    /// Whether this move should be done in reverse.
    pub reverse: bool,
}

#[derive(Clone, Copy, Debug, PartialEq, Eq)]
pub enum MoveRepBody {
    /// Controller is busy with another move.
    Busy,
    /// Move command accepted.
    Accepted,
}

pub type MoveStatusReqBody = ();

/// Body of a move status response.
#[derive(Clone, Copy, Debug, PartialEq, Eq)]
pub enum MoveStatusRepBody {
    /// The robot is executing a move.
    Executing {
        /// Elapsed move time, in seconds.
        ///
        /// Bit pattern of a single-precision value.
        elapsed: u32,
        /// Remaining time required for move to complete (in seconds).
        ///
        /// Bit pattern of a single-precision value.
        remaining: u32,
    },
    /// The robot is not executing a move command, but its motors may still
    /// be running if commanded through teleop.
    NoCommand,
}

pub type MoveCancelReqBody = ();
pub type MoveCancelRepBody = ();

/// PID parameters.
///
/// Every field is the bit pattern of a single-precision value.
#[derive(Clone, Copy, Debug, PartialEq, Eq)]
pub struct PidParams {
    pub kp: u32,
    pub ki: u32,
    pub kd: u32,
    pub p_limit: u32,
    pub i_limit: u32,
    pub d_limit: u32,
    pub output_limit: u32,
}

#[derive(Clone, Copy, Debug, PartialEq, Eq)]
pub struct PidParamUpdateReqBody {
    /// Position tracking loop parameters.
    ///
    /// `[0]` is the left motor, & `[1]` is the right motor.
    pub params: [PidParams; 2],
    /// Interval between control loop updates.
    ///
    /// In units of milliseconds.
    pub update_interval_ms: u16,
}

#[derive(Clone, Copy, Debug, PartialEq, Eq)]
pub enum PidParamUpdateRepBody {
    /// Pid parameters updated.
    Updated,
    /// Controller is busy with another move.
    Busy,
}

/// Requests raw control over the robot's actuators.
///
/// Fields that are `None` means that the actuator corresponding to that
/// field will be left in its original state.
#[derive(Clone, Copy, Debug, PartialEq, Eq)]
pub struct RawTeleOpReqBody {
    /// Sets the steering to a given position.
    ///
    /// Range: `[-1, 1]`, where `-1` is full left deflection and `1` is full
    /// right. `0` for neutral. Bit pattern of a single-precision value.
    pub steering: Option<u32>,

    /// Sets the left wheel's PWM duty cycle.
    ///
    /// Range `[-1, 1]`, where `-1` is 100% duty cycle, driving in reverse,
    /// and `1` is 100% duty cycle, driving forwards.
    /// Bit pattern of a single-precision value.
    pub wheel_l: Option<u32>,
    /// Sets the right wheel's PWM duty cycle.
    ///
    /// See `wheel_l` for information about the range of values this can take.
    /// Bit pattern of a single-precision value.
    pub wheel_r: Option<u32>,
}

#[derive(Clone, Copy, Debug, PartialEq, Eq)]
pub enum RawTeleOpRepBody {
    /// Actuator settings applied.
    Applied,
    /// Controller is busy with a move and cannot apply teleop settings.
    Busy,
}

} // verus!
