use vstd::prelude::*;

use crate::reading::Reading;

verus! {

/// Error codes the adapter surfaces to its caller. Reset and mode-set
/// faults are reported under `HardwareFailure`.
#[derive(Clone, Copy, Debug, PartialEq, Eq, Structural)]
pub enum ErrorCode {
    HardwareFailure,
}

/// A structured error embedded in a response: a code plus a free-text
/// message built from the underlying driver failure.
#[derive(Clone, Debug, PartialEq, Eq)]
pub struct HalError {
    pub code: ErrorCode,
    pub message: String,
}

/// Outcome of an action-style operation: a success flag, and on failure a
/// structured error.
#[derive(Clone, Debug, PartialEq, Eq)]
pub struct ActionResponse {
    pub success: bool,
    pub error: Option<HalError>,
}

/// A three-axis driver sample: linear acceleration as the driver reports it.
#[derive(Clone, Copy, Debug, PartialEq, Eq, Structural)]
pub struct Vector3 {
    pub x: Reading,
    pub y: Reading,
    pub z: Reading,
}

/// An orientation sample in Euler angles as the driver reports it.
#[derive(Clone, Copy, Debug, PartialEq, Eq, Structural)]
pub struct EulerAngles {
    pub roll: Reading,
    pub pitch: Reading,
    pub yaw: Reading,
}

/// An orientation sample as a quaternion as the driver reports it.
#[derive(Clone, Copy, Debug, PartialEq, Eq, Structural)]
pub struct Quaternion {
    pub w: Reading,
    pub x: Reading,
    pub y: Reading,
    pub z: Reading,
}

/// The full inertial reading handed upward. Only linear acceleration is
/// wired to the hardware: the angular-velocity axes are reported as zero
/// and the magnetometer axes as absent, whatever the chip state.
#[derive(Clone, Debug, PartialEq, Eq)]
pub struct ImuValuesResponse {
    pub accel_x: Reading,
    pub accel_y: Reading,
    pub accel_z: Reading,
    pub gyro_x: Reading,
    pub gyro_y: Reading,
    pub gyro_z: Reading,
    pub mag_x: Option<Reading>,
    pub mag_y: Option<Reading>,
    pub mag_z: Option<Reading>,
    pub error: Option<HalError>,
}

/// The Euler-angle orientation handed upward.
#[derive(Clone, Debug, PartialEq, Eq)]
pub struct EulerAnglesResponse {
    pub roll: Reading,
    pub pitch: Reading,
    pub yaw: Reading,
    pub error: Option<HalError>,
}

/// The quaternion orientation handed upward.
#[derive(Clone, Debug, PartialEq, Eq)]
pub struct QuaternionResponse {
    pub w: Reading,
    pub x: Reading,
    pub y: Reading,
    pub z: Reading,
    pub error: Option<HalError>,
}

/// An opaque payload attached to a long-running-operation record: a type
/// name plus encoded bytes.
#[derive(Clone, Debug, PartialEq, Eq)]
pub struct AnyPayload {
    pub type_url: String,
    pub value: Vec<u8>,
}

/// A long-running-operation record: a name, an optional metadata payload, a
/// completion flag, and an optional result payload.
#[derive(Clone, Debug, PartialEq, Eq)]
pub struct Operation {
    pub name: String,
    pub metadata: Option<AnyPayload>,
    pub done: bool,
    pub result: Option<AnyPayload>,
}

} // verus!
