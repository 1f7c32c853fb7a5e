use vstd::prelude::*;
use vstd::string::StringExecFns;

use crate::reading::Reading;
use crate::response::{
    AnyPayload, EulerAngles, EulerAnglesResponse, ImuValuesResponse, Operation, Quaternion,
    QuaternionResponse, Vector3,
};

verus! {

/// Name of the operation record that `calibrate_operation` reports.
pub const CALIBRATE_OPERATION_NAME: &'static str = "operations/calibrate_imu/0";

/// Shapes the outcome of a linear-acceleration read into the full inertial
/// response.
///
/// On a successful read every acceleration axis is forwarded bit-for-bit,
/// the angular-velocity axes are reported as zero and the magnetometer axes
/// as absent — the adapter does not wire those up, whatever the chip state —
/// and the embedded error is absent. A failed read is propagated unchanged
/// as a hard failure of the call.
pub fn values_response(sample: Result<Vector3, String>) -> (resp: Result<
    ImuValuesResponse,
    String,
>)
    ensures
        resp is Ok <==> sample is Ok,
        sample matches Ok(a) ==> resp matches Ok(v) && v == (ImuValuesResponse {
            accel_x: a.x,
            accel_y: a.y,
            accel_z: a.z,
            gyro_x: Reading::spec_zero(),
            gyro_y: Reading::spec_zero(),
            gyro_z: Reading::spec_zero(),
            mag_x: None,
            mag_y: None,
            mag_z: None,
            error: None,
        }),
        sample matches Err(e) ==> resp matches Err(f) && f == e,
{
    match sample {
        Ok(a) => Ok(
            ImuValuesResponse {
                accel_x: a.x,
                accel_y: a.y,
                accel_z: a.z,
                gyro_x: Reading::zero(),
                gyro_y: Reading::zero(),
                gyro_z: Reading::zero(),
                mag_x: None,
                mag_y: None,
                mag_z: None,
                error: None,
            },
        ),
        Err(e) => Err(e),
    }
}

/// Shapes the outcome of an Euler-angle read: roll, pitch and yaw are
/// forwarded bit-for-bit with no embedded error, and a failed read is
/// propagated unchanged.
pub fn euler_response(sample: Result<EulerAngles, String>) -> (resp: Result<
    EulerAnglesResponse,
    String,
>)
    ensures
        resp is Ok <==> sample is Ok,
        sample matches Ok(a) ==> resp matches Ok(v) && v == (EulerAnglesResponse {
            roll: a.roll,
            pitch: a.pitch,
            yaw: a.yaw,
            error: None,
        }),
        sample matches Err(e) ==> resp matches Err(f) && f == e,
{
    match sample {
        Ok(a) => Ok(EulerAnglesResponse { roll: a.roll, pitch: a.pitch, yaw: a.yaw, error: None }),
        Err(e) => Err(e),
    }
}

/// Shapes the outcome of a quaternion read: w, x, y and z are forwarded
/// bit-for-bit with no embedded error, and a failed read is propagated
/// unchanged.
pub fn quaternion_response(sample: Result<Quaternion, String>) -> (resp: Result<
    QuaternionResponse,
    String,
>)
    ensures
        resp is Ok <==> sample is Ok,
        sample matches Ok(a) ==> resp matches Ok(v) && v == (QuaternionResponse {
            w: a.w,
            x: a.x,
            y: a.y,
            z: a.z,
            error: None,
        }),
        sample matches Err(e) ==> resp matches Err(f) && f == e,
{
    match sample {
        Ok(a) => Ok(QuaternionResponse { w: a.w, x: a.x, y: a.y, z: a.z, error: None }),
        Err(e) => Err(e),
    }
}

/// Builds the record that the calibrate operation reports.
///
/// Calibration is not implemented against the hardware: the operation is
/// always reported synchronously complete, under a fixed name, with no
/// metadata and no result payload. The function takes no driver input at
/// all, so a calibrate call never touches the chip.
pub fn calibrate_operation() -> (op: Operation)
    ensures
        op.name@ == CALIBRATE_OPERATION_NAME@,
        op.metadata is None,
        op.done,
        op.result is None,
{
    Operation {
        name: String::from_str(CALIBRATE_OPERATION_NAME),
        metadata: None::<AnyPayload>,
        done: true,
        result: None::<AnyPayload>,
    }
}

} // verus!
