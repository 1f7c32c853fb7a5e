//! Verified core of an adapter that binds a BNO055 inertial-measurement-unit
//! driver to a generic robot-hardware interface.
//!
//! The crate contains the adapter's decision and marshalling logic, proved
//! with Verus: shaping driver samples into the standardized response records,
//! the synchronously-completed calibration record, and the two-step zero
//! protocol (hardware reset, then restoring the normal operating mode) with
//! its structured failure reporting.
//!
//! Hardware access itself — opening the I2C bus, the driver calls, and the
//! lock that serializes them — is I/O and stays outside this crate. The
//! surrounding code hands sample values in and carries responses out; each
//! sensor value travels as the exact bit pattern of the 64-bit reading, so
//! the contracts here pin every field of every response.

mod adapter;
mod reading;
mod response;
mod zero;

pub use adapter::{
    calibrate_operation, euler_response, quaternion_response, values_response,
    CALIBRATE_OPERATION_NAME,
};
pub use reading::Reading;
pub use response::{
    ActionResponse, AnyPayload, ErrorCode, EulerAngles, EulerAnglesResponse, HalError,
    ImuValuesResponse, Operation, Quaternion, QuaternionResponse, Vector3,
};
pub use zero::{
    accepts, is_failure_response, lemma_zero_protocol_serial, next_state, state_after, wf_trace,
    zero_begin, zero_step, ZeroAction, ZeroEvent, ZeroState, ZeroStep, MODE_FAILURE_PREFIX,
    ZERO_FAILURE_PREFIX,
};
