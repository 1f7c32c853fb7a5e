use vstd::prelude::*;
use vstd::string::StringExecFns;

use crate::response::{ActionResponse, ErrorCode, HalError};

verus! {

/// A driver call the zero protocol asks the surrounding hardware code to
/// perform.
#[derive(Clone, Copy, Debug, PartialEq, Eq, Structural)]
pub enum ZeroAction {
    /// Issue a hardware reset of the chip.
    Reset,
    /// Re-apply the chip's normal operating mode, required after any reset.
    SetNdofMode,
}

/// The protocol's position between driver calls: which call is outstanding,
/// or that the protocol has produced its response.
#[derive(Clone, Copy, Debug, PartialEq, Eq, Structural)]
pub enum ZeroState {
    AwaitingReset,
    AwaitingMode,
    Finished,
}

/// The outcome of the outstanding driver call, as the surrounding code
/// reports it back; a failure carries the driver's message.
#[derive(Clone, Debug, PartialEq, Eq)]
pub enum ZeroEvent {
    ResetOk,
    ResetFailed(String),
    ModeOk,
    ModeFailed(String),
}

/// What a protocol step asks for next: another driver call, or the final
/// action response.
#[derive(Clone, Debug, PartialEq, Eq)]
pub enum ZeroStep {
    Call(ZeroAction),
    Finish(ActionResponse),
}

/// Message prefix of the response reported when the hardware reset fails.
pub const ZERO_FAILURE_PREFIX: &'static str = "Failed to zero IMU: ";

/// Message prefix of the response reported when re-applying the operating
/// mode after a successful reset fails.
pub const MODE_FAILURE_PREFIX: &'static str = "Failed to set IMU mode: ";

/// Whether `event` can be delivered in `state`: only the outcome of the one
/// outstanding driver call is accepted, and a finished protocol accepts
/// nothing. Driver calls therefore never overlap within a zero operation:
/// a new call is requested only by the step that consumed the outcome of
/// the previous one.
pub open spec fn accepts(state: ZeroState, event: ZeroEvent) -> bool {
    match state {
        ZeroState::AwaitingReset => event is ResetOk || event is ResetFailed,
        ZeroState::AwaitingMode => event is ModeOk || event is ModeFailed,
        ZeroState::Finished => false,
    }
}

/// The state a step moves to: a successful reset goes on to the mode-set
/// call; every other outcome finishes the protocol.
pub open spec fn next_state(state: ZeroState, event: ZeroEvent) -> ZeroState {
    match state {
        ZeroState::AwaitingReset => if event is ResetOk {
            ZeroState::AwaitingMode
        } else {
            ZeroState::Finished
        },
        ZeroState::AwaitingMode => ZeroState::Finished,
        ZeroState::Finished => ZeroState::Finished,
    }
}

/// A failure response as the zero protocol reports it: not successful, with
/// a hardware-failure error carrying the given message.
pub open spec fn is_failure_response(resp: ActionResponse, message: Seq<char>) -> bool {
    &&& !resp.success
    &&& resp.error matches Some(err) && err.code is HardwareFailure && err.message@ == message
}

/// Enters the zero protocol: the first and only unconditional driver call
/// is a hardware reset.
pub fn zero_begin() -> (r: (ZeroState, ZeroAction))
    ensures
        r.0 is AwaitingReset,
        r.1 is Reset,
{
    (ZeroState::AwaitingReset, ZeroAction::Reset)
}

/// Advances the zero protocol by the outcome of the outstanding driver call.
///
/// A successful reset asks for exactly one more call, re-applying the
/// normal operating mode. A reset failure finishes at once with a
/// hardware-failure response whose message extends `ZERO_FAILURE_PREFIX`
/// by the driver's description — no retry is ever requested. A mode-set
/// failure finishes likewise under `MODE_FAILURE_PREFIX`, with no further
/// call that could move the chip's mode. A successful mode set finishes
/// with a plain success response.
pub fn zero_step(state: ZeroState, event: ZeroEvent) -> (r: (ZeroState, ZeroStep))
    requires
        accepts(state, event),
    ensures
        r.0 == next_state(state, event),
        event is ResetOk ==> (r.1 matches ZeroStep::Call(a) && a is SetNdofMode),
        event matches ZeroEvent::ResetFailed(e) ==> r.1 matches ZeroStep::Finish(resp)
            && is_failure_response(resp, ZERO_FAILURE_PREFIX@ + e@),
        event is ModeOk ==> (r.1 matches ZeroStep::Finish(resp) && resp.success && resp.error
            is None),
        event matches ZeroEvent::ModeFailed(e) ==> r.1 matches ZeroStep::Finish(resp)
            && is_failure_response(resp, MODE_FAILURE_PREFIX@ + e@),
        r.1 matches ZeroStep::Call(a) ==> a !is Reset,
{
    match event {
        ZeroEvent::ResetOk => (ZeroState::AwaitingMode, ZeroStep::Call(ZeroAction::SetNdofMode)),
        ZeroEvent::ResetFailed(e) => (
            ZeroState::Finished,
            ZeroStep::Finish(failure_response(ZERO_FAILURE_PREFIX, e)),
        ),
        ZeroEvent::ModeOk => (
            ZeroState::Finished,
            ZeroStep::Finish(ActionResponse { success: true, error: None }),
        ),
        ZeroEvent::ModeFailed(e) => (
            ZeroState::Finished,
            ZeroStep::Finish(failure_response(MODE_FAILURE_PREFIX, e)),
        ),
    }
}

/// The protocol state after a sequence of delivered driver-call outcomes,
/// starting from the state `zero_begin` enters.
pub open spec fn state_after(events: Seq<ZeroEvent>) -> ZeroState
    decreases events.len(),
{
    if events.len() == 0 {
        ZeroState::AwaitingReset
    } else {
        next_state(state_after(events.drop_last()), events.last())
    }
}

/// A sequence of driver-call outcomes the protocol can actually consume:
/// each one is accepted in the state reached by those before it.
pub open spec fn wf_trace(events: Seq<ZeroEvent>) -> bool {
    forall|i: int|
        0 <= i < events.len() ==> accepts(state_after(events.take(i)), #[trigger] events[i])
}

/// Law: within one zero operation the driver calls are strictly serial and
/// never retried. Any sequence of outcomes the protocol consumes holds at
/// most two of them; the first is the outcome of the single reset, and a
/// second exists only after a successful reset and is the outcome of the
/// single mode-set call.
pub proof fn lemma_zero_protocol_serial(events: Seq<ZeroEvent>)
    requires
        wf_trace(events),
    ensures
        events.len() <= 2,
        events.len() >= 1 ==> (events[0] is ResetOk || events[0] is ResetFailed),
        events.len() == 2 ==> events[0] is ResetOk && (events[1] is ModeOk || events[1]
            is ModeFailed),
{
    if events.len() >= 1 {
        assert(events.take(0) =~= Seq::<ZeroEvent>::empty());
        assert(state_after(events.take(0)) is AwaitingReset);
        assert(accepts(state_after(events.take(0)), events[0]));
    }
    if events.len() >= 2 {
        assert(events.take(1).drop_last() =~= events.take(0));
        assert(events.take(1).last() == events[0]);
        assert(state_after(events.take(1)) == next_state(ZeroState::AwaitingReset, events[0]));
        assert(accepts(state_after(events.take(1)), events[1]));
        assert(events[0] is ResetOk);
        assert(state_after(events.take(1)) is AwaitingMode);
    }
    if events.len() >= 3 {
        assert(events.take(2).drop_last() =~= events.take(1));
        assert(events.take(2).last() == events[1]);
        assert(state_after(events.take(2)) == next_state(ZeroState::AwaitingMode, events[1]));
        assert(state_after(events.take(2)) is Finished);
        assert(accepts(state_after(events.take(2)), events[2]));
        assert(false);
    }
}

/// Builds the hardware-failure response whose message is `prefix` followed
/// by the driver's description.
fn failure_response(prefix: &str, detail: String) -> (resp: ActionResponse)
    ensures
        is_failure_response(resp, prefix@ + detail@),
{
    let mut message = String::from_str(prefix);
    message.append(detail.as_str());
    ActionResponse {
        success: false,
        error: Some(HalError { code: ErrorCode::HardwareFailure, message }),
    }
}

} // verus!
