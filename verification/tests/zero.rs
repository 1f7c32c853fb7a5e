use zbot_imu::{
    zero_begin, zero_step, ActionResponse, ErrorCode, ZeroAction, ZeroEvent, ZeroState, ZeroStep,
    MODE_FAILURE_PREFIX, ZERO_FAILURE_PREFIX,
};

/// An instrumented stand-in for the chip driver: scripted outcomes, a call
/// count per operation, and a start/end tick for every call so a test can
/// check that no two calls overlap.
struct FakeDriver {
    reset_outcomes: Vec<Result<(), String>>,
    reset_calls: usize,
    mode_outcomes: Vec<Result<(), String>>,
    mode_calls: usize,
    mode: Option<String>,
    intervals: Vec<(usize, usize)>,
    tick: usize,
}

impl FakeDriver {
    fn new(
        reset_outcomes: Vec<Result<(), String>>,
        mode_outcomes: Vec<Result<(), String>>,
    ) -> FakeDriver {
        FakeDriver {
            reset_outcomes,
            reset_calls: 0,
            mode_outcomes,
            mode_calls: 0,
            mode: Some(String::from("ndof")),
            intervals: Vec::new(),
            tick: 0,
        }
    }

    fn begin_call(&mut self) -> usize {
        let start = self.tick;
        self.tick += 1;
        start
    }

    fn end_call(&mut self, start: usize) {
        let end = self.tick;
        self.tick += 1;
        self.intervals.push((start, end));
    }

    fn reset(&mut self) -> Result<(), String> {
        let start = self.begin_call();
        let out = self.reset_outcomes.remove(0);
        self.reset_calls += 1;
        if out.is_ok() {
            // A hardware reset leaves the chip unconfigured.
            self.mode = None;
        }
        self.end_call(start);
        out
    }

    fn set_ndof_mode(&mut self) -> Result<(), String> {
        let start = self.begin_call();
        let out = self.mode_outcomes.remove(0);
        self.mode_calls += 1;
        if out.is_ok() {
            self.mode = Some(String::from("ndof"));
        }
        self.end_call(start);
        out
    }

    fn perform(&mut self, action: ZeroAction) -> ZeroEvent {
        match action {
            ZeroAction::Reset => match self.reset() {
                Ok(()) => ZeroEvent::ResetOk,
                Err(e) => ZeroEvent::ResetFailed(e),
            },
            ZeroAction::SetNdofMode => match self.set_ndof_mode() {
                Ok(()) => ZeroEvent::ModeOk,
                Err(e) => ZeroEvent::ModeFailed(e),
            },
        }
    }
}

/// Drives the zero protocol against the fake driver exactly as the hardware
/// loop does: perform the requested call, feed its outcome back, repeat
/// until the protocol finishes.
fn run_zero(driver: &mut FakeDriver) -> ActionResponse {
    let (mut state, first) = zero_begin();
    let mut pending = Some(first);
    loop {
        let action = pending.take().expect("protocol must finish with a response");
        let event = driver.perform(action);
        let (next, step) = zero_step(state, event);
        state = next;
        match step {
            ZeroStep::Call(a) => {
                pending = Some(a);
            }
            ZeroStep::Finish(resp) => {
                assert_eq!(state, ZeroState::Finished);
                return resp;
            }
        }
    }
}

#[test]
fn zero_begin_asks_for_a_reset_first() {
    let (state, action) = zero_begin();
    assert_eq!(state, ZeroState::AwaitingReset);
    assert_eq!(action, ZeroAction::Reset);
}

#[test]
fn zero_success_resets_then_restores_mode() {
    let mut driver = FakeDriver::new(vec![Ok(())], vec![Ok(())]);
    let resp = run_zero(&mut driver);
    assert!(resp.success);
    assert_eq!(resp.error, None);
    assert_eq!(driver.reset_calls, 1);
    assert_eq!(driver.mode_calls, 1);
    assert_eq!(driver.mode, Some(String::from("ndof")));
}

#[test]
fn zero_reset_failure_reports_and_never_retries() {
    // The fake would succeed on a second attempt; the adapter must still
    // report failure after the first.
    let mut driver = FakeDriver::new(
        vec![Err(String::from("sys trigger write refused")), Err(String::from("still refused")), Ok(())],
        vec![Ok(())],
    );
    let resp = run_zero(&mut driver);
    assert!(!resp.success);
    let err = resp.error.expect("failure carries a structured error");
    assert_eq!(err.code, ErrorCode::HardwareFailure);
    assert_eq!(err.message, format!("{}sys trigger write refused", ZERO_FAILURE_PREFIX));
    assert!(err.message.contains("sys trigger write refused"));
    assert_eq!(driver.reset_calls, 1);
    assert_eq!(driver.mode_calls, 0);
}

#[test]
fn zero_mode_failure_reports_and_leaves_mode_as_the_driver_left_it() {
    let mut driver = FakeDriver::new(vec![Ok(())], vec![Err(String::from("mode write timed out"))]);
    let resp = run_zero(&mut driver);
    assert!(!resp.success);
    let err = resp.error.expect("failure carries a structured error");
    assert_eq!(err.code, ErrorCode::HardwareFailure);
    assert_eq!(err.message, format!("{}mode write timed out", MODE_FAILURE_PREFIX));
    assert!(err.message.contains("mode write timed out"));
    assert_eq!(driver.reset_calls, 1);
    assert_eq!(driver.mode_calls, 1);
    // The reset stripped the mode and the failed mode-set did not restore
    // it; the adapter makes no further call that could move it.
    assert_eq!(driver.mode, None);
}

#[test]
fn zero_driver_calls_never_overlap() {
    let mut driver = FakeDriver::new(vec![Ok(())], vec![Ok(())]);
    let _ = run_zero(&mut driver);
    assert_eq!(driver.intervals.len(), 2);
    for pair in driver.intervals.windows(2) {
        let (_, first_end) = pair[0];
        let (second_start, _) = pair[1];
        assert!(first_end < second_start, "driver calls overlapped");
    }
}

#[test]
fn zero_step_on_mode_success_reports_plain_success() {
    let (state, step) = zero_step(ZeroState::AwaitingMode, ZeroEvent::ModeOk);
    assert_eq!(state, ZeroState::Finished);
    match step {
        ZeroStep::Finish(resp) => {
            assert!(resp.success);
            assert_eq!(resp.error, None);
        }
        ZeroStep::Call(_) => panic!("a completed protocol must not call the driver"),
    }
}

#[test]
fn zero_failure_prefixes_match_the_reported_messages() {
    assert_eq!(ZERO_FAILURE_PREFIX, "Failed to zero IMU: ");
    assert_eq!(MODE_FAILURE_PREFIX, "Failed to set IMU mode: ");
}
