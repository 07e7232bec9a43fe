use gpa_monitor::session::{
    completion_result, PollVerdict, SessionMachine, SessionState, MAX_POLL_ATTEMPTS,
    POLL_INTERVAL_MS,
};
use gpa_monitor::status::GpaStatus;
use gpa_monitor::types::{GpaContextId, GpaError, GpaSessionId};
use gpa_monitor::GpuPerfApiVersion;

fn machine_with_open_session() -> SessionMachine {
    let mut m = SessionMachine::new(GpuPerfApiVersion::V4_1);
    m.on_context_opened(GpaStatus::Success, GpaContextId { raw: 0x10 })
        .unwrap();
    m.on_session_created(GpaStatus::Success, GpaSessionId { raw: 0x20 })
        .unwrap();
    m
}

fn run_pass_to_polling(m: &mut SessionMachine, sample_id: u32) {
    m.on_begin_session(GpaStatus::Success).unwrap();
    m.on_begin_sample(GpaStatus::Success, sample_id).unwrap();
    m.on_end_sample(GpaStatus::Success).unwrap();
    m.on_end_session(GpaStatus::Success).unwrap();
}

#[test]
fn test_poll_budget_is_one_second() {
    assert_eq!(MAX_POLL_ATTEMPTS as u64 * POLL_INTERVAL_MS, 1000);
}

#[test]
fn test_session_never_completing_times_out_within_bound() {
    let mut m = machine_with_open_session();
    run_pass_to_polling(&mut m, 7);
    // The session never reports completion: every poll but the last
    // keeps polling, and the poll that spends the budget gives up with
    // a placeholder instead of hanging.
    let mut polls = 0u32;
    loop {
        let verdict = m.on_poll(GpaStatus::Success, false);
        polls += 1;
        match verdict {
            PollVerdict::KeepPolling => {
                assert!(polls < MAX_POLL_ATTEMPTS);
            }
            PollVerdict::TimedOut => break,
            PollVerdict::Complete => panic!("session cannot complete here"),
        }
    }
    assert_eq!(polls, MAX_POLL_ATTEMPTS);
    assert_eq!(m.state, SessionState::SessionOpen);
    assert_eq!(m.sample, None);
    // The session handle survives the timed-out pass.
    assert_eq!(m.session, Some(GpaSessionId { raw: 0x20 }));
}

#[test]
fn test_completed_pass_reads_result() {
    let mut m = machine_with_open_session();
    run_pass_to_polling(&mut m, 3);
    assert_eq!(m.on_poll(GpaStatus::Success, false), PollVerdict::KeepPolling);
    assert_eq!(m.on_poll(GpaStatus::Success, true), PollVerdict::Complete);
    assert_eq!(m.state, SessionState::SessionComplete);
    assert_eq!(m.sample, Some(3));
    m.on_sample_result(GpaStatus::Success).unwrap();
    assert_eq!(m.state, SessionState::SessionOpen);
}

#[test]
fn test_session_handle_reused_across_passes() {
    let mut m = machine_with_open_session();
    let session_before = m.session;
    for pass in 0..2u32 {
        run_pass_to_polling(&mut m, pass);
        assert_eq!(m.on_poll(GpaStatus::Success, true), PollVerdict::Complete);
        m.on_sample_result(GpaStatus::Success).unwrap();
        // The pass completed without the session being re-created.
        assert_eq!(m.session, session_before);
    }
    assert_eq!(m.session, Some(GpaSessionId { raw: 0x20 }));
}

#[test]
fn test_context_open_failure_is_recoverable() {
    let mut m = SessionMachine::new(GpuPerfApiVersion::V3_17);
    let r = m.on_context_opened(GpaStatus::ErrorHardwareNotSupported, GpaContextId { raw: 1 });
    assert_eq!(
        r,
        Err(GpaError::Status { status: GpaStatus::ErrorHardwareNotSupported })
    );
    assert_eq!(m.state, SessionState::Uninitialized);
    assert_eq!(m.context, None);
}

#[test]
fn test_failed_begin_sample_abandons_pass() {
    let mut m = machine_with_open_session();
    m.on_begin_session(GpaStatus::Success).unwrap();
    let r = m.on_begin_sample(GpaStatus::SampleAlreadyStarted, 9);
    assert_eq!(
        r,
        Err(GpaError::Status { status: GpaStatus::SampleAlreadyStarted })
    );
    assert_eq!(m.state, SessionState::SessionOpen);
    assert_eq!(m.sample, None);
    // The next pass can start cleanly on the same session.
    run_pass_to_polling(&mut m, 10);
    assert_eq!(m.session, Some(GpaSessionId { raw: 0x20 }));
}

#[test]
fn test_poll_error_status_counts_as_incomplete() {
    let mut m = machine_with_open_session();
    run_pass_to_polling(&mut m, 1);
    // A failing poll call does not complete the session; it just
    // consumes budget.
    assert_eq!(
        m.on_poll(GpaStatus::CounterResultNotReady, true),
        PollVerdict::KeepPolling
    );
    assert_eq!(m.on_poll(GpaStatus::Success, true), PollVerdict::Complete);
}

#[test]
fn test_completion_result_folds_verdicts() {
    assert_eq!(completion_result(PollVerdict::Complete), Ok(true));
    assert_eq!(completion_result(PollVerdict::KeepPolling), Ok(false));
    assert_eq!(completion_result(PollVerdict::TimedOut), Err(GpaError::Timeout));
}
