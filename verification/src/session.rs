//! The revision-specific session state machine: context, then session,
//! then one sampling pass at a time (begin-session, begin-sample,
//! end-sample, end-session in strict order), then a bounded completion
//! poll, then the result read.
//!
//! The machine holds the protocol decisions; the host program makes the
//! vendor calls and reports each status back.  Two invariants carry the
//! design: the session is created once and reused across passes (there
//! is no path back to a state in which a session could be created
//! again), and the completion poll is bounded, so a stalled session
//! costs at most the fixed poll budget and yields a placeholder.

use vstd::prelude::*;
use crate::GpuPerfApiVersion;
use crate::status::GpaStatus;
use crate::types::{GpaContextId, GpaError, GpaResult, GpaSessionId};

verus! {

/// Most completion polls allowed per sampling pass.
pub const MAX_POLL_ATTEMPTS: u32 = 100;

/// Sleep between completion polls, in milliseconds.  Together with the
/// attempt bound this caps a stalled pass at about one second.
pub const POLL_INTERVAL_MS: u64 = 10;

/// Where within one sampling pass the machine stands.
#[derive(Debug, Clone, Copy, PartialEq, Eq, Structural)]
pub enum SamplePhase {
    /// begin-session succeeded; begin-sample is next.
    SessionBegun,
    /// begin-sample succeeded; one sample is outstanding.
    SampleBegun,
    /// end-sample succeeded; end-session is next.
    SampleEnded,
    /// end-session succeeded; polling for completion.
    AwaitingCompletion,
}

/// The protocol states.  `SessionActive` is re-entered once per pass;
/// only one sample is outstanding at a time — the protocol is not
/// reentrant.
#[derive(Debug, Clone, Copy, PartialEq, Eq, Structural)]
pub enum SessionState {
    Uninitialized,
    ContextOpen,
    SessionOpen,
    SessionActive(SamplePhase),
    SessionComplete,
}

/// Verdict of one completion poll.
#[derive(Debug, Clone, Copy, PartialEq, Eq, Structural)]
pub enum PollVerdict {
    /// Not complete yet and budget remains: sleep and poll again.
    KeepPolling,
    /// The session reported completion; the result may be read.
    Complete,
    /// The poll budget is spent: give up on this pass and report a
    /// placeholder, never hang.
    TimedOut,
}

/// The session state machine of one monitor.
#[derive(Debug, Clone, Copy, PartialEq, Eq, Structural)]
pub struct SessionMachine {
    pub revision: GpuPerfApiVersion,
    pub state: SessionState,
    pub context: Option<GpaContextId>,
    pub session: Option<GpaSessionId>,
    pub sample: Option<u32>,
    pub poll_attempts: u32,
}

impl SessionMachine {
    /// Handles exist from the state they are acquired in onward, a
    /// sample id exists while a sample is outstanding, and the poll
    /// counter never passes its bound.
    pub open spec fn wf(self) -> bool {
        &&& !(self.state is Uninitialized) ==> self.context is Some
        &&& match self.state {
            SessionState::Uninitialized => true,
            SessionState::ContextOpen => true,
            _ => self.session is Some,
        }
        &&& match self.state {
            SessionState::SessionActive(phase) => if phase is SessionBegun {
                self.sample is None
            } else {
                self.sample is Some
            },
            SessionState::SessionComplete => self.sample is Some,
            _ => self.sample is None,
        }
        &&& self.poll_attempts < MAX_POLL_ATTEMPTS
    }

    pub fn new(revision: GpuPerfApiVersion) -> (m: Self)
        ensures
            m.wf(),
            m.revision == revision,
            m.state is Uninitialized,
            m.context is None,
            m.session is None,
            m.sample is None,
            m.poll_attempts == 0,
    {
        SessionMachine {
            revision,
            state: SessionState::Uninitialized,
            context: None,
            session: None,
            sample: None,
            poll_attempts: 0,
        }
    }

    /// Outcome of opening a context against the default adapter.
    /// Failure is recoverable for the caller — the machine stays
    /// uninitialized and legacy-path estimation remains possible.
    pub fn on_context_opened(&mut self, status: GpaStatus, context: GpaContextId) -> (r: GpaResult<
        (),
    >)
        requires
            old(self).wf(),
            old(self).state is Uninitialized,
        ensures
            final(self).wf(),
            final(self).revision == old(self).revision,
            status is Success ==> r is Ok && final(self).state is ContextOpen
                && final(self).context == Some(context) && final(self).session is None,
            !(status is Success) ==> r == Err::<(), GpaError>((GpaError::Status { status }))
                && *final(self) == *old(self),
    {
        if status.is_success() {
            self.state = SessionState::ContextOpen;
            self.context = Some(context);
            self.session = None;
            self.sample = None;
            Ok(())
        } else {
            Err(GpaError::Status { status })
        }
    }

    /// Outcome of creating the session.  This is the only transition
    /// that sets the session handle, and no transition leads back to
    /// `ContextOpen`: the session is created once and reused for every
    /// later pass.
    pub fn on_session_created(&mut self, status: GpaStatus, session: GpaSessionId) -> (r: GpaResult<
        (),
    >)
        requires
            old(self).wf(),
            old(self).state is ContextOpen,
        ensures
            final(self).wf(),
            final(self).revision == old(self).revision,
            final(self).context == old(self).context,
            status is Success ==> r is Ok && final(self).state is SessionOpen
                && final(self).session == Some(session) && final(self).sample is None
                && final(self).poll_attempts == 0,
            !(status is Success) ==> r == Err::<(), GpaError>((GpaError::Status { status }))
                && *final(self) == *old(self),
    {
        if status.is_success() {
            self.state = SessionState::SessionOpen;
            self.session = Some(session);
            self.sample = None;
            self.poll_attempts = 0;
            Ok(())
        } else {
            Err(GpaError::Status { status })
        }
    }

    /// Outcome of begin-session, the first call of a sampling pass.
    pub fn on_begin_session(&mut self, status: GpaStatus) -> (r: GpaResult<()>)
        requires
            old(self).wf(),
            old(self).state is SessionOpen,
        ensures
            final(self).wf(),
            final(self).revision == old(self).revision,
            final(self).context == old(self).context,
            final(self).session == old(self).session,
            status is Success ==> r is Ok && final(self).state == SessionState::SessionActive(
                SamplePhase::SessionBegun,
            ),
            !(status is Success) ==> r == Err::<(), GpaError>((GpaError::Status { status }))
                && *final(self) == *old(self),
    {
        if status.is_success() {
            self.state = SessionState::SessionActive(SamplePhase::SessionBegun);
            Ok(())
        } else {
            Err(GpaError::Status { status })
        }
    }

    /// Outcome of begin-sample.  On failure the pass is abandoned and
    /// the machine returns to the idle session, ready for the next poll
    /// cycle.
    pub fn on_begin_sample(&mut self, status: GpaStatus, sample_id: u32) -> (r: GpaResult<()>)
        requires
            old(self).wf(),
            old(self).state == SessionState::SessionActive(SamplePhase::SessionBegun),
        ensures
            final(self).wf(),
            final(self).revision == old(self).revision,
            final(self).context == old(self).context,
            final(self).session == old(self).session,
            status is Success ==> r is Ok && final(self).state == SessionState::SessionActive(
                SamplePhase::SampleBegun,
            ) && final(self).sample == Some(sample_id),
            !(status is Success) ==> r == Err::<(), GpaError>((GpaError::Status { status }))
                && final(self).state is SessionOpen && final(self).sample is None,
    {
        if status.is_success() {
            self.state = SessionState::SessionActive(SamplePhase::SampleBegun);
            self.sample = Some(sample_id);
            Ok(())
        } else {
            self.state = SessionState::SessionOpen;
            self.sample = None;
            Err(GpaError::Status { status })
        }
    }

    /// Outcome of end-sample, ending the measurement interval.
    pub fn on_end_sample(&mut self, status: GpaStatus) -> (r: GpaResult<()>)
        requires
            old(self).wf(),
            old(self).state == SessionState::SessionActive(SamplePhase::SampleBegun),
        ensures
            final(self).wf(),
            final(self).revision == old(self).revision,
            final(self).context == old(self).context,
            final(self).session == old(self).session,
            status is Success ==> r is Ok && final(self).state == SessionState::SessionActive(
                SamplePhase::SampleEnded,
            ) && final(self).sample == old(self).sample,
            !(status is Success) ==> r == Err::<(), GpaError>((GpaError::Status { status }))
                && final(self).state is SessionOpen && final(self).sample is None,
    {
        if status.is_success() {
            self.state = SessionState::SessionActive(SamplePhase::SampleEnded);
            Ok(())
        } else {
            self.state = SessionState::SessionOpen;
            self.sample = None;
            Err(GpaError::Status { status })
        }
    }

    /// Outcome of end-session.  On success the completion poll starts
    /// with a fresh attempt budget.
    pub fn on_end_session(&mut self, status: GpaStatus) -> (r: GpaResult<()>)
        requires
            old(self).wf(),
            old(self).state == SessionState::SessionActive(SamplePhase::SampleEnded),
        ensures
            final(self).wf(),
            final(self).revision == old(self).revision,
            final(self).context == old(self).context,
            final(self).session == old(self).session,
            status is Success ==> r is Ok && final(self).state == SessionState::SessionActive(
                SamplePhase::AwaitingCompletion,
            ) && final(self).sample == old(self).sample && final(self).poll_attempts == 0,
            !(status is Success) ==> r == Err::<(), GpaError>((GpaError::Status { status }))
                && final(self).state is SessionOpen && final(self).sample is None,
    {
        if status.is_success() {
            self.state = SessionState::SessionActive(SamplePhase::AwaitingCompletion);
            self.poll_attempts = 0;
            Ok(())
        } else {
            self.state = SessionState::SessionOpen;
            self.sample = None;
            Err(GpaError::Status { status })
        }
    }

    /// One step of the bounded completion poll: completion moves to
    /// `SessionComplete`; anything else consumes one attempt, and the
    /// attempt that spends the budget abandons the pass instead of
    /// hanging.  A non-success poll status counts as "not complete".
    pub open spec fn spec_poll_step(m: SessionMachine, status: GpaStatus, complete: bool) -> (
        SessionMachine,
        PollVerdict,
    ) {
        if status is Success && complete {
            (SessionMachine { state: SessionState::SessionComplete, ..m }, PollVerdict::Complete)
        } else if m.poll_attempts + 1 >= MAX_POLL_ATTEMPTS {
            (
                SessionMachine {
                    state: SessionState::SessionOpen,
                    sample: None,
                    poll_attempts: 0,
                    ..m
                },
                PollVerdict::TimedOut,
            )
        } else {
            (
                SessionMachine { poll_attempts: (m.poll_attempts + 1) as u32, ..m },
                PollVerdict::KeepPolling,
            )
        }
    }

    /// Apply one completion-poll outcome.
    pub fn on_poll(&mut self, status: GpaStatus, complete: bool) -> (v: PollVerdict)
        requires
            old(self).wf(),
            old(self).state == SessionState::SessionActive(SamplePhase::AwaitingCompletion),
        ensures
            final(self).wf(),
            (*final(self), v) == Self::spec_poll_step(*old(self), status, complete),
            final(self).revision == old(self).revision,
            final(self).context == old(self).context,
            final(self).session == old(self).session,
            v is Complete ==> final(self).state is SessionComplete
                && final(self).sample == old(self).sample,
            v is TimedOut ==> final(self).state is SessionOpen && final(self).sample is None,
            v is KeepPolling ==> final(self).state == old(self).state && final(self).poll_attempts
                == old(self).poll_attempts + 1,
    {
        if status.is_success() && complete {
            self.state = SessionState::SessionComplete;
            PollVerdict::Complete
        } else if self.poll_attempts + 1 >= MAX_POLL_ATTEMPTS {
            self.state = SessionState::SessionOpen;
            self.sample = None;
            self.poll_attempts = 0;
            PollVerdict::TimedOut
        } else {
            self.poll_attempts = self.poll_attempts + 1;
            PollVerdict::KeepPolling
        }
    }

    /// Outcome of reading the sample result after completion.  Either
    /// way the pass is over and the machine returns to the idle
    /// session, keeping the same session handle for the next pass.
    pub fn on_sample_result(&mut self, status: GpaStatus) -> (r: GpaResult<()>)
        requires
            old(self).wf(),
            old(self).state is SessionComplete,
        ensures
            final(self).wf(),
            final(self).revision == old(self).revision,
            final(self).context == old(self).context,
            final(self).session == old(self).session,
            final(self).state is SessionOpen,
            final(self).sample is None,
            status is Success <==> r is Ok,
            !(status is Success) ==> r == Err::<(), GpaError>((GpaError::Status { status })),
    {
        self.state = SessionState::SessionOpen;
        self.sample = None;
        if status.is_success() {
            Ok(())
        } else {
            Err(GpaError::Status { status })
        }
    }
}

/// Fold a completion-poll verdict into a result, for callers that carry
/// the poll as one fallible step: completion and pending polls are not
/// errors, while a spent budget is the timeout error — recoverable,
/// read as a zero placeholder for this cycle only.
pub fn completion_result(v: PollVerdict) -> (r: GpaResult<bool>)
    ensures
        v is Complete ==> r == Ok::<bool, GpaError>(true),
        v is KeepPolling ==> r == Ok::<bool, GpaError>(false),
        v is TimedOut ==> r == Err::<bool, GpaError>(GpaError::Timeout),
{
    match v {
        PollVerdict::Complete => Ok(true),
        PollVerdict::KeepPolling => Ok(false),
        PollVerdict::TimedOut => Err(GpaError::Timeout),
    }
}

/// How many poll events are consumed before the machine leaves the
/// polling phase: every event up to and including the first one whose
/// verdict is not `KeepPolling`.
pub open spec fn spec_polls_until_exit(m: SessionMachine, events: Seq<(GpaStatus, bool)>) -> int
    decreases events.len(),
{
    if events.len() == 0 {
        0
    } else {
        let stepped = SessionMachine::spec_poll_step(m, events[0].0, events[0].1);
        if stepped.1 is KeepPolling {
            1 + spec_polls_until_exit(stepped.0, events.skip(1))
        } else {
            1
        }
    }
}

/// The completion poll terminates within its fixed bound: from any
/// polling state, at most the remaining attempt budget of poll events
/// is consumed before the machine leaves the polling phase — even if
/// the session never reports completion, the pass ends in `TimedOut`
/// rather than hanging.
pub proof fn lemma_poll_bounded(m: SessionMachine, events: Seq<(GpaStatus, bool)>)
    requires
        m.poll_attempts < MAX_POLL_ATTEMPTS,
    ensures
        spec_polls_until_exit(m, events) <= MAX_POLL_ATTEMPTS - m.poll_attempts,
    decreases events.len(),
{
    if events.len() > 0 {
        let stepped = SessionMachine::spec_poll_step(m, events[0].0, events[0].1);
        if stepped.1 is KeepPolling {
            lemma_poll_bounded(stepped.0, events.skip(1));
        }
    }
}

/// A sampling pass never replaces the session: the completion-poll step
/// keeps the session handle whatever the poll reports, and the only
/// transition that sets a session handle starts from `ContextOpen`, a
/// state no later transition returns to.  Together with the per-method
/// contracts this gives session reuse across poll cycles.
pub proof fn lemma_poll_preserves_session(m: SessionMachine, status: GpaStatus, complete: bool)
    ensures
        SessionMachine::spec_poll_step(m, status, complete).0.session == m.session,
        SessionMachine::spec_poll_step(m, status, complete).0.context == m.context,
{
}

/// The poll budget caps a stalled pass at one second of waiting.
pub proof fn lemma_poll_budget_is_one_second()
    ensures
        MAX_POLL_ATTEMPTS as int * POLL_INTERVAL_MS as int == 1000,
{
}

} // verus!
