//! The lifecycle every stage shares: it opens its resources once,
//! starts once, runs, and ends in one of two absorbing states — a
//! fatal error or a counterpart's disconnect. Nothing is ever
//! reopened, retried or restarted.

use vstd::prelude::*;

verus! {

/// Lifecycle state of one stage.
#[derive(Clone, Copy, Debug, PartialEq, Eq, Structural)]
pub enum StageState {
    /// Nothing acquired yet.
    Idle,
    /// Session opened and format negotiated.
    Opened,
    /// Stream started.
    Started,
    /// In the periodic loop.
    Running,
    /// A device or network failure stopped the stage for good.
    Stopped,
    /// The counterpart on a shared queue is gone for good.
    Terminated,
}

/// What the stage observed.
#[derive(Clone, Copy, Debug, PartialEq, Eq, Structural)]
pub enum StageEvent {
    /// Resources acquired and format accepted.
    OpenOk,
    /// The stream began.
    StartOk,
    /// One period's work went through.
    StepOk,
    /// A device or network operation failed, or readiness timed out.
    Fatal,
    /// A queue counterpart disconnected.
    Disconnect,
}

pub open spec fn is_terminal(s: StageState) -> bool {
    s == StageState::Stopped || s == StageState::Terminated
}

/// The one transition of the stage lifecycle.
///
/// Failures and disconnects are fatal from every live state, the two
/// terminal states absorb every event, and the happy path runs
/// `Idle → Opened → Started → Running`, then loops on `Running`; an
/// out-of-order happy event (a second open, a start before an open)
/// is a programming error and counts as fatal.
pub open spec fn stage_next_spec(s: StageState, e: StageEvent) -> StageState {
    if is_terminal(s) {
        s
    } else {
        match e {
            StageEvent::Fatal => StageState::Stopped,
            StageEvent::Disconnect => StageState::Terminated,
            StageEvent::OpenOk => if s == StageState::Idle {
                StageState::Opened
            } else {
                StageState::Stopped
            },
            StageEvent::StartOk => if s == StageState::Opened {
                StageState::Started
            } else {
                StageState::Stopped
            },
            StageEvent::StepOk => if s == StageState::Started || s == StageState::Running {
                StageState::Running
            } else {
                StageState::Stopped
            },
        }
    }
}

/// Advance a stage's lifecycle by one observed event.
pub fn stage_next(s: StageState, e: StageEvent) -> (n: StageState)
    ensures
        n == stage_next_spec(s, e),
{
    match s {
        StageState::Stopped => s,
        StageState::Terminated => s,
        _ => match e {
            StageEvent::Fatal => StageState::Stopped,
            StageEvent::Disconnect => StageState::Terminated,
            StageEvent::OpenOk => if matches!(s, StageState::Idle) {
                StageState::Opened
            } else {
                StageState::Stopped
            },
            StageEvent::StartOk => if matches!(s, StageState::Opened) {
                StageState::Started
            } else {
                StageState::Stopped
            },
            StageEvent::StepOk => if matches!(s, StageState::Started) || matches!(
                s,
                StageState::Running,
            ) {
                StageState::Running
            } else {
                StageState::Stopped
            },
        },
    }
}

/// Absorption law: no event leads out of a terminal state, so a dead
/// stage never comes back, and a live stage only ever reaches a
/// terminal state or the next state of the happy path.
pub proof fn lemma_terminal_absorbing(s: StageState, e: StageEvent)
    requires
        is_terminal(s),
    ensures
        stage_next_spec(s, e) == s,
{
}

} // verus!
