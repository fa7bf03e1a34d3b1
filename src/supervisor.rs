use vstd::prelude::*;

verus! {

/// Wait before enumerating devices again when none matched (ms).
pub const SEARCH_BACKOFF_MS: u64 = 5000;
/// Interval at which a running stream's restart flag is polled (ms).
pub const POLL_MS: u64 = 500;

/// Lifecycle of the audio capture stream.
#[derive(Clone, Copy, Debug, PartialEq, Eq, Structural)]
pub enum Phase {
    /// No stream: enumerate devices and try to bind one.
    Searching,
    /// A stream is running; its error callback may request a restart.
    Streaming,
}

/// What the capture loop observed.
#[derive(Clone, Copy, Debug, PartialEq, Eq, Structural)]
pub enum SupervisorEvent {
    /// Enumeration found no matching device, or could not be done.
    NoDevice,
    /// A stream was bound, built and started.
    StreamStarted,
    /// A device was found but its stream could not be built or started.
    StreamFailed,
    /// The stream's error callback has set the restart flag.
    RestartRequested,
    /// The restart flag was still clear at a poll.
    StillRunning,
}

/// What the capture loop does next.
#[derive(Clone, Copy, Debug, PartialEq, Eq, Structural)]
pub enum SupervisorAction {
    /// Sleep this many ms, then act on the new phase.
    Wait(u64),
    /// Drop the stream now, then search again.
    TearDown,
}

/// The supervisor's transitions. An event that does not arise in a phase
/// leaves it unchanged.
pub open spec fn transition(phase: Phase, event: SupervisorEvent) -> (Phase, SupervisorAction) {
    match (phase, event) {
        (Phase::Searching, SupervisorEvent::StreamStarted) => (
            Phase::Streaming,
            SupervisorAction::Wait(POLL_MS),
        ),
        (Phase::Searching, _) => (Phase::Searching, SupervisorAction::Wait(SEARCH_BACKOFF_MS)),
        (Phase::Streaming, SupervisorEvent::RestartRequested) => (
            Phase::Searching,
            SupervisorAction::TearDown,
        ),
        (Phase::Streaming, _) => (Phase::Streaming, SupervisorAction::Wait(POLL_MS)),
    }
}

/// Decides the next phase and action of the capture loop.
pub fn supervise(phase: Phase, event: SupervisorEvent) -> (r: (Phase, SupervisorAction))
    ensures
        r == transition(phase, event),
{
    match phase {
        Phase::Searching => {
            if event == SupervisorEvent::StreamStarted {
                (Phase::Streaming, SupervisorAction::Wait(POLL_MS))
            } else {
                (Phase::Searching, SupervisorAction::Wait(SEARCH_BACKOFF_MS))
            }
        },
        Phase::Streaming => {
            if event == SupervisorEvent::RestartRequested {
                (Phase::Searching, SupervisorAction::TearDown)
            } else {
                (Phase::Streaming, SupervisorAction::Wait(POLL_MS))
            }
        },
    }
}

/// Streaming is reached only by a successful start, and left only on a
/// restart request.
pub proof fn lemma_streaming_transitions(phase: Phase, event: SupervisorEvent)
    ensures
        phase == Phase::Searching && transition(phase, event).0 == Phase::Streaming ==> event
            == SupervisorEvent::StreamStarted,
        phase == Phase::Streaming && transition(phase, event).0 == Phase::Searching ==> event
            == SupervisorEvent::RestartRequested,
{
}

} // verus!
