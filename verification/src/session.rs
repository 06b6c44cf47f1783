//! The playback orchestrator: a state machine that sequences "launch the
//! streaming task" → "send `SetAVTransportURI`" → "send `Play`" → "await the
//! streaming task", with every failure terminal for the session.
//!
//! The machine decides; the surrounding program performs. `next_command` says
//! what outside work is due in the current phase, `on_event` consumes that
//! work's outcome, and `into_outcome` reports the session's result once a
//! terminal phase is reached. No failure is retried: every error event moves
//! the machine to `Failed`, which no event leaves.

use vstd::prelude::*;
use crate::descriptor::MediaDescriptor;
use crate::payload::{transport_payload_of, play_payload_text};

verus! {

/// The two remote actions sent to the renderer.
#[derive(Clone, Copy, PartialEq, Eq, Structural, Debug)]
pub enum ActionName {
    SetAvTransportUri,
    Play,
}

impl ActionName {
    /// The action's name on the wire.
    pub open spec fn text(self) -> Seq<char> {
        match self {
            ActionName::SetAvTransportUri => "SetAVTransportURI"@,
            ActionName::Play => "Play"@,
        }
    }

    /// The action's name on the wire.
    pub fn name(&self) -> (r: &'static str)
        ensures
            r@ == self.text(),
    {
        match self {
            ActionName::SetAvTransportUri => "SetAVTransportURI",
            ActionName::Play => "Play",
        }
    }
}

/// The phases of one playback session, in the order a successful session
/// passes through them; `Failed` is terminal and reachable from every
/// non-terminal phase.
#[derive(Clone, Copy, PartialEq, Eq, Structural, Debug)]
pub enum Phase {
    Idle,
    StreamingStarted,
    TransportUriSet,
    Playing,
    Completed,
    Failed,
}

/// Why a session failed. Every variant carries the underlying detail for the
/// operator's diagnostic; a control-call failure also names the action.
pub enum SessionError {
    LaunchFailed { detail: String },
    ControlCallFailed { action: ActionName, detail: String },
    StreamingFailed { detail: String },
}

/// The outcome of one piece of outside work, handed back to the machine.
pub enum SessionEvent {
    Launched,
    LaunchFailed { detail: String },
    ControlSucceeded,
    ControlFailed { detail: String },
    StreamEnded,
    StreamFailed { detail: String },
}

/// What the machine asks the surrounding program to do next.
pub enum Command {
    LaunchStreaming,
    SendControl { action: ActionName, payload: String },
    AwaitStream,
    CancelStream,
}

/// Which event the current phase can consume: exactly the outcome of the work
/// `next_command` asked for.
pub open spec fn event_expected(p: Phase, ev: SessionEvent) -> bool {
    match (p, ev) {
        (Phase::Idle, SessionEvent::Launched) => true,
        (Phase::Idle, SessionEvent::LaunchFailed { .. }) => true,
        (Phase::StreamingStarted, SessionEvent::ControlSucceeded) => true,
        (Phase::StreamingStarted, SessionEvent::ControlFailed { .. }) => true,
        (Phase::TransportUriSet, SessionEvent::ControlSucceeded) => true,
        (Phase::TransportUriSet, SessionEvent::ControlFailed { .. }) => true,
        (Phase::Playing, SessionEvent::StreamEnded) => true,
        (Phase::Playing, SessionEvent::StreamFailed { .. }) => true,
        _ => false,
    }
}

/// The transition function. An event that the phase does not expect leaves
/// the phase as it stands; in particular no event leaves `Failed` or
/// `Completed`.
pub open spec fn step_phase(p: Phase, ev: SessionEvent) -> Phase {
    match (p, ev) {
        (Phase::Idle, SessionEvent::Launched) => Phase::StreamingStarted,
        (Phase::Idle, SessionEvent::LaunchFailed { .. }) => Phase::Failed,
        (Phase::StreamingStarted, SessionEvent::ControlSucceeded) => Phase::TransportUriSet,
        (Phase::StreamingStarted, SessionEvent::ControlFailed { .. }) => Phase::Failed,
        (Phase::TransportUriSet, SessionEvent::ControlSucceeded) => Phase::Playing,
        (Phase::TransportUriSet, SessionEvent::ControlFailed { .. }) => Phase::Failed,
        (Phase::Playing, SessionEvent::StreamEnded) => Phase::Completed,
        (Phase::Playing, SessionEvent::StreamFailed { .. }) => Phase::Failed,
        _ => p,
    }
}

/// The error recorded by a transition, if the event is a failure; `None`
/// keeps the error as it stands.
pub open spec fn step_error(p: Phase, ev: SessionEvent) -> Option<SessionError> {
    match (p, ev) {
        (Phase::Idle, SessionEvent::LaunchFailed { detail }) => Some(
            SessionError::LaunchFailed { detail },
        ),
        (Phase::StreamingStarted, SessionEvent::ControlFailed { detail }) => Some(
            SessionError::ControlCallFailed { action: ActionName::SetAvTransportUri, detail },
        ),
        (Phase::TransportUriSet, SessionEvent::ControlFailed { detail }) => Some(
            SessionError::ControlCallFailed { action: ActionName::Play, detail },
        ),
        (Phase::Playing, SessionEvent::StreamFailed { detail }) => Some(
            SessionError::StreamingFailed { detail },
        ),
        _ => None,
    }
}

/// The phase a sequence of events drives the machine to, starting from
/// `Idle`.
pub open spec fn trace_phase(evs: Seq<SessionEvent>) -> Phase
    decreases evs.len(),
{
    if evs.len() == 0 {
        Phase::Idle
    } else {
        step_phase(trace_phase(evs.drop_last()), evs.last())
    }
}

/// A sequence of events in which each event is the one its phase expects:
/// exactly the traces the surrounding program can produce when it performs
/// the commanded work and hands back its outcome.
pub open spec fn trace_fits(evs: Seq<SessionEvent>) -> bool
    decreases evs.len(),
{
    evs.len() == 0 || (trace_fits(evs.drop_last()) && event_expected(
        trace_phase(evs.drop_last()),
        evs.last(),
    ))
}

/// A session that is back in `Idle` has consumed no event at all: no fitting
/// trace returns to `Idle`.
pub proof fn lemma_idle_only_initially(evs: Seq<SessionEvent>)
    requires
        trace_fits(evs),
        trace_phase(evs) == Phase::Idle,
    ensures
        evs.len() == 0,
    decreases evs.len(),
{
    if evs.len() > 0 {
        lemma_idle_only_initially(evs.drop_last());
    }
}

/// `SetAVTransportURI` is commanded only in `StreamingStarted`, and the one
/// fitting trace that reaches `StreamingStarted` is the successful launch of
/// the streaming task: the transport call is never sent before the streaming
/// task has been launched.
pub proof fn lemma_transport_only_after_launch(evs: Seq<SessionEvent>)
    requires
        trace_fits(evs),
        trace_phase(evs) == Phase::StreamingStarted,
    ensures
        evs =~= seq![SessionEvent::Launched],
{
    lemma_idle_only_initially(evs.drop_last());
}

/// `Play` is commanded only in `TransportUriSet`, and the one fitting trace
/// that reaches `TransportUriSet` is a launch followed by a successful
/// `SetAVTransportURI` call: `Play` is never sent unless `SetAVTransportURI`
/// completed without error.
pub proof fn lemma_play_only_after_transport_success(evs: Seq<SessionEvent>)
    requires
        trace_fits(evs),
        trace_phase(evs) == Phase::TransportUriSet,
    ensures
        evs =~= seq![SessionEvent::Launched, SessionEvent::ControlSucceeded],
{
    lemma_transport_only_after_launch(evs.drop_last());
}

/// No event leaves `Failed`: once a trace has failed, every longer trace is
/// still failed.
pub proof fn lemma_failed_is_absorbing(evs: Seq<SessionEvent>, i: int)
    requires
        0 <= i <= evs.len(),
        trace_phase(evs.take(i)) == Phase::Failed,
    ensures
        forall|j: int| i <= j <= evs.len() ==> trace_phase(evs.take(j)) == Phase::Failed,
    decreases evs.len() - i,
{
    if i < evs.len() {
        assert(evs.take(i + 1).drop_last() =~= evs.take(i));
        assert(trace_phase(evs.take(i + 1)) == Phase::Failed);
        lemma_failed_is_absorbing(evs, i + 1);
    }
}

/// If the `SetAVTransportURI` call fails, the session records a control-call
/// error naming that action, and every later point of the trace is `Failed`:
/// in particular no later point is `TransportUriSet`, the one phase in which
/// `Play` is commanded, so `Play` is never invoked.
pub proof fn lemma_transport_failure_prevents_play(
    evs: Seq<SessionEvent>,
    i: int,
    detail: String,
)
    requires
        0 <= i < evs.len(),
        trace_phase(evs.take(i)) == Phase::StreamingStarted,
        evs[i] == (SessionEvent::ControlFailed { detail }),
    ensures
        forall|j: int| i < j <= evs.len() ==> trace_phase(evs.take(j)) == Phase::Failed,
        step_error(Phase::StreamingStarted, SessionEvent::ControlFailed { detail }) == Some(
            SessionError::ControlCallFailed { action: ActionName::SetAvTransportUri, detail },
        ),
{
    assert(evs.take(i + 1).drop_last() =~= evs.take(i));
    assert(trace_phase(evs.take(i + 1)) == Phase::Failed);
    lemma_failed_is_absorbing(evs, i + 1);
}

/// Once `Play` has succeeded the session is `Playing`, and the streaming
/// task's completion decides the session exactly: a normal end completes the
/// session with no error recorded, a failure ends it `Failed` with an error
/// naming the streaming failure. Together with `into_outcome` this makes the
/// session's result mirror the streaming task's outcome.
pub proof fn lemma_stream_outcome_decides_session(detail: String)
    ensures
        step_phase(Phase::Playing, SessionEvent::StreamEnded) == Phase::Completed,
        step_error(Phase::Playing, SessionEvent::StreamEnded) is None,
        step_phase(Phase::Playing, SessionEvent::StreamFailed { detail }) == Phase::Failed,
        step_error(Phase::Playing, SessionEvent::StreamFailed { detail }) == Some(
            SessionError::StreamingFailed { detail },
        ),
{
}

/// One playback session: the descriptor it plays, the phase reached, whether
/// the streaming task has been launched, and the error of a failed session.
pub struct PlaybackSession {
    pub descriptor: MediaDescriptor,
    pub phase: Phase,
    pub launched: bool,
    pub error: Option<SessionError>,
}

impl PlaybackSession {
    /// The session's internal consistency: an error is recorded exactly in
    /// `Failed`, and every phase past `Idle` that still streams has launched.
    pub open spec fn wf(self) -> bool {
        &&& (self.phase == Phase::Failed <==> self.error is Some)
        &&& ((self.phase == Phase::StreamingStarted || self.phase == Phase::TransportUriSet
            || self.phase == Phase::Playing) ==> self.launched)
    }

    /// Opens a session for one descriptor, in `Idle`.
    pub fn new(descriptor: MediaDescriptor) -> (r: PlaybackSession)
        ensures
            r.wf(),
            r.phase == Phase::Idle,
            r.descriptor == descriptor,
            !r.launched,
            r.error is None,
    {
        PlaybackSession { descriptor, phase: Phase::Idle, launched: false, error: None }
    }

    /// The outside work due in the current phase: launch the streaming task
    /// first, then send `SetAVTransportURI`, then `Play`, then await the
    /// streaming task; after a failure, cancel a launched streaming task.
    /// `None` means the session is over and nothing is left to do.
    pub fn next_command(&self) -> (r: Option<Command>)
        ensures
            self.phase == Phase::Idle ==> r == Some(Command::LaunchStreaming),
            self.phase == Phase::StreamingStarted ==> (r matches Some(
                Command::SendControl { action, payload },
            ) && action == ActionName::SetAvTransportUri && payload@ == transport_payload_of(
                self.descriptor@,
            )),
            self.phase == Phase::TransportUriSet ==> (r matches Some(
                Command::SendControl { action, payload },
            ) && action == ActionName::Play && payload@ == play_payload_text()),
            self.phase == Phase::Playing ==> r == Some(Command::AwaitStream),
            self.phase == Phase::Completed ==> r is None,
            self.phase == Phase::Failed ==> (if self.launched {
                r == Some(Command::CancelStream)
            } else {
                r is None
            }),
    {
        match self.phase {
            Phase::Idle => Some(Command::LaunchStreaming),
            Phase::StreamingStarted => Some(
                Command::SendControl {
                    action: ActionName::SetAvTransportUri,
                    payload: self.descriptor.build_transport_payload(),
                },
            ),
            Phase::TransportUriSet => Some(
                Command::SendControl {
                    action: ActionName::Play,
                    payload: crate::payload::build_play_payload(),
                },
            ),
            Phase::Playing => Some(Command::AwaitStream),
            Phase::Completed => None,
            Phase::Failed => if self.launched {
                Some(Command::CancelStream)
            } else {
                None
            },
        }
    }

    /// Consumes the outcome of the commanded work: the phase moves as
    /// `step_phase` says, a failure records its error, and the descriptor is
    /// never touched.
    pub fn on_event(&mut self, ev: SessionEvent)
        requires
            old(self).wf(),
            event_expected(old(self).phase, ev),
        ensures
            final(self).wf(),
            final(self).phase == step_phase(old(self).phase, ev),
            final(self).descriptor == old(self).descriptor,
            final(self).launched == (old(self).launched || ev == SessionEvent::Launched),
            step_error(old(self).phase, ev) is Some ==> final(self).error == step_error(
                old(self).phase,
                ev,
            ),
            step_error(old(self).phase, ev) is None ==> final(self).error == old(self).error,
    {
        match ev {
            SessionEvent::Launched => {
                self.phase = Phase::StreamingStarted;
                self.launched = true;
            },
            SessionEvent::LaunchFailed { detail } => {
                self.phase = Phase::Failed;
                self.error = Some(SessionError::LaunchFailed { detail });
            },
            SessionEvent::ControlSucceeded => {
                match self.phase {
                    Phase::StreamingStarted => {
                        self.phase = Phase::TransportUriSet;
                    },
                    _ => {
                        self.phase = Phase::Playing;
                    },
                }
            },
            SessionEvent::ControlFailed { detail } => {
                let action = match self.phase {
                    Phase::StreamingStarted => ActionName::SetAvTransportUri,
                    _ => ActionName::Play,
                };
                self.phase = Phase::Failed;
                self.error = Some(SessionError::ControlCallFailed { action, detail });
            },
            SessionEvent::StreamEnded => {
                self.phase = Phase::Completed;
            },
            SessionEvent::StreamFailed { detail } => {
                self.phase = Phase::Failed;
                self.error = Some(SessionError::StreamingFailed { detail });
            },
        }
    }

    /// The session's result once it is over: success exactly in `Completed`,
    /// and in `Failed` the error that ended it.
    pub fn into_outcome(self) -> (r: Result<(), SessionError>)
        requires
            self.wf(),
            self.phase == Phase::Completed || self.phase == Phase::Failed,
        ensures
            self.phase == Phase::Completed ==> r == Result::<(), SessionError>::Ok(()),
            self.phase == Phase::Failed ==> (r matches Err(e) && Some(e) == self.error),
    {
        match self.error {
            None => Ok(()),
            Some(e) => Err(e),
        }
    }
}

impl SessionError {
    /// The operator's diagnostic: what failed, and the underlying detail; a
    /// control-call failure names the action.
    pub open spec fn message_text(self) -> Seq<char> {
        match self {
            SessionError::LaunchFailed { detail } => "unable to launch the streaming task: "@
                + detail@,
            SessionError::ControlCallFailed { action, detail } => "unable to "@ + action.text()
                + ": "@ + detail@,
            SessionError::StreamingFailed { detail } => "error while serving the media files: "@
                + detail@,
        }
    }

    /// Renders the diagnostic.
    pub fn message(&self) -> (r: String)
        ensures
            r@ == self.message_text(),
    {
        match self {
            SessionError::LaunchFailed { detail } => {
                let mut out = String::new();
                out.append("unable to launch the streaming task: ");
                out.append(detail.as_str());
                out
            },
            SessionError::ControlCallFailed { action, detail } => {
                let mut out = String::new();
                out.append("unable to ");
                out.append(action.name());
                out.append(": ");
                out.append(detail.as_str());
                out
            },
            SessionError::StreamingFailed { detail } => {
                let mut out = String::new();
                out.append("error while serving the media files: ");
                out.append(detail.as_str());
                out
            },
        }
    }
}

} // verus!
