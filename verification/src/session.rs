//! The decisions of the transport session.
//!
//! The session sends frames and keep-alive replies over one connection and
//! reads the server's feedback from it. Sending and receiving is the
//! caller's part; for every result it hands back the session says what is to
//! happen next.

use vstd::prelude::*;
use crate::json::parsed;
use crate::messages::decode_feedback;
use crate::messages::feedback_of;
use crate::messages::FeedbackEffect;
use crate::telemetry::SharedTelemetry;

verus! {

/// Milliseconds between two frames while the network is congested.
pub const CONGESTED_DELAY_MS: u64 = 100;

/// Milliseconds between two frames otherwise.
pub const CLEAR_DELAY_MS: u64 = 10;

/// Milliseconds added while the queue is long.
pub const BACKLOG_DELAY_MS: u64 = 50;

/// The queue is long above this counter value.
pub const BACKLOG_ABOVE: u64 = 30;

/// Milliseconds between a failed send and the reconnect.
pub const RECONNECT_BACKOFF_MS: u64 = 5000;

/// More failed sends in a row than this mark the network as congested.
pub const FAILURES_TOLERATED: u32 = 3;

/// More frames sent in a row than this mark the network as not congested.
pub const FRAMES_TO_CLEAR: u32 = 10;

/// More replies sent in a row than this mark the network as not congested.
pub const REPLIES_TO_CLEAR: u32 = 4;

/// Keep-alive replies that may wait for the sender at a time.
pub const REPLY_BACKLOG: usize = 10;

/// Where the outbound side of the session stands.
#[derive(Clone, Copy, Debug, PartialEq, Eq, Structural)]
pub enum Phase {
    /// Frames and replies are sent as they come.
    Streaming,
    /// A send has failed; the one reconnect is under way.
    Reconnecting,
    /// The connection is new; the join message is under way.
    Rejoining,
    /// The session has given up.
    Stopped,
}

/// The outbound side of the session.
#[derive(Clone, Copy, Debug, PartialEq, Eq, Structural)]
pub struct TransportSession {
    pub phase: Phase,
    /// Sends failed in a row.
    pub failures: u32,
    /// Sends delivered in a row.
    pub successes: u32,
    /// The send that failed last was a frame, so that the pacing delay is
    /// still owed once the session streams again.
    pub pacing_owed: bool,
}

/// What the caller reports to the session.
#[derive(Clone, Copy, Debug, PartialEq, Eq, Structural)]
pub enum SessionEvent {
    /// A frame message was sent, or could not be.
    FrameSent { delivered: bool },
    /// A keep-alive reply was sent, or could not be.
    ReplySent { delivered: bool },
    /// The reconnect succeeded, or did not.
    Reconnected { connected: bool },
    /// The join message on the new connection was sent, or could not be.
    Rejoined { delivered: bool },
}

/// What the caller is to do next.
#[derive(Clone, Copy, Debug, PartialEq, Eq, Structural)]
pub enum SessionAction {
    /// Take the next frame or reply at once.
    Continue,
    /// Sleep for the pacing delay, then take the next frame or reply.
    Pace,
    /// Sleep for `backoff_ms`, connect anew once, and report the outcome.
    Reconnect { backoff_ms: u64 },
    /// Send the join message on the new connection and report the outcome.
    Rejoin,
    /// End the outbound loop.
    Stop,
}

/// The session's answer to an event.
#[derive(Clone, Copy, Debug, PartialEq, Eq, Structural)]
pub struct SessionStep {
    pub action: SessionAction,
    /// The congestion flag to publish, if any.
    pub congested: Option<bool>,
}

/// An answer carried out: the action, the congestion flag as it was read
/// afterwards, and the pacing delay that goes with that reading.
#[derive(Clone, Copy, Debug, PartialEq, Eq, Structural)]
pub struct Advance {
    pub action: SessionAction,
    pub congested: bool,
    pub delay_ms: u64,
}

/// One more, as far as the counter reaches.
pub open spec fn bumped(counter: u32) -> u32 {
    if counter < u32::MAX {
        (counter + 1) as u32
    } else {
        counter
    }
}

/// The pacing delay: the base delay for the state of the network, and the
/// backlog delay on top while the queue is long.
pub open spec fn pacing_delay(congested: bool, occupancy: u64) -> u64 {
    let base = if congested {
        CONGESTED_DELAY_MS
    } else {
        CLEAR_DELAY_MS
    };
    if occupancy > BACKLOG_ABOVE {
        (base + BACKLOG_DELAY_MS) as u64
    } else {
        base
    }
}

/// The session after a send that failed: one more failure, no success in a
/// row, and the one reconnect under way.
pub open spec fn after_failed_send(session: TransportSession, frame: bool) -> TransportSession {
    TransportSession {
        phase: Phase::Reconnecting,
        failures: bumped(session.failures),
        successes: 0,
        pacing_owed: frame,
    }
}

/// The answer to a send that failed: back off and reconnect, and mark the
/// network as congested where more than `FAILURES_TOLERATED` sends have
/// failed in a row.
pub open spec fn failed_send_step(session: TransportSession) -> SessionStep {
    SessionStep {
        action: SessionAction::Reconnect { backoff_ms: RECONNECT_BACKOFF_MS },
        congested: if bumped(session.failures) > FAILURES_TOLERATED {
            Some(true)
        } else {
            None
        },
    }
}

/// The session after an event.
///
/// While streaming, a delivered frame or reply counts as a success, and a
/// failed one as a failure that starts the one reconnect. A reconnect that
/// succeeds is followed by the join message, and a join message that is
/// delivered by streaming. A reconnect or join message that fails stops the
/// session for good. An event that the phase does not wait for changes
/// nothing.
pub open spec fn session_after(session: TransportSession, event: SessionEvent) -> TransportSession {
    match (session.phase, event) {
        (Phase::Streaming, SessionEvent::FrameSent { delivered: true }) => TransportSession {
            failures: 0,
            successes: bumped(session.successes),
            ..session
        },
        (Phase::Streaming, SessionEvent::FrameSent { delivered: false }) => after_failed_send(
            session,
            true,
        ),
        (Phase::Streaming, SessionEvent::ReplySent { delivered: true }) => TransportSession {
            failures: if bumped(session.successes) > REPLIES_TO_CLEAR {
                0
            } else {
                session.failures
            },
            successes: bumped(session.successes),
            ..session
        },
        (Phase::Streaming, SessionEvent::ReplySent { delivered: false }) => after_failed_send(
            session,
            false,
        ),
        (Phase::Reconnecting, SessionEvent::Reconnected { connected }) => TransportSession {
            phase: if connected {
                Phase::Rejoining
            } else {
                Phase::Stopped
            },
            ..session
        },
        (Phase::Rejoining, SessionEvent::Rejoined { delivered }) => TransportSession {
            phase: if delivered {
                Phase::Streaming
            } else {
                Phase::Stopped
            },
            ..session
        },
        _ => session,
    }
}

/// The session's answer to an event.
///
/// The pacing delay follows every frame: at once where the frame was
/// delivered, and after the session has come back where it was not.
pub open spec fn session_step(session: TransportSession, event: SessionEvent) -> SessionStep {
    let after = session_after(session, event);
    match (session.phase, event) {
        (Phase::Streaming, SessionEvent::FrameSent { delivered: true }) => SessionStep {
            action: SessionAction::Pace,
            congested: if after.successes > FRAMES_TO_CLEAR {
                Some(false)
            } else {
                None
            },
        },
        (Phase::Streaming, SessionEvent::FrameSent { delivered: false }) => failed_send_step(
            session,
        ),
        (Phase::Streaming, SessionEvent::ReplySent { delivered: true }) => SessionStep {
            action: SessionAction::Continue,
            congested: if after.successes > REPLIES_TO_CLEAR {
                Some(false)
            } else {
                None
            },
        },
        (Phase::Streaming, SessionEvent::ReplySent { delivered: false }) => failed_send_step(
            session,
        ),
        (Phase::Reconnecting, SessionEvent::Reconnected { connected }) => SessionStep {
            action: if connected {
                SessionAction::Rejoin
            } else {
                SessionAction::Stop
            },
            congested: None,
        },
        (Phase::Rejoining, SessionEvent::Rejoined { delivered }) => SessionStep {
            action: if !delivered {
                SessionAction::Stop
            } else if session.pacing_owed {
                SessionAction::Pace
            } else {
                SessionAction::Continue
            },
            congested: None,
        },
        (Phase::Stopped, _) => SessionStep { action: SessionAction::Stop, congested: None },
        _ => SessionStep { action: SessionAction::Continue, congested: None },
    }
}

/// A session that has stopped stays stopped, and a session stops only when
/// its one reconnect or the join message behind it fails. Every failed send
/// of a streaming session, and nothing else, starts a reconnect, and it does
/// so after the fixed backoff.
pub proof fn lemma_single_reconnect(session: TransportSession, event: SessionEvent)
    ensures
        session.phase == Phase::Stopped ==> session_after(session, event).phase == Phase::Stopped
            && session_step(session, event).action == SessionAction::Stop,
        session.phase != Phase::Stopped && session_after(session, event).phase == Phase::Stopped
            ==> (session.phase == Phase::Reconnecting && event == (SessionEvent::Reconnected {
            connected: false,
        })) || (session.phase == Phase::Rejoining && event == (SessionEvent::Rejoined {
            delivered: false,
        })),
        session_step(session, event).action is Reconnect <==> session.phase == Phase::Streaming
            && (event == (SessionEvent::FrameSent { delivered: false }) || event == (
            SessionEvent::ReplySent { delivered: false })),
        session_step(session, event).action is Reconnect ==> session_step(session, event).action
            == (SessionAction::Reconnect { backoff_ms: RECONNECT_BACKOFF_MS }) && session_after(
            session,
            event,
        ).phase == Phase::Reconnecting,
{
}

/// The congestion flag is raised only by a failed send that makes more than
/// `FAILURES_TOLERATED` failures in a row. It is lowered only by a delivery:
/// of a frame that makes more than `FRAMES_TO_CLEAR` successes in a row, or
/// of a reply that makes more than `REPLIES_TO_CLEAR`.
pub proof fn lemma_flag_follows_runs(session: TransportSession, event: SessionEvent)
    ensures
        session_step(session, event).congested == Some(true) ==> session_after(
            session,
            event,
        ).failures > FAILURES_TOLERATED && (event == (SessionEvent::FrameSent { delivered: false })
            || event == (SessionEvent::ReplySent { delivered: false })),
        session_step(session, event).congested == Some(false) ==> (event == (
            SessionEvent::FrameSent { delivered: true }) && session_after(session, event).successes
            > FRAMES_TO_CLEAR) || (event == (SessionEvent::ReplySent { delivered: true })
            && session_after(session, event).successes > REPLIES_TO_CLEAR),
{
}

/// What came in on the connection.
#[derive(Debug)]
pub enum Inbound {
    /// A text message.
    Text(String),
    /// A keep-alive ping with its payload.
    Ping(Vec<u8>),
    /// Any other message.
    Other,
    /// The connection failed.
    Failed,
}

/// What the inbound side is to do with it.
#[derive(Debug)]
pub enum InboundAction {
    /// Write this effect to the shared scalars.
    Apply(FeedbackEffect),
    /// Queue a keep-alive reply with this payload.
    Reply(Vec<u8>),
    /// Nothing.
    Ignore,
    /// End the inbound loop.
    Stop,
}

/// The answer to what came in: a text is read as feedback, a ping is
/// answered with its own payload, a failure ends the loop, and anything else
/// is passed over.
pub open spec fn inbound_action(event: Inbound) -> InboundAction {
    match event {
        Inbound::Text(message) => InboundAction::Apply(feedback_of(parsed(message@))),
        Inbound::Ping(payload) => InboundAction::Reply(payload),
        Inbound::Other => InboundAction::Ignore,
        Inbound::Failed => InboundAction::Stop,
    }
}

/// One more, as far as the counter reaches.
fn bump(counter: u32) -> (r: u32)
    ensures
        r == bumped(counter),
{
    if counter < u32::MAX {
        counter + 1
    } else {
        counter
    }
}

/// The pacing delay for a state of the network and a length of the queue.
pub fn pacing_delay_ms(congested: bool, occupancy: u64) -> (ms: u64)
    ensures
        ms == pacing_delay(congested, occupancy),
{
    let base: u64 = if congested {
        CONGESTED_DELAY_MS
    } else {
        CLEAR_DELAY_MS
    };
    if occupancy > BACKLOG_ABOVE {
        base + BACKLOG_DELAY_MS
    } else {
        base
    }
}

/// Says what is to be done with what came in.
pub fn on_inbound(event: Inbound) -> (action: InboundAction)
    ensures
        action == inbound_action(event),
{
    match event {
        Inbound::Text(message) => InboundAction::Apply(decode_feedback(message.as_str())),
        Inbound::Ping(payload) => InboundAction::Reply(payload),
        Inbound::Other => InboundAction::Ignore,
        Inbound::Failed => InboundAction::Stop,
    }
}

/// Writes the effect of a feedback message to the shared scalars: each
/// value that the effect holds, and no other.
pub fn apply_feedback(telemetry: &SharedTelemetry, effect: &FeedbackEffect) {
    match effect.congested {
        Some(congested) => {
            telemetry.set_congested(congested);
        },
        None => {},
    }
    match effect.quality {
        Some(quality) => {
            telemetry.set_quality(quality);
        },
        None => {},
    }
    match effect.resolution {
        Some(resolution) => {
            telemetry.set_resolution(resolution.width, resolution.height);
        },
        None => {},
    }
}

impl TransportSession {
    /// A session that streams, with no send behind it.
    pub fn new() -> (session: TransportSession)
        ensures
            session == (TransportSession {
                phase: Phase::Streaming,
                failures: 0,
                successes: 0,
                pacing_owed: false,
            }),
    {
        TransportSession { phase: Phase::Streaming, failures: 0, successes: 0, pacing_owed: false }
    }

    /// Takes a send that failed while streaming.
    fn send_failed(&mut self, frame: bool) -> (step: SessionStep)
        ensures
            *final(self) == after_failed_send(*old(self), frame),
            step == failed_send_step(*old(self)),
    {
        self.failures = bump(self.failures);
        self.successes = 0;
        self.phase = Phase::Reconnecting;
        self.pacing_owed = frame;
        SessionStep {
            action: SessionAction::Reconnect { backoff_ms: RECONNECT_BACKOFF_MS },
            congested: if self.failures > FAILURES_TOLERATED {
                Some(true)
            } else {
                None
            },
        }
    }

    /// Takes an event and says what is to happen next.
    pub fn handle(&mut self, event: SessionEvent) -> (step: SessionStep)
        ensures
            *final(self) == session_after(*old(self), event),
            step == session_step(*old(self), event),
    {
        match self.phase {
            Phase::Streaming => match event {
                SessionEvent::FrameSent { delivered } => {
                    if delivered {
                        self.successes = bump(self.successes);
                        self.failures = 0;
                        SessionStep {
                            action: SessionAction::Pace,
                            congested: if self.successes > FRAMES_TO_CLEAR {
                                Some(false)
                            } else {
                                None
                            },
                        }
                    } else {
                        self.send_failed(true)
                    }
                },
                SessionEvent::ReplySent { delivered } => {
                    if delivered {
                        self.successes = bump(self.successes);
                        if self.successes > REPLIES_TO_CLEAR {
                            self.failures = 0;
                            SessionStep { action: SessionAction::Continue, congested: Some(false) }
                        } else {
                            SessionStep { action: SessionAction::Continue, congested: None }
                        }
                    } else {
                        self.send_failed(false)
                    }
                },
                _ => SessionStep { action: SessionAction::Continue, congested: None },
            },
            Phase::Reconnecting => match event {
                SessionEvent::Reconnected { connected } => {
                    if connected {
                        self.phase = Phase::Rejoining;
                        SessionStep { action: SessionAction::Rejoin, congested: None }
                    } else {
                        self.phase = Phase::Stopped;
                        SessionStep { action: SessionAction::Stop, congested: None }
                    }
                },
                _ => SessionStep { action: SessionAction::Continue, congested: None },
            },
            Phase::Rejoining => match event {
                SessionEvent::Rejoined { delivered } => {
                    if delivered {
                        self.phase = Phase::Streaming;
                        SessionStep {
                            action: if self.pacing_owed {
                                SessionAction::Pace
                            } else {
                                SessionAction::Continue
                            },
                            congested: None,
                        }
                    } else {
                        self.phase = Phase::Stopped;
                        SessionStep { action: SessionAction::Stop, congested: None }
                    }
                },
                _ => SessionStep { action: SessionAction::Continue, congested: None },
            },
            Phase::Stopped => SessionStep { action: SessionAction::Stop, congested: None },
        }
    }

    /// Takes an event, publishes the congestion flag where the answer holds
    /// one, and reads the flag for the pacing delay.
    ///
    /// `occupancy` is the queue's counter as it was read when the frame was
    /// taken. The session and the action are those of `handle`; the delay is
    /// the pacing delay for the flag as read.
    pub fn advance(&mut self, event: SessionEvent, telemetry: &SharedTelemetry, occupancy: u64) -> (done:
        Advance)
        ensures
            *final(self) == session_after(*old(self), event),
            done.action == session_step(*old(self), event).action,
            done.delay_ms == pacing_delay(done.congested, occupancy),
    {
        let step = self.handle(event);
        match step.congested {
            Some(congested) => {
                telemetry.set_congested(congested);
            },
            None => {},
        }
        let congested: bool = telemetry.congested();
        Advance { action: step.action, congested, delay_ms: pacing_delay_ms(congested, occupancy) }
    }
}

} // verus!
