use camstream::messages::FeedbackEffect;
use camstream::profile::Resolution;
use camstream::profile::StreamProfile;
use camstream::session::apply_feedback;
use camstream::session::on_inbound;
use camstream::session::pacing_delay_ms;
use camstream::session::Inbound;
use camstream::session::InboundAction;
use camstream::session::Phase;
use camstream::session::SessionAction;
use camstream::session::SessionEvent;
use camstream::session::SessionStep;
use camstream::session::TransportSession;
use camstream::telemetry::SharedTelemetry;

fn session(phase: Phase, failures: u32, successes: u32) -> TransportSession {
    TransportSession { phase, failures, successes, pacing_owed: false }
}

fn after_frame(phase: Phase, failures: u32, successes: u32) -> TransportSession {
    TransportSession { phase, failures, successes, pacing_owed: true }
}

#[test]
fn pacing_delay_values() {
    assert_eq!(pacing_delay_ms(false, 0), 10);
    assert_eq!(pacing_delay_ms(false, 30), 10);
    assert_eq!(pacing_delay_ms(false, 31), 60);
    assert_eq!(pacing_delay_ms(true, 0), 100);
    assert_eq!(pacing_delay_ms(true, 30), 100);
    assert_eq!(pacing_delay_ms(true, 31), 150);
}

#[test]
fn new_session_streams() {
    assert_eq!(TransportSession::new(), session(Phase::Streaming, 0, 0));
}

#[test]
fn delivered_frame_counts_and_paces() {
    let mut s = session(Phase::Streaming, 2, 3);
    let step = s.handle(SessionEvent::FrameSent { delivered: true });
    assert_eq!(step, SessionStep { action: SessionAction::Pace, congested: None });
    assert_eq!(s, session(Phase::Streaming, 0, 4));
}

#[test]
fn eleventh_frame_in_a_row_clears_congestion() {
    let mut s = TransportSession::new();
    for i in 1..=12u32 {
        let step = s.handle(SessionEvent::FrameSent { delivered: true });
        if i > 10 {
            assert_eq!(step.congested, Some(false), "send {}", i);
        } else {
            assert_eq!(step.congested, None, "send {}", i);
        }
        assert_eq!(s.successes, i);
    }
}

#[test]
fn failed_frame_starts_the_reconnect() {
    let mut s = session(Phase::Streaming, 0, 7);
    let step = s.handle(SessionEvent::FrameSent { delivered: false });
    assert_eq!(
        step,
        SessionStep { action: SessionAction::Reconnect { backoff_ms: 5000 }, congested: None }
    );
    assert_eq!(s, after_frame(Phase::Reconnecting, 1, 0));
}

#[test]
fn fourth_failure_in_a_row_marks_congestion() {
    let mut s = session(Phase::Streaming, 2, 0);
    assert_eq!(s.handle(SessionEvent::FrameSent { delivered: false }).congested, None);
    assert_eq!(s.failures, 3);
    let mut s = session(Phase::Streaming, 3, 0);
    assert_eq!(s.handle(SessionEvent::FrameSent { delivered: false }).congested, Some(true));
    assert_eq!(s.failures, 4);
}

#[test]
fn reconnect_then_rejoin_then_stream() {
    let mut s = after_frame(Phase::Reconnecting, 1, 0);
    let step = s.handle(SessionEvent::Reconnected { connected: true });
    assert_eq!(step, SessionStep { action: SessionAction::Rejoin, congested: None });
    assert_eq!(s, after_frame(Phase::Rejoining, 1, 0));
    let step = s.handle(SessionEvent::Rejoined { delivered: true });
    assert_eq!(step, SessionStep { action: SessionAction::Pace, congested: None });
    assert_eq!(s, after_frame(Phase::Streaming, 1, 0));
}

#[test]
fn session_that_lost_a_reply_comes_back_without_pacing() {
    let mut s = session(Phase::Streaming, 0, 2);
    let step = s.handle(SessionEvent::ReplySent { delivered: false });
    assert_eq!(
        step,
        SessionStep { action: SessionAction::Reconnect { backoff_ms: 5000 }, congested: None }
    );
    assert_eq!(s, session(Phase::Reconnecting, 1, 0));
    assert_eq!(s.handle(SessionEvent::Reconnected { connected: true }).action, SessionAction::Rejoin);
    let step = s.handle(SessionEvent::Rejoined { delivered: true });
    assert_eq!(step, SessionStep { action: SessionAction::Continue, congested: None });
    assert_eq!(s, session(Phase::Streaming, 1, 0));
}

#[test]
fn whole_failure_and_recovery_from_a_fresh_session() {
    let mut s = TransportSession::new();
    let mut actions = Vec::new();
    for event in [
        SessionEvent::FrameSent { delivered: true },
        SessionEvent::FrameSent { delivered: false },
        SessionEvent::Reconnected { connected: true },
        SessionEvent::Rejoined { delivered: true },
        SessionEvent::FrameSent { delivered: true },
    ] {
        actions.push(s.handle(event).action);
    }
    assert_eq!(
        actions,
        vec![
            SessionAction::Pace,
            SessionAction::Reconnect { backoff_ms: 5000 },
            SessionAction::Rejoin,
            SessionAction::Pace,
            SessionAction::Pace,
        ]
    );
    assert_eq!(s, after_frame(Phase::Streaming, 0, 1));
}

#[test]
fn failed_reconnect_stops_for_good() {
    let mut s = session(Phase::Reconnecting, 1, 0);
    let step = s.handle(SessionEvent::Reconnected { connected: false });
    assert_eq!(step.action, SessionAction::Stop);
    assert_eq!(s.phase, Phase::Stopped);
    for event in [
        SessionEvent::FrameSent { delivered: true },
        SessionEvent::ReplySent { delivered: true },
        SessionEvent::Reconnected { connected: true },
        SessionEvent::Rejoined { delivered: true },
    ] {
        assert_eq!(s.handle(event), SessionStep { action: SessionAction::Stop, congested: None });
        assert_eq!(s, session(Phase::Stopped, 1, 0));
    }
}

#[test]
fn failed_rejoin_stops_for_good() {
    let mut s = session(Phase::Rejoining, 2, 0);
    let step = s.handle(SessionEvent::Rejoined { delivered: false });
    assert_eq!(step.action, SessionAction::Stop);
    assert_eq!(s, session(Phase::Stopped, 2, 0));
}

#[test]
fn fifth_reply_in_a_row_clears_congestion() {
    let mut s = session(Phase::Streaming, 2, 0);
    for i in 1..=4u32 {
        let step = s.handle(SessionEvent::ReplySent { delivered: true });
        assert_eq!(step, SessionStep { action: SessionAction::Continue, congested: None });
        assert_eq!(s, session(Phase::Streaming, 2, i));
    }
    let step = s.handle(SessionEvent::ReplySent { delivered: true });
    assert_eq!(step, SessionStep { action: SessionAction::Continue, congested: Some(false) });
    assert_eq!(s, session(Phase::Streaming, 0, 5));
}

#[test]
fn failed_reply_counts_and_reconnects() {
    let mut s = session(Phase::Streaming, 5, 9);
    let step = s.handle(SessionEvent::ReplySent { delivered: false });
    assert_eq!(
        step,
        SessionStep {
            action: SessionAction::Reconnect { backoff_ms: 5000 },
            congested: Some(true),
        }
    );
    assert_eq!(s, session(Phase::Reconnecting, 6, 0));
}

#[test]
fn event_out_of_phase_changes_nothing() {
    let mut s = session(Phase::Streaming, 1, 2);
    let step = s.handle(SessionEvent::Reconnected { connected: false });
    assert_eq!(step, SessionStep { action: SessionAction::Continue, congested: None });
    assert_eq!(s, session(Phase::Streaming, 1, 2));
    let mut s = session(Phase::Reconnecting, 1, 0);
    let step = s.handle(SessionEvent::FrameSent { delivered: false });
    assert_eq!(step, SessionStep { action: SessionAction::Continue, congested: None });
    assert_eq!(s, session(Phase::Reconnecting, 1, 0));
    let mut s = session(Phase::Rejoining, 1, 0);
    let step = s.handle(SessionEvent::ReplySent { delivered: true });
    assert_eq!(step, SessionStep { action: SessionAction::Continue, congested: None });
    assert_eq!(s, session(Phase::Rejoining, 1, 0));
}

#[test]
fn counters_stop_at_their_limit() {
    let mut s = session(Phase::Streaming, 0, u32::MAX);
    s.handle(SessionEvent::FrameSent { delivered: true });
    assert_eq!(s.successes, u32::MAX);
    let mut s = session(Phase::Streaming, u32::MAX, 0);
    let step = s.handle(SessionEvent::ReplySent { delivered: false });
    assert_eq!(s.failures, u32::MAX);
    assert_eq!(step.congested, Some(true));
}

#[test]
fn advance_publishes_and_paces() {
    let shared = SharedTelemetry::new(StreamProfile::nominal());
    let mut s = session(Phase::Streaming, 3, 0);
    let done = s.advance(SessionEvent::FrameSent { delivered: false }, &shared, 31);
    assert_eq!(done.action, SessionAction::Reconnect { backoff_ms: 5000 });
    assert!(done.congested);
    assert_eq!(done.delay_ms, 150);
    assert!(shared.congested());
    let mut s = session(Phase::Streaming, 0, 10);
    let done = s.advance(SessionEvent::FrameSent { delivered: true }, &shared, 0);
    assert_eq!(done.action, SessionAction::Pace);
    assert!(!done.congested);
    assert_eq!(done.delay_ms, 10);
    assert!(!shared.congested());
}

#[test]
fn advance_leaves_the_flag_without_a_verdict() {
    let shared = SharedTelemetry::new(StreamProfile::nominal());
    shared.set_congested(true);
    let mut s = TransportSession::new();
    let done = s.advance(SessionEvent::FrameSent { delivered: true }, &shared, 5);
    assert!(done.congested);
    assert_eq!(done.delay_ms, 100);
    assert!(shared.congested());
}

#[test]
fn ping_is_answered_with_its_payload() {
    match on_inbound(Inbound::Ping(vec![1, 2, 3])) {
        InboundAction::Reply(payload) => assert_eq!(payload, vec![1, 2, 3]),
        other => panic!("unexpected {:?}", other),
    }
}

#[test]
fn text_is_read_as_feedback() {
    let text = "{\"network_feedback\":{\"congested\":true,\"suggested_quality\":35}}";
    match on_inbound(Inbound::Text(text.to_string())) {
        InboundAction::Apply(effect) => assert_eq!(
            effect,
            FeedbackEffect { congested: Some(true), quality: Some(35), resolution: None }
        ),
        other => panic!("unexpected {:?}", other),
    }
}

#[test]
fn failure_stops_and_the_rest_is_ignored() {
    assert!(matches!(on_inbound(Inbound::Failed), InboundAction::Stop));
    assert!(matches!(on_inbound(Inbound::Other), InboundAction::Ignore));
}

#[test]
fn feedback_overwrites_what_it_holds() {
    let shared = SharedTelemetry::new(StreamProfile::nominal());
    apply_feedback(
        &shared,
        &FeedbackEffect {
            congested: Some(true),
            quality: Some(40),
            resolution: Some(Resolution { width: 640, height: 480 }),
        },
    );
    assert!(shared.congested());
    assert_eq!(shared.profile(), StreamProfile { width: 640, height: 480, quality: 40 });
    apply_feedback(&shared, &FeedbackEffect { congested: None, quality: None, resolution: None });
    assert!(shared.congested());
    assert_eq!(shared.profile(), StreamProfile { width: 640, height: 480, quality: 40 });
    apply_feedback(
        &shared,
        &FeedbackEffect { congested: Some(false), quality: None, resolution: None },
    );
    assert!(!shared.congested());
    assert_eq!(shared.profile(), StreamProfile { width: 640, height: 480, quality: 40 });
}
