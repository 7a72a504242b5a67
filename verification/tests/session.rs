use speech_relay::events::{ConnectionStatusEvent, Event, Status};
use speech_relay::failure::PushError;
use speech_relay::params::SessionParams;
use speech_relay::queue::QUEUE_CAPACITY;
use speech_relay::session::{DownlinkStep, Inbound, Pushed, SessionState, UplinkStep};

fn started() -> (SessionState, u64) {
    let mut state = SessionState::new();
    let session = state.start(SessionParams::default());
    (state, session)
}

fn drain(state: &mut SessionState, session: u64) -> Vec<Vec<u8>> {
    let mut sent = Vec::new();
    loop {
        match state.next_chunk(session) {
            UplinkStep::Send(chunk) => sent.push(chunk),
            UplinkStep::Wait | UplinkStep::Exit => return sent,
        }
    }
}

#[test]
fn new_state_is_inactive() {
    let state = SessionState::new();
    assert!(!state.is_active());
    assert_eq!(state.session(), 0);
    assert_eq!(state.pending(), 0);
    assert!(state.params().is_none());
}

#[test]
fn start_activates_and_keeps_params() {
    let mut state = SessionState::new();
    let params = SessionParams {
        language: Some("Spanish".to_string()),
        model: Some("nova-2".to_string()),
        punctuate: false,
        interim_results: true,
    };
    let session = state.start(params.clone());
    assert_eq!(session, 1);
    assert_eq!(state.session(), 1);
    assert!(state.is_active());
    assert_eq!(state.pending(), 0);
    assert_eq!(state.params(), Some(&params));
}

#[test]
fn chunks_leave_in_the_order_they_came() {
    let (mut state, session) = started();
    let chunks: Vec<Vec<u8>> = vec![vec![1, 2, 3], vec![], vec![4], vec![5, 6], vec![1, 2, 3]];
    for chunk in &chunks {
        assert_eq!(state.push(chunk.clone()), Ok(Pushed::Queued));
    }
    assert_eq!(state.pending(), 5);
    assert_eq!(drain(&mut state, session), chunks);
    assert_eq!(state.pending(), 0);
    assert!(state.is_active());
}

#[test]
fn pushes_and_sends_may_alternate() {
    let (mut state, session) = started();
    assert_eq!(state.next_chunk(session), UplinkStep::Wait);
    assert_eq!(state.push(vec![10, 11]), Ok(Pushed::Queued));
    assert_eq!(state.push(vec![12]), Ok(Pushed::Queued));
    assert_eq!(state.next_chunk(session), UplinkStep::Send(vec![10, 11]));
    assert_eq!(state.push(vec![13, 14, 15]), Ok(Pushed::Queued));
    assert_eq!(state.next_chunk(session), UplinkStep::Send(vec![12]));
    assert_eq!(state.next_chunk(session), UplinkStep::Send(vec![13, 14, 15]));
    assert_eq!(state.next_chunk(session), UplinkStep::Wait);
}

#[test]
fn a_full_queue_hands_the_chunk_back() {
    let (mut state, session) = started();
    assert_eq!(QUEUE_CAPACITY, 32);
    for i in 0..32u8 {
        assert_eq!(state.push(vec![i]), Ok(Pushed::Queued));
    }
    assert_eq!(state.pending(), 32);
    assert_eq!(state.push(vec![99, 100]), Ok(Pushed::Full(vec![99, 100])));
    assert_eq!(state.pending(), 32);
    assert_eq!(state.next_chunk(session), UplinkStep::Send(vec![0]));
    assert_eq!(state.push(vec![99, 100]), Ok(Pushed::Queued));
    let sent = drain(&mut state, session);
    assert_eq!(sent.len(), 32);
    assert_eq!(sent[0], vec![1]);
    assert_eq!(sent[30], vec![31]);
    assert_eq!(sent[31], vec![99, 100]);
}

#[test]
fn push_before_any_start_is_dropped() {
    let mut state = SessionState::new();
    assert_eq!(state.push(vec![1]), Ok(Pushed::Dropped));
    assert_eq!(state.pending(), 0);
    assert!(!state.is_active());
}

#[test]
fn push_after_stop_is_dropped() {
    let (mut state, session) = started();
    assert_eq!(state.push(vec![1]), Ok(Pushed::Queued));
    state.stop();
    assert!(!state.is_active());
    assert_eq!(state.pending(), 1);
    for i in 0..40u8 {
        assert_eq!(state.push(vec![i]), Ok(Pushed::Dropped));
    }
    assert_eq!(state.pending(), 1);
    assert_eq!(state.next_chunk(session), UplinkStep::Send(vec![1]));
    assert_eq!(state.next_chunk(session), UplinkStep::Exit);
    assert_eq!(state.pending(), 0);
    assert_eq!(state.push(vec![7]), Ok(Pushed::Dropped));
    assert_eq!(state.next_chunk(session), UplinkStep::Exit);
    assert_eq!(state.session(), session);
}

#[test]
fn stop_keeps_what_waits() {
    let (mut state, session) = started();
    assert_eq!(state.push(vec![1]), Ok(Pushed::Queued));
    state.stop();
    assert_eq!(drain(&mut state, session), vec![vec![1]]);
    assert_eq!(state.next_chunk(session), UplinkStep::Exit);

    let (mut state, session) = started();
    assert_eq!(state.push(vec![1]), Ok(Pushed::Queued));
    state.stop();
    assert_eq!(state.push(vec![2]), Ok(Pushed::Dropped));
    assert_eq!(drain(&mut state, session), vec![vec![1]]);
    assert_eq!(state.next_chunk(session), UplinkStep::Exit);
}

#[test]
fn stop_after_the_uplink_asked_sends_the_same() {
    let (mut state, session) = started();
    assert_eq!(state.push(vec![1]), Ok(Pushed::Queued));
    assert_eq!(state.next_chunk(session), UplinkStep::Send(vec![1]));
    state.stop();
    assert_eq!(state.push(vec![2]), Ok(Pushed::Dropped));
    assert_eq!(state.next_chunk(session), UplinkStep::Exit);
    assert_eq!(state.pending(), 0);
}

#[test]
fn stop_keeps_a_full_queue_in_order() {
    let (mut state, session) = started();
    let chunks: Vec<Vec<u8>> = (0..32u8).map(|i| vec![i, i]).collect();
    for chunk in &chunks {
        assert_eq!(state.push(chunk.clone()), Ok(Pushed::Queued));
    }
    assert_eq!(state.next_chunk(session), UplinkStep::Send(vec![0, 0]));
    state.stop();
    state.stop();
    assert_eq!(state.pending(), 31);
    assert_eq!(state.push(vec![99]), Ok(Pushed::Dropped));
    assert_eq!(drain(&mut state, session), chunks[1..].to_vec());
    assert_eq!(state.next_chunk(session), UplinkStep::Exit);
}

#[test]
fn stop_without_audio_ends_the_uplink() {
    let (mut state, session) = started();
    assert_eq!(state.next_chunk(session), UplinkStep::Wait);
    state.stop();
    assert_eq!(state.pending(), 0);
    assert_eq!(state.next_chunk(session), UplinkStep::Exit);
    let mut idle = SessionState::new();
    idle.stop();
    assert!(!idle.is_active());
    assert_eq!(idle.push(vec![1]), Ok(Pushed::Dropped));
    assert_eq!(idle.next_chunk(0), UplinkStep::Exit);
}

#[test]
fn start_after_stop_supersedes_what_still_waited() {
    let (mut state, first) = started();
    assert_eq!(state.push(vec![1]), Ok(Pushed::Queued));
    state.stop();
    let second = state.start(SessionParams::default());
    assert_eq!(state.pending(), 0);
    assert_eq!(state.next_chunk(first), UplinkStep::Exit);
    assert_eq!(state.next_chunk(second), UplinkStep::Wait);
}

#[test]
fn failed_send_while_draining_ends_it_without_error_for_push() {
    let (mut state, session) = started();
    assert_eq!(state.push(vec![1]), Ok(Pushed::Queued));
    assert_eq!(state.push(vec![2]), Ok(Pushed::Queued));
    state.stop();
    assert_eq!(state.next_chunk(session), UplinkStep::Send(vec![1]));
    assert!(state.send_failed(session).is_some());
    assert_eq!(state.pending(), 0);
    assert_eq!(state.next_chunk(session), UplinkStep::Exit);
    assert_eq!(state.push(vec![3]), Ok(Pushed::Dropped));
}

#[test]
fn close_while_draining_drops_what_waits() {
    let (mut state, session) = started();
    assert_eq!(state.push(vec![1]), Ok(Pushed::Queued));
    state.stop();
    let step = state.receive(session, Inbound::Close);
    assert!(step.done);
    assert!(step.event.is_some());
    assert_eq!(state.pending(), 0);
    assert_eq!(state.next_chunk(session), UplinkStep::Exit);
    assert_eq!(state.push(vec![2]), Ok(Pushed::Dropped));
}

#[test]
fn stop_then_start_takes_audio_again() {
    let (mut state, first) = started();
    state.stop();
    let second = state.start(SessionParams::default());
    assert_eq!(second, first + 1);
    assert!(state.is_active());
    assert_eq!(state.push(vec![5]), Ok(Pushed::Queued));
    assert_eq!(state.next_chunk(second), UplinkStep::Send(vec![5]));
}

#[test]
fn start_supersedes_the_session_before() {
    let (mut state, first) = started();
    assert_eq!(state.push(vec![1]), Ok(Pushed::Queued));
    assert_eq!(state.push(vec![2]), Ok(Pushed::Queued));
    let second = state.start(SessionParams::default());
    assert_ne!(first, second);
    assert!(state.is_active());
    assert_eq!(state.pending(), 0);
    assert_eq!(state.next_chunk(first), UplinkStep::Exit);
    assert_eq!(state.send_failed(first), None);
    assert_eq!(
        state.receive(first, Inbound::Close),
        DownlinkStep { event: None, done: true }
    );
    assert_eq!(
        state.receive(first, Inbound::Text("{}".to_string())),
        DownlinkStep { event: None, done: true }
    );
    assert!(state.is_active());
    assert_eq!(state.push(vec![3]), Ok(Pushed::Queued));
    assert_eq!(state.next_chunk(first), UplinkStep::Exit);
    assert_eq!(state.next_chunk(second), UplinkStep::Send(vec![3]));
}

#[test]
fn session_numbers_count_up() {
    let mut state = SessionState::new();
    for expected in 1..=5u64 {
        assert_eq!(state.start(SessionParams::default()), expected);
    }
}

#[test]
fn failed_send_closes_the_channel() {
    let (mut state, session) = started();
    assert_eq!(state.push(vec![1]), Ok(Pushed::Queued));
    assert_eq!(state.next_chunk(session), UplinkStep::Send(vec![1]));
    let event = state.send_failed(session);
    assert_eq!(
        event,
        Some(ConnectionStatusEvent { status: Status::Error, message: "connection lost".to_string() })
    );
    assert!(!state.is_active());
    assert_eq!(state.push(vec![2]), Err(PushError::ChannelClosed));
    assert_eq!(state.pending(), 0);
    assert_eq!(state.next_chunk(session), UplinkStep::Exit);
}

#[test]
fn failed_send_reported_twice_changes_nothing_more() {
    let (mut state, session) = started();
    assert!(state.send_failed(session).is_some());
    assert!(state.send_failed(session).is_some());
    assert!(!state.is_active());
    assert_eq!(state.push(vec![2]), Err(PushError::ChannelClosed));
}

#[test]
fn failed_send_after_stop_leaves_no_queue() {
    let (mut state, session) = started();
    state.stop();
    assert!(state.send_failed(session).is_some());
    assert_eq!(state.push(vec![2]), Ok(Pushed::Dropped));
}

#[test]
fn provider_close_ends_the_session() {
    let (mut state, session) = started();
    assert_eq!(state.push(vec![1]), Ok(Pushed::Queued));
    let step = state.receive(session, Inbound::Close);
    assert_eq!(
        step,
        DownlinkStep {
            event: Some(Event::ConnectionStatus(ConnectionStatusEvent {
                status: Status::Disconnected,
                message: "connection closed".to_string(),
            })),
            done: true,
        }
    );
    assert!(!state.is_active());
    assert_eq!(state.push(vec![2]), Ok(Pushed::Dropped));
    assert_eq!(state.pending(), 0);
    assert_eq!(state.next_chunk(session), UplinkStep::Exit);
}

#[test]
fn transport_failure_ends_the_session() {
    let (mut state, session) = started();
    let step = state.receive(session, Inbound::Failure("Connection reset without closing handshake".to_string()));
    assert_eq!(
        step,
        DownlinkStep {
            event: Some(Event::ConnectionStatus(ConnectionStatusEvent {
                status: Status::Error,
                message: "Connection reset without closing handshake".to_string(),
            })),
            done: true,
        }
    );
    assert!(!state.is_active());
    assert_eq!(state.push(vec![2]), Ok(Pushed::Dropped));
}

#[test]
fn both_pipelines_may_report_the_end() {
    let (mut a, sa) = started();
    assert!(a.send_failed(sa).is_some());
    assert!(a.receive(sa, Inbound::Close).done);
    let (mut b, sb) = started();
    assert!(b.receive(sb, Inbound::Close).done);
    assert!(b.send_failed(sb).is_some());
    assert!(!a.is_active());
    assert!(!b.is_active());
    assert_eq!(a.push(vec![1]), Ok(Pushed::Dropped));
    assert_eq!(b.push(vec![1]), Ok(Pushed::Dropped));
}

#[test]
fn other_frames_are_ignored() {
    let (mut state, session) = started();
    assert_eq!(state.receive(session, Inbound::Other), DownlinkStep { event: None, done: false });
    assert!(state.is_active());
}

#[test]
fn transcript_text_gives_one_event() {
    let (mut state, session) = started();
    let text = "{\"channel\":{\"alternatives\":[{\"transcript\":\"hola\"}]},\"is_final\":false}";
    let step = state.receive(session, Inbound::Text(text.to_string()));
    assert!(!step.done);
    match step.event {
        Some(Event::Transcript(event)) => {
            assert_eq!(event.text(), "hola");
            assert!(!event.is_final());
        }
        other => panic!("expected a transcript, got {:?}", other),
    }
    assert!(state.is_active());
}

#[test]
fn final_transcript_keeps_text_and_flag() {
    let (mut state, session) = started();
    let text = "{\"is_final\":true,\"channel\":{\"alternatives\":[{\"transcript\":\"buenos d\u{ed}as\",\"confidence\":0.98},{\"transcript\":\"other\"}]}}";
    let step = state.receive(session, Inbound::Text(text.to_string()));
    assert!(!step.done);
    match step.event {
        Some(Event::Transcript(event)) => {
            assert_eq!(event.text(), "buenos d\u{ed}as");
            assert!(event.is_final());
        }
        other => panic!("expected a transcript, got {:?}", other),
    }
}

#[test]
fn empty_transcript_gives_no_event() {
    let (mut state, session) = started();
    let text = "{\"channel\":{\"alternatives\":[{\"transcript\":\"\"}]},\"is_final\":true}";
    assert_eq!(
        state.receive(session, Inbound::Text(text.to_string())),
        DownlinkStep { event: None, done: false }
    );
    assert!(state.is_active());
}

#[test]
fn malformed_text_is_passed_over() {
    let (mut state, session) = started();
    for text in ["", "not json", "{\"channel\":", "[1,2", "{\"channel\":{\"alternatives\":[]}}", "null", "42", "{\"channel\":{\"alternatives\":{\"0\":{\"transcript\":\"x\"}}}}"] {
        assert_eq!(
            state.receive(session, Inbound::Text(text.to_string())),
            DownlinkStep { event: None, done: false }
        );
        assert!(state.is_active());
    }
    let good = "{\"channel\":{\"alternatives\":[{\"transcript\":\"still here\"}]}}";
    let step = state.receive(session, Inbound::Text(good.to_string()));
    match step.event {
        Some(Event::Transcript(event)) => {
            assert_eq!(event.text(), "still here");
            assert!(!event.is_final());
        }
        other => panic!("expected a transcript, got {:?}", other),
    }
}

#[test]
fn text_after_stop_gives_no_transcript() {
    let (mut state, session) = started();
    state.stop();
    let text = "{\"channel\":{\"alternatives\":[{\"transcript\":\"late\"}]},\"is_final\":true}";
    assert_eq!(
        state.receive(session, Inbound::Text(text.to_string())),
        DownlinkStep { event: None, done: false }
    );
    let step = state.receive(session, Inbound::Close);
    assert!(step.done);
    assert!(step.event.is_some());
}
