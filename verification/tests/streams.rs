use kafka_client::error::KafkaClientError;
use kafka_client::message::KafkaMessage;
use kafka_client::stream::idle_timeout_ms;
use kafka_client::stream::poll_event;
use kafka_client::stream::MessageStream;
use kafka_client::stream::StreamAction;
use kafka_client::stream::StreamEvent;
use kafka_client::stream::StreamState;
use rdkafka::error::KafkaError;
use rdkafka::error::RDKafkaErrorCode;

fn message(n: u8) -> KafkaMessage {
    KafkaMessage::new(vec![n], vec![n, n], n as i64)
}

fn broker_down() -> KafkaClientError {
    KafkaClientError::BrokerRoundTrip(KafkaError::MessageConsumption(
        RDKafkaErrorCode::AllBrokersDown,
    ))
}

#[test]
fn idle_timeouts() {
    assert_eq!(idle_timeout_ms(true), 3_000);
    assert_eq!(idle_timeout_ms(false), 3_600_000);
}

#[test]
fn a_stream_starts_by_polling() {
    let mut s = MessageStream::new(true);
    assert_eq!(s.state, StreamState::Idle);
    assert!(!s.is_ended());
    assert!(matches!(s.advance(StreamEvent::Started), StreamAction::Poll(3_000)));
    assert_eq!(s.state, StreamState::Polling);
    let mut s = MessageStream::new(false);
    assert!(matches!(s.advance(StreamEvent::Started), StreamAction::Poll(3_600_000)));
    assert_eq!(s.state, StreamState::Polling);
}

#[test]
fn messages_are_delivered_in_order_of_arrival() {
    let mut s = MessageStream::new(true);
    s.advance(StreamEvent::Started);
    let mut out = Vec::new();
    for n in [3u8, 1, 2] {
        match s.advance(StreamEvent::Message(message(n))) {
            StreamAction::Deliver(m) => out.push(m),
            other => panic!("not delivered: {:?}", other),
        }
        assert_eq!(s.state, StreamState::Delivering);
        assert!(matches!(s.advance(StreamEvent::Handled), StreamAction::Poll(3_000)));
        assert_eq!(s.state, StreamState::Polling);
    }
    assert_eq!(out, vec![message(3), message(1), message(2)]);
}

#[test]
fn a_drained_stream_ends_without_error() {
    let mut s = MessageStream::new(true);
    s.advance(StreamEvent::Started);
    s.advance(StreamEvent::Message(message(1)));
    s.advance(StreamEvent::Handled);
    assert!(matches!(s.advance(StreamEvent::Quiet(3_000)), StreamAction::Finish));
    assert_eq!(s.state, StreamState::Finished);
    assert!(s.is_ended());
}

#[test]
fn a_short_quiet_spell_polls_for_the_rest() {
    let mut s = MessageStream::new(true);
    s.advance(StreamEvent::Started);
    assert!(matches!(s.advance(StreamEvent::Quiet(2_999)), StreamAction::Poll(1)));
    assert_eq!(s.state, StreamState::Polling);
    assert!(matches!(s.advance(StreamEvent::Quiet(0)), StreamAction::Poll(3_000)));
    assert!(matches!(s.advance(StreamEvent::Quiet(u64::MAX)), StreamAction::Finish));
}

#[test]
fn a_following_stream_is_open_after_ten_quiet_seconds() {
    let mut s = MessageStream::new(false);
    s.advance(StreamEvent::Started);
    assert!(matches!(s.advance(StreamEvent::Quiet(10_000)), StreamAction::Poll(3_590_000)));
    assert_eq!(s.state, StreamState::Polling);
    assert!(!s.is_ended());
    assert!(matches!(s.advance(StreamEvent::Quiet(3_599_999)), StreamAction::Poll(1)));
    assert_eq!(s.state, StreamState::Polling);
    assert!(matches!(s.advance(StreamEvent::Quiet(3_600_000)), StreamAction::Finish));
    assert_eq!(s.state, StreamState::Finished);
}

#[test]
fn a_connection_error_fails_the_stream() {
    for exit_on_done in [true, false] {
        let mut s = MessageStream::new(exit_on_done);
        s.advance(StreamEvent::Started);
        match s.advance(StreamEvent::ConnectionError(broker_down())) {
            StreamAction::Abort(KafkaClientError::BrokerRoundTrip(carried)) => assert_eq!(
                carried,
                KafkaError::MessageConsumption(RDKafkaErrorCode::AllBrokersDown)
            ),
            other => panic!("not aborted: {:?}", other),
        }
        assert_eq!(s.state, StreamState::Failed);
        assert!(s.is_ended());
    }
}

#[test]
fn a_handler_error_fails_the_stream() {
    let mut s = MessageStream::new(false);
    s.advance(StreamEvent::Started);
    s.advance(StreamEvent::Message(message(1)));
    match s.advance(StreamEvent::HandlerError(KafkaClientError::Handler("no".to_string()))) {
        StreamAction::Abort(KafkaClientError::Handler(text)) => assert_eq!(text, "no"),
        other => panic!("not aborted: {:?}", other),
    }
    assert_eq!(s.state, StreamState::Failed);
}

#[test]
fn an_ended_stream_ignores_everything() {
    for end in [StreamState::Finished, StreamState::Failed] {
        for event in [
            StreamEvent::Started,
            StreamEvent::Message(message(1)),
            StreamEvent::Quiet(5_000),
            StreamEvent::ConnectionError(broker_down()),
            StreamEvent::Handled,
            StreamEvent::HandlerError(broker_down()),
        ] {
            let mut s = MessageStream { state: end, exit_on_done: true };
            assert!(matches!(s.advance(event), StreamAction::Ignore));
            assert_eq!(s.state, end);
        }
    }
}

#[test]
fn events_out_of_turn_are_ignored() {
    let mut s = MessageStream::new(true);
    for event in [
        StreamEvent::Message(message(1)),
        StreamEvent::Quiet(5_000),
        StreamEvent::ConnectionError(broker_down()),
        StreamEvent::Handled,
        StreamEvent::HandlerError(broker_down()),
    ] {
        assert!(matches!(s.advance(event), StreamAction::Ignore));
        assert_eq!(s.state, StreamState::Idle);
    }
    s.advance(StreamEvent::Started);
    for event in [
        StreamEvent::Started,
        StreamEvent::Handled,
        StreamEvent::HandlerError(broker_down()),
    ] {
        assert!(matches!(s.advance(event), StreamAction::Ignore));
        assert_eq!(s.state, StreamState::Polling);
    }
    s.advance(StreamEvent::Message(message(1)));
    for event in [
        StreamEvent::Started,
        StreamEvent::Message(message(2)),
        StreamEvent::Quiet(5_000),
        StreamEvent::ConnectionError(broker_down()),
    ] {
        assert!(matches!(s.advance(event), StreamAction::Ignore));
        assert_eq!(s.state, StreamState::Delivering);
    }
}

#[test]
fn a_poll_becomes_the_event_it_ended_with() {
    match poll_event(Some(Ok(message(4))), 77) {
        StreamEvent::Message(m) => assert_eq!(m, message(4)),
        other => panic!("wrong event: {:?}", other),
    }
    match poll_event(Some(Err(broker_down())), 77) {
        StreamEvent::ConnectionError(KafkaClientError::BrokerRoundTrip(carried)) => assert_eq!(
            carried,
            KafkaError::MessageConsumption(RDKafkaErrorCode::AllBrokersDown)
        ),
        other => panic!("wrong event: {:?}", other),
    }
    assert!(matches!(poll_event(None, 77), StreamEvent::Quiet(77)));
    assert!(matches!(poll_event(None, 0), StreamEvent::Quiet(0)));
}
