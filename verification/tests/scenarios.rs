use std::time::Duration;

use kafka_client::client_config::consumer_client_config;
use kafka_client::config::KafkaAuthConfig;
use kafka_client::config::KafkaConsumerConfig;
use kafka_client::config::KafkaProducerConfig;
use kafka_client::config::SecurityProtocol;
use kafka_client::consumer::AssignStep;
use kafka_client::consumer::RdkafkaConsumer;
use kafka_client::error::ErrorKind;
use kafka_client::error::KafkaClientError;
use kafka_client::message::KafkaMessage;
use kafka_client::message::MessageTimestamp;
use kafka_client::offset::KafkaOffset;
use kafka_client::producer::ProducerRecord;
use kafka_client::producer::RdkafkaProducer;
use kafka_client::stream::StreamAction;
use kafka_client::stream::StreamEvent;
use rdkafka::consumer::BaseConsumer;
use rdkafka::consumer::Consumer;
use rdkafka::Offset;

fn auth(broker: &str) -> KafkaAuthConfig {
    KafkaAuthConfig {
        brokers: vec![broker.to_string()],
        security_protocol: SecurityProtocol::Plaintext,
        tls: None,
    }
}

fn consumer_config(topic: &str, auth: KafkaAuthConfig) -> KafkaConsumerConfig {
    KafkaConsumerConfig {
        group_id: "readers".to_string(),
        topic: topic.to_string(),
        partition: None,
        exit_on_done: true,
        auth,
    }
}

/// What a broker does with a record, as far as a reader can tell: it keeps
/// key and payload as they were sent and stamps the record.
fn through_the_broker(record: ProducerRecord, appended_at: i64) -> KafkaMessage {
    KafkaMessage::received(record.key, record.payload, MessageTimestamp::LogAppendTime(appended_at))
        .unwrap()
}

#[test]
fn a_message_written_is_the_message_read() {
    let writer = RdkafkaProducer::new(
        (),
        KafkaProducerConfig { topic: "X".to_string(), auth: auth("broker:9092") },
    );
    let record =
        writer.record(KafkaMessage::new(b"k1".to_vec(), b"v1".to_vec(), 1_700_000_000_000));
    assert_eq!(record.topic, "X");

    let reader = RdkafkaConsumer::new((), consumer_config("X", auth("broker:9092")));
    match reader.begin_assign(KafkaOffset::Beginning) {
        AssignStep::Assign(target) => {
            let list = target.to_list().unwrap();
            assert_eq!(list.count(), 1);
            assert_eq!(list.find_partition("X", 0).unwrap().offset(), Offset::Beginning);
        }
        _ => panic!("the consumer was not assigned"),
    }
    let mut stream = reader.message_stream();
    stream.advance(StreamEvent::Started);
    let m = match stream.advance(StreamEvent::Message(through_the_broker(record, 1_700_000_000_456)))
    {
        StreamAction::Deliver(m) => m,
        other => panic!("not delivered: {:?}", other),
    };
    assert_eq!(m.key, b"k1".to_vec());
    assert_eq!(m.payload, b"v1".to_vec());
}

#[test]
fn an_empty_key_is_read_back_empty() {
    let writer = RdkafkaProducer::new(
        (),
        KafkaProducerConfig { topic: "X".to_string(), auth: auth("broker:9092") },
    );
    let record = writer.record(KafkaMessage::new(vec![], b"v1".to_vec(), 0));
    assert_eq!(record.key, None);
    let m = through_the_broker(record, 5);
    assert_eq!(m.key, Vec::<u8>::new());
    assert_eq!(m.payload, b"v1".to_vec());
}

#[test]
fn tls_without_material_fails_before_any_connection() {
    let config = consumer_config(
        "X",
        KafkaAuthConfig {
            brokers: vec!["broker:9093".to_string()],
            security_protocol: SecurityProtocol::Ssl,
            tls: None,
        },
    );
    // No client configuration comes out, so there is nothing to connect with.
    match consumer_client_config(&config) {
        Err(e) => {
            assert!(matches!(e, KafkaClientError::MissingTls));
            assert_eq!(e.kind(), ErrorKind::Configuration);
        }
        Ok(_) => panic!("a client configuration was built"),
    }
}

#[test]
fn a_lookup_that_gets_no_answer_is_a_broker_error_and_assigns_nothing() {
    // Nothing listens on this port.
    let config = consumer_config("X", auth("127.0.0.1:1"));
    let connection: BaseConsumer = consumer_client_config(&config).unwrap().create().unwrap();
    let reader = RdkafkaConsumer::new(connection, config);
    let outcome = match reader.begin_assign(KafkaOffset::TimeInterval(1_000, 2_000)) {
        AssignStep::Lookup(request, timeout_ms) => {
            assert_eq!(timeout_ms, 1_000);
            reader.finish_lookup(reader.stream.offsets_for_times(
                request.to_list().unwrap(),
                Duration::from_millis(timeout_ms),
            ))
        }
        _ => panic!("no lookup was asked for"),
    };
    match outcome {
        Err(e) => assert_eq!(e.kind(), ErrorKind::BrokerRoundTrip),
        Ok(_) => panic!("the lookup did not fail"),
    }
    assert_eq!(reader.stream.assignment().unwrap().count(), 0);
}
