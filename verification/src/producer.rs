//! A producer for one topic: what it sends for a message.

use crate::config::KafkaProducerConfig;
use crate::message::KafkaMessage;
use vstd::prelude::*;

verus! {

/// How long a record may wait for room in the local queue, in milliseconds:
/// not at all. Sending is tried at once.
pub const QUEUE_TIMEOUT_MS: u64 = 0;

/// A record on its way to the broker.
#[derive(Clone, Debug, PartialEq, Eq)]
pub struct ProducerRecord {
    /// The topic written to.
    pub topic: String,
    /// The key, if the record has one.
    pub key: Option<Vec<u8>>,
    /// The payload, if the record has one.
    pub payload: Option<Vec<u8>>,
    /// How long the record may wait for room in the local queue, in
    /// milliseconds.
    pub queue_timeout_ms: u64,
}

/// A [`ProducerRecord`] as contracts see it.
pub struct RecordView {
    pub topic: Seq<char>,
    pub key: Option<Seq<u8>>,
    pub payload: Option<Seq<u8>>,
    pub queue_timeout_ms: u64,
}

impl View for ProducerRecord {
    type V = RecordView;

    open spec fn view(&self) -> RecordView {
        RecordView {
            topic: self.topic@,
            key: match self.key {
                Some(k) => Some(k@),
                None => None,
            },
            payload: match self.payload {
                Some(p) => Some(p@),
                None => None,
            },
            queue_timeout_ms: self.queue_timeout_ms,
        }
    }
}

/// The bytes as a field of a record: empty bytes are no field at all.
pub open spec fn field(bytes: Seq<u8>) -> Option<Seq<u8>> {
    if bytes.len() == 0 {
        None
    } else {
        Some(bytes)
    }
}

/// The bytes as a field of a record: empty bytes are no field at all.
fn into_field(bytes: Vec<u8>) -> (f: Option<Vec<u8>>)
    ensures
        field(bytes@) == match f {
            Some(b) => Some(b@),
            None => None,
        },
{
    if bytes.is_empty() {
        None
    } else {
        Some(bytes)
    }
}

/// A producer writing to one topic, over a connection `P`.
pub struct RdkafkaProducer<P> {
    /// The connection.
    pub producer: P,
    /// What the producer was configured with.
    pub config: KafkaProducerConfig,
}

impl<P> RdkafkaProducer<P> {
    /// A producer over an existing connection.
    pub fn new(producer: P, config: KafkaProducerConfig) -> (p: Self)
        ensures
            p.producer == producer,
            p.config == config,
    {
        RdkafkaProducer { producer, config }
    }

    /// The record that is sent for a message.
    ///
    /// It goes to the producer's topic. Key and payload are attached only
    /// where they are not empty. Timestamp and headers are not sent. The
    /// record does not wait in the local queue.
    pub fn record(&self, message: KafkaMessage) -> (r: ProducerRecord)
        ensures
            r@ == (RecordView {
                topic: self.config@.topic,
                key: field(message@.key),
                payload: field(message@.payload),
                queue_timeout_ms: QUEUE_TIMEOUT_MS,
            }),
    {
        ProducerRecord {
            topic: self.config.topic.clone(),
            key: into_field(message.key),
            payload: into_field(message.payload),
            queue_timeout_ms: QUEUE_TIMEOUT_MS,
        }
    }
}

} // verus!
