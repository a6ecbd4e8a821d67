//! A Kafka record as the rest of a program sees it.

use crate::engine::timestamp_millis;
use crate::error::broker_error;
use crate::error::KafkaClientError;
use crate::headers::Headers;
use rdkafka::error::KafkaError;
use vstd::prelude::*;
use vstd::std_specs::cmp::PartialEqSpecImpl;

verus! {

/// The time a record carries, as the engine reports it.
#[derive(Clone, Copy, Debug, PartialEq, Eq, Structural)]
pub enum MessageTimestamp {
    /// The record carries no time.
    NotAvailable,
    /// When the producer created the record, in epoch milliseconds.
    CreateTime(i64),
    /// When the broker appended the record, in epoch milliseconds.
    LogAppendTime(i64),
}

impl MessageTimestamp {
    /// The time in epoch milliseconds, if the record carries one. The value
    /// `-1` stands for "none" on the wire.
    pub open spec fn millis(self) -> Option<i64> {
        match self {
            MessageTimestamp::NotAvailable => None,
            MessageTimestamp::CreateTime(t) | MessageTimestamp::LogAppendTime(t) => if t == -1 {
                None
            } else {
                Some(t)
            },
        }
    }
}

/// A record: key, payload, timestamp in epoch milliseconds, and headers.
#[derive(Clone, Debug)]
pub struct KafkaMessage {
    /// The key; empty when the record has none.
    pub key: Vec<u8>,
    /// The payload; empty when the record has none.
    pub payload: Vec<u8>,
    /// Epoch milliseconds.
    pub timestamp: i64,
    /// Named values that travel with the record.
    pub headers: Headers,
}

/// A [`KafkaMessage`] as contracts see it.
pub struct MessageView {
    pub key: Seq<u8>,
    pub payload: Seq<u8>,
    pub timestamp: i64,
    pub headers: Map<Seq<char>, Seq<u8>>,
}

impl View for KafkaMessage {
    type V = MessageView;

    open spec fn view(&self) -> MessageView {
        MessageView {
            key: self.key@,
            payload: self.payload@,
            timestamp: self.timestamp,
            headers: self.headers@,
        }
    }
}

impl MessageView {
    /// The message with nothing in it, at time zero.
    pub open spec fn empty() -> MessageView {
        MessageView {
            key: Seq::empty(),
            payload: Seq::empty(),
            timestamp: 0,
            headers: Map::empty(),
        }
    }
}

impl Default for KafkaMessage {
    /// The message with nothing in it, at time zero.
    fn default() -> (m: KafkaMessage)
        ensures
            m@ == MessageView::empty(),
    {
        KafkaMessage { key: Vec::new(), payload: Vec::new(), timestamp: 0, headers: Headers::new() }
    }
}

impl PartialEq for KafkaMessage {
    /// Two messages are equal when key, payload, timestamp and headers are.
    fn eq(&self, other: &KafkaMessage) -> (r: bool) {
        let r = self.key == other.key && self.payload == other.payload && self.timestamp
            == other.timestamp && self.headers == other.headers;
        proof {
            if r {
                assert(self.key@ =~= other.key@);
                assert(self.payload@ =~= other.payload@);
            }
        }
        r
    }
}

impl PartialEqSpecImpl for KafkaMessage {
    open spec fn obeys_eq_spec() -> bool {
        true
    }

    open spec fn eq_spec(&self, other: &KafkaMessage) -> bool {
        self@ == other@
    }
}

impl Eq for KafkaMessage {

}

/// The bytes a record has for a field, or none where it lacks the field.
pub open spec fn field_bytes(field: Option<Vec<u8>>) -> Seq<u8> {
    match field {
        Some(bytes) => bytes@,
        None => Seq::empty(),
    }
}

/// The message for a received record, or why there is none.
///
/// A missing key or payload becomes an empty one. Headers are not taken
/// over. A record without a timestamp is refused.
pub open spec fn received_message(
    key: Option<Vec<u8>>,
    payload: Option<Vec<u8>>,
    timestamp: MessageTimestamp,
) -> Result<MessageView, KafkaClientError> {
    match timestamp.millis() {
        Some(millis) => Ok(
            MessageView {
                key: field_bytes(key),
                payload: field_bytes(payload),
                timestamp: millis,
                headers: Map::empty(),
            },
        ),
        None => Err(KafkaClientError::MissingTimestamp),
    }
}

/// A message, or the reason there is none, as contracts see it.
pub open spec fn message_view(r: Result<KafkaMessage, KafkaClientError>) -> Result<
    MessageView,
    KafkaClientError,
> {
    match r {
        Ok(m) => Ok(m@),
        Err(e) => Err(e),
    }
}

/// The bytes, or none of them.
fn bytes_or_empty(bytes: Option<Vec<u8>>) -> (v: Vec<u8>)
    ensures
        v@ == field_bytes(bytes),
{
    match bytes {
        Some(b) => b,
        None => Vec::new(),
    }
}

impl KafkaMessage {
    /// A message without headers.
    pub fn new(key: Vec<u8>, payload: Vec<u8>, timestamp: i64) -> (m: KafkaMessage)
        ensures
            m@ == (MessageView { key: key@, payload: payload@, timestamp, ..MessageView::empty() }),
    {
        KafkaMessage { key, payload, timestamp, headers: Headers::new() }
    }

    /// The message for a record that was received.
    pub fn received(
        key: Option<Vec<u8>>,
        payload: Option<Vec<u8>>,
        timestamp: MessageTimestamp,
    ) -> (r: Result<KafkaMessage, KafkaClientError>)
        ensures
            message_view(r) == received_message(key, payload, timestamp),
    {
        match timestamp_millis(timestamp) {
            Some(millis) => Ok(
                KafkaMessage {
                    key: bytes_or_empty(key),
                    payload: bytes_or_empty(payload),
                    timestamp: millis,
                    headers: Headers::new(),
                },
            ),
            None => Err(KafkaClientError::MissingTimestamp),
        }
    }

    /// What one poll comes to: the message for the record it brought, or
    /// the broker error that carries the engine's error if it failed.
    pub fn polled(
        poll: Result<(Option<Vec<u8>>, Option<Vec<u8>>, MessageTimestamp), KafkaError>,
    ) -> (r: Result<KafkaMessage, KafkaClientError>)
        ensures
            message_view(r) == match poll {
                Ok(record) => received_message(record.0, record.1, record.2),
                Err(e) => Err(KafkaClientError::BrokerRoundTrip(e)),
            },
    {
        match poll {
            Ok((key, payload, timestamp)) => KafkaMessage::received(key, payload, timestamp),
            Err(e) => Err(broker_error(e)),
        }
    }

    /// Replaces the key.
    pub fn set_key(&mut self, key: Vec<u8>)
        ensures
            final(self)@ == (MessageView { key: key@, ..old(self)@ }),
    {
        self.key = key;
    }

    /// Replaces the payload.
    pub fn set_payload(&mut self, payload: Vec<u8>)
        ensures
            final(self)@ == (MessageView { payload: payload@, ..old(self)@ }),
    {
        self.payload = payload;
    }

    /// Replaces the timestamp.
    pub fn set_timestamp(&mut self, timestamp: i64)
        ensures
            final(self)@ == (MessageView { timestamp, ..old(self)@ }),
    {
        self.timestamp = timestamp;
    }

    /// Replaces the headers.
    pub fn set_headers(&mut self, headers: Headers)
        ensures
            final(self)@ == (MessageView { headers: headers@, ..old(self)@ }),
    {
        self.headers = headers;
    }

    /// The message with one header set, replacing the value the name had.
    pub fn with_header(self, name: String, value: Vec<u8>) -> (m: KafkaMessage)
        ensures
            m@ == (MessageView { headers: self@.headers.insert(name@, value@), ..self@ }),
    {
        KafkaMessage {
            key: self.key,
            payload: self.payload,
            timestamp: self.timestamp,
            headers: self.headers.insert(name, value),
        }
    }
}

} // verus!
