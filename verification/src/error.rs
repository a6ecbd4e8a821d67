//! The one error type that crosses the library's boundary.

use crate::config::SecurityProtocol;
use crate::offset::ConcreteOffset;
use rdkafka::error::KafkaError;
use vstd::prelude::*;

verus! {

/// The broad classes of failure.
#[derive(Clone, Copy, Debug, PartialEq, Eq, Structural)]
pub enum ErrorKind {
    /// What the caller asked for cannot be used; nothing was sent.
    Configuration,
    /// A request to the broker failed or timed out.
    BrokerRoundTrip,
    /// The engine answered in a way that its interface rules out.
    InvariantViolation,
    /// A message handler gave up.
    Handler,
}

/// Why an operation failed.
#[derive(Debug)]
pub enum KafkaClientError {
    /// A protocol is asked for that this client does not speak.
    UnsupportedProtocol(SecurityProtocol),
    /// TLS is asked for without certificate and key locations.
    MissingTls,
    /// The topic name holds a NUL character.
    InvalidTopic,
    /// The offset has no encoding in a partition list.
    InvalidOffset(ConcreteOffset),
    /// A broker request failed; the engine's error, as it came.
    BrokerRoundTrip(KafkaError),
    /// The broker's answer to a time lookup lacks the partition asked about.
    MissingPartition,
    /// A received record carries no timestamp.
    MissingTimestamp,
    /// A message handler failed; its account of it.
    Handler(String),
}

impl KafkaClientError {
    /// The class each error belongs to.
    pub open spec fn spec_kind(&self) -> ErrorKind {
        match *self {
            KafkaClientError::UnsupportedProtocol(_) => ErrorKind::Configuration,
            KafkaClientError::MissingTls => ErrorKind::Configuration,
            KafkaClientError::InvalidTopic => ErrorKind::Configuration,
            KafkaClientError::InvalidOffset(_) => ErrorKind::Configuration,
            KafkaClientError::BrokerRoundTrip(_) => ErrorKind::BrokerRoundTrip,
            KafkaClientError::MissingPartition => ErrorKind::InvariantViolation,
            KafkaClientError::MissingTimestamp => ErrorKind::InvariantViolation,
            KafkaClientError::Handler(_) => ErrorKind::Handler,
        }
    }

    /// The class this error belongs to.
    #[verifier::when_used_as_spec(spec_kind)]
    pub fn kind(&self) -> (k: ErrorKind)
        ensures
            k == self.spec_kind(),
    {
        match self {
            KafkaClientError::UnsupportedProtocol(_) => ErrorKind::Configuration,
            KafkaClientError::MissingTls => ErrorKind::Configuration,
            KafkaClientError::InvalidTopic => ErrorKind::Configuration,
            KafkaClientError::InvalidOffset(_) => ErrorKind::Configuration,
            KafkaClientError::BrokerRoundTrip(_) => ErrorKind::BrokerRoundTrip,
            KafkaClientError::MissingPartition => ErrorKind::InvariantViolation,
            KafkaClientError::MissingTimestamp => ErrorKind::InvariantViolation,
            KafkaClientError::Handler(_) => ErrorKind::Handler,
        }
    }
}

/// The engine's error as this library reports it: a broker error that
/// carries it.
pub fn broker_error(error: KafkaError) -> (e: KafkaClientError)
    ensures
        e == KafkaClientError::BrokerRoundTrip(error),
{
    KafkaClientError::BrokerRoundTrip(error)
}

/// The outcome of a broker request, with its error as this library reports
/// it: what succeeded is kept, what failed is the broker error that carries
/// the engine's.
pub fn broker_result<T>(result: Result<T, KafkaError>) -> (r: Result<T, KafkaClientError>)
    ensures
        r == match result {
            Ok(v) => Ok::<T, KafkaClientError>(v),
            Err(e) => Err(KafkaClientError::BrokerRoundTrip(e)),
        },
{
    match result {
        Ok(v) => Ok(v),
        Err(e) => Err(broker_error(e)),
    }
}

} // verus!
