//! What a caller says about the cluster and about one consumer or producer.

use crate::error::KafkaClientError;
use vstd::prelude::*;

verus! {

/// How the connection to the brokers is secured.
#[derive(Clone, Copy, Debug, PartialEq, Eq, Structural)]
pub enum SecurityProtocol {
    /// No encryption, no authentication.
    Plaintext,
    /// SASL authentication over an unencrypted connection.
    SaslPlaintext,
    /// TLS.
    Ssl,
    /// SASL authentication over TLS.
    SaslSsl,
}

impl SecurityProtocol {
    /// The value of librdkafka's `security.protocol` for this protocol.
    pub open spec fn name(self) -> Seq<char> {
        match self {
            SecurityProtocol::Plaintext => "plaintext"@,
            SecurityProtocol::SaslPlaintext => "sasl_plaintext"@,
            SecurityProtocol::Ssl => "ssl"@,
            SecurityProtocol::SaslSsl => "sasl_ssl"@,
        }
    }

    /// Whether this client can speak the protocol: it cannot speak SASL.
    pub open spec fn supported(self) -> bool {
        self is Plaintext || self is Ssl
    }

    /// The value of librdkafka's `security.protocol` for this protocol.
    pub fn to_string(&self) -> (s: String)
        ensures
            s@ == self.name(),
    {
        match self {
            SecurityProtocol::Plaintext => String::from_str("plaintext"),
            SecurityProtocol::SaslPlaintext => String::from_str("sasl_plaintext"),
            SecurityProtocol::Ssl => String::from_str("ssl"),
            SecurityProtocol::SaslSsl => String::from_str("sasl_ssl"),
        }
    }
}

/// Where the TLS material lies on disk. The files are read by the engine when
/// it connects, never by this library.
#[derive(Clone, Debug)]
pub struct TlsConfig {
    /// The CA certificate that signs the brokers' certificates.
    pub cafile: String,
    /// The client's certificate.
    pub clientfile: String,
    /// The client's private key.
    pub clientkeyfile: String,
}

/// A [`TlsConfig`] as contracts see it.
pub struct TlsView {
    pub cafile: Seq<char>,
    pub clientfile: Seq<char>,
    pub clientkeyfile: Seq<char>,
}

impl View for TlsConfig {
    type V = TlsView;

    open spec fn view(&self) -> TlsView {
        TlsView {
            cafile: self.cafile@,
            clientfile: self.clientfile@,
            clientkeyfile: self.clientkeyfile@,
        }
    }
}

/// The brokers and how to reach them.
#[derive(Clone, Debug)]
pub struct KafkaAuthConfig {
    /// The brokers to contact first, each as `host` or `host:port`.
    pub brokers: Vec<String>,
    /// How connections are secured.
    pub security_protocol: SecurityProtocol,
    /// The TLS material; needed when the protocol is TLS.
    pub tls: Option<TlsConfig>,
}

/// A [`KafkaAuthConfig`] as contracts see it.
pub struct AuthView {
    pub brokers: Seq<Seq<char>>,
    pub security_protocol: SecurityProtocol,
    pub tls: Option<TlsView>,
}

impl AuthView {
    /// What is wrong with the configuration, if anything: SASL is not
    /// supported, and TLS needs its material.
    pub open spec fn fault(self) -> Option<KafkaClientError> {
        if !self.security_protocol.supported() {
            Some(KafkaClientError::UnsupportedProtocol(self.security_protocol))
        } else if self.security_protocol is Ssl && self.tls is None {
            Some(KafkaClientError::MissingTls)
        } else {
            None
        }
    }

    /// Whether a client can be configured from this.
    pub open spec fn usable(self) -> bool {
        self.fault() is None
    }
}

impl View for KafkaAuthConfig {
    type V = AuthView;

    open spec fn view(&self) -> AuthView {
        AuthView {
            brokers: self.brokers@.map_values(|b: String| b@),
            security_protocol: self.security_protocol,
            tls: match self.tls {
                Some(tls) => Some(tls@),
                None => None,
            },
        }
    }
}

impl KafkaAuthConfig {
    /// How connections are secured.
    pub fn get_security_protocol(&self) -> (p: SecurityProtocol)
        ensures
            p == self@.security_protocol,
    {
        self.security_protocol
    }

    /// Checks that a client can be configured from this, without touching the
    /// network or the disk.
    pub fn validate(&self) -> (r: Result<(), KafkaClientError>)
        ensures
            r is Ok <==> self@.usable(),
            r matches Err(e) ==> self@.fault() == Some(e),
    {
        match self.security_protocol {
            SecurityProtocol::Plaintext => Ok(()),
            SecurityProtocol::SaslPlaintext => Err(
                KafkaClientError::UnsupportedProtocol(SecurityProtocol::SaslPlaintext),
            ),
            SecurityProtocol::SaslSsl => Err(
                KafkaClientError::UnsupportedProtocol(SecurityProtocol::SaslSsl),
            ),
            SecurityProtocol::Ssl => {
                if self.tls.is_none() {
                    Err(KafkaClientError::MissingTls)
                } else {
                    Ok(())
                }
            },
        }
    }
}

/// One consumer: a group member reading a single partition of a single topic.
#[derive(Clone, Debug)]
pub struct KafkaConsumerConfig {
    /// The consumer group.
    pub group_id: String,
    /// The topic to read.
    pub topic: String,
    /// The partition to read; partition 0 when absent.
    pub partition: Option<i32>,
    /// Whether a stream ends once the partition has been quiet for a short
    /// while, or keeps waiting for more.
    pub exit_on_done: bool,
    /// The brokers and how to reach them.
    pub auth: KafkaAuthConfig,
}

/// A [`KafkaConsumerConfig`] as contracts see it.
pub struct ConsumerConfigView {
    pub group_id: Seq<char>,
    pub topic: Seq<char>,
    pub partition: Option<i32>,
    pub exit_on_done: bool,
    pub auth: AuthView,
}

impl ConsumerConfigView {
    /// The partition that is read.
    pub open spec fn assigned_partition(self) -> i32 {
        match self.partition {
            Some(p) => p,
            None => 0,
        }
    }
}

impl View for KafkaConsumerConfig {
    type V = ConsumerConfigView;

    open spec fn view(&self) -> ConsumerConfigView {
        ConsumerConfigView {
            group_id: self.group_id@,
            topic: self.topic@,
            partition: self.partition,
            exit_on_done: self.exit_on_done,
            auth: self.auth@,
        }
    }
}

impl KafkaConsumerConfig {
    /// The partition that is read.
    pub fn assigned_partition(&self) -> (p: i32)
        ensures
            p == self@.assigned_partition(),
    {
        match self.partition {
            Some(p) => p,
            None => 0,
        }
    }
}

/// One producer, writing to a single topic.
#[derive(Clone, Debug)]
pub struct KafkaProducerConfig {
    /// The topic written to.
    pub topic: String,
    /// The brokers and how to reach them.
    pub auth: KafkaAuthConfig,
}

/// A [`KafkaProducerConfig`] as contracts see it.
pub struct ProducerConfigView {
    pub topic: Seq<char>,
    pub auth: AuthView,
}

impl View for KafkaProducerConfig {
    type V = ProducerConfigView;

    open spec fn view(&self) -> ProducerConfigView {
        ProducerConfigView { topic: self.topic@, auth: self.auth@ }
    }
}

} // verus!
