//! From a caller's configuration to the parameters librdkafka is created
//! with. Nothing here connects, reads a file or looks at the environment.

use crate::config::AuthView;
use crate::config::ConsumerConfigView;
use crate::config::KafkaAuthConfig;
use crate::config::KafkaConsumerConfig;
use crate::config::KafkaProducerConfig;
use crate::config::ProducerConfigView;
use crate::config::SecurityProtocol;
use crate::engine::config_entries;
use crate::engine::new_client_config;
use crate::engine::set_config;
use crate::engine::ConfigEntries;
use crate::error::KafkaClientError;
use rdkafka::ClientConfig;
use vstd::prelude::*;

verus! {

/// The parts, in order, with the separator between each two of them.
pub open spec fn joined(parts: Seq<Seq<char>>, separator: Seq<char>) -> Seq<char>
    decreases parts.len(),
{
    if parts.len() == 0 {
        Seq::empty()
    } else if parts.len() == 1 {
        parts[0]
    } else {
        joined(parts.drop_last(), separator) + separator + parts.last()
    }
}

/// Joins the parts with the separator between each two of them.
pub fn join(parts: &Vec<String>, separator: &str) -> (s: String)
    ensures
        s@ == joined(parts@.map_values(|p: String| p@), separator@),
{
    let ghost views = parts@.map_values(|p: String| p@);
    let mut out = String::new();
    let mut i: usize = 0;
    while i < parts.len()
        invariant
            i <= parts.len(),
            views == parts@.map_values(|p: String| p@),
            out@ == joined(views.take(i as int), separator@),
        decreases parts.len() - i,
    {
        proof {
            assert(views.take(i + 1).drop_last() == views.take(i as int));
            assert(views.take(i + 1).last() == parts@[i as int]@);
        }
        if i > 0 {
            out.append(separator);
        }
        out.append(parts[i].as_str());
        i += 1;
    }
    proof {
        assert(views.take(parts.len() as int) == views);
    }
    out
}

/// The parameters every client is created with: the protocol, the brokers
/// separated by single spaces, and for TLS the three file locations.
pub open spec fn client_entries(auth: AuthView) -> ConfigEntries {
    let common = ConfigEntries::empty().insert(
        "security.protocol"@,
        auth.security_protocol.name(),
    ).insert("bootstrap.servers"@, joined(auth.brokers, " "@));
    match (auth.security_protocol, auth.tls) {
        (SecurityProtocol::Ssl, Some(tls)) => common.insert("ssl.ca.location"@, tls.cafile).insert(
            "ssl.certificate.location"@,
            tls.clientfile,
        ).insert("ssl.key.location"@, tls.clientkeyfile),
        _ => common,
    }
}

/// The parameters of a consumer: those of every client, its group, no
/// end-of-partition events, a session timeout of six seconds, and no
/// automatic commits.
pub open spec fn consumer_entries(config: ConsumerConfigView) -> ConfigEntries {
    client_entries(config.auth).insert("group.id"@, config.group_id).insert(
        "enable.partition.eof"@,
        "false"@,
    ).insert("session.timeout.ms"@, "6000"@).insert("enable.auto.commit"@, "false"@)
}

/// The parameters of a producer: those of every client, and a message timeout
/// of five seconds.
pub open spec fn producer_entries(config: ProducerConfigView) -> ConfigEntries {
    client_entries(config.auth).insert("message.timeout.ms"@, "5000"@)
}

/// The parameters of an admin client: those of every client, and a message
/// timeout of five seconds.
pub open spec fn admin_entries(auth: AuthView) -> ConfigEntries {
    client_entries(auth).insert("message.timeout.ms"@, "5000"@)
}

/// The configuration every client starts from.
///
/// It is refused, before anything is set up, when the protocol is a SASL one
/// or when TLS is asked for without its material.
pub fn config_client(auth: &KafkaAuthConfig) -> (r: Result<ClientConfig, KafkaClientError>)
    ensures
        r is Ok <==> auth@.usable(),
        r matches Ok(config) ==> config_entries(config) == client_entries(auth@),
        r matches Err(e) ==> auth@.fault() == Some(e),
{
    match auth.validate() {
        Err(e) => { return Err(e); },
        Ok(()) => {},
    }
    let mut config = new_client_config();
    let protocol = auth.get_security_protocol().to_string();
    set_config(&mut config, "security.protocol", protocol.as_str());
    let brokers = join(&auth.brokers, " ");
    set_config(&mut config, "bootstrap.servers", brokers.as_str());
    match &auth.tls {
        Some(tls) => {
            match auth.get_security_protocol() {
                SecurityProtocol::Ssl => {
                    set_config(&mut config, "ssl.ca.location", tls.cafile.as_str());
                    set_config(&mut config, "ssl.certificate.location", tls.clientfile.as_str());
                    set_config(&mut config, "ssl.key.location", tls.clientkeyfile.as_str());
                },
                _ => {},
            }
        },
        None => {},
    }
    Ok(config)
}

/// The configuration a consumer is created with.
pub fn consumer_client_config(config: &KafkaConsumerConfig) -> (r: Result<
    ClientConfig,
    KafkaClientError,
>)
    ensures
        r is Ok <==> config@.auth.usable(),
        r matches Ok(c) ==> config_entries(c) == consumer_entries(config@),
        r matches Err(e) ==> config@.auth.fault() == Some(e),
{
    let mut c = config_client(&config.auth)?;
    set_config(&mut c, "group.id", config.group_id.as_str());
    set_config(&mut c, "enable.partition.eof", "false");
    set_config(&mut c, "session.timeout.ms", "6000");
    set_config(&mut c, "enable.auto.commit", "false");
    Ok(c)
}

/// The configuration a producer is created with.
pub fn producer_client_config(config: &KafkaProducerConfig) -> (r: Result<
    ClientConfig,
    KafkaClientError,
>)
    ensures
        r is Ok <==> config@.auth.usable(),
        r matches Ok(c) ==> config_entries(c) == producer_entries(config@),
        r matches Err(e) ==> config@.auth.fault() == Some(e),
{
    let mut c = config_client(&config.auth)?;
    set_config(&mut c, "message.timeout.ms", "5000");
    Ok(c)
}

/// The configuration an admin client is created with.
pub fn admin_client_config(auth: &KafkaAuthConfig) -> (r: Result<ClientConfig, KafkaClientError>)
    ensures
        r is Ok <==> auth@.usable(),
        r matches Ok(c) ==> config_entries(c) == admin_entries(auth@),
        r matches Err(e) ==> auth@.fault() == Some(e),
{
    let mut c = config_client(auth)?;
    set_config(&mut c, "message.timeout.ms", "5000");
    Ok(c)
}

/// The parameter names that are set are ten different names.
proof fn lemma_names_differ()
    ensures
        "security.protocol"@.len() == 17,
        "bootstrap.servers"@.len() == 17,
        "ssl.ca.location"@.len() == 15,
        "ssl.certificate.location"@.len() == 24,
        "ssl.key.location"@.len() == 16,
        "group.id"@.len() == 8,
        "enable.partition.eof"@.len() == 20,
        "session.timeout.ms"@.len() == 18,
        "enable.auto.commit"@.len() == 18,
        "message.timeout.ms"@.len() == 18,
        "security.protocol"@ != "bootstrap.servers"@,
        "session.timeout.ms"@ != "enable.auto.commit"@,
        "session.timeout.ms"@ != "message.timeout.ms"@,
        "enable.auto.commit"@ != "message.timeout.ms"@,
{
    reveal_strlit("security.protocol");
    reveal_strlit("bootstrap.servers");
    reveal_strlit("ssl.ca.location");
    reveal_strlit("ssl.certificate.location");
    reveal_strlit("ssl.key.location");
    reveal_strlit("group.id");
    reveal_strlit("enable.partition.eof");
    reveal_strlit("session.timeout.ms");
    reveal_strlit("enable.auto.commit");
    reveal_strlit("message.timeout.ms");
    assert("security.protocol"@[0] != "bootstrap.servers"@[0]);
    assert("session.timeout.ms"@[0] != "enable.auto.commit"@[0]);
    assert("session.timeout.ms"@[0] != "message.timeout.ms"@[0]);
    assert("enable.auto.commit"@[0] != "message.timeout.ms"@[0]);
}

/// The names of the parameters every client is created with: protocol and
/// brokers always, the three TLS locations exactly when the protocol is TLS
/// and its material is there.
pub proof fn law_client_parameter_names(auth: AuthView)
    ensures
        client_entries(auth).dom() =~= if auth.security_protocol is Ssl && auth.tls is Some {
            set![
                "security.protocol"@,
                "bootstrap.servers"@,
                "ssl.ca.location"@,
                "ssl.certificate.location"@,
                "ssl.key.location"@,
            ]
        } else {
            set!["security.protocol"@, "bootstrap.servers"@]
        },
{
}

/// No parameter of a client overwrites another: each name holds the value
/// meant for it.
pub proof fn law_client_parameter_values(auth: AuthView)
    ensures
        client_entries(auth)["security.protocol"@] == auth.security_protocol.name(),
        client_entries(auth)["bootstrap.servers"@] == joined(auth.brokers, " "@),
        auth.security_protocol is Ssl ==> (auth.tls matches Some(tls) ==> {
            &&& client_entries(auth)["ssl.ca.location"@] == tls.cafile
            &&& client_entries(auth)["ssl.certificate.location"@] == tls.clientfile
            &&& client_entries(auth)["ssl.key.location"@] == tls.clientkeyfile
        }),
{
    lemma_names_differ();
}

/// A consumer is created with its group, without end-of-partition events,
/// with a session timeout of six seconds and without automatic commits, and
/// none of these touches the parameters every client has.
pub proof fn law_consumer_parameters(config: ConsumerConfigView)
    ensures
        consumer_entries(config)["group.id"@] == config.group_id,
        consumer_entries(config)["enable.partition.eof"@] == "false"@,
        consumer_entries(config)["session.timeout.ms"@] == "6000"@,
        consumer_entries(config)["enable.auto.commit"@] == "false"@,
        forall|name: Seq<char>| #[trigger]
            client_entries(config.auth).contains_key(name) ==> consumer_entries(config)[name]
                == client_entries(config.auth)[name],
{
    lemma_names_differ();
    law_client_parameter_names(config.auth);
}

/// A producer and an admin client are created with a message timeout of
/// five seconds, which touches none of the parameters every client has.
pub proof fn law_message_timeout(auth: AuthView)
    ensures
        admin_entries(auth)["message.timeout.ms"@] == "5000"@,
        forall|name: Seq<char>| #[trigger]
            client_entries(auth).contains_key(name) ==> admin_entries(auth)[name]
                == client_entries(auth)[name],
        forall|config: ProducerConfigView|
            config.auth == auth ==> #[trigger] producer_entries(config) == admin_entries(auth),
{
    lemma_names_differ();
    law_client_parameter_names(auth);
}

} // verus!
