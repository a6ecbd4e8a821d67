use kafka_client::client_config::admin_client_config;
use kafka_client::client_config::config_client;
use kafka_client::client_config::consumer_client_config;
use kafka_client::client_config::join;
use kafka_client::client_config::producer_client_config;
use kafka_client::config::KafkaAuthConfig;
use kafka_client::config::KafkaConsumerConfig;
use kafka_client::config::KafkaProducerConfig;
use kafka_client::config::SecurityProtocol;
use kafka_client::config::TlsConfig;
use kafka_client::error::ErrorKind;
use kafka_client::error::KafkaClientError;
use rdkafka::ClientConfig;

fn plaintext(brokers: &[&str]) -> KafkaAuthConfig {
    KafkaAuthConfig {
        brokers: brokers.iter().map(|b| b.to_string()).collect(),
        security_protocol: SecurityProtocol::Plaintext,
        tls: None,
    }
}

fn tls() -> TlsConfig {
    TlsConfig {
        cafile: "/etc/kafka/ca.pem".to_string(),
        clientfile: "/etc/kafka/client.pem".to_string(),
        clientkeyfile: "/etc/kafka/client.key".to_string(),
    }
}

fn entries(config: &ClientConfig) -> Vec<(String, String)> {
    config.config_map().iter().map(|(k, v)| (k.to_string(), v.to_string())).collect()
}

fn pairs(expected: &[(&str, &str)]) -> Vec<(String, String)> {
    let mut v: Vec<(String, String)> =
        expected.iter().map(|(k, v)| (k.to_string(), v.to_string())).collect();
    v.sort();
    v
}

#[test]
fn protocol_names_are_librdkafka_values() {
    assert_eq!(SecurityProtocol::Plaintext.to_string(), "plaintext");
    assert_eq!(SecurityProtocol::SaslPlaintext.to_string(), "sasl_plaintext");
    assert_eq!(SecurityProtocol::Ssl.to_string(), "ssl");
    assert_eq!(SecurityProtocol::SaslSsl.to_string(), "sasl_ssl");
}

#[test]
fn join_puts_the_separator_between_parts() {
    let none: Vec<String> = vec![];
    assert_eq!(join(&none, " "), "");
    assert_eq!(join(&vec!["a".to_string()], " "), "a");
    assert_eq!(join(&vec!["a".to_string(), "b".to_string()], " "), "a b");
    assert_eq!(
        join(&vec!["a".to_string(), "".to_string(), "c".to_string()], ", "),
        "a, , c"
    );
}

#[test]
fn plaintext_client_has_protocol_and_brokers_only() {
    let config = config_client(&plaintext(&["k1:9092", "k2:9092"])).unwrap();
    assert_eq!(
        entries(&config),
        pairs(&[("security.protocol", "plaintext"), ("bootstrap.servers", "k1:9092 k2:9092")])
    );
}

#[test]
fn plaintext_client_ignores_tls_material() {
    let mut auth = plaintext(&["k1:9092"]);
    auth.tls = Some(tls());
    let config = config_client(&auth).unwrap();
    assert_eq!(
        entries(&config),
        pairs(&[("security.protocol", "plaintext"), ("bootstrap.servers", "k1:9092")])
    );
}

#[test]
fn tls_client_has_the_three_locations() {
    let auth = KafkaAuthConfig {
        brokers: vec!["broker:9093".to_string()],
        security_protocol: SecurityProtocol::Ssl,
        tls: Some(tls()),
    };
    assert!(auth.validate().is_ok());
    let config = config_client(&auth).unwrap();
    assert_eq!(
        entries(&config),
        pairs(&[
            ("security.protocol", "ssl"),
            ("bootstrap.servers", "broker:9093"),
            ("ssl.ca.location", "/etc/kafka/ca.pem"),
            ("ssl.certificate.location", "/etc/kafka/client.pem"),
            ("ssl.key.location", "/etc/kafka/client.key"),
        ])
    );
}

#[test]
fn tls_without_material_is_a_configuration_error() {
    let auth = KafkaAuthConfig {
        brokers: vec!["broker:9093".to_string()],
        security_protocol: SecurityProtocol::Ssl,
        tls: None,
    };
    assert!(matches!(auth.validate(), Err(KafkaClientError::MissingTls)));
    match config_client(&auth) {
        Err(e) => {
            assert!(matches!(e, KafkaClientError::MissingTls));
            assert_eq!(e.kind(), ErrorKind::Configuration);
        }
        Ok(_) => panic!("a TLS client was configured without TLS material"),
    }
    let consumer = KafkaConsumerConfig {
        group_id: "g".to_string(),
        topic: "X".to_string(),
        partition: Some(0),
        exit_on_done: true,
        auth: auth.clone(),
    };
    assert!(matches!(consumer_client_config(&consumer), Err(KafkaClientError::MissingTls)));
    let producer = KafkaProducerConfig { topic: "X".to_string(), auth: auth.clone() };
    assert!(matches!(producer_client_config(&producer), Err(KafkaClientError::MissingTls)));
    assert!(matches!(admin_client_config(&auth), Err(KafkaClientError::MissingTls)));
}

#[test]
fn sasl_is_refused() {
    for (protocol, with_tls) in [
        (SecurityProtocol::SaslPlaintext, false),
        (SecurityProtocol::SaslPlaintext, true),
        (SecurityProtocol::SaslSsl, false),
        (SecurityProtocol::SaslSsl, true),
    ] {
        let auth = KafkaAuthConfig {
            brokers: vec!["broker:9093".to_string()],
            security_protocol: protocol,
            tls: if with_tls { Some(tls()) } else { None },
        };
        match config_client(&auth) {
            Err(KafkaClientError::UnsupportedProtocol(p)) => assert_eq!(p, protocol),
            Err(other) => panic!("wrong error: {:?}", other),
            Ok(_) => panic!("a SASL client was configured"),
        }
    }
}

#[test]
fn consumer_client_adds_group_and_fixed_settings() {
    let consumer = KafkaConsumerConfig {
        group_id: "readers".to_string(),
        topic: "X".to_string(),
        partition: None,
        exit_on_done: false,
        auth: plaintext(&["k1:9092"]),
    };
    let config = consumer_client_config(&consumer).unwrap();
    assert_eq!(
        entries(&config),
        pairs(&[
            ("security.protocol", "plaintext"),
            ("bootstrap.servers", "k1:9092"),
            ("group.id", "readers"),
            ("enable.partition.eof", "false"),
            ("session.timeout.ms", "6000"),
            ("enable.auto.commit", "false"),
        ])
    );
}

#[test]
fn producer_and_admin_clients_add_the_message_timeout() {
    let auth = plaintext(&["k1:9092"]);
    let expected = pairs(&[
        ("security.protocol", "plaintext"),
        ("bootstrap.servers", "k1:9092"),
        ("message.timeout.ms", "5000"),
    ]);
    let producer = KafkaProducerConfig { topic: "X".to_string(), auth: auth.clone() };
    assert_eq!(entries(&producer_client_config(&producer).unwrap()), expected);
    assert_eq!(entries(&admin_client_config(&auth).unwrap()), expected);
}

#[test]
fn configured_parameters_are_accepted_by_librdkafka() {
    let consumer = KafkaConsumerConfig {
        group_id: "readers".to_string(),
        topic: "X".to_string(),
        partition: None,
        exit_on_done: false,
        auth: plaintext(&["k1:9092"]),
    };
    let native = consumer_client_config(&consumer).unwrap().create_native_config().unwrap();
    assert_eq!(native.get("security.protocol").unwrap(), "plaintext");
    assert_eq!(native.get("session.timeout.ms").unwrap(), "6000");
    assert_eq!(native.get("enable.auto.commit").unwrap(), "false");
    assert_eq!(native.get("enable.partition.eof").unwrap(), "false");
    assert_eq!(native.get("group.id").unwrap(), "readers");
}
