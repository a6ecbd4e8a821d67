use kafka_client::headers::Headers;
use kafka_client::message::KafkaMessage;

#[test]
fn new_headers_are_empty() {
    let h = Headers::new();
    assert!(h.is_empty());
    assert_eq!(h.get("a"), None);
    assert_eq!(h.get(""), None);
}

#[test]
fn a_header_that_was_set_is_found() {
    let h = Headers::new().insert("trace".to_string(), b"abc".to_vec());
    assert!(!h.is_empty());
    assert_eq!(h.get("trace"), Some(&b"abc".to_vec()));
    assert_eq!(h.get("Trace"), None);
    assert_eq!(h.get("trac"), None);
}

#[test]
fn setting_a_header_again_replaces_its_value() {
    let h = Headers::new()
        .insert("a".to_string(), vec![1])
        .insert("b".to_string(), vec![2])
        .insert("a".to_string(), vec![3]);
    assert_eq!(h.get("a"), Some(&vec![3]));
    assert_eq!(h.get("b"), Some(&vec![2]));
    let once = Headers::new().insert("a".to_string(), vec![3]).insert("b".to_string(), vec![2]);
    assert_eq!(h, once);
}

#[test]
fn headers_are_counted_by_name() {
    let h = Headers::new();
    assert_eq!(h.len(), 0);
    let h = h.insert("a".to_string(), vec![1]);
    assert_eq!(h.len(), 1);
    let h = h.insert("b".to_string(), vec![2]);
    assert_eq!(h.len(), 2);
    let h = h.insert("a".to_string(), vec![3]);
    assert_eq!(h.len(), 2);
}

#[test]
fn the_order_of_setting_does_not_matter_for_equality() {
    let ab = Headers::new().insert("a".to_string(), vec![1]).insert("b".to_string(), vec![2]);
    let ba = Headers::new().insert("b".to_string(), vec![2]).insert("a".to_string(), vec![1]);
    assert_eq!(ab, ba);
    assert_eq!(ba, ab);
}

#[test]
fn different_headers_are_not_equal() {
    let a1 = Headers::new().insert("a".to_string(), vec![1]);
    let a2 = Headers::new().insert("a".to_string(), vec![2]);
    let b1 = Headers::new().insert("b".to_string(), vec![1]);
    let a1b = Headers::new().insert("a".to_string(), vec![1]).insert("b".to_string(), vec![]);
    assert_ne!(a1, a2);
    assert_ne!(a1, b1);
    assert_ne!(a1, a1b);
    assert_ne!(a1b, a1);
    assert_ne!(a1, Headers::new());
    assert_eq!(Headers::new(), Headers::new());
}

#[test]
fn an_empty_name_and_an_empty_value_are_a_header() {
    let h = Headers::new().insert(String::new(), vec![]);
    assert!(!h.is_empty());
    assert_eq!(h.get(""), Some(&vec![]));
}

#[test]
fn a_clone_has_the_same_headers() {
    let h = Headers::new().insert("a".to_string(), vec![1]).insert("b".to_string(), vec![2]);
    let c = h.clone();
    assert_eq!(c, h);
    assert_eq!(c.get("a"), Some(&vec![1]));
    assert_eq!(c.get("b"), Some(&vec![2]));
}

#[test]
fn messages_carry_headers() {
    let m = KafkaMessage::new(b"k".to_vec(), b"v".to_vec(), 1)
        .with_header("a".to_string(), vec![1])
        .with_header("b".to_string(), vec![2]);
    assert_eq!(m.key, b"k".to_vec());
    assert_eq!(m.payload, b"v".to_vec());
    assert_eq!(m.timestamp, 1);
    assert_eq!(m.headers.get("a"), Some(&vec![1]));
    assert_eq!(m.headers.get("b"), Some(&vec![2]));

    let mut other = KafkaMessage::new(b"k".to_vec(), b"v".to_vec(), 1);
    assert_ne!(m, other);
    other.set_headers(
        Headers::new().insert("b".to_string(), vec![2]).insert("a".to_string(), vec![1]),
    );
    assert_eq!(m, other);
}

#[test]
fn messages_differ_in_each_field() {
    let m = KafkaMessage::new(b"k".to_vec(), b"v".to_vec(), 1);
    assert_eq!(m, m.clone());
    assert_ne!(m, KafkaMessage::new(b"K".to_vec(), b"v".to_vec(), 1));
    assert_ne!(m, KafkaMessage::new(b"k".to_vec(), b"V".to_vec(), 1));
    assert_ne!(m, KafkaMessage::new(b"k".to_vec(), b"v".to_vec(), 2));
    assert_ne!(m, KafkaMessage::new(b"k".to_vec(), b"v".to_vec(), 1).with_header(String::new(), vec![]));
}
