use control_plane::etcd::{
    deserialise_kv, entry_from_parse, get_opaque_entry, pair_from_parse, watch_continues, watch_step, KeyValue, KvEvent, StoreError,
    WatchEvent,
};
use serde_json::Value;

#[test]
fn deserialise_a_valid_pair() {
    let (key, value) = deserialise_kv(b"/pool/p1", br#"{"node":"n1","capacity":5}"#).unwrap();
    assert_eq!(key, "/pool/p1");
    assert_eq!(value["node"], Value::String("n1".to_string()));
    assert_eq!(value["capacity"], Value::from(5));
}

#[test]
fn deserialise_errors() {
    assert!(matches!(deserialise_kv(&[0xff, 0xfe], b"{}"), Err(StoreError::KeyString {})));
    assert!(matches!(deserialise_kv(b"k", &[0xc3]), Err(StoreError::ValueString {})));
    // the key is checked before the value
    assert!(matches!(deserialise_kv(&[0xff], &[0xff]), Err(StoreError::KeyString {})));
    match deserialise_kv(b"k", b"not json") {
        Err(StoreError::DeserialiseValue { value, .. }) => assert_eq!(value, "not json"),
        other => panic!("unexpected {:?}", other),
    }
}

#[test]
fn opaque_entries() {
    match get_opaque_entry("/missing".to_string(), None) {
        Err(StoreError::MissingEntry { key }) => assert_eq!(key, "/missing"),
        other => panic!("unexpected {:?}", other),
    }
    let v = get_opaque_entry("k".to_string(), Some(b"[1,2]")).unwrap();
    assert_eq!(v, Value::Array(vec![Value::from(1), Value::from(2)]));
    match get_opaque_entry("k".to_string(), Some(b"{oops")) {
        Err(StoreError::DeserialiseValue { value, .. }) => assert_eq!(value, "{oops"),
        other => panic!("unexpected {:?}", other),
    }
    assert!(matches!(get_opaque_entry("k".to_string(), Some(&[0xff])), Err(StoreError::ValueString {})));
}

#[test]
fn watch_steps() {
    let put = KvEvent::Put(Some(KeyValue { key: b"/node/n1".to_vec(), value: b"true".to_vec() }));
    let step = watch_step(&put);
    assert!(!step.last);
    match &step.message {
        Some(Ok(WatchEvent::Put(k, v))) => {
            assert_eq!(k, "/node/n1");
            assert_eq!(v, &Value::Bool(true));
        }
        other => panic!("unexpected {:?}", other),
    }

    let bad = KvEvent::Put(Some(KeyValue { key: b"k".to_vec(), value: b"{".to_vec() }));
    let step = watch_step(&bad);
    assert!(!step.last);
    assert!(matches!(step.message, Some(Err(StoreError::DeserialiseValue { .. }))));

    let step = watch_step(&KvEvent::Put(None));
    assert!(step.message.is_none());
    assert!(!step.last);

    let step = watch_step(&KvEvent::Delete);
    assert!(step.last);
    assert!(matches!(step.message, Some(Ok(WatchEvent::Delete))));
}

#[test]
fn watch_continuation() {
    assert!(watch_continues(true, false, true));
    assert!(!watch_continues(true, false, false));
    assert!(watch_continues(false, false, false));
    assert!(!watch_continues(true, true, true));
    assert!(!watch_continues(false, true, true));
}

#[test]
fn outcomes_of_a_parse() {
    let parse_error = || serde_json::from_str::<Value>("{").unwrap_err();
    let (k, v) = pair_from_parse("key", "1", Ok(Value::from(7))).unwrap();
    assert_eq!(k, "key");
    assert_eq!(v, Value::from(7));
    match pair_from_parse("key", "{", Err(parse_error())) {
        Err(StoreError::DeserialiseValue { value, .. }) => assert_eq!(value, "{"),
        other => panic!("unexpected {:?}", other),
    }
    assert_eq!(entry_from_parse(b"x", Ok(Value::Null)).unwrap(), Value::Null);
    match entry_from_parse(b"{", Err(parse_error())) {
        Err(StoreError::DeserialiseValue { value, .. }) => assert_eq!(value, "{"),
        other => panic!("unexpected {:?}", other),
    }
    assert!(matches!(entry_from_parse(&[0xff], Err(parse_error())), Err(StoreError::ValueString {})));
}
