use control_plane::ids::{ChildUri, NexusId, NodeId, PoolId, ReplicaId, VolumeId};
use control_plane::text::{decimal_string, push_hex_padded};

#[test]
fn node_id_keeps_its_text() {
    let id = NodeId::from("node-1");
    assert_eq!(id.as_str(), "node-1");
    assert_eq!(id.to_string(), "node-1".to_string());
    assert_eq!(id.clone().into_string(), "node-1".to_string());
    assert!(id.same(&NodeId::from_string("node-1".to_string())));
    assert!(!id.same(&NodeId::from("node-2")));
}

#[test]
fn default_ids_are_the_nil_uuid() {
    let nil = "00000000-0000-0000-0000-000000000000";
    assert_eq!(NodeId::default().as_str(), nil);
    assert_eq!(PoolId::default().as_str(), nil);
    assert_eq!(ReplicaId::default().as_str(), nil);
    assert_eq!(NexusId::default().as_str(), nil);
    assert_eq!(VolumeId::default().as_str(), nil);
}

#[test]
fn new_ids_are_random_v4_uuids() {
    let a = VolumeId::new();
    let b = VolumeId::new();
    let text = a.as_str();
    assert_eq!(text.len(), 36);
    for (i, c) in text.chars().enumerate() {
        if i == 8 || i == 13 || i == 18 || i == 23 {
            assert_eq!(c, '-');
        } else {
            assert!(c.is_ascii_hexdigit() && !c.is_ascii_uppercase());
        }
    }
    assert_eq!(text.chars().nth(14), Some('4'));
    assert!(matches!(text.chars().nth(19), Some('8' | '9' | 'a' | 'b')));
    assert_ne!(a.as_str(), b.as_str());
}

#[test]
fn child_uri_without_percent_is_kept() {
    let uri = ChildUri::from("malloc:///local?size_mb=12");
    assert_eq!(uri.as_str(), "malloc:///local?size_mb=12");
}

#[test]
fn child_uri_is_percent_decoded() {
    assert_eq!(ChildUri::from("nvmf://host/a%20b%3f").as_str(), "nvmf://host/a b?");
    assert_eq!(ChildUri::from_string("x%41y".to_string()).as_str(), "xAy");
    // a '%' not followed by two hexadecimal digits stands for itself
    assert_eq!(ChildUri::from("100%").as_str(), "100%");
    assert_eq!(ChildUri::from("a%zzb").as_str(), "a%zzb");
}

#[test]
fn child_uri_with_invalid_utf8_encoding_is_kept() {
    assert_eq!(ChildUri::from("bad%FFbyte").as_str(), "bad%FFbyte");
}

#[test]
fn child_uri_default_is_empty() {
    assert_eq!(ChildUri::default().as_str(), "");
}

#[test]
fn decimal_text() {
    assert_eq!(decimal_string(0), "0");
    assert_eq!(decimal_string(7), "7");
    assert_eq!(decimal_string(10), "10");
    assert_eq!(decimal_string(1234567890), "1234567890");
    assert_eq!(decimal_string(u64::MAX), "18446744073709551615");
}

#[test]
fn hex_padded_text() {
    let mut s = String::from("x");
    push_hex_padded(&mut s, 0, 1);
    assert_eq!(s, "x0");
    let mut s = String::new();
    push_hex_padded(&mut s, 255, 1);
    assert_eq!(s, "ff");
    let mut s = String::new();
    push_hex_padded(&mut s, 3, 8);
    assert_eq!(s, "00000003");
    let mut s = String::new();
    push_hex_padded(&mut s, 0xabcdef012, 8);
    assert_eq!(s, "abcdef012");
    let mut s = String::new();
    push_hex_padded(&mut s, u64::MAX, 4);
    assert_eq!(s, "ffffffffffffffff");
}
