use roxi::address::{Address, ClientId, SharedKey};
use roxi::error::ProtoError;

#[test]
fn address_bytes_round_trip() {
    let bytes = [192u8, 168, 1, 228, 0x1f, 0x91];
    let a = Address::from(bytes);
    assert_eq!(a.to_vec(), bytes.to_vec());
    assert_eq!(a.ip(), [192, 168, 1, 228]);
    assert_eq!(a.port(), 8081);
    assert_eq!(Address::from_bytes(a.to_bytes()), a);
}

#[test]
fn address_round_trip_extremes() {
    for port in [0u16, 1, 255, 256, 65535] {
        let a = Address::new([255, 0, 127, 1], port);
        assert_eq!(Address::from_bytes(a.to_bytes()), a);
    }
}

#[test]
fn address_text() {
    let a = Address::new([192, 168, 1, 2], 8080);
    assert_eq!(a.to_string(), "192.168.1.2:8080");
    assert_eq!(a.ip_string(), "192.168.1.2");
    let z = Address::new([0, 0, 0, 0], 0);
    assert_eq!(z.to_string(), "0.0.0.0:0");
}

#[test]
fn address_from_payload() {
    let a = Address::from_payload(&Some(vec![10, 0, 0, 9, 0, 80, 1]));
    assert_eq!(a, Ok(Address::new([10, 0, 0, 9], 80)));
    assert_eq!(Address::from_payload(&Some(vec![1, 2, 3])), Err(ProtoError::MissingAddress));
    assert_eq!(Address::from_payload(&None), Err(ProtoError::MissingAddress));
}

#[test]
fn client_id_from_address_drops_port() {
    let c = ClientId::from_address(&Address::new([192, 168, 1, 227], 8081));
    assert_eq!(c.as_str(), "192.168.1.227");
    assert!(c == ClientId::from_str("192.168.1.227"));
}

#[test]
fn shared_key_bytes_and_censoring() {
    let k = SharedKey::from_str("roxi-secret");
    assert_eq!(k.censored(), "roxi-XXX");
    assert!(k.matches(&SharedKey::from_str("roxi-secret")));
    assert!(!k.matches(&SharedKey::from_str("other")));
    assert_eq!(k.to_vec(), b"roxi-secret".to_vec());
}

#[test]
fn shared_key_from_bytes() {
    let k = SharedKey::from_bytes(b"roxi-XXX".to_vec()).unwrap();
    assert!(k.matches(&SharedKey::from_str("roxi-XXX")));
    let u = SharedKey::from_bytes(vec![0xc3, 0xa9]).unwrap();
    assert!(u.matches(&SharedKey::from_str("\u{e9}")));
    assert!(SharedKey::from_bytes(vec![0xff, 0x00]).is_none());
    assert!(SharedKey::from_bytes(vec![0xc3]).is_none());
}
