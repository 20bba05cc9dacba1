use roxi::error::ProtoError;
use roxi::wgfile::{config_from_sections, interface_fields, interface_from_fields, peer_fields, peer_from_fields, FieldValue};
use roxi::wireguard::{WireGuardProtoKeyKind, WireGuardProtoPeer};

fn text(k: &str, v: &str) -> (String, FieldValue) {
    (k.to_string(), FieldValue::Text(v.to_string(), None))
}

fn ip(k: &str, v: &str, octets: [u8; 4]) -> (String, FieldValue) {
    (k.to_string(), FieldValue::Text(v.to_string(), Some(octets)))
}

fn num(k: &str, v: i64) -> (String, FieldValue) {
    (k.to_string(), FieldValue::Integer(v))
}

fn server_interface() -> Vec<(String, FieldValue)> {
    vec![
        text("PrivateKey", "ServerPrivateKey"),
        text("Address", "10.0.0.1/24"),
        num("ListenPort", 51820),
        ("SaveConfig".to_string(), FieldValue::Other),
    ]
}

#[test]
fn interface_section_reads() {
    let i = interface_from_fields(&server_interface()).unwrap();
    assert_eq!(i.private_key.to_string(), "ServerPrivateKey");
    assert_eq!(i.private_key.kind(), WireGuardProtoKeyKind::Private);
    assert_eq!(i.address, "10.0.0.1/24");
    assert_eq!(i.port, 51820);
    assert_eq!(i.dns, None);
}

#[test]
fn interface_dns_must_be_ipv4() {
    let mut f = server_interface();
    f.push(ip("Dns", "1.1.1.1", [1, 1, 1, 1]));
    assert_eq!(interface_from_fields(&f).unwrap().dns, Some([1, 1, 1, 1]));
    let mut g = server_interface();
    g.push(text("Dns", "dns.example"));
    assert!(matches!(interface_from_fields(&g), Err(ProtoError::MalformedConfig)));
}

#[test]
fn interface_missing_and_mistyped_fields() {
    let f = vec![text("PrivateKey", "k"), num("ListenPort", 1)];
    assert!(matches!(interface_from_fields(&f), Err(ProtoError::MissingWireGuardField)));
    let g = vec![text("PrivateKey", "k"), text("Address", "a"), num("ListenPort", 70000)];
    assert!(matches!(interface_from_fields(&g), Err(ProtoError::MalformedConfig)));
    let h = vec![text("PrivateKey", "k"), text("Address", "a"), text("ListenPort", "80")];
    assert!(matches!(interface_from_fields(&h), Err(ProtoError::MalformedConfig)));
}

#[test]
fn peer_section_reads() {
    let f = vec![
        text("PublicKey", "123"),
        text("AllowedIPs", "10.0.0.2/32"),
        text("Endpoint", "1.2.3.4:51820"),
        num("PersistentKeepalive", 25),
    ];
    let p = peer_from_fields(&f).unwrap();
    assert_eq!(p.public_key.kind(), WireGuardProtoKeyKind::Public);
    assert_eq!(p.public_key.to_string(), "123");
    assert_eq!(p.endpoint, Some("1.2.3.4:51820".to_string()));
    assert_eq!(p.persistent_keepalive, Some(25));
    let g = vec![text("PublicKey", "123")];
    assert!(matches!(peer_from_fields(&g), Err(ProtoError::MissingWireGuardField)));
}

#[test]
fn config_sections() {
    assert!(matches!(config_from_sections(&None, &None), Err(ProtoError::MissingWireGuardField)));
    let peers = vec![vec![text("PublicKey", "123"), text("AllowedIPs", "")]; 3];
    let c = config_from_sections(&Some(server_interface()), &Some(peers)).unwrap();
    assert_eq!(c.peer_count(), 3);
    let bad = vec![vec![text("PublicKey", "123")]];
    assert!(config_from_sections(&Some(server_interface()), &Some(bad)).is_err());
    let c = config_from_sections(&Some(server_interface()), &None).unwrap();
    assert!(c.peers.is_none());
}

#[test]
fn fields_round_trip() {
    let mut f = server_interface();
    f.push(ip("Dns", "9.9.9.9", [9, 9, 9, 9]));
    let i = interface_from_fields(&f).unwrap();
    let written = interface_fields(&i);
    assert_eq!(written.len(), 4);
    assert_eq!(written[3].0, "Dns");
    let again = interface_from_fields(&written).unwrap();
    assert_eq!(again.private_key.to_string(), "ServerPrivateKey");
    assert_eq!(again.dns, Some([9, 9, 9, 9]));

    let p = WireGuardProtoPeer::announce("Key".to_string());
    let pf = peer_fields(&p);
    assert_eq!(pf.len(), 3);
    let back = peer_from_fields(&pf).unwrap();
    assert_eq!(back.persistent_keepalive, Some(1));
    assert_eq!(back.public_key.to_string(), "Key");
}
