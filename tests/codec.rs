use roxi::address::Address;
use roxi::error::ProtoError;
use roxi::message::{Message, MessageKind, MessageStatus};

fn server() -> Address {
    Address::new([10, 0, 0, 1], 8080)
}

#[test]
fn ping_encodes_to_exact_header() {
    let m = Message::new(MessageKind::Ping, MessageStatus::Pending, &server(), None);
    let bytes = m.serialize().unwrap();
    assert_eq!(bytes, vec![0, 0, 0, 0, 10, 0, 0, 1, 0x1f, 0x90, 0, 0, 0, 0, 0, 0, 0, 0]);
}

#[test]
fn payload_length_is_big_endian() {
    let m = Message::new(MessageKind::GatewayResponse, MessageStatus::Success, &server(), Some(vec![7, 8, 9]));
    let bytes = m.serialize().unwrap();
    assert_eq!(bytes.len(), 21);
    assert_eq!(&bytes[0..4], &[0, 11, 0, 200]);
    assert_eq!(&bytes[10..18], &[0, 0, 0, 0, 0, 0, 0, 3]);
    assert_eq!(&bytes[18..], &[7, 8, 9]);
}

#[test]
fn codec_round_trip_with_payload() {
    let payload: Vec<u8> = (0..200u32).map(|i| (i % 251) as u8).collect();
    let m = Message::new(MessageKind::PeerTunnelInitRequest, MessageStatus::Pending, &server(), Some(payload.clone()));
    let bytes = m.serialize().unwrap();
    let d = Message::deserialize(&bytes).unwrap();
    assert_eq!(*d.kind(), MessageKind::PeerTunnelInitRequest);
    assert_eq!(*d.status(), MessageStatus::Pending);
    assert_eq!(d.sender_addr(), [10, 0, 0, 1, 0x1f, 0x90]);
    assert_eq!(d.payload(), &Some(payload));
}

#[test]
fn codec_round_trip_largest_payload_in_read_buffer() {
    let payload = vec![0xabu8; 1006];
    let m = Message::new(MessageKind::SeedRequest, MessageStatus::Pending, &server(), Some(payload.clone()));
    let bytes = m.serialize().unwrap();
    assert_eq!(bytes.len(), 1024);
    let d = Message::deserialize(&bytes).unwrap();
    assert_eq!(d.data(), payload);
}

#[test]
fn codec_round_trip_without_payload() {
    let m = Message::new(MessageKind::Pong, MessageStatus::Success, &server(), None);
    let d = Message::deserialize(&m.serialize().unwrap()).unwrap();
    assert_eq!(*d.kind(), MessageKind::Pong);
    assert_eq!(*d.status(), MessageStatus::Success);
    assert_eq!(d.payload(), &None);
    assert_eq!(d.data(), Vec::<u8>::new());
}

#[test]
fn ten_byte_buffer_is_malformed() {
    let r = Message::deserialize(&[0u8; 10]);
    assert!(matches!(r, Err(ProtoError::MalformedMessage)));
}

#[test]
fn seventeen_byte_buffer_is_malformed() {
    let r = Message::deserialize(&[0u8; 17]);
    assert!(matches!(r, Err(ProtoError::MalformedMessage)));
}

#[test]
fn announced_payload_past_buffer_is_malformed() {
    let mut b = vec![0u8, 10, 0, 0, 1, 2, 3, 4, 0, 80, 0, 0, 0, 0, 0, 0, 0, 5];
    b.extend_from_slice(&[1, 2, 3, 4]);
    assert!(matches!(Message::deserialize(&b), Err(ProtoError::MalformedMessage)));
    b.push(5);
    let d = Message::deserialize(&b).unwrap();
    assert_eq!(*d.kind(), MessageKind::GatewayRequest);
    assert_eq!(d.data(), vec![1, 2, 3, 4, 5]);
}

#[test]
fn huge_announced_length_is_malformed() {
    let b = vec![0u8, 10, 0, 0, 1, 2, 3, 4, 0, 80, 0xff, 0xff, 0xff, 0xff, 0xff, 0xff, 0xff, 0xff, 1, 2];
    assert!(matches!(Message::deserialize(&b), Err(ProtoError::MalformedMessage)));
}

#[test]
fn message_in_zero_padded_read_buffer_decodes() {
    let m = Message::new(MessageKind::SeedRequest, MessageStatus::Pending, &server(), Some(vec![1, 2]));
    let bytes = m.serialize().unwrap();
    let mut buf = vec![0u8; 1024];
    buf[..bytes.len()].copy_from_slice(&bytes);
    let d = Message::deserialize(&buf).unwrap();
    assert_eq!(*d.kind(), MessageKind::SeedRequest);
    assert_eq!(d.data(), vec![1, 2]);
}

#[test]
fn ping_ignores_trailing_payload() {
    let b = vec![0u8, 0, 0, 0, 1, 2, 3, 4, 0, 80, 0, 0, 0, 0, 0, 0, 0, 2, 9, 9];
    let d = Message::deserialize(&b).unwrap();
    assert_eq!(*d.kind(), MessageKind::Ping);
    assert_eq!(d.payload(), &None);
}

#[test]
fn unknown_codes_decode_to_unknown() {
    assert_eq!(MessageKind::from_code(999), MessageKind::Unknown);
    assert_eq!(MessageStatus::from_code(302), MessageStatus::Unknown);
    let b = vec![0u8, 99, 1, 44, 1, 2, 3, 4, 0, 80, 0, 0, 0, 0, 0, 0, 0, 0];
    let d = Message::deserialize(&b).unwrap();
    assert_eq!(*d.kind(), MessageKind::Unknown);
    assert_eq!(*d.status(), MessageStatus::Unknown);
}

#[test]
fn status_and_kind_codes() {
    assert_eq!(MessageStatus::Pending.code(), 0);
    assert_eq!(MessageStatus::Success.code(), 200);
    assert_eq!(MessageStatus::Created.code(), 201);
    assert_eq!(MessageStatus::Unauthorized.code(), 401);
    assert_eq!(MessageStatus::BadData.code(), 405);
    assert_eq!(MessageStatus::ImATeapot.code(), 419);
    assert_eq!(MessageStatus::InternalServerError.code(), 500);
    assert_eq!(MessageStatus::ServiceUnavailable.code(), 503);
    assert_eq!(MessageKind::PeerTunnelInitResponse.code(), 18);
    assert_eq!(MessageKind::SeedRequest.code(), 19);
    assert_eq!(MessageKind::from_code(17), MessageKind::PeerTunnelInitRequest);
    assert_eq!(MessageStatus::from_code(404), MessageStatus::NotFound);
    assert!(MessageStatus::Created.is_success());
    assert!(!MessageStatus::Unauthorized.is_success());
}

#[test]
fn into_inner_takes_payload() {
    let mut m = Message::new(MessageKind::SeedRequest, MessageStatus::Pending, &server(), Some(vec![4]));
    assert_eq!(m.into_inner(), Some(vec![4]));
    assert_eq!(m.into_inner(), None);
    assert_eq!(*m.kind(), MessageKind::SeedRequest);
}

#[test]
fn payloadless_kinds_ignore_the_length_field() {
    let mut b = vec![0u8, 0, 0, 200, 1, 2, 3, 4, 0, 80, 0, 0, 0, 0, 0, 0, 0, 1];
    let d = Message::deserialize(&b).unwrap();
    assert_eq!(*d.kind(), MessageKind::Ping);
    assert_eq!(d.payload(), &None);
    b[1] = 3;
    b[17] = 0xff;
    let d = Message::deserialize(&b).unwrap();
    assert_eq!(*d.kind(), MessageKind::AuthenticationResponse);
    b[1] = 10;
    assert!(matches!(Message::deserialize(&b), Err(ProtoError::MalformedMessage)));
}
