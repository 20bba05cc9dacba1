use roxi::address::Address;
use roxi::client::{new_stun_request, request_message, stun_binding_request, Join, JoinAction, JoinPhase};
use roxi::client_config::Nat;
use roxi::message::{MessageKind, MessageStatus, Message};
use roxi::wireguard::{WireGuardProtoConfigBuilder, WireGuardProtoConfig, WireGuardProtoPeer};

fn wg() -> WireGuardProtoConfig {
    WireGuardProtoConfigBuilder::builder()
        .private_key("Key".to_string())
        .address("10.0.0.2/32".to_string())
        .port(51820)
        .build()
}

fn server() -> Address {
    Address::new([192, 168, 1, 1], 8080)
}

fn response(kind: MessageKind, status: MessageStatus, data: Option<Vec<u8>>) -> Message {
    Message::new(kind, status, &server(), data)
}

#[test]
fn stun_request_layout() {
    let txid = [1u8, 2, 3, 4, 5, 6, 7, 8, 9, 10, 11, 12];
    let r = stun_binding_request(txid);
    assert_eq!(r.len(), 20);
    assert_eq!(&r[..8], &[0, 1, 0, 0, 0x21, 0x12, 0xa4, 0x42]);
    assert_eq!(&r[8..], &txid);
    let fresh = new_stun_request();
    assert_eq!(fresh.len(), 20);
    assert_eq!(&fresh[..8], &[0, 1, 0, 0, 0x21, 0x12, 0xa4, 0x42]);
}

#[test]
fn client_requests_are_pending() {
    let m = request_message(MessageKind::GatewayRequest, &server(), None);
    assert_eq!(*m.status(), MessageStatus::Pending);
    assert_eq!(m.sender_addr(), [192, 168, 1, 1, 0x1f, 0x90]);
}

#[test]
fn join_happy_path() {
    let (mut j, a) = Join::start(Nat { attempts: 2, delay: 3 }, wg());
    assert_eq!(a, JoinAction::SendAuthentication);
    let a = j.on_response(Some(&response(MessageKind::AuthenticationResponse, MessageStatus::Success, None)), None);
    assert_eq!(a, JoinAction::SendGatewayRequest);
    let gw = Address::new([10, 9, 8, 7], 8081);
    let a = j.on_response(Some(&response(MessageKind::GatewayResponse, MessageStatus::Success, Some(gw.to_vec()))), None);
    assert_eq!(a, JoinAction::Connect(gw));
    assert_eq!(j.on_connect(false), JoinAction::Connect(gw));
    assert_eq!(j.on_connect(true), JoinAction::Sleep(3));
    assert_eq!(j.phase, JoinPhase::Settling);
    assert_eq!(j.on_settled(), JoinAction::SendTunnelInit);
    let a = j.on_response(
        Some(&response(MessageKind::PeerTunnelInitResponse, MessageStatus::Success, Some(vec![0]))),
        Some(WireGuardProtoPeer::announce("Other".to_string())),
    );
    assert_eq!(a, JoinAction::SendPeerTunnelRequest(gw));
    assert_eq!(j.wireguard.peer_count(), 1);
    let a = j.on_response(Some(&response(MessageKind::PeerTunnelResponse, MessageStatus::Success, None)), None);
    assert_eq!(a, JoinAction::Finish);
    assert_eq!(j.phase, JoinPhase::Done);
}

#[test]
fn join_gives_up_punching_after_retries() {
    let (mut j, _) = Join::start(Nat { attempts: 1, delay: 3 }, wg());
    j.on_response(Some(&response(MessageKind::AuthenticationResponse, MessageStatus::Success, None)), None);
    let gw = Address::new([10, 9, 8, 7], 8081);
    j.on_response(Some(&response(MessageKind::GatewayResponse, MessageStatus::Success, Some(gw.to_vec()))), None);
    assert_eq!(j.on_connect(false), JoinAction::Connect(gw));
    assert_eq!(j.on_connect(false), JoinAction::SendTunnelInit);
    assert_eq!(j.phase, JoinPhase::ExchangingKeys);
}

#[test]
fn join_aborts_on_refusal() {
    let (mut j, _) = Join::start(Nat { attempts: 1, delay: 3 }, wg());
    let a = j.on_response(Some(&response(MessageKind::AuthenticationResponse, MessageStatus::Unauthorized, None)), None);
    assert_eq!(a, JoinAction::Abort);
    assert_eq!(j.phase, JoinPhase::Aborted);

    let (mut j, _) = Join::start(Nat { attempts: 1, delay: 3 }, wg());
    j.on_response(Some(&response(MessageKind::AuthenticationResponse, MessageStatus::Success, None)), None);
    let a = j.on_response(Some(&response(MessageKind::GatewayResponse, MessageStatus::ServiceUnavailable, None)), None);
    assert_eq!(a, JoinAction::Abort);

    let (mut j, _) = Join::start(Nat { attempts: 1, delay: 3 }, wg());
    assert_eq!(j.on_response(None, None), JoinAction::Abort);
}

#[test]
fn punch_timeout_ends_join_without_failure() {
    let (mut j, _) = Join::start(Nat { attempts: 5, delay: 3 }, wg());
    j.on_response(Some(&response(MessageKind::AuthenticationResponse, MessageStatus::Success, None)), None);
    let gw = Address::new([10, 9, 8, 7], 8081);
    j.on_response(Some(&response(MessageKind::GatewayResponse, MessageStatus::Success, Some(gw.to_vec()))), None);
    assert_eq!(j.on_punch_timeout(), JoinAction::Finish);
    assert_eq!(j.phase, JoinPhase::Done);
    assert_eq!(j.peer, Some(gw));
}

#[test]
fn settle_only_after_a_successful_punch() {
    let (mut j, _) = Join::start(Nat { attempts: 1, delay: 3 }, wg());
    assert_eq!(j.on_settled(), JoinAction::Abort);
    assert_eq!(j.phase, JoinPhase::Authenticating);
}

#[test]
fn failed_key_swap_leaves_config_alone() {
    let (mut j, _) = Join::start(Nat { attempts: 1, delay: 3 }, wg());
    j.on_response(Some(&response(MessageKind::AuthenticationResponse, MessageStatus::Success, None)), None);
    let gw = Address::new([10, 9, 8, 7], 8081);
    j.on_response(Some(&response(MessageKind::GatewayResponse, MessageStatus::Success, Some(gw.to_vec()))), None);
    assert_eq!(j.on_connect(true), JoinAction::Sleep(3));
    assert_eq!(j.on_settled(), JoinAction::SendTunnelInit);
    assert_eq!(j.on_response(None, Some(WireGuardProtoPeer::announce("X".to_string()))), JoinAction::Abort);
    assert_eq!(j.wireguard.peer_count(), 0);
    assert_eq!(j.peer, Some(gw));
}
