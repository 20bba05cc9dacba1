use roxi::address::{Address, ClientId, Ports, SharedKey, StunAddressKind, StunInfo};
use roxi::client::request_message;
use roxi::client_config::{Auth, Config as ClientConfig, Gateway, Nat, Network, Server, Stun, WireGuardConf};
use roxi::error::ServerError;
use roxi::message::{Message, MessageKind, MessageStatus};
use roxi::rendezvous::{Dispatch, Rendezvous};
use roxi::server_config::{Auth as ServerAuth, Config as ServerConfig, Network as ServerNetwork, Server as ServerListener};

fn client_config(gateway_ip: [u8; 4], key: &str) -> ClientConfig {
    ClientConfig {
        auth: Auth { shared_key: SharedKey::from_str(key) },
        path: "client.yaml".to_string(),
        network: Network {
            server: Server {
                interface: [0, 0, 0, 0],
                ip: [192, 168, 1, 1],
                ports: Ports { tcp: 8080, udp: 5675 },
                request_timeout: 5,
                response_timeout: 5,
            },
            gateway: Gateway { interface: [0, 0, 0, 0], ip: gateway_ip, ports: Ports { tcp: 8081, udp: 5677 }, max_clients: 10 },
            stun: Stun { ip: None, port: None },
            wireguard: WireGuardConf { config: "wg0.conf".to_string() },
            nat: Nat { attempts: 3, delay: 2 },
        },
    }
}

fn server() -> Rendezvous {
    Rendezvous::new(&ServerConfig {
        network: ServerNetwork {
            server: ServerListener {
                interface: [0, 0, 0, 0],
                ip: [192, 168, 1, 1],
                ports: Ports { tcp: 8080, udp: 5675 },
                max_clients: 10,
                response_timeout: 1,
            },
        },
        auth: ServerAuth { shared_key: SharedKey::from_str("roxi-XXX"), session_ttl: 60 },
        path: "server.yaml".to_string(),
    })
}

fn peer_addr() -> Address {
    Address::new([192, 168, 1, 1], 8080)
}

fn request(kind: MessageKind) -> Message {
    request_message(kind, &peer_addr(), None)
}

fn reply_of(d: &Dispatch) -> (MessageKind, MessageStatus) {
    let m = d.reply.as_ref().unwrap();
    (*m.kind(), *m.status())
}

fn authenticate(srv: &mut Rendezvous, ip: [u8; 4]) -> ClientId {
    let id = ClientId::from_address(&Address::new(ip, 0));
    let d = srv.handle_request(&id, &request(MessageKind::AuthenticationRequest), Some(&client_config(ip, "roxi-XXX")), 0);
    assert_eq!(reply_of(&d), (MessageKind::AuthenticationResponse, MessageStatus::Success));
    id
}

#[test]
fn test_peer_server_rpc_ping() {
    let mut srv = server();
    let id = ClientId::from_str("192.168.1.2");
    let d = srv.handle_request(&id, &request(MessageKind::Ping), None, 0);
    assert_eq!(reply_of(&d), (MessageKind::Pong, MessageStatus::Success));
    assert_eq!(d.reply.as_ref().unwrap().sender_addr(), [192, 168, 1, 1, 0x1f, 0x90]);
    assert!(d.end.is_none());
    assert!(d.push.is_none());
}

#[test]
fn test_peer_server_rpc_authenticate() {
    let mut srv = server();
    let before = srv.sessions().len();
    let id = ClientId::from_str("192.168.1.2");
    let d = srv.handle_request(&id, &request(MessageKind::AuthenticationRequest), Some(&client_config([192, 168, 1, 2], "roxi-XXX")), 0);
    assert_eq!(reply_of(&d), (MessageKind::AuthenticationResponse, MessageStatus::Success));
    assert!(d.end.is_none());
    assert_eq!(srv.sessions().len(), before + 1);
    assert!(srv.has_socket(&id));
}

#[test]
fn auth_bad_key_is_unauthorized_and_closes() {
    let mut srv = server();
    let id = ClientId::from_str("192.168.1.2");
    let d = srv.handle_request(&id, &request(MessageKind::AuthenticationRequest), Some(&client_config([192, 168, 1, 2], "nope")), 0);
    assert_eq!(reply_of(&d), (MessageKind::AuthenticationResponse, MessageStatus::Unauthorized));
    assert_eq!(d.end, Some(ServerError::Unauthenticated));
    assert_eq!(srv.sessions().len(), 0);
    assert_eq!(srv.socket_count(), 0);
}

#[test]
fn auth_with_unreadable_config_closes_without_reply() {
    let mut srv = server();
    let d = srv.handle_request(&ClientId::from_str("1.1.1.1"), &request(MessageKind::AuthenticationRequest), None, 0);
    assert!(d.reply.is_none());
    assert_eq!(d.end, Some(ServerError::MalformedConfig));
}

#[test]
fn unauthenticated_requests_are_gated() {
    for (kind, answer) in [
        (MessageKind::StunInfoRequest, MessageKind::StunInfoResponse),
        (MessageKind::GatewayRequest, MessageKind::GatewayResponse),
        (MessageKind::SeedRequest, MessageKind::SeedResponse),
    ] {
        let mut srv = server();
        let id = ClientId::from_str("192.168.1.9");
        let d = srv.handle_request(&id, &request(kind), None, 0);
        assert_eq!(reply_of(&d), (answer, MessageStatus::Unauthorized));
        assert_eq!(d.end, Some(ServerError::Unauthenticated));
        assert_eq!(srv.socket_count(), 0);
        assert_eq!(srv.sessions().len(), 0);
    }
}

#[test]
fn gateway_with_only_self_is_unavailable() {
    let mut srv = server();
    let c1 = authenticate(&mut srv, [192, 168, 1, 2]);
    let d = srv.handle_request(&c1, &request(MessageKind::GatewayRequest), None, 0);
    assert_eq!(reply_of(&d), (MessageKind::GatewayResponse, MessageStatus::ServiceUnavailable));
    assert!(d.push.is_none());
    assert!(d.end.is_none());
}

#[test]
fn gateway_with_two_peers_pushes_requester_address() {
    let mut srv = server();
    let c1 = authenticate(&mut srv, [192, 168, 1, 2]);
    let c2 = authenticate(&mut srv, [192, 168, 1, 3]);
    for id in [&c1, &c2] {
        let d = srv.handle_request(id, &request(MessageKind::SeedRequest), None, 0);
        assert_eq!(reply_of(&d), (MessageKind::SeedResponse, MessageStatus::Success));
    }
    let d = srv.handle_request(&c1, &request(MessageKind::GatewayRequest), None, 0);
    assert_eq!(reply_of(&d), (MessageKind::GatewayResponse, MessageStatus::Success));
    assert_eq!(Address::from_payload(d.reply.as_ref().unwrap().payload()), Ok(Address::new([192, 168, 1, 3], 8081)));
    let (to, pushed) = d.push.as_ref().unwrap();
    assert!(*to == c2);
    assert_eq!(*pushed.kind(), MessageKind::GatewayResponse);
    assert_eq!(*pushed.status(), MessageStatus::Success);
    assert_eq!(Address::from_payload(pushed.payload()), Ok(Address::new([192, 168, 1, 2], 8081)));
}

#[test]
fn gateway_positional_choice() {
    let mut srv = server();
    let c1 = authenticate(&mut srv, [10, 0, 0, 1]);
    let _c2 = authenticate(&mut srv, [10, 0, 0, 2]);
    let _c3 = authenticate(&mut srv, [10, 0, 0, 3]);
    let d = srv.handle_request_with(&c1, &request(MessageKind::GatewayRequest), None, 0, 1);
    assert_eq!(Address::from_payload(d.reply.as_ref().unwrap().payload()), Ok(Address::new([10, 0, 0, 3], 8081)));
    assert_eq!(d.push.as_ref().unwrap().0.as_str(), "10.0.0.3");
    let d = srv.handle_request_with(&c1, &request(MessageKind::GatewayRequest), None, 0, 7);
    assert_eq!(reply_of(&d), (MessageKind::GatewayResponse, MessageStatus::ServiceUnavailable));
}

#[test]
fn test_peer_server_rpc_seed() {
    let mut srv = server();
    let id = ClientId::from_str("192.168.1.2");
    let d = srv.handle_request(&id, &request(MessageKind::SeedRequest), None, 0);
    assert_eq!(reply_of(&d), (MessageKind::SeedResponse, MessageStatus::Unauthorized));
    let id = authenticate(&mut srv, [192, 168, 1, 2]);
    let d = srv.handle_request(&id, &request(MessageKind::SeedRequest), None, 0);
    assert_eq!(reply_of(&d), (MessageKind::SeedResponse, MessageStatus::Success));
}

#[test]
fn seeding_twice_keeps_one_entry() {
    let mut srv = server();
    let id = authenticate(&mut srv, [192, 168, 1, 2]);
    let _ = srv.handle_request(&id, &request(MessageKind::SeedRequest), None, 0);
    let _ = srv.handle_request(&id, &request(MessageKind::SeedRequest), None, 0);
    assert_eq!(srv.socket_count(), 1);
    assert!(srv.has_socket(&id));
}

#[test]
fn test_peer_server_rpc_stun() {
    let mut srv = server();
    let mut datagram = vec![0u8, 1, 0, 0, 0x21, 0x12, 0xa4, 0x42];
    datagram.extend_from_slice(&[7u8; 12]);
    assert_eq!(datagram.len(), 20);
    let sender = Address::new([203, 0, 113, 7], 40000);
    assert_eq!(srv.handle_stun(&datagram, Some(sender)), Ok(()));
    let id = ClientId::from_str("203.0.113.7");
    assert_eq!(srv.stun_info(&id), Some(StunInfo::new(StunAddressKind::Public, sender)));

    let id = authenticate(&mut srv, [203, 0, 113, 7]);
    let d = srv.handle_request(&id, &request(MessageKind::StunInfoRequest), None, 0);
    assert_eq!(reply_of(&d), (MessageKind::StunInfoResponse, MessageStatus::Success));
    assert_eq!(d.reply.as_ref().unwrap().data(), vec![203, 0, 113, 7, 0x9c, 0x40]);
}

#[test]
fn stun_last_write_wins_and_ignores_other_datagrams() {
    let mut srv = server();
    let bind = vec![0u8, 1, 0, 0];
    let a = Address::new([1, 2, 3, 4], 1000);
    let b = Address::new([1, 2, 3, 4], 2000);
    let _ = srv.handle_stun(&bind, Some(a));
    let _ = srv.handle_stun(&bind, Some(b));
    assert_eq!(srv.stun_info(&ClientId::from_str("1.2.3.4")), Some(StunInfo::new(StunAddressKind::Public, b)));
    let c = Address::new([5, 6, 7, 8], 1);
    assert_eq!(srv.handle_stun(&[0u8, 2, 0, 0], Some(c)), Ok(()));
    assert_eq!(srv.handle_stun(&[0u8], Some(c)), Ok(()));
    assert_eq!(srv.stun_info(&ClientId::from_str("5.6.7.8")), None);
    assert_eq!(srv.handle_stun(&bind, None), Err(ServerError::UnsupportedIpAddrType));
}

#[test]
fn stun_info_without_cache_is_not_found() {
    let mut srv = server();
    let id = authenticate(&mut srv, [10, 1, 1, 1]);
    let d = srv.handle_request(&id, &request(MessageKind::StunInfoRequest), None, 0);
    assert_eq!(reply_of(&d), (MessageKind::StunInfoResponse, MessageStatus::NotFound));
}

#[test]
fn other_kinds_are_bad_data() {
    let mut srv = server();
    let id = authenticate(&mut srv, [10, 1, 1, 1]);
    for kind in [MessageKind::Pong, MessageKind::StunRequest, MessageKind::Unknown, MessageKind::NATPunchRequest] {
        let d = srv.handle_request(&id, &request(kind), None, 0);
        assert_eq!(reply_of(&d), (MessageKind::GenericErrorResponse, MessageStatus::BadData));
        assert_eq!(d.end, Some(ServerError::InvalidMessage));
    }
}

#[test]
fn stop_hands_back_sockets_and_clears() {
    let mut srv = server();
    let a = authenticate(&mut srv, [10, 1, 1, 1]);
    let b = authenticate(&mut srv, [10, 1, 1, 2]);
    let _ = srv.handle_stun(&[0u8, 1], Some(Address::new([10, 1, 1, 1], 9)));
    let notice = srv.shutdown_message();
    assert_eq!(*notice.kind(), MessageKind::ServerShutdown);
    assert_eq!(*notice.status(), MessageStatus::ServiceUnavailable);
    let ids = srv.stop();
    assert_eq!(ids.len(), 2);
    assert!(ids[0] == a && ids[1] == b);
    assert_eq!(srv.sessions().len(), 0);
    assert_eq!(srv.socket_count(), 0);
    assert_eq!(srv.stun_info(&a), None);
}

#[test]
fn forgetting_a_socket_keeps_the_session() {
    let mut srv = server();
    let a = authenticate(&mut srv, [10, 1, 1, 1]);
    srv.forget_socket(&a);
    assert!(!srv.has_socket(&a));
    assert!(srv.sessions().has_session(&a));
}

#[test]
fn push_goes_to_the_chosen_session_even_behind_nat() {
    let mut srv = server();
    let c1 = authenticate(&mut srv, [10, 0, 0, 1]);
    let c2 = ClientId::from_str("203.0.113.9");
    let d = srv.handle_request(&c2, &request(MessageKind::AuthenticationRequest), Some(&client_config([192, 168, 0, 5], "roxi-XXX")), 0);
    assert_eq!(reply_of(&d), (MessageKind::AuthenticationResponse, MessageStatus::Success));
    let d = srv.handle_request(&c1, &request(MessageKind::GatewayRequest), None, 0);
    assert_eq!(reply_of(&d), (MessageKind::GatewayResponse, MessageStatus::Success));
    assert_eq!(Address::from_payload(d.reply.as_ref().unwrap().payload()), Ok(Address::new([192, 168, 0, 5], 8081)));
    let (to, pushed) = d.push.as_ref().unwrap();
    assert!(*to == c2);
    assert_eq!(Address::from_payload(pushed.payload()), Ok(Address::new([10, 0, 0, 1], 8081)));
}
