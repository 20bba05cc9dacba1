use roxi::address::{Address, ClientId, Ports, SharedKey};
use roxi::client_config::{Auth, Config as ClientConfig, Gateway, Nat, Network, Server, Stun, WireGuardConf};
use roxi::error::ServerError;
use roxi::server_config::{Auth as ServerAuth, Config as ServerConfig, Network as ServerNetwork, Server as ServerListener};
use roxi::session::{Session, SessionManager};

fn client_config(gateway_ip: [u8; 4], key: &str) -> ClientConfig {
    ClientConfig {
        auth: Auth { shared_key: SharedKey::from_str(key) },
        path: "client.yaml".to_string(),
        network: Network {
            server: Server {
                interface: [0, 0, 0, 0],
                ip: [18, 117, 198, 57],
                ports: Ports { tcp: 8080, udp: 5675 },
                request_timeout: 5,
                response_timeout: 5,
            },
            gateway: Gateway { interface: [0, 0, 0, 0], ip: gateway_ip, ports: Ports { tcp: 8081, udp: 5677 }, max_clients: 10 },
            stun: Stun { ip: None, port: None },
            wireguard: WireGuardConf { config: "wg0.conf".to_string() },
            nat: Nat { attempts: 3, delay: 2 },
        },
    }
}

fn server_config(ttl: u64) -> ServerConfig {
    ServerConfig {
        network: ServerNetwork {
            server: ServerListener {
                interface: [0, 0, 0, 0],
                ip: [192, 168, 1, 1],
                ports: Ports { tcp: 8080, udp: 5675 },
                max_clients: 10,
                response_timeout: 1,
            },
        },
        auth: ServerAuth { shared_key: SharedKey::from_str("roxi-XXX"), session_ttl: ttl },
        path: "server.yaml".to_string(),
    }
}

#[test]
fn test_get_peer_for_gateway() {
    let c1 = ClientId::from_str("192.168.1.228:8081");
    let c2 = ClientId::from_str("192.168.1.227:8081");
    let c1_config = client_config([192, 168, 1, 228], "roxi-XXX");
    let c2_config = client_config([192, 168, 1, 227], "roxi-XXX");
    let mut sessions = SessionManager::new(&server_config(60));

    let _ = sessions.authenticate(&c1, &c1_config, 100);
    assert_eq!(sessions.len(), 1);
    assert!(sessions.has_session(&c1));
    assert!(!sessions.has_session(&c2));

    let result = sessions.get_peer_for_gateway(&c1);
    assert!(matches!(result, Err(ServerError::NoAvailablePeers)));

    let _ = sessions.authenticate(&c2, &c2_config, 100);
    assert_eq!(sessions.len(), 2);
    assert!(sessions.has_session(&c2));

    let result = sessions.get_peer_for_gateway(&c1).unwrap();
    assert_eq!(Address::new([192, 168, 1, 227], 8081), result);

    let result = sessions.get_peer_for_gateway(&c2).unwrap();
    assert_eq!(Address::new([192, 168, 1, 228], 8081), result);

    sessions.remove(&c1);
    assert_eq!(sessions.len(), 1);
}

#[test]
fn test_server_sessions_manager() {
    let c1 = ClientId::from_str("192.168.1.2");
    let c2 = ClientId::from_str("192.168.1.3");
    let mut sessions = SessionManager::new(&server_config(60));

    let _ = sessions.authenticate(&c1, &client_config([192, 168, 1, 2], "roxi-XXX"), 0);
    assert_eq!(sessions.len(), 1);
    assert!(sessions.has_session(&c1));
    assert!(!sessions.has_session(&c2));
    assert!(matches!(sessions.get_peer_for_gateway(&c1), Err(ServerError::NoAvailablePeers)));

    let _ = sessions.authenticate(&c2, &client_config([192, 168, 1, 3], "roxi-XXX"), 0);
    assert_eq!(sessions.len(), 2);
    assert!(sessions.has_session(&c2));
    assert_eq!(sessions.get_peer_for_gateway(&c1).unwrap(), Address::new([192, 168, 1, 3], 8081));
    assert_eq!(sessions.get_peer_for_gateway(&c2).unwrap(), Address::new([192, 168, 1, 2], 8081));

    sessions.remove(&c1);
    assert_eq!(sessions.len(), 1);
}

#[test]
fn bad_key_is_refused_and_not_inserted() {
    let c = ClientId::from_str("10.0.0.5");
    let mut sessions = SessionManager::new(&server_config(60));
    let r = sessions.authenticate(&c, &client_config([10, 0, 0, 5], "wrong"), 0);
    assert_eq!(r, Err(ServerError::Unauthenticated));
    assert_eq!(sessions.len(), 0);
    assert!(!sessions.has_session(&c));
}

#[test]
fn session_lifecycle() {
    let c = ClientId::from_str("10.0.0.5");
    let mut sessions = SessionManager::new(&server_config(60));
    assert_eq!(sessions.authenticate(&c, &client_config([10, 0, 0, 5], "roxi-XXX"), 0), Ok(()));
    assert!(sessions.has_session(&c));
    sessions.remove(&c);
    assert!(!sessions.has_session(&c));
    sessions.remove(&c);
    assert_eq!(sessions.len(), 0);
}

#[test]
fn reauthentication_renews_in_place() {
    let c = ClientId::from_str("10.0.0.5");
    let mut sessions = SessionManager::new(&server_config(60));
    let _ = sessions.authenticate(&c, &client_config([10, 0, 0, 5], "roxi-XXX"), 10);
    let _ = sessions.authenticate(&c, &client_config([10, 0, 0, 6], "roxi-XXX"), 20);
    assert_eq!(sessions.len(), 1);
    assert_eq!(
        sessions.get(&c),
        Some(Session { time: 20, expiry: 60, gateway: Address::new([10, 0, 0, 6], 8081) })
    );
}

#[test]
fn select_peer_is_positional_among_others() {
    let mut sessions = SessionManager::new(&server_config(60));
    for i in 1..=3u8 {
        let id = ClientId::from_string(format!("10.0.0.{i}"));
        let _ = sessions.authenticate(&id, &client_config([10, 0, 0, i], "roxi-XXX"), 0);
    }
    let me = ClientId::from_str("10.0.0.2");
    assert_eq!(sessions.candidate_count(&me), 2);
    assert_eq!(sessions.select_peer(&me, 0), Ok(Address::new([10, 0, 0, 1], 8081)));
    assert_eq!(sessions.select_peer(&me, 1), Ok(Address::new([10, 0, 0, 3], 8081)));
    assert_eq!(sessions.select_peer(&me, 2), Err(ServerError::NoAvailablePeers));
}

#[test]
fn cleanup_drops_expired_sessions() {
    let mut sessions = SessionManager::new(&server_config(30));
    let old = ClientId::from_str("10.0.0.1");
    let fresh = ClientId::from_str("10.0.0.2");
    let _ = sessions.authenticate(&old, &client_config([10, 0, 0, 1], "roxi-XXX"), 100);
    let _ = sessions.authenticate(&fresh, &client_config([10, 0, 0, 2], "roxi-XXX"), 120);
    sessions.cleanup(130);
    assert_eq!(sessions.len(), 2);
    sessions.cleanup(131);
    assert_eq!(sessions.len(), 1);
    assert!(!sessions.has_session(&old));
    assert!(sessions.has_session(&fresh));
    sessions.prune_idle(1000);
    assert_eq!(sessions.len(), 0);
}

#[test]
fn session_expiry_rules() {
    let s = Session { time: 100, expiry: 30, gateway: Address::new([1, 2, 3, 4], 5) };
    assert!(!s.expired(130));
    assert!(s.expired(131));
    assert!(!s.expired(50));
    assert!(s.is_idle(200));
    assert_eq!(s.gateway_remote_addr(), Address::new([1, 2, 3, 4], 5));
}

#[test]
fn clear_empties_the_table() {
    let mut sessions = SessionManager::new(&server_config(30));
    let _ = sessions.authenticate(&ClientId::from_str("a"), &client_config([1, 1, 1, 1], "roxi-XXX"), 0);
    sessions.clear();
    assert_eq!(sessions.len(), 0);
}
