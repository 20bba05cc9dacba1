use vstd::prelude::*;
use vstd::utf8::encode_utf8;

verus! {

/// Whether a WireGuard key is public or private. The tag lives in memory
/// only, so that a private key cannot pass where a public one is expected.
#[derive(Clone, Copy, Debug, PartialEq, Eq, Structural)]
pub enum WireGuardProtoKeyKind {
    Private,
    Public,
}

/// A WireGuard key in its base64 text form, tagged with its kind.
pub struct WireGuardProtoKey {
    key: String,
    kind: WireGuardProtoKeyKind,
}

impl WireGuardProtoKey {
    pub closed spec fn text(&self) -> Seq<char> {
        self.key@
    }

    pub closed spec fn kind_of(&self) -> WireGuardProtoKeyKind {
        self.kind
    }

    pub fn from_public(key: String) -> (r: WireGuardProtoKey)
        ensures
            r.text() == key@,
            r.kind_of() == WireGuardProtoKeyKind::Public,
    {
        WireGuardProtoKey { kind: WireGuardProtoKeyKind::Public, key }
    }

    pub fn from_private(key: String) -> (r: WireGuardProtoKey)
        ensures
            r.text() == key@,
            r.kind_of() == WireGuardProtoKeyKind::Private,
    {
        WireGuardProtoKey { kind: WireGuardProtoKeyKind::Private, key }
    }

    /// The UTF-8 bytes of the key text.
    pub fn as_bytes(&mut self) -> (r: &[u8])
        ensures
            r@ == encode_utf8(old(self).text()),
            *final(self) == *old(self),
    {
        self.key.as_str().as_bytes()
    }

    pub fn kind(&self) -> (r: WireGuardProtoKeyKind)
        ensures
            r == self.kind_of(),
    {
        self.kind
    }

    /// The key text.
    pub fn to_string(&self) -> (r: String)
        ensures
            r@ == self.text(),
    {
        self.key.clone()
    }
}

impl Clone for WireGuardProtoKey {
    fn clone(&self) -> (r: WireGuardProtoKey)
        ensures
            r.text() == self.text(),
            r.kind_of() == self.kind_of(),
    {
        WireGuardProtoKey { key: self.key.clone(), kind: self.kind }
    }
}

pub struct WireGuardProtoKeyPair {
    pub pubkey: WireGuardProtoKey,
    pub privkey: WireGuardProtoKey,
}

/// The local WireGuard interface.
pub struct WireGuardProtoInterface {
    pub private_key: WireGuardProtoKey,
    pub address: String,
    pub port: u16,
    pub dns: Option<[u8; 4]>,
}

/// A WireGuard peer as it is exchanged between peers and written to the
/// configuration file.
pub struct WireGuardProtoPeer {
    pub public_key: WireGuardProtoKey,
    pub allowed_ips: String,
    pub endpoint: Option<String>,
    pub persistent_keepalive: Option<u16>,
}

/// A peer as the configuration model of the library's own config types
/// holds it: the key as plain text.
pub struct WireGuardConfPeer {
    pub public_key: String,
    pub allowed_ips: String,
    pub endpoint: Option<String>,
    pub persistent_keepalive: Option<u16>,
}

impl WireGuardProtoPeer {
    /// A peer announcing public key `key`, as peers send each other during
    /// the key swap: no allowed IPs, no endpoint, a keepalive of one second.
    pub fn announce(key: String) -> (r: WireGuardProtoPeer)
        ensures
            r.public_key.text() == key@,
            r.public_key.kind_of() == WireGuardProtoKeyKind::Public,
            r.allowed_ips@ == Seq::<char>::empty(),
            r.endpoint is None,
            r.persistent_keepalive == Some(1u16),
    {
        WireGuardProtoPeer {
            public_key: WireGuardProtoKey::from_public(key),
            allowed_ips: String::new(),
            endpoint: None,
            persistent_keepalive: Some(1),
        }
    }

    pub fn from_conf(p: WireGuardConfPeer) -> (r: WireGuardProtoPeer)
        ensures
            r.public_key.text() == p.public_key@,
            r.public_key.kind_of() == WireGuardProtoKeyKind::Public,
            r.allowed_ips == p.allowed_ips,
            r.endpoint == p.endpoint,
            r.persistent_keepalive == p.persistent_keepalive,
    {
        let WireGuardConfPeer { public_key, allowed_ips, endpoint, persistent_keepalive } = p;
        WireGuardProtoPeer { public_key: WireGuardProtoKey::from_public(public_key), allowed_ips, endpoint, persistent_keepalive }
    }

    pub fn to_conf(&self) -> (r: WireGuardConfPeer)
        ensures
            r.public_key@ == self.public_key.text(),
            r.allowed_ips@ == self.allowed_ips@,
            r.endpoint matches Some(e) ==> self.endpoint matches Some(f) && e@ == f@,
            r.endpoint is None <==> self.endpoint is None,
            r.persistent_keepalive == self.persistent_keepalive,
    {
        WireGuardConfPeer {
            public_key: self.public_key.to_string(),
            allowed_ips: self.allowed_ips.clone(),
            endpoint: match &self.endpoint {
                Some(e) => Some(e.clone()),
                None => None,
            },
            persistent_keepalive: self.persistent_keepalive,
        }
    }
}

/// The peers a configuration lists.
pub open spec fn peer_list(p: Option<Vec<WireGuardProtoPeer>>) -> Seq<WireGuardProtoPeer> {
    match p {
        Some(v) => v@,
        None => Seq::empty(),
    }
}

/// A WireGuard configuration: one interface and its peers.
pub struct WireGuardProtoConfig {
    pub interface: WireGuardProtoInterface,
    pub peers: Option<Vec<WireGuardProtoPeer>>,
}

impl WireGuardProtoConfig {
    /// Appends a peer.
    pub fn add_peer(&mut self, p: WireGuardProtoPeer)
        ensures
            final(self).interface == old(self).interface,
            final(self).peers is Some,
            peer_list(final(self).peers) == peer_list(old(self).peers).push(p),
    {
        match self.peers {
            Some(ref mut peers) => {
                peers.push(p);
            },
            None => {
                self.peers = Some(vec![p]);
            },
        }
    }

    pub fn peer_count(&self) -> (r: usize)
        ensures
            r == peer_list(self.peers).len(),
    {
        match &self.peers {
            Some(v) => v.len(),
            None => 0,
        }
    }
}

/// Assembles a configuration part by part.
pub struct WireGuardProtoConfigBuilder {
    pub private_key: Option<WireGuardProtoKey>,
    pub public_key: Option<WireGuardProtoKey>,
    pub address: Option<String>,
    pub port: Option<u16>,
    pub dns: Option<[u8; 4]>,
    pub peers: Option<Vec<WireGuardProtoPeer>>,
}

impl WireGuardProtoConfigBuilder {
    pub fn builder() -> (r: WireGuardProtoConfigBuilder)
        ensures
            r.private_key is None,
            r.public_key is None,
            r.address is None,
            r.port is None,
            r.dns is None,
            r.peers is None,
    {
        WireGuardProtoConfigBuilder { private_key: None, public_key: None, address: None, port: None, dns: None, peers: None }
    }

    pub fn private_key(self, k: String) -> (r: WireGuardProtoConfigBuilder)
        ensures
            r.private_key matches Some(key) && key.text() == k@ && key.kind_of() == WireGuardProtoKeyKind::Private,
            r.public_key == self.public_key,
            r.address == self.address,
            r.port == self.port,
            r.dns == self.dns,
            r.peers == self.peers,
    {
        WireGuardProtoConfigBuilder { private_key: Some(WireGuardProtoKey::from_private(k)), ..self }
    }

    pub fn public_key(self, k: String) -> (r: WireGuardProtoConfigBuilder)
        ensures
            r.public_key matches Some(key) && key.text() == k@ && key.kind_of() == WireGuardProtoKeyKind::Public,
            r.private_key == self.private_key,
            r.address == self.address,
            r.port == self.port,
            r.dns == self.dns,
            r.peers == self.peers,
    {
        WireGuardProtoConfigBuilder { public_key: Some(WireGuardProtoKey::from_public(k)), ..self }
    }

    pub fn address(self, address: String) -> (r: WireGuardProtoConfigBuilder)
        ensures
            r.address == Some(address),
            r.private_key == self.private_key,
            r.public_key == self.public_key,
            r.port == self.port,
            r.dns == self.dns,
            r.peers == self.peers,
    {
        WireGuardProtoConfigBuilder { address: Some(address), ..self }
    }

    pub fn port(self, port: u16) -> (r: WireGuardProtoConfigBuilder)
        ensures
            r.port == Some(port),
            r.private_key == self.private_key,
            r.public_key == self.public_key,
            r.address == self.address,
            r.dns == self.dns,
            r.peers == self.peers,
    {
        WireGuardProtoConfigBuilder { port: Some(port), ..self }
    }

    pub fn dns(self, dns: Option<[u8; 4]>) -> (r: WireGuardProtoConfigBuilder)
        ensures
            r.dns == dns,
            r.private_key == self.private_key,
            r.public_key == self.public_key,
            r.address == self.address,
            r.port == self.port,
            r.peers == self.peers,
    {
        WireGuardProtoConfigBuilder { dns, ..self }
    }

    /// Appends one peer.
    pub fn peer(self, peer: WireGuardProtoPeer) -> (r: WireGuardProtoConfigBuilder)
        ensures
            peer_list(r.peers) == peer_list(self.peers).push(peer),
            r.peers is Some,
            r.private_key == self.private_key,
            r.public_key == self.public_key,
            r.address == self.address,
            r.port == self.port,
            r.dns == self.dns,
    {
        let WireGuardProtoConfigBuilder { private_key, public_key, address, port, dns, peers } = self;
        let peers = match peers {
            Some(mut p) => {
                p.push(peer);
                p
            },
            None => vec![peer],
        };
        WireGuardProtoConfigBuilder { private_key, public_key, address, port, dns, peers: Some(peers) }
    }

    pub fn peers(self, peers: Vec<WireGuardProtoPeer>) -> (r: WireGuardProtoConfigBuilder)
        ensures
            r.peers == Some(peers),
            r.private_key == self.private_key,
            r.public_key == self.public_key,
            r.address == self.address,
            r.port == self.port,
            r.dns == self.dns,
    {
        WireGuardProtoConfigBuilder { peers: Some(peers), ..self }
    }

    /// The configuration, once the private key, address and port are set.
    pub fn build(self) -> (r: WireGuardProtoConfig)
        requires
            self.private_key is Some,
            self.address is Some,
            self.port is Some,
        ensures
            r.interface.private_key == self.private_key.unwrap(),
            r.interface.address == self.address.unwrap(),
            r.interface.port == self.port.unwrap(),
            r.interface.dns == self.dns,
            r.peers == self.peers,
    {
        let WireGuardProtoConfigBuilder { private_key, public_key: _, address, port, dns, peers } = self;
        WireGuardProtoConfig {
            interface: WireGuardProtoInterface {
                private_key: private_key.unwrap(),
                address: address.unwrap(),
                port: port.unwrap(),
                dns,
            },
            peers,
        }
    }
}

} // verus!

verus! {

/// A WireGuard peer as the peer's own configuration lists it.
pub struct WireGuardPeer {
    pub public_key: String,
    pub allowed_ips: String,
    pub endpoint: Option<String>,
    pub persistent_keepalive: Option<u16>,
}

/// The tool that realises the tunnel.
#[derive(Clone, Copy, Debug, PartialEq, Eq, Structural)]
pub enum ToolType {
    WgQuick,
    Boringtun,
}

/// Where `wg-quick` finds its configuration file.
pub struct WgQuick {
    pub config: String,
}

} // verus!
