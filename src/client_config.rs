use vstd::prelude::*;
use crate::address::{Address, InterfaceKind, Ports, SharedKey};

verus! {

/// The endpoint made of an IPv4 address and a port.
pub open spec fn endpoint(ip: [u8; 4], port: u16) -> Address {
    Address { a: ip@[0], b: ip@[1], c: ip@[2], d: ip@[3], port }
}

/// The endpoint a STUN reflector reported, where both parts are known.
pub struct Stun {
    pub ip: Option<[u8; 4]>,
    pub port: Option<u16>,
}

impl Stun {
    /// The endpoint of six wire bytes.
    pub fn from_bytes(d: [u8; 6]) -> (r: Stun)
        ensures
            r.ip matches Some(ip) && ip@ == d@.subrange(0, 4),
            r.port == Some(((d@[4] as int) * 256 + d@[5] as int) as u16),
    {
        let ip = [d[0], d[1], d[2], d[3]];
        assert(ip@ =~= d@.subrange(0, 4));
        Stun { ip: Some(ip), port: Some((d[4] as u16) * 256 + d[5] as u16) }
    }

    pub fn addr(&self) -> (r: Option<Address>)
        ensures
            match (self.ip, self.port) {
                (Some(ip), Some(port)) => r == Some(endpoint(ip, port)),
                _ => r is None,
            },
    {
        match (self.ip, self.port) {
            (Some(ip), Some(port)) => Some(Address::new(ip, port)),
            _ => None,
        }
    }
}

pub struct Auth {
    pub shared_key: SharedKey,
}

/// How a joining peer punches through NAT: how often it retries, and how
/// many seconds it waits afterwards.
#[derive(Clone, Copy, Debug, PartialEq, Eq, Structural)]
pub struct Nat {
    pub attempts: u8,
    pub delay: u8,
}

/// The peer's own gateway listener.
pub struct Gateway {
    pub interface: [u8; 4],
    pub ip: [u8; 4],
    pub ports: Ports,
    pub max_clients: u16,
}

impl Gateway {
    /// The local endpoint the gateway binds.
    pub fn addr(&self, k: InterfaceKind) -> (r: Address)
        ensures
            r == endpoint(self.interface, self.ports.port_for(k)),
    {
        Address::new(self.interface, self.ports.get(k))
    }

    /// The endpoint other peers reach the gateway at.
    pub fn remote_addr(&self, k: InterfaceKind) -> (r: Address)
        ensures
            r == endpoint(self.ip, self.ports.port_for(k)),
    {
        Address::new(self.ip, self.ports.get(k))
    }
}

/// The rendezvous server as a client sees it.
pub struct Server {
    pub interface: [u8; 4],
    pub ip: [u8; 4],
    pub ports: Ports,
    pub request_timeout: u64,
    pub response_timeout: u64,
}

impl Server {
    pub fn addr(&self, k: InterfaceKind) -> (r: Address)
        ensures
            r == endpoint(self.interface, self.ports.port_for(k)),
    {
        Address::new(self.interface, self.ports.get(k))
    }

    pub fn remote_addr(&self, k: InterfaceKind) -> (r: Address)
        ensures
            r == endpoint(self.ip, self.ports.port_for(k)),
    {
        Address::new(self.ip, self.ports.get(k))
    }
}

/// Where the peer's WireGuard configuration file lives.
pub struct WireGuardConf {
    pub config: String,
}

pub struct Network {
    pub server: Server,
    pub gateway: Gateway,
    pub stun: Stun,
    pub wireguard: WireGuardConf,
    pub nat: Nat,
}

impl Network {
    pub fn set_stun(&mut self, stun: Stun)
        ensures
            final(self).stun == stun,
            final(self).server == old(self).server,
            final(self).gateway == old(self).gateway,
            final(self).wireguard == old(self).wireguard,
            final(self).nat == old(self).nat,
    {
        self.stun = stun;
    }

    pub fn wireguard_filepath(&self) -> (r: &String)
        ensures
            *r == self.wireguard.config,
    {
        &self.wireguard.config
    }
}

/// A peer's configuration.
pub struct Config {
    pub auth: Auth,
    pub path: String,
    pub network: Network,
}

impl Config {
    pub fn request_timeout(&self) -> (r: u64)
        ensures
            r == self.network.server.request_timeout,
    {
        self.network.server.request_timeout
    }

    pub fn response_timeout(&self) -> (r: u64)
        ensures
            r == self.network.server.response_timeout,
    {
        self.network.server.response_timeout
    }

    pub fn wireguard_filepath(&self) -> (r: &String)
        ensures
            *r == self.network.wireguard.config,
    {
        self.network.wireguard_filepath()
    }

    pub fn path(&self) -> (r: &String)
        ensures
            *r == self.path,
    {
        &self.path
    }

    pub fn set_stun(&mut self, stun: Stun)
        ensures
            final(self).network.stun == stun,
            final(self).network.server == old(self).network.server,
            final(self).network.gateway == old(self).network.gateway,
            final(self).network.nat == old(self).network.nat,
            final(self).auth == old(self).auth,
            final(self).path == old(self).path,
    {
        self.network.set_stun(stun);
    }

    pub fn addr(&self, k: InterfaceKind) -> (r: Address)
        ensures
            r == endpoint(self.network.server.interface, self.network.server.ports.port_for(k)),
    {
        self.network.server.addr(k)
    }

    pub fn remote_addr(&self, k: InterfaceKind) -> (r: Address)
        ensures
            r == endpoint(self.network.server.ip, self.network.server.ports.port_for(k)),
    {
        self.network.server.remote_addr(k)
    }

    pub fn stun_addr(&self) -> (r: Option<Address>)
        ensures
            match (self.network.stun.ip, self.network.stun.port) {
                (Some(ip), Some(port)) => r == Some(endpoint(ip, port)),
                _ => r is None,
            },
    {
        self.network.stun.addr()
    }

    pub fn shared_key(&self) -> (r: SharedKey)
        ensures
            r@ == self.auth.shared_key@,
    {
        self.auth.shared_key.clone()
    }

    pub fn gateway_addr(&self, k: InterfaceKind) -> (r: Address)
        ensures
            r == endpoint(self.network.gateway.interface, self.network.gateway.ports.port_for(k)),
    {
        self.network.gateway.addr(k)
    }

    pub fn gateway_remote_addr(&self, k: InterfaceKind) -> (r: Address)
        ensures
            r == endpoint(self.network.gateway.ip, self.network.gateway.ports.port_for(k)),
    {
        self.network.gateway.remote_addr(k)
    }

    pub fn max_gateway_clients(&self) -> (r: u16)
        ensures
            r == self.network.gateway.max_clients,
    {
        self.network.gateway.max_clients
    }

    pub fn nat_punch_delay(&self) -> (r: u8)
        ensures
            r == self.network.nat.delay,
    {
        self.network.nat.delay
    }

    pub fn nat_punch_attempts(&self) -> (r: u8)
        ensures
            r == self.network.nat.attempts,
    {
        self.network.nat.attempts
    }
}

} // verus!
