use vstd::prelude::*;
use crate::address::{Address, InterfaceKind, Ports, SharedKey};
use crate::client_config::endpoint;

verus! {

pub struct Auth {
    pub shared_key: SharedKey,
    pub session_ttl: u64,
}

/// The rendezvous server's listener.
pub struct Server {
    pub interface: [u8; 4],
    pub ip: [u8; 4],
    pub ports: Ports,
    pub max_clients: u16,
    pub response_timeout: u64,
}

impl Server {
    pub fn addr(&self, k: InterfaceKind) -> (r: Address)
        ensures
            r == endpoint(self.interface, self.ports.port_for(k)),
    {
        Address::new(self.interface, self.ports.get(k))
    }

    pub fn remote_addr(&self, k: InterfaceKind) -> (r: Address)
        ensures
            r == endpoint(self.ip, self.ports.port_for(k)),
    {
        Address::new(self.ip, self.ports.get(k))
    }
}

pub struct Network {
    pub server: Server,
}

/// The rendezvous server's configuration.
pub struct Config {
    pub network: Network,
    pub auth: Auth,
    pub path: String,
}

impl Config {
    pub fn addr(&self, k: InterfaceKind) -> (r: Address)
        ensures
            r == endpoint(self.network.server.interface, self.network.server.ports.port_for(k)),
    {
        self.network.server.addr(k)
    }

    pub fn remote_addr(&self, k: InterfaceKind) -> (r: Address)
        ensures
            r == endpoint(self.network.server.ip, self.network.server.ports.port_for(k)),
    {
        self.network.server.remote_addr(k)
    }

    pub fn max_clients(&self) -> (r: u16)
        ensures
            r == self.network.server.max_clients,
    {
        self.network.server.max_clients
    }

    pub fn response_timeout(&self) -> (r: u64)
        ensures
            r == self.network.server.response_timeout,
    {
        self.network.server.response_timeout
    }

    pub fn shared_key(&self) -> (r: SharedKey)
        ensures
            r@ == self.auth.shared_key@,
    {
        self.auth.shared_key.clone()
    }

    pub fn session_ttl(&self) -> (r: u64)
        ensures
            r == self.auth.session_ttl,
    {
        self.auth.session_ttl
    }
}

} // verus!
