use vstd::prelude::*;
use vstd::utf8::{decode_utf8, encode_utf8, valid_utf8};
use crate::error::ProtoError;
use crate::text::{decimal, push_char, push_decimal};

verus! {

/// Which transport an endpoint belongs to.
#[derive(Clone, Copy, Debug, PartialEq, Eq, Structural)]
pub enum InterfaceKind {
    Tcp,
    Udp,
}

/// The pair of ports a host listens on.
#[derive(Clone, Copy, Debug, PartialEq, Eq, Structural)]
pub struct Ports {
    pub tcp: u16,
    pub udp: u16,
}

impl Ports {
    pub open spec fn port_for(self, k: InterfaceKind) -> u16 {
        match k {
            InterfaceKind::Tcp => self.tcp,
            InterfaceKind::Udp => self.udp,
        }
    }

    pub fn get(&self, k: InterfaceKind) -> (r: u16)
        ensures
            r == self.port_for(k),
    {
        match k {
            InterfaceKind::Tcp => self.tcp,
            InterfaceKind::Udp => self.udp,
        }
    }
}

/// An IPv4 endpoint: four octets and a port.
#[derive(Clone, Copy, Debug, PartialEq, Eq, Structural)]
pub struct Address {
    pub a: u8,
    pub b: u8,
    pub c: u8,
    pub d: u8,
    pub port: u16,
}

/// The six-byte wire form of an endpoint: the octets, then the port in
/// network order.
pub open spec fn address_bytes(x: Address) -> Seq<u8> {
    seq![x.a, x.b, x.c, x.d, (x.port / 256) as u8, (x.port % 256) as u8]
}

/// The endpoint that six wire bytes stand for.
pub open spec fn address_of_bytes(s: Seq<u8>) -> Address
    recommends
        s.len() == 6,
{
    Address { a: s[0], b: s[1], c: s[2], d: s[3], port: (s[4] as int * 256 + s[5] as int) as u16 }
}

/// The dotted-decimal text of the octets.
pub open spec fn ip_text(x: Address) -> Seq<char> {
    decimal(x.a as nat) + seq!['.'] + decimal(x.b as nat) + seq!['.'] + decimal(x.c as nat)
        + seq!['.'] + decimal(x.d as nat)
}

/// The `ip:port` text of an endpoint.
pub open spec fn address_text(x: Address) -> Seq<char> {
    ip_text(x) + seq![':'] + decimal(x.port as nat)
}

/// Packing an endpoint into six bytes and reading it back gives the same
/// endpoint.
pub proof fn lemma_address_bytes_round_trip(x: Address)
    ensures
        address_of_bytes(address_bytes(x)) == x,
{
    assert((x.port / 256) as u8 as int * 256 + (x.port % 256) as u8 as int == x.port as int);
}

/// Reading six bytes as an endpoint and packing it again gives the same
/// bytes.
pub proof fn lemma_bytes_address_round_trip(s: Seq<u8>)
    requires
        s.len() == 6,
    ensures
        address_bytes(address_of_bytes(s)) =~= s,
{
    let p = s[4] as int * 256 + s[5] as int;
    assert(p / 256 == s[4] as int && p % 256 == s[5] as int) by (nonlinear_arith)
        requires
            p == s[4] as int * 256 + s[5] as int,
            0 <= s[5] < 256,
            0 <= s[4] < 256,
    ;
}

impl Address {
    pub fn new(ip: [u8; 4], port: u16) -> (r: Address)
        ensures
            r == (Address { a: ip@[0], b: ip@[1], c: ip@[2], d: ip@[3], port }),
    {
        Address { a: ip[0], b: ip[1], c: ip[2], d: ip[3], port }
    }

    pub fn ip(&self) -> (r: [u8; 4])
        ensures
            r@ == seq![self.a, self.b, self.c, self.d],
    {
        let r = [self.a, self.b, self.c, self.d];
        assert(r@ =~= seq![self.a, self.b, self.c, self.d]);
        r
    }

    pub fn port(&self) -> (r: u16)
        ensures
            r == self.port,
    {
        self.port
    }

    /// The six-byte wire form.
    pub fn to_vec(&self) -> (r: Vec<u8>)
        ensures
            r@ == address_bytes(*self),
    {
        let mut r: Vec<u8> = Vec::new();
        r.push(self.a);
        r.push(self.b);
        r.push(self.c);
        r.push(self.d);
        r.push((self.port / 256) as u8);
        r.push((self.port % 256) as u8);
        assert(r@ =~= address_bytes(*self));
        r
    }

    /// The wire form as a fixed array.
    pub fn to_bytes(&self) -> (r: [u8; 6])
        ensures
            r@ == address_bytes(*self),
    {
        let r = [self.a, self.b, self.c, self.d, (self.port / 256) as u8, (self.port % 256) as u8];
        assert(r@ =~= address_bytes(*self));
        r
    }

    /// Reads an endpoint from its six-byte wire form.
    pub fn from_bytes(s: [u8; 6]) -> (r: Address)
        ensures
            r == address_of_bytes(s@),
    {
        Address { a: s[0], b: s[1], c: s[2], d: s[3], port: (s[4] as u16) * 256 + (s[5] as u16) }
    }

    /// Reads an endpoint from a message payload, whose first six bytes are
    /// its wire form.
    pub fn from_payload(p: &Option<Vec<u8>>) -> (r: Result<Address, ProtoError>)
        ensures
            match p {
                Some(v) => if v@.len() >= 6 {
                    r == Ok::<Address, ProtoError>(address_of_bytes(v@.subrange(0, 6)))
                } else {
                    r == Err::<Address, ProtoError>(ProtoError::MissingAddress)
                },
                None => r == Err::<Address, ProtoError>(ProtoError::MissingAddress),
            },
    {
        match p {
            Some(v) => {
                if v.len() >= 6 {
                    Ok(Address {
                        a: v[0],
                        b: v[1],
                        c: v[2],
                        d: v[3],
                        port: (v[4] as u16) * 256 + (v[5] as u16),
                    })
                } else {
                    Err(ProtoError::MissingAddress)
                }
            },
            None => Err(ProtoError::MissingAddress),
        }
    }

    /// The dotted-decimal text of the octets, as in `192.168.1.2`.
    pub fn ip_string(&self) -> (r: String)
        ensures
            r@ == ip_text(*self),
    {
        let mut s = String::new();
        push_decimal(&mut s, self.a as u16);
        push_char(&mut s, '.');
        push_decimal(&mut s, self.b as u16);
        push_char(&mut s, '.');
        push_decimal(&mut s, self.c as u16);
        push_char(&mut s, '.');
        push_decimal(&mut s, self.d as u16);
        assert(s@ =~= ip_text(*self));
        s
    }

    /// The `ip:port` text, as in `192.168.1.2:8080`.
    pub fn to_string(&self) -> (r: String)
        ensures
            r@ == address_text(*self),
    {
        let mut s = self.ip_string();
        push_char(&mut s, ':');
        push_decimal(&mut s, self.port);
        assert(s@ =~= address_text(*self));
        s
    }
}

impl From<[u8; 6]> for Address {
    fn from(s: [u8; 6]) -> (r: Address) {
        Address::from_bytes(s)
    }
}

impl vstd::std_specs::convert::FromSpecImpl<[u8; 6]> for Address {
    open spec fn obeys_from_spec() -> bool {
        true
    }

    open spec fn from_spec(s: [u8; 6]) -> Address {
        address_of_bytes(s@)
    }
}

/// Whether a STUN-reflected endpoint is public or private.
#[derive(Clone, Copy, Debug, PartialEq, Eq, Structural)]
pub enum StunAddressKind {
    Public,
    Private,
}

/// An endpoint as a STUN reflector observed it.
#[derive(Clone, Copy, Debug, PartialEq, Eq, Structural)]
pub struct StunInfo {
    pub kind: StunAddressKind,
    pub addr: Address,
}

impl StunInfo {
    pub fn new(kind: StunAddressKind, addr: Address) -> (r: StunInfo)
        ensures
            r == (StunInfo { kind, addr }),
    {
        StunInfo { kind, addr }
    }
}

/// The textual identity of a peer: the IP address it was seen from.
#[derive(Debug)]
pub struct ClientId(String);

impl View for ClientId {
    type V = Seq<char>;

    closed spec fn view(&self) -> Seq<char> {
        self.0@
    }
}

impl ClientId {
    pub fn from_str(s: &str) -> (r: ClientId)
        ensures
            r@ == s@,
    {
        ClientId(s.to_string())
    }

    pub fn from_string(s: String) -> (r: ClientId)
        ensures
            r@ == s@,
    {
        ClientId(s)
    }

    /// The identity of the host behind an endpoint: its IP, without the port.
    pub fn from_address(x: &Address) -> (r: ClientId)
        ensures
            r@ == ip_text(*x),
    {
        ClientId(x.ip_string())
    }

    pub fn as_str(&self) -> (r: &str)
        ensures
            r@ == self@,
    {
        self.0.as_str()
    }
}

impl Clone for ClientId {
    fn clone(&self) -> (r: ClientId)
        ensures
            r@ == self@,
    {
        ClientId(self.0.clone())
    }
}

impl PartialEq for ClientId {
    fn eq(&self, o: &ClientId) -> (r: bool)
        ensures
            r == (self@ == o@),
    {
        self.0 == o.0
    }
}

impl vstd::std_specs::cmp::PartialEqSpecImpl for ClientId {
    open spec fn obeys_eq_spec() -> bool {
        true
    }

    open spec fn eq_spec(&self, o: &ClientId) -> bool {
        self@ == o@
    }
}

impl Eq for ClientId {}

/// Relies on String::from_utf8: the text the bytes encode, exactly when
/// they are valid UTF-8; the error is dropped.
#[verifier::external_body]
fn string_from_utf8(v: Vec<u8>) -> (r: Option<String>)
    ensures
        r is Some <==> valid_utf8(v@),
        r matches Some(s) ==> s@ == decode_utf8(v@),
{
    String::from_utf8(v).ok()
}

/// A pre-provisioned secret, compared for equality only.
pub struct SharedKey(String);

impl View for SharedKey {
    type V = Seq<char>;

    closed spec fn view(&self) -> Seq<char> {
        self.0@
    }
}

impl SharedKey {
    pub fn from_str(s: &str) -> (r: SharedKey)
        ensures
            r@ == s@,
    {
        SharedKey(s.to_string())
    }

    pub fn from_string(s: String) -> (r: SharedKey)
        ensures
            r@ == s@,
    {
        SharedKey(s)
    }

    /// The key whose UTF-8 encoding is `v`; `None` where `v` is not valid
    /// UTF-8.
    pub fn from_bytes(v: Vec<u8>) -> (r: Option<SharedKey>)
        ensures
            r is Some <==> valid_utf8(v@),
            r matches Some(k) ==> k@ == decode_utf8(v@),
    {
        match string_from_utf8(v) {
            Some(s) => Some(SharedKey(s)),
            None => None,
        }
    }

    /// The UTF-8 bytes of the key.
    pub fn to_vec(self) -> (r: Vec<u8>)
        ensures
            r@ == encode_utf8(self@),
    {
        self.0.as_str().as_bytes_vec()
    }

    /// The key with its content hidden, for logs.
    pub fn censored(&self) -> (r: String)
        ensures
            r@ == "roxi-XXX"@,
    {
        "roxi-XXX".to_string()
    }

    pub fn matches(&self, o: &SharedKey) -> (r: bool)
        ensures
            r == (self@ == o@),
    {
        self.0 == o.0
    }
}

impl Clone for SharedKey {
    fn clone(&self) -> (r: SharedKey)
        ensures
            r@ == self@,
    {
        SharedKey(self.0.clone())
    }
}

} // verus!
