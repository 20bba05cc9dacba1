use vstd::prelude::*;
use crate::address::{Address, address_of_bytes};
use crate::client_config::Nat;
use crate::message::{Message, MessageKind, MessageStatus, MessageView, payload_view};
use crate::wireguard::{WireGuardProtoConfig, WireGuardProtoPeer, peer_list};

verus! {

/// The 20-byte STUN Binding-Request with transaction id `txid`: message
/// type 0x0001, length zero, the magic cookie 0x2112A442, then the id.
pub open spec fn binding_request(txid: Seq<u8>) -> Seq<u8> {
    seq![0u8, 1u8, 0u8, 0u8, 0x21u8, 0x12u8, 0xA4u8, 0x42u8] + txid
}

/// A STUN Binding-Request: type, zero length, magic cookie, then the
/// twelve-byte transaction id.
pub fn stun_binding_request(txid: [u8; 12]) -> (r: Vec<u8>)
    ensures
        r@ == binding_request(txid@),
        r@.len() == 20,
{
    let mut r: Vec<u8> = vec![0u8, 1u8, 0u8, 0u8, 0x21u8, 0x12u8, 0xA4u8, 0x42u8];
    let mut i: usize = 0;
    while i < 12
        invariant
            0 <= i <= 12,
            r@ == seq![0u8, 1u8, 0u8, 0u8, 0x21u8, 0x12u8, 0xA4u8, 0x42u8] + txid@.subrange(0, i as int),
        decreases 12 - i,
    {
        r.push(txid[i]);
        assert(txid@.subrange(0, i + 1) =~= txid@.subrange(0, i as int).push(txid@[i as int]));
        i = i + 1;
    }
    assert(txid@.subrange(0, 12) =~= txid@);
    r
}

/// Relies on rand's `random` for `[u8; 12]`: twelve random bytes.
#[verifier::external_body]
fn random_transaction_id() -> (r: [u8; 12]) {
    rand::random::<[u8; 12]>()
}

/// A STUN Binding-Request with a fresh random transaction id.
pub fn new_stun_request() -> (r: Vec<u8>)
    ensures
        r@.len() == 20,
        r@.subrange(0, 8) == seq![0u8, 1u8, 0u8, 0u8, 0x21u8, 0x12u8, 0xA4u8, 0x42u8],
{
    let txid = random_transaction_id();
    let r = stun_binding_request(txid);
    assert(r@.subrange(0, 8) =~= seq![0u8, 1u8, 0u8, 0u8, 0x21u8, 0x12u8, 0xA4u8, 0x42u8]);
    r
}

/// A request from a client, signed with the endpoint `addr`.
pub fn request_message(kind: MessageKind, addr: &Address, data: Option<Vec<u8>>) -> (r: Message)
    ensures
        r@ == (MessageView {
            kind,
            status: MessageStatus::Pending,
            sender: crate::address::address_bytes(*addr),
            data: payload_view(data),
        }),
{
    Message::new(kind, MessageStatus::Pending, addr, data)
}

/// The phases of joining the overlay.
#[derive(Clone, Copy, Debug, PartialEq, Eq, Structural)]
pub enum JoinPhase {
    Authenticating,
    RequestingGateway,
    Punching,
    Settling,
    ExchangingKeys,
    ConfirmingTunnel,
    Done,
    Aborted,
}

/// What the driver must do next.
#[derive(Clone, Copy, Debug, PartialEq, Eq, Structural)]
pub enum JoinAction {
    /// Send an authentication request carrying the peer's configuration.
    SendAuthentication,
    SendGatewayRequest,
    /// Open a TCP connection to the gateway, keeping it where it succeeds.
    Connect(Address),
    /// Wait this many seconds for the other side's accept to complete.
    Sleep(u8),
    /// Send a tunnel-init request announcing this side's public key.
    SendTunnelInit,
    /// Send a peer-tunnel request for the gateway at this endpoint.
    SendPeerTunnelRequest(Address),
    Finish,
    Abort,
}

/// Whether a response is of kind `k` and reports success.
pub open spec fn succeeded(m: Option<MessageView>, k: MessageKind) -> bool {
    m matches Some(v) && v.kind == k && (v.status == MessageStatus::Success || v.status == MessageStatus::Created)
}

/// The gateway endpoint a gateway response carries, where it carries one.
pub open spec fn gateway_in(m: MessageView) -> Option<Address> {
    match m.data {
        Some(d) => if d.len() >= 6 { Some(address_of_bytes(d.subrange(0, 6))) } else { None },
        None => None,
    }
}

pub open spec fn view_of(m: Option<&Message>) -> Option<MessageView> {
    match m {
        Some(m) => Some(m@),
        None => None,
    }
}

/// The joining peer's state machine: authenticate, ask for a gateway,
/// punch through NAT, swap WireGuard keys, confirm the tunnel. The driver
/// performs each action and reports what came of it.
pub struct Join {
    pub phase: JoinPhase,
    pub peer: Option<Address>,
    pub retries_left: u8,
    pub punch: Nat,
    pub wireguard: WireGuardProtoConfig,
}

impl Join {
    /// A join that starts by authenticating.
    pub fn start(punch: Nat, wireguard: WireGuardProtoConfig) -> (r: (Join, JoinAction))
        ensures
            r.0.phase == JoinPhase::Authenticating,
            r.0.peer is None,
            r.0.punch == punch,
            r.0.wireguard == wireguard,
            r.1 == JoinAction::SendAuthentication,
    {
        (Join { phase: JoinPhase::Authenticating, peer: None, retries_left: punch.attempts, punch, wireguard }, JoinAction::SendAuthentication)
    }

    /// A response arrived, or none did (`None`: the request timed out or
    /// the connection returned no data). `peer` is the WireGuard peer a
    /// tunnel-init response carries, where it could be read. Only the
    /// phase moves, except that a gateway response sets the peer endpoint
    /// and the retries, and a successful key swap adds the peer to the
    /// WireGuard configuration.
    pub fn on_response(&mut self, m: Option<&Message>, peer: Option<WireGuardProtoPeer>) -> (r: JoinAction)
        ensures
            final(self).punch == old(self).punch,
            ({
                let v = view_of(m);
                match old(self).phase {
                    JoinPhase::Authenticating => {
                        &&& kept_all(*old(self), *final(self))
                        &&& if succeeded(v, MessageKind::AuthenticationResponse) {
                            final(self).phase == JoinPhase::RequestingGateway && r == JoinAction::SendGatewayRequest
                        } else {
                            final(self).phase == JoinPhase::Aborted && r == JoinAction::Abort
                        }
                    },
                    JoinPhase::RequestingGateway => if succeeded(v, MessageKind::GatewayResponse)
                        && gateway_in(v.unwrap()) is Some {
                        let a = gateway_in(v.unwrap()).unwrap();
                        &&& final(self).phase == JoinPhase::Punching
                        &&& final(self).peer == Some(a)
                        &&& final(self).retries_left == old(self).punch.attempts
                        &&& final(self).wireguard == old(self).wireguard
                        &&& r == JoinAction::Connect(a)
                    } else {
                        &&& kept_all(*old(self), *final(self))
                        &&& final(self).phase == JoinPhase::Aborted && r == JoinAction::Abort
                    },
                    JoinPhase::ExchangingKeys => if succeeded(v, MessageKind::PeerTunnelInitResponse) && peer is Some
                        && old(self).peer is Some {
                        &&& final(self).phase == JoinPhase::ConfirmingTunnel
                        &&& final(self).peer == old(self).peer
                        &&& final(self).retries_left == old(self).retries_left
                        &&& final(self).wireguard.interface == old(self).wireguard.interface
                        &&& peer_list(final(self).wireguard.peers) == peer_list(old(self).wireguard.peers).push(peer.unwrap())
                        &&& r == JoinAction::SendPeerTunnelRequest(old(self).peer.unwrap())
                    } else {
                        &&& kept_all(*old(self), *final(self))
                        &&& final(self).phase == JoinPhase::Aborted && r == JoinAction::Abort
                    },
                    JoinPhase::ConfirmingTunnel => {
                        &&& kept_all(*old(self), *final(self))
                        &&& final(self).phase == JoinPhase::Done && r == JoinAction::Finish
                    },
                    _ => {
                        &&& kept_all(*old(self), *final(self))
                        &&& final(self).phase == old(self).phase && r == JoinAction::Abort
                    },
                }
            }),
    {
        match self.phase {
            JoinPhase::Authenticating => {
                if Self::ok_of_kind(m, MessageKind::AuthenticationResponse) {
                    self.phase = JoinPhase::RequestingGateway;
                    JoinAction::SendGatewayRequest
                } else {
                    self.phase = JoinPhase::Aborted;
                    JoinAction::Abort
                }
            },
            JoinPhase::RequestingGateway => {
                if Self::ok_of_kind(m, MessageKind::GatewayResponse) {
                    let msg = m.unwrap();
                    match crate::address::Address::from_payload(msg.payload()) {
                        Ok(a) => {
                            self.phase = JoinPhase::Punching;
                            self.peer = Some(a);
                            self.retries_left = self.punch.attempts;
                            JoinAction::Connect(a)
                        },
                        Err(_) => {
                            self.phase = JoinPhase::Aborted;
                            JoinAction::Abort
                        },
                    }
                } else {
                    self.phase = JoinPhase::Aborted;
                    JoinAction::Abort
                }
            },
            JoinPhase::ExchangingKeys => {
                if Self::ok_of_kind(m, MessageKind::PeerTunnelInitResponse) && peer.is_some() && self.peer.is_some() {
                    self.wireguard.add_peer(peer.unwrap());
                    self.phase = JoinPhase::ConfirmingTunnel;
                    JoinAction::SendPeerTunnelRequest(self.peer.unwrap())
                } else {
                    self.phase = JoinPhase::Aborted;
                    JoinAction::Abort
                }
            },
            JoinPhase::ConfirmingTunnel => {
                self.phase = JoinPhase::Done;
                JoinAction::Finish
            },
            _ => JoinAction::Abort,
        }
    }

    fn ok_of_kind(m: Option<&Message>, k: MessageKind) -> (r: bool)
        ensures
            r == succeeded(view_of(m), k),
    {
        match m {
            Some(msg) => *msg.kind() == k && msg.status().is_success(),
            None => false,
        }
    }

    /// A connection attempt to the gateway finished. On success the driver
    /// keeps the socket and waits; on failure it retries while retries are
    /// left, then gives up on punching and goes on with the key swap.
    pub fn on_connect(&mut self, ok: bool) -> (r: JoinAction)
        ensures
            final(self).punch == old(self).punch,
            final(self).peer == old(self).peer,
            final(self).wireguard == old(self).wireguard,
            !(old(self).phase == JoinPhase::Punching && old(self).peer is Some && !ok && old(self).retries_left > 0)
                ==> final(self).retries_left == old(self).retries_left,
            old(self).phase == JoinPhase::Punching && old(self).peer is Some ==> if ok {
                final(self).phase == JoinPhase::Settling && r == JoinAction::Sleep(old(self).punch.delay)
            } else if old(self).retries_left > 0 {
                &&& final(self).phase == JoinPhase::Punching
                &&& final(self).retries_left == old(self).retries_left - 1
                &&& r == JoinAction::Connect(old(self).peer.unwrap())
            } else {
                final(self).phase == JoinPhase::ExchangingKeys && r == JoinAction::SendTunnelInit
            },
            !(old(self).phase == JoinPhase::Punching && old(self).peer is Some) ==> final(self).phase == old(self).phase
                && r == JoinAction::Abort,
    {
        if self.phase != JoinPhase::Punching || self.peer.is_none() {
            return JoinAction::Abort;
        }
        if ok {
            self.phase = JoinPhase::Settling;
            JoinAction::Sleep(self.punch.delay)
        } else if self.retries_left > 0 {
            self.retries_left = self.retries_left - 1;
            JoinAction::Connect(self.peer.unwrap())
        } else {
            self.phase = JoinPhase::ExchangingKeys;
            JoinAction::SendTunnelInit
        }
    }

    /// The wait after a successful punch is over: go on with the key swap.
    pub fn on_settled(&mut self) -> (r: JoinAction)
        ensures
            final(self).punch == old(self).punch,
            kept_all(*old(self), *final(self)),
            old(self).phase == JoinPhase::Settling ==> final(self).phase == JoinPhase::ExchangingKeys
                && r == JoinAction::SendTunnelInit,
            old(self).phase != JoinPhase::Settling ==> final(self).phase == old(self).phase && r == JoinAction::Abort,
    {
        if self.phase == JoinPhase::Settling {
            self.phase = JoinPhase::ExchangingKeys;
            JoinAction::SendTunnelInit
        } else {
            JoinAction::Abort
        }
    }

    /// The punch, with its wait, ran out of time. That is no failure: the
    /// join ends there, successfully, and sends nothing more.
    pub fn on_punch_timeout(&mut self) -> (r: JoinAction)
        ensures
            final(self).punch == old(self).punch,
            kept_all(*old(self), *final(self)),
            old(self).phase == JoinPhase::Punching || old(self).phase == JoinPhase::Settling ==> final(self).phase
                == JoinPhase::Done && r == JoinAction::Finish,
            !(old(self).phase == JoinPhase::Punching || old(self).phase == JoinPhase::Settling) ==> final(self).phase
                == old(self).phase && r == JoinAction::Abort,
    {
        if self.phase == JoinPhase::Punching || self.phase == JoinPhase::Settling {
            self.phase = JoinPhase::Done;
            JoinAction::Finish
        } else {
            JoinAction::Abort
        }
    }
}

/// The peer endpoint, the retries left and the WireGuard configuration are
/// as they were.
pub open spec fn kept_all(before: Join, after: Join) -> bool {
    &&& after.peer == before.peer
    &&& after.retries_left == before.retries_left
    &&& after.wireguard == before.wireguard
}

} // verus!
