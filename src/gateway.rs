use vstd::prelude::*;
use crate::address::{Address, ClientId};
use crate::error::ServerError;
use crate::message::{Message, MessageKind, MessageStatus};
use crate::rendezvous::server_message;
use crate::table::{ClientTable, Entries, has_key, keys_unique, upsert};
use crate::wireguard::{WireGuardProtoConfig, WireGuardProtoPeer, peer_list};

verus! {

/// What handling one gateway request produced: the reply, whether the
/// WireGuard configuration changed and must be saved before this side's
/// public key is announced, and the error that ends the connection.
pub struct GatewayDispatch {
    pub reply: Option<Message>,
    pub announce_key: bool,
    pub end: Option<ServerError>,
}

/// The gateway colocated with a peer: the peers that asked for a tunnel,
/// and the local WireGuard configuration.
pub struct Gateway {
    registered: ClientTable<()>,
    wireguard: WireGuardProtoConfig,
    addr: Address,
}

impl Gateway {
    pub closed spec fn wf(&self) -> bool {
        self.registered.wf()
    }

    /// The peers registered through a tunnel request.
    pub closed spec fn registered(&self) -> Entries<()> {
        self.registered@
    }

    /// The peers of the local WireGuard configuration.
    pub closed spec fn wg_peers(&self) -> Seq<WireGuardProtoPeer> {
        peer_list(self.wireguard.peers)
    }

    /// The endpoint the gateway signs its messages with.
    pub closed spec fn addr(&self) -> Address {
        self.addr
    }

    pub proof fn lemma_wf(&self)
        requires
            self.wf(),
        ensures
            keys_unique(self.registered()),
    {
    }

    pub fn new(addr: Address, wireguard: WireGuardProtoConfig) -> (r: Gateway)
        ensures
            r.wf(),
            r.registered() == Seq::<(Seq<char>, ())>::empty(),
            r.wg_peers() == peer_list(wireguard.peers),
            r.addr() == addr,
    {
        Gateway { registered: ClientTable::new(), wireguard, addr }
    }

    pub fn wireguard(&self) -> (r: &WireGuardProtoConfig)
        ensures
            peer_list(r.peers) == self.wg_peers(),
    {
        &self.wireguard
    }

    pub fn is_registered(&self, id: &ClientId) -> (r: bool)
        requires
            self.wf(),
        ensures
            r == has_key(self.registered(), id@),
    {
        self.registered.contains(id)
    }

    /// Handles one request from peer `id`. `peer` is the WireGuard peer a
    /// tunnel-init request carries, where it could be read.
    pub fn handle_request(&mut self, id: &ClientId, msg: &Message, peer: Option<WireGuardProtoPeer>) -> (r: GatewayDispatch)
        requires
            old(self).wf(),
        ensures
            final(self).wf(),
            final(self).addr() == old(self).addr(),
            ({
                let a = old(self).addr();
                let k = msg@.kind;
                if k == MessageKind::Ping {
                    &&& r.reply matches Some(m) && m@ == server_message(MessageKind::Pong, MessageStatus::Success, a, None)
                    &&& !r.announce_key && r.end is None
                    &&& final(self).registered() == old(self).registered()
                    &&& final(self).wg_peers() == old(self).wg_peers()
                } else if k == MessageKind::PeerTunnelRequest {
                    &&& r.reply matches Some(m) && m@ == server_message(MessageKind::PeerTunnelResponse, MessageStatus::Success, a, None)
                    &&& !r.announce_key && r.end is None
                    &&& final(self).registered() == upsert(old(self).registered(), id@, ())
                    &&& final(self).wg_peers() == old(self).wg_peers()
                } else if k == MessageKind::PeerTunnelInitRequest {
                    &&& final(self).registered() == old(self).registered()
                    &&& r.reply is None
                    &&& match peer {
                        Some(p) => r.announce_key && r.end is None && final(self).wg_peers() == old(self).wg_peers().push(p),
                        None => !r.announce_key && r.end == Some(ServerError::MalformedMessage)
                            && final(self).wg_peers() == old(self).wg_peers(),
                    }
                } else if k == MessageKind::NATPunchRequest {
                    &&& r.reply matches Some(m) && m@ == server_message(
                        MessageKind::NATPunchResponse,
                        if has_key(old(self).registered(), id@) { MessageStatus::Success } else { MessageStatus::Unauthorized },
                        a,
                        None,
                    )
                    &&& !r.announce_key && r.end is None
                    &&& final(self).registered() == old(self).registered()
                    &&& final(self).wg_peers() == old(self).wg_peers()
                } else {
                    &&& r.reply matches Some(m) && m@ == server_message(MessageKind::GenericErrorResponse, MessageStatus::BadData, a, None)
                    &&& !r.announce_key && r.end == Some(ServerError::InvalidMessage)
                    &&& final(self).registered() == old(self).registered()
                    &&& final(self).wg_peers() == old(self).wg_peers()
                }
            }),
    {
        let addr = self.addr;
        match *msg.kind() {
            MessageKind::Ping => GatewayDispatch {
                reply: Some(Message::new(MessageKind::Pong, MessageStatus::Success, &addr, None)),
                announce_key: false,
                end: None,
            },
            MessageKind::PeerTunnelRequest => {
                self.registered.upsert(id, ());
                GatewayDispatch {
                    reply: Some(Message::new(MessageKind::PeerTunnelResponse, MessageStatus::Success, &addr, None)),
                    announce_key: false,
                    end: None,
                }
            },
            MessageKind::PeerTunnelInitRequest => {
                match peer {
                    Some(p) => {
                        self.wireguard.add_peer(p);
                        GatewayDispatch { reply: None, announce_key: true, end: None }
                    },
                    None => GatewayDispatch { reply: None, announce_key: false, end: Some(ServerError::MalformedMessage) },
                }
            },
            MessageKind::NATPunchRequest => {
                let status = if self.registered.contains(id) {
                    MessageStatus::Success
                } else {
                    MessageStatus::Unauthorized
                };
                GatewayDispatch {
                    reply: Some(Message::new(MessageKind::NATPunchResponse, status, &addr, None)),
                    announce_key: false,
                    end: None,
                }
            },
            _ => GatewayDispatch {
                reply: Some(Message::new(MessageKind::GenericErrorResponse, MessageStatus::BadData, &addr, None)),
                announce_key: false,
                end: Some(ServerError::InvalidMessage),
            },
        }
    }

    /// The reply to a tunnel-init request, carrying the encoded WireGuard
    /// peer that announces this side's public key.
    pub fn key_swap_reply(&self, announcement: Vec<u8>) -> (r: Message)
        ensures
            r@ == server_message(MessageKind::PeerTunnelInitResponse, MessageStatus::Success, self.addr(), Some(announcement@)),
    {
        Message::new(MessageKind::PeerTunnelInitResponse, MessageStatus::Success, &self.addr, Some(announcement))
    }

    /// The notice sent to every registered peer on shutdown.
    pub fn shutdown_message(&self) -> (r: Message)
        ensures
            r@ == server_message(MessageKind::ServerShutdown, MessageStatus::ServiceUnavailable, self.addr(), None),
    {
        Message::new(MessageKind::ServerShutdown, MessageStatus::ServiceUnavailable, &self.addr, None)
    }

    /// Starts a shutdown: hands back the registered peers, in table order,
    /// and forgets them.
    pub fn stop(&mut self) -> (r: Vec<ClientId>)
        requires
            old(self).wf(),
        ensures
            final(self).wf(),
            final(self).addr() == old(self).addr(),
            final(self).wg_peers() == old(self).wg_peers(),
            r@.len() == old(self).registered().len(),
            forall|i: int| 0 <= i < r@.len() ==> #[trigger] r@[i]@ == old(self).registered()[i].0,
            final(self).registered() == Seq::<(Seq<char>, ())>::empty(),
    {
        let r = self.registered.keys();
        self.registered.clear();
        r
    }
}

} // verus!
