use vstd::prelude::*;
use crate::address::{Address, ClientId, StunAddressKind, StunInfo, address_bytes, ip_text};
use crate::client_config::{Config as ClientConfig, endpoint};
use crate::error::ServerError;
use crate::message::{Message, MessageKind, MessageStatus, MessageView, payload_view};
use crate::server_config::Config as ServerConfig;
use crate::session::{Session, SessionManager, candidates};
use crate::table::{ClientTable, Entries, has_key, keys_unique, value_of, upsert, remove_key, lemma_upsert};

verus! {

/// The rendezvous state as plain values: sessions, the STUN cache, and the
/// clients whose connection is kept as a socket.
pub struct RendezvousView {
    pub sessions: Entries<Session>,
    pub stun: Entries<StunInfo>,
    pub sockets: Entries<()>,
}

/// What handling one request produces: the reply to the requester, a
/// message pushed to another client, and the error that ends the
/// requester's connection.
pub struct OutcomeView {
    pub reply: Option<MessageView>,
    pub push: Option<(Seq<char>, MessageView)>,
    pub end: Option<ServerError>,
}

/// A message sent by the server at `addr`.
pub open spec fn server_message(kind: MessageKind, status: MessageStatus, addr: Address, data: Option<Seq<u8>>) -> MessageView {
    MessageView { kind, status, sender: address_bytes(addr), data }
}

/// The response kind that answers a request kind that requires a session.
pub open spec fn response_kind(k: MessageKind) -> MessageKind {
    match k {
        MessageKind::StunInfoRequest => MessageKind::StunInfoResponse,
        MessageKind::GatewayRequest => MessageKind::GatewayResponse,
        _ => MessageKind::SeedResponse,
    }
}

/// The request kinds that only an authenticated client may make.
pub open spec fn requires_session(k: MessageKind) -> bool {
    k == MessageKind::StunInfoRequest || k == MessageKind::GatewayRequest || k == MessageKind::SeedRequest
}

/// The shared key and advertised gateway endpoint of a client's
/// configuration.
pub open spec fn credentials(c: &ClientConfig) -> (Seq<char>, Address) {
    (c.auth.shared_key@, endpoint(c.network.gateway.ip, c.network.gateway.ports.tcp))
}

pub open spec fn credentials_of(c: Option<&ClientConfig>) -> Option<(Seq<char>, Address)> {
    match c {
        Some(c) => Some(credentials(c)),
        None => None,
    }
}

pub open spec fn outcome(reply: MessageView, end: Option<ServerError>) -> OutcomeView {
    OutcomeView { reply: Some(reply), push: None, end }
}

/// How the rendezvous handles a request of kind `kind` from client `id`,
/// given its state `st`, its shared key `key`, the session time to live
/// `ttl`, its own endpoint `addr`, the credentials an authentication
/// request carries, the time `now`, and the position `pick` of the gateway
/// candidate chosen.
///
/// A gateway reply to the requester carries the chosen peer's gateway
/// endpoint, which the requester needs to punch through; the message pushed
/// over the chosen peer's own kept connection carries the requester's. A STUN-information request
/// is answered with the cached endpoint, or `NotFound` where none is cached.
pub open spec fn dispatch(
    st: RendezvousView,
    key: Seq<char>,
    ttl: u64,
    addr: Address,
    id: Seq<char>,
    kind: MessageKind,
    auth: Option<(Seq<char>, Address)>,
    now: u64,
    pick: int,
) -> (RendezvousView, OutcomeView) {
    if kind == MessageKind::Ping {
        (st, outcome(server_message(MessageKind::Pong, MessageStatus::Success, addr, None), None))
    } else if kind == MessageKind::AuthenticationRequest {
        match auth {
            None => (st, OutcomeView { reply: None, push: None, end: Some(ServerError::MalformedConfig) }),
            Some((k, gw)) => if k == key {
                (
                    RendezvousView {
                        sessions: upsert(st.sessions, id, Session { time: now, expiry: ttl, gateway: gw }),
                        stun: st.stun,
                        sockets: upsert(st.sockets, id, ()),
                    },
                    outcome(server_message(MessageKind::AuthenticationResponse, MessageStatus::Success, addr, None), None),
                )
            } else {
                (
                    st,
                    outcome(
                        server_message(MessageKind::AuthenticationResponse, MessageStatus::Unauthorized, addr, None),
                        Some(ServerError::Unauthenticated),
                    ),
                )
            },
        }
    } else if requires_session(kind) && !has_key(st.sessions, id) {
        (
            st,
            outcome(server_message(response_kind(kind), MessageStatus::Unauthorized, addr, None), Some(ServerError::Unauthenticated)),
        )
    } else if kind == MessageKind::StunInfoRequest {
        match value_of(st.stun, id) {
            Some(info) => (
                st,
                outcome(server_message(MessageKind::StunInfoResponse, MessageStatus::Success, addr, Some(address_bytes(info.addr))), None),
            ),
            None => (st, outcome(server_message(MessageKind::StunInfoResponse, MessageStatus::NotFound, addr, None), None)),
        }
    } else if kind == MessageKind::GatewayRequest {
        let c = candidates(st.sessions, id);
        let unavailable = outcome(
            server_message(MessageKind::GatewayResponse, MessageStatus::ServiceUnavailable, addr, None),
            None,
        );
        if 0 <= pick < c.len() {
            let peer_id = c[pick].0;
            let peer = c[pick].1.gateway;
            let own = value_of(st.sessions, id).unwrap().gateway;
            if has_key(st.sockets, peer_id) {
                (
                    st,
                    OutcomeView {
                        reply: Some(server_message(MessageKind::GatewayResponse, MessageStatus::Success, addr, Some(address_bytes(peer)))),
                        push: Some((peer_id, server_message(MessageKind::GatewayResponse, MessageStatus::Success, addr, Some(address_bytes(own))))),
                        end: None,
                    },
                )
            } else {
                (st, unavailable)
            }
        } else {
            (st, unavailable)
        }
    } else if kind == MessageKind::SeedRequest {
        (
            RendezvousView { sessions: st.sessions, stun: st.stun, sockets: upsert(st.sockets, id, ()) },
            outcome(server_message(MessageKind::SeedResponse, MessageStatus::Success, addr, None), None),
        )
    } else {
        (
            st,
            outcome(server_message(MessageKind::GenericErrorResponse, MessageStatus::BadData, addr, None), Some(ServerError::InvalidMessage)),
        )
    }
}

/// What handling one request produced.
pub struct Dispatch {
    pub reply: Option<Message>,
    pub push: Option<(ClientId, Message)>,
    pub end: Option<ServerError>,
}

impl View for Dispatch {
    type V = OutcomeView;

    open spec fn view(&self) -> OutcomeView {
        OutcomeView {
            reply: match &self.reply {
                Some(m) => Some(m@),
                None => None,
            },
            push: match &self.push {
                Some((c, m)) => Some((c@, m@)),
                None => None,
            },
            end: self.end,
        }
    }
}

/// The rendezvous coordinator's state: the session table, the STUN cache
/// and the set of clients whose connection is kept for pushes.
pub struct Rendezvous {
    sessions: SessionManager,
    stun: ClientTable<StunInfo>,
    sockets: ClientTable<()>,
    addr: Address,
}

impl View for Rendezvous {
    type V = RendezvousView;

    closed spec fn view(&self) -> RendezvousView {
        RendezvousView { sessions: self.sessions@, stun: self.stun@, sockets: self.sockets@ }
    }
}

fn reply(kind: MessageKind, status: MessageStatus, addr: &Address, data: Option<Vec<u8>>) -> (r: Message)
    ensures
        r@ == server_message(kind, status, *addr, payload_view(data)),
{
    Message::new(kind, status, addr, data)
}

impl Rendezvous {
    /// One entry per client in each table.
    pub closed spec fn wf(&self) -> bool {
        self.sessions.wf() && self.stun.wf() && self.sockets.wf()
    }

    pub closed spec fn key(&self) -> Seq<char> {
        self.sessions.key()
    }

    pub closed spec fn ttl(&self) -> u64 {
        self.sessions.ttl()
    }

    /// The endpoint the server signs its messages with.
    pub closed spec fn addr(&self) -> Address {
        self.addr
    }

    pub proof fn lemma_wf(&self)
        requires
            self.wf(),
        ensures
            keys_unique(self@.sessions),
            keys_unique(self@.stun),
            keys_unique(self@.sockets),
    {
        self.sessions.lemma_wf();
    }

    pub fn new(config: &ServerConfig) -> (r: Rendezvous)
        ensures
            r.wf(),
            r@.sessions == Seq::<(Seq<char>, Session)>::empty(),
            r@.stun == Seq::<(Seq<char>, StunInfo)>::empty(),
            r@.sockets == Seq::<(Seq<char>, ())>::empty(),
            r.key() == config.auth.shared_key@,
            r.ttl() == config.auth.session_ttl,
            r.addr() == endpoint(config.network.server.ip, config.network.server.ports.tcp),
    {
        Rendezvous {
            sessions: SessionManager::new(config),
            stun: ClientTable::new(),
            sockets: ClientTable::new(),
            addr: config.remote_addr(crate::address::InterfaceKind::Tcp),
        }
    }

    pub fn sessions(&self) -> (r: &SessionManager)
        ensures
            r@ == self@.sessions,
            self.wf() ==> r.wf(),
    {
        &self.sessions
    }

    pub fn stun_info(&self, id: &ClientId) -> (r: Option<StunInfo>)
        requires
            self.wf(),
        ensures
            r == value_of(self@.stun, id@),
    {
        self.stun.get(id)
    }

    pub fn has_socket(&self, id: &ClientId) -> (r: bool)
        requires
            self.wf(),
        ensures
            r == has_key(self@.sockets, id@),
    {
        self.sockets.contains(id)
    }

    pub fn socket_count(&self) -> (r: usize)
        ensures
            r == self@.sockets.len(),
    {
        self.sockets.len()
    }

    /// Handles one request from client `id`, with the candidate at position
    /// `pick` chosen where a gateway is asked for. `auth` is the client
    /// configuration an authentication request carries, where it could be
    /// read.
    pub fn handle_request_with(
        &mut self,
        id: &ClientId,
        msg: &Message,
        auth: Option<&ClientConfig>,
        now: u64,
        pick: usize,
    ) -> (r: Dispatch)
        requires
            old(self).wf(),
        ensures
            final(self).wf(),
            final(self).key() == old(self).key(),
            final(self).ttl() == old(self).ttl(),
            final(self).addr() == old(self).addr(),
            (final(self)@, r@) == dispatch(
                old(self)@,
                old(self).key(),
                old(self).ttl(),
                old(self).addr(),
                id@,
                msg@.kind,
                credentials_of(auth),
                now,
                pick as int,
            ),
    {
        let kind = *msg.kind();
        let addr = self.addr;
        match kind {
            MessageKind::Ping => {
                return Dispatch { reply: Some(reply(MessageKind::Pong, MessageStatus::Success, &addr, None)), push: None, end: None };
            },
            MessageKind::AuthenticationRequest => {
                match auth {
                    None => {
                        return Dispatch { reply: None, push: None, end: Some(ServerError::MalformedConfig) };
                    },
                    Some(config) => {
                        if self.sessions.authenticate(id, config, now).is_err() {
                            return Dispatch {
                                reply: Some(reply(MessageKind::AuthenticationResponse, MessageStatus::Unauthorized, &addr, None)),
                                push: None,
                                end: Some(ServerError::Unauthenticated),
                            };
                        }
                        self.sockets.upsert(id, ());
                        return Dispatch {
                            reply: Some(reply(MessageKind::AuthenticationResponse, MessageStatus::Success, &addr, None)),
                            push: None,
                            end: None,
                        };
                    },
                }
            },
            MessageKind::StunInfoRequest | MessageKind::GatewayRequest | MessageKind::SeedRequest => {
                if !self.sessions.has_session(id) {
                    let rk = match kind {
                        MessageKind::StunInfoRequest => MessageKind::StunInfoResponse,
                        MessageKind::GatewayRequest => MessageKind::GatewayResponse,
                        _ => MessageKind::SeedResponse,
                    };
                    return Dispatch {
                        reply: Some(reply(rk, MessageStatus::Unauthorized, &addr, None)),
                        push: None,
                        end: Some(ServerError::Unauthenticated),
                    };
                }
            },
            _ => {},
        }
        match kind {
            MessageKind::StunInfoRequest => {
                match self.stun.get(id) {
                    Some(info) => Dispatch {
                        reply: Some(reply(MessageKind::StunInfoResponse, MessageStatus::Success, &addr, Some(info.addr.to_vec()))),
                        push: None,
                        end: None,
                    },
                    None => Dispatch {
                        reply: Some(reply(MessageKind::StunInfoResponse, MessageStatus::NotFound, &addr, None)),
                        push: None,
                        end: None,
                    },
                }
            },
            MessageKind::GatewayRequest => {
                match self.sessions.select_session(id, pick) {
                    Some((peer_id, session)) => {
                        let peer = session.gateway;
                        if self.sockets.contains(&peer_id) {
                            let own = self.sessions.get(id).unwrap().gateway;
                            Dispatch {
                                reply: Some(reply(MessageKind::GatewayResponse, MessageStatus::Success, &addr, Some(peer.to_vec()))),
                                push: Some((peer_id, reply(MessageKind::GatewayResponse, MessageStatus::Success, &addr, Some(own.to_vec())))),
                                end: None,
                            }
                        } else {
                            Dispatch {
                                reply: Some(reply(MessageKind::GatewayResponse, MessageStatus::ServiceUnavailable, &addr, None)),
                                push: None,
                                end: None,
                            }
                        }
                    },
                    None => Dispatch {
                        reply: Some(reply(MessageKind::GatewayResponse, MessageStatus::ServiceUnavailable, &addr, None)),
                        push: None,
                        end: None,
                    },
                }
            },
            MessageKind::SeedRequest => {
                self.sockets.upsert(id, ());
                Dispatch { reply: Some(reply(MessageKind::SeedResponse, MessageStatus::Success, &addr, None)), push: None, end: None }
            },
            _ => Dispatch {
                reply: Some(reply(MessageKind::GenericErrorResponse, MessageStatus::BadData, &addr, None)),
                push: None,
                end: Some(ServerError::InvalidMessage),
            },
        }
    }

    /// Handles one request from client `id`; where a gateway is asked for,
    /// the candidate is chosen at random.
    pub fn handle_request(&mut self, id: &ClientId, msg: &Message, auth: Option<&ClientConfig>, now: u64) -> (r: Dispatch)
        requires
            old(self).wf(),
        ensures
            final(self).wf(),
            final(self).key() == old(self).key(),
            final(self).ttl() == old(self).ttl(),
            final(self).addr() == old(self).addr(),
            exists|pick: int|
                (candidates(old(self)@.sessions, id@).len() > 0 ==> 0 <= pick < candidates(
                    old(self)@.sessions,
                    id@,
                ).len()) && (final(self)@, r@) == #[trigger] dispatch(
                old(self)@,
                old(self).key(),
                old(self).ttl(),
                old(self).addr(),
                id@,
                msg@.kind,
                credentials_of(auth),
                now,
                pick,
            ),
    {
        let mut pick: usize = 0;
        if *msg.kind() == MessageKind::GatewayRequest {
            let n = self.sessions.candidate_count(id);
            if n > 0 {
                pick = crate::session::random_below(n);
            }
        }
        let r = self.handle_request_with(id, msg, auth, now, pick);
        assert((final(self)@, r@) == dispatch(
            old(self)@,
            old(self).key(),
            old(self).ttl(),
            old(self).addr(),
            id@,
            msg@.kind,
            credentials_of(auth),
            now,
            pick as int,
        ));
        r
    }

    /// Records a STUN datagram. A Binding-Request from an IPv4 sender stores
    /// the sender's endpoint as the public endpoint of its host; other
    /// datagrams are ignored; a Binding-Request from a sender that is not
    /// IPv4 (`None`) is refused.
    pub fn handle_stun(&mut self, buf: &[u8], sender: Option<Address>) -> (r: Result<(), ServerError>)
        requires
            old(self).wf(),
        ensures
            final(self).wf(),
            final(self).key() == old(self).key(),
            final(self).ttl() == old(self).ttl(),
            final(self).addr() == old(self).addr(),
            final(self)@.sessions == old(self)@.sessions,
            final(self)@.sockets == old(self)@.sockets,
            !is_binding_request(buf@) ==> r == Ok::<(), ServerError>(()) && final(self)@.stun == old(self)@.stun,
            is_binding_request(buf@) ==> match sender {
                None => r == Err::<(), ServerError>(ServerError::UnsupportedIpAddrType) && final(self)@.stun == old(self)@.stun,
                Some(a) => r == Ok::<(), ServerError>(()) && final(self)@.stun == upsert(
                    old(self)@.stun,
                    ip_text(a),
                    StunInfo { kind: StunAddressKind::Public, addr: a },
                ),
            },
    {
        if buf.len() < 2 || buf[0] != 0 || buf[1] != 1 {
            return Ok(());
        }
        match sender {
            None => Err(ServerError::UnsupportedIpAddrType),
            Some(a) => {
                let id = ClientId::from_address(&a);
                self.stun.upsert(&id, StunInfo::new(StunAddressKind::Public, a));
                Ok(())
            },
        }
    }

    /// One pass of the idle monitor: drops the sessions idle at `now`.
    pub fn prune_idle(&mut self, now: u64)
        requires
            old(self).wf(),
        ensures
            final(self).wf(),
            final(self).key() == old(self).key(),
            final(self).ttl() == old(self).ttl(),
            final(self).addr() == old(self).addr(),
            final(self)@.sessions == crate::table::retained(old(self)@.sessions, |s: Session| !crate::session::is_expired(s, now)),
            final(self)@.stun == old(self)@.stun,
            final(self)@.sockets == old(self)@.sockets,
    {
        self.sessions.prune_idle(now);
    }

    /// Forgets the kept connection of client `id`, as when it disconnects.
    pub fn forget_socket(&mut self, id: &ClientId)
        requires
            old(self).wf(),
        ensures
            final(self).wf(),
            final(self).key() == old(self).key(),
            final(self).ttl() == old(self).ttl(),
            final(self).addr() == old(self).addr(),
            final(self)@.sessions == old(self)@.sessions,
            final(self)@.stun == old(self)@.stun,
            final(self)@.sockets == remove_key(old(self)@.sockets, id@),
    {
        self.sockets.remove(id);
    }

    /// The notice sent to every kept connection on shutdown.
    pub fn shutdown_message(&self) -> (r: Message)
        ensures
            r@ == server_message(MessageKind::ServerShutdown, MessageStatus::ServiceUnavailable, self.addr(), None),
    {
        reply(MessageKind::ServerShutdown, MessageStatus::ServiceUnavailable, &self.addr, None)
    }

    /// Starts a shutdown: hands back the clients whose connection was kept,
    /// in table order, so that each can be sent the shutdown notice, and
    /// empties the session table, the STUN cache and the connection set.
    pub fn stop(&mut self) -> (r: Vec<ClientId>)
        requires
            old(self).wf(),
        ensures
            final(self).wf(),
            final(self).key() == old(self).key(),
            final(self).ttl() == old(self).ttl(),
            final(self).addr() == old(self).addr(),
            r@.len() == old(self)@.sockets.len(),
            forall|i: int| 0 <= i < r@.len() ==> #[trigger] r@[i]@ == old(self)@.sockets[i].0,
            final(self)@.sessions == Seq::<(Seq<char>, Session)>::empty(),
            final(self)@.stun == Seq::<(Seq<char>, StunInfo)>::empty(),
            final(self)@.sockets == Seq::<(Seq<char>, ())>::empty(),
    {
        let r = self.sockets.keys();
        self.sockets.clear();
        self.sessions.clear();
        self.stun.clear();
        r
    }
}

/// Whether a datagram is a STUN Binding-Request: its first two bytes, in
/// network order, are the Binding-Request type.
pub open spec fn is_binding_request(b: Seq<u8>) -> bool {
    b.len() >= 2 && b[0] == 0 && b[1] == 1
}

/// A client without a session that asks for STUN information, a gateway or
/// to seed gets the matching response with status `Unauthorized`, its
/// connection ends, and nothing in the state changes.
pub proof fn lemma_auth_gate(
    st: RendezvousView,
    key: Seq<char>,
    ttl: u64,
    addr: Address,
    id: Seq<char>,
    kind: MessageKind,
    auth: Option<(Seq<char>, Address)>,
    now: u64,
    pick: int,
)
    requires
        requires_session(kind),
        !has_key(st.sessions, id),
    ensures
        ({
            let (next, out) = dispatch(st, key, ttl, addr, id, kind, auth, now, pick);
            &&& next == st
            &&& out.reply == Some(server_message(response_kind(kind), MessageStatus::Unauthorized, addr, None))
            &&& out.reply.unwrap().kind == match kind {
                MessageKind::StunInfoRequest => MessageKind::StunInfoResponse,
                MessageKind::GatewayRequest => MessageKind::GatewayResponse,
                _ => MessageKind::SeedResponse,
            }
            &&& out.push is None
            &&& out.end == Some(ServerError::Unauthenticated)
        }),
{
}

/// Seeding twice leaves the connection set as seeding once does: the client
/// holds exactly one entry in it.
pub proof fn lemma_idempotent_seed(
    st: RendezvousView,
    key: Seq<char>,
    ttl: u64,
    addr: Address,
    id: Seq<char>,
    auth: Option<(Seq<char>, Address)>,
    now: u64,
    pick: int,
)
    requires
        keys_unique(st.sockets),
    ensures
        ({
            let (once, _) = dispatch(st, key, ttl, addr, id, MessageKind::SeedRequest, auth, now, pick);
            let (twice, _) = dispatch(once, key, ttl, addr, id, MessageKind::SeedRequest, auth, now, pick);
            &&& twice.sockets == once.sockets
            &&& is_authenticated(st, id) ==> {
                &&& keys_unique(twice.sockets)
                &&& has_key(twice.sockets, id)
                &&& forall|i: int, j: int| 0 <= i < twice.sockets.len() && 0 <= j < twice.sockets.len()
                    && #[trigger] twice.sockets[i].0 == id && #[trigger] twice.sockets[j].0 == id ==> i == j
            }
        }),
{
    lemma_upsert(st.sockets, id, ());
    let s1 = upsert(st.sockets, id, ());
    lemma_upsert(s1, id, ());
    let i = crate::table::index_of(s1, id);
    assert(s1[i] == (id, ()));
    assert(upsert(s1, id, ()) =~= s1);
}

/// The client holds a session.
pub open spec fn is_authenticated(st: RendezvousView, id: Seq<char>) -> bool {
    has_key(st.sessions, id)
}

} // verus!
