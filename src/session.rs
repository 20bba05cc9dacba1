use vstd::prelude::*;
use rand::Rng;
use crate::address::{Address, ClientId, InterfaceKind};
use crate::auth::SharedKeyAuthentication;
use crate::client_config::{Config as ClientConfig, endpoint};
use crate::error::ServerError;
use crate::server_config::Config as ServerConfig;
use crate::table::{ClientTable, Entries, has_key, keys_unique, value_of, upsert, remove_key, retained};

verus! {

/// An authenticated peer's session: when it began (seconds since the
/// epoch), how long it lives, and the gateway endpoint the peer advertised.
#[derive(Clone, Copy, Debug, PartialEq, Eq, Structural)]
pub struct Session {
    pub time: u64,
    pub expiry: u64,
    pub gateway: Address,
}

/// Whether a session has outlived its time to live at time `now`. A clock
/// that runs behind the session's start counts as no time elapsed.
pub open spec fn is_expired(s: Session, now: u64) -> bool {
    now > s.time && now - s.time > s.expiry
}

/// The identities of the sessions other than `other`'s, in table order.
pub open spec fn candidates(s: Entries<Session>, other: Seq<char>) -> Seq<(Seq<char>, Session)> {
    s.filter(other_than(other))
}

/// Holds of the entries that do not belong to client `c`.
pub open spec fn other_than(c: Seq<char>) -> spec_fn((Seq<char>, Session)) -> bool {
    |e: (Seq<char>, Session)| e.0 != c
}

impl Session {
    pub fn new(now: u64, session_ttl: u64, config: &ClientConfig) -> (r: Session)
        ensures
            r == (Session {
                time: now,
                expiry: session_ttl,
                gateway: endpoint(config.network.gateway.ip, config.network.gateway.ports.tcp),
            }),
    {
        Session { time: now, expiry: session_ttl, gateway: config.gateway_remote_addr(InterfaceKind::Tcp) }
    }

    /// A session is idle once it has expired.
    pub fn is_idle(&self, now: u64) -> (r: bool)
        ensures
            r == is_expired(*self, now),
    {
        self.expired(now)
    }

    pub fn gateway_remote_addr(&self) -> (r: Address)
        ensures
            r == self.gateway,
    {
        self.gateway
    }

    pub fn expired(&self, now: u64) -> (r: bool)
        ensures
            r == is_expired(*self, now),
    {
        now > self.time && now - self.time > self.expiry
    }
}

/// Relies on rand's `Rng::gen_range` over `0..n`: a value below `n`.
#[verifier::external_body]
pub(crate) fn random_below(n: usize) -> (r: usize)
    requires
        n > 0,
    ensures
        r < n,
{
    rand::thread_rng().gen_range(0..n)
}

/// The table of authenticated sessions, keyed by client identity.
pub struct SessionManager {
    sessions: ClientTable<Session>,
    session_ttl: u64,
    auth: SharedKeyAuthentication,
}

impl View for SessionManager {
    type V = Entries<Session>;

    closed spec fn view(&self) -> Entries<Session> {
        self.sessions@
    }
}

impl SessionManager {
    pub closed spec fn wf(&self) -> bool {
        self.sessions.wf()
    }

    /// The key clients must present.
    pub closed spec fn key(&self) -> Seq<char> {
        self.auth.key()
    }

    /// How long new sessions live.
    pub closed spec fn ttl(&self) -> u64 {
        self.session_ttl
    }

    /// One session per client.
    pub proof fn lemma_wf(&self)
        requires
            self.wf(),
        ensures
            keys_unique(self@),
    {
    }

    pub fn new(config: &ServerConfig) -> (r: SessionManager)
        ensures
            r@ == Seq::<(Seq<char>, Session)>::empty(),
            r.wf(),
            r.key() == config.auth.shared_key@,
            r.ttl() == config.auth.session_ttl,
    {
        SessionManager {
            sessions: ClientTable::new(),
            session_ttl: config.session_ttl(),
            auth: SharedKeyAuthentication::new(config.shared_key()),
        }
    }

    /// Opens or renews `client_id`'s session where the client's shared key
    /// matches; otherwise leaves the table as it is.
    pub fn authenticate(&mut self, client_id: &ClientId, client_config: &ClientConfig, now: u64) -> (r: Result<(), ServerError>)
        requires
            old(self).wf(),
        ensures
            final(self).wf(),
            final(self).key() == old(self).key(),
            final(self).ttl() == old(self).ttl(),
            client_config.auth.shared_key@ == old(self).key() ==> r == Ok::<(), ServerError>(())
                && final(self)@ == upsert(old(self)@, client_id@, Session {
                    time: now,
                    expiry: old(self).ttl(),
                    gateway: endpoint(client_config.network.gateway.ip, client_config.network.gateway.ports.tcp),
                }),
            client_config.auth.shared_key@ != old(self).key() ==> r == Err::<(), ServerError>(ServerError::Unauthenticated)
                && final(self)@ == old(self)@,
    {
        if self.auth.authenticate(&client_config.auth.shared_key).is_err() {
            return Err(ServerError::Unauthenticated);
        }
        let s = Session::new(now, self.session_ttl, client_config);
        self.sessions.upsert(client_id, s);
        Ok(())
    }

    pub fn has_session(&self, client_id: &ClientId) -> (r: bool)
        requires
            self.wf(),
        ensures
            r == has_key(self@, client_id@),
    {
        self.sessions.contains(client_id)
    }

    pub fn get(&self, client_id: &ClientId) -> (r: Option<Session>)
        requires
            self.wf(),
        ensures
            r == value_of(self@, client_id@),
    {
        self.sessions.get(client_id)
    }

    /// The number of sessions that do not belong to `other`.
    pub fn candidate_count(&self, other: &ClientId) -> (r: usize)
        requires
            self.wf(),
        ensures
            r == candidates(self@, other@).len(),
    {
        let n = self.sessions.len();
        let mut count: usize = 0;
        let mut i: usize = 0;
        while i < n
            invariant
                0 <= i <= n,
                n == self@.len(),
                count == candidates(self@.subrange(0, i as int), other@).len(),
                count <= i,
            decreases n - i,
        {
            let (k, _) = self.sessions.entry(i);
            proof {
                let sub = self@.subrange(0, i + 1);
                assert(sub.drop_last() =~= self@.subrange(0, i as int));
                assert(sub =~= self@.subrange(0, i as int).push(self@[i as int]));
                self@.subrange(0, i as int).lemma_filter_push(self@[i as int], other_than(other@));
            }
            if !(*k == *other) {
                count = count + 1;
            }
            i = i + 1;
        }
        assert(self@.subrange(0, n as int) =~= self@);
        count
    }

    /// The candidate at position `pick`, counting only the sessions that do
    /// not belong to `other`: its client identity and its session.
    pub fn select_session(&self, other: &ClientId, pick: usize) -> (r: Option<(ClientId, Session)>)
        requires
            self.wf(),
        ensures
            ({
                let c = candidates(self@, other@);
                if pick < c.len() {
                    r matches Some((k, s)) && k@ == c[pick as int].0 && s == c[pick as int].1
                } else {
                    r is None
                }
            }),
    {
        let n = self.sessions.len();
        let mut count: usize = 0;
        let mut i: usize = 0;
        let ghost pred = other_than(other@);
        while i < n
            invariant
                0 <= i <= n,
                n == self@.len(),
                pred == other_than(other@),
                count == candidates(self@.subrange(0, i as int), other@).len(),
                count <= pick,
                count <= i,
            decreases n - i,
        {
            let (k, s) = self.sessions.entry(i);
            let ghost prefix = self@.subrange(0, i as int);
            proof {
                let sub = self@.subrange(0, i + 1);
                assert(sub =~= prefix.push(self@[i as int]));
                prefix.lemma_filter_push(self@[i as int], pred);
            }
            if !(*k == *other) {
                if count == pick {
                    proof {
                        let c = candidates(self@, other@);
                        let sub = self@.subrange(0, i + 1);
                        assert(candidates(sub, other@) == candidates(prefix, other@).push(self@[i as int]));
                        assert(self@ =~= sub + self@.subrange(i + 1, n as int));
                        lemma_filter_prefix(sub, self@.subrange(i + 1, n as int), pred);
                        assert(c[pick as int] == self@[i as int]);
                    }
                    return Some((k.clone(), s));
                }
                count = count + 1;
            }
            i = i + 1;
        }
        assert(self@.subrange(0, n as int) =~= self@);
        None
    }

    /// The gateway endpoint of the candidate at position `pick`, counting
    /// only the sessions that do not belong to `other`; `NoAvailablePeers`
    /// where there is no such session.
    pub fn select_peer(&self, other: &ClientId, pick: usize) -> (r: Result<Address, ServerError>)
        requires
            self.wf(),
        ensures
            ({
                let c = candidates(self@, other@);
                if pick < c.len() {
                    r == Ok::<Address, ServerError>(c[pick as int].1.gateway)
                } else {
                    r == Err::<Address, ServerError>(ServerError::NoAvailablePeers)
                }
            }),
    {
        match self.select_session(other, pick) {
            Some((_, s)) => Ok(s.gateway),
            None => Err(ServerError::NoAvailablePeers),
        }
    }

    /// The gateway endpoint of a session chosen at random among those that
    /// do not belong to `other`; `NoAvailablePeers` where there is none.
    pub fn get_peer_for_gateway(&self, other: &ClientId) -> (r: Result<Address, ServerError>)
        requires
            self.wf(),
        ensures
            candidates(self@, other@).len() == 0 <==> r == Err::<Address, ServerError>(ServerError::NoAvailablePeers),
            candidates(self@, other@).len() > 0 ==> r is Ok,
            r matches Ok(a) ==> exists|i: int| 0 <= i < candidates(self@, other@).len()
                && #[trigger] candidates(self@, other@)[i].1.gateway == a,
    {
        let n = self.candidate_count(other);
        if n == 0 {
            return Err(ServerError::NoAvailablePeers);
        }
        let pick = random_below(n);
        let r = self.select_peer(other, pick);
        assert(candidates(self@, other@)[pick as int].1.gateway == r.unwrap());
        r
    }

    pub fn remove(&mut self, client_id: &ClientId)
        requires
            old(self).wf(),
        ensures
            final(self).wf(),
            final(self)@ == remove_key(old(self)@, client_id@),
            final(self).key() == old(self).key(),
            final(self).ttl() == old(self).ttl(),
    {
        self.sessions.remove(client_id);
    }

    pub fn len(&self) -> (r: usize)
        ensures
            r == self@.len(),
    {
        self.sessions.len()
    }

    /// Drops the sessions that have expired at time `now`.
    pub fn cleanup(&mut self, now: u64)
        requires
            old(self).wf(),
        ensures
            final(self).wf(),
            final(self)@ == retained(old(self)@, |s: Session| !is_expired(s, now)),
            final(self).key() == old(self).key(),
            final(self).ttl() == old(self).ttl(),
    {
        let n = self.sessions.len();
        let mut keep: Vec<bool> = Vec::new();
        let mut i: usize = 0;
        while i < n
            invariant
                0 <= i <= n,
                n == self@.len(),
                keep@.len() == i,
                forall|j: int| 0 <= j < i ==> keep@[j] == !is_expired(#[trigger] self@[j].1, now),
            decreases n - i,
        {
            let (_, s) = self.sessions.entry(i);
            keep.push(!s.expired(now));
            i = i + 1;
        }
        self.sessions.retain_flagged(&keep, Ghost(|s: Session| !is_expired(s, now)));
    }

    /// One pass of the idle monitor: drops the sessions idle at `now`.
    pub fn prune_idle(&mut self, now: u64)
        requires
            old(self).wf(),
        ensures
            final(self).wf(),
            final(self)@ == retained(old(self)@, |s: Session| !is_expired(s, now)),
            final(self).key() == old(self).key(),
            final(self).ttl() == old(self).ttl(),
    {
        self.cleanup(now);
    }

    /// Drops every session, as on shutdown.
    pub fn clear(&mut self)
        ensures
            final(self).wf(),
            final(self)@ == Seq::<(Seq<char>, Session)>::empty(),
            final(self).key() == old(self).key(),
            final(self).ttl() == old(self).ttl(),
    {
        self.sessions.clear();
    }
}

proof fn lemma_filter_prefix<A>(a: Seq<A>, b: Seq<A>, pred: spec_fn(A) -> bool)
    ensures
        (a + b).filter(pred) == a.filter(pred) + b.filter(pred),
{
    Seq::filter_distributes_over_add(a, b, pred);
}

/// The gateway offered to a client is never its own: every candidate
/// session belongs to another client, and where the client holds the only
/// session there is no candidate at all.
pub proof fn lemma_peer_selection_excludes_requester(m: &SessionManager, c: Seq<char>)
    requires
        m.wf(),
    ensures
        forall|i: int| 0 <= i < candidates(m@, c).len() ==> (#[trigger] candidates(m@, c)[i]).0 != c,
        m@.len() == 1 && m@[0].0 == c ==> candidates(m@, c).len() == 0,
{
    let pred = other_than(c);
    assert forall|i: int| 0 <= i < candidates(m@, c).len() implies (#[trigger] candidates(m@, c)[i]).0 != c by {
        m@.lemma_filter_pred(pred, i);
    }
    if m@.len() == 1 && m@[0].0 == c {
        let e = Seq::<(Seq<char>, Session)>::empty();
        assert(m@ =~= e.push(m@[0]));
        e.lemma_filter_push(m@[0], pred);
        e.lemma_filter_len(pred);
    }
}

/// A session opened for a client is found until it is removed, and not
/// after.
pub proof fn lemma_session_lifecycle(s: Entries<Session>, c: Seq<char>, v: Session)
    requires
        keys_unique(s),
    ensures
        has_key(upsert(s, c, v), c),
        !has_key(remove_key(upsert(s, c, v), c), c),
{
    crate::table::lemma_upsert(s, c, v);
    crate::table::lemma_remove(upsert(s, c, v), c);
}

} // verus!
