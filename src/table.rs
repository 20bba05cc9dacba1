use vstd::prelude::*;
use crate::address::ClientId;

verus! {

/// The entries of a table: each client's identity text with its value.
pub type Entries<V> = Seq<(Seq<char>, V)>;

/// Whether some entry belongs to client `k`.
pub open spec fn has_key<V>(s: Entries<V>, k: Seq<char>) -> bool {
    exists|i: int| 0 <= i < s.len() && #[trigger] s[i].0 == k
}

/// No two entries belong to the same client.
pub open spec fn keys_unique<V>(s: Entries<V>) -> bool {
    forall|i: int, j: int| 0 <= i < s.len() && 0 <= j < s.len() && #[trigger] s[i].0 == #[trigger] s[j].0 ==> i == j
}

/// The position of client `k`'s entry.
pub open spec fn index_of<V>(s: Entries<V>, k: Seq<char>) -> int
    recommends
        has_key(s, k),
{
    choose|i: int| 0 <= i < s.len() && #[trigger] s[i].0 == k
}

/// The value held for client `k`.
pub open spec fn value_of<V>(s: Entries<V>, k: Seq<char>) -> Option<V> {
    if has_key(s, k) {
        Some(s[index_of(s, k)].1)
    } else {
        None
    }
}

/// The entries after client `k`'s value is set to `v`: replaced in place
/// where the client has an entry, appended where it has none.
pub open spec fn upsert<V>(s: Entries<V>, k: Seq<char>, v: V) -> Entries<V> {
    if has_key(s, k) {
        s.update(index_of(s, k), (k, v))
    } else {
        s.push((k, v))
    }
}

/// The entries after client `k`'s entry is taken out.
pub open spec fn remove_key<V>(s: Entries<V>, k: Seq<char>) -> Entries<V> {
    if has_key(s, k) {
        s.remove(index_of(s, k))
    } else {
        s
    }
}

/// The entries whose value meets `keep`, in their order.
pub open spec fn retained<V>(s: Entries<V>, keep: spec_fn(V) -> bool) -> Entries<V>
    decreases s.len(),
{
    if s.len() == 0 {
        s
    } else {
        let r = retained(s.drop_last(), keep);
        if keep(s.last().1) {
            r.push(s.last())
        } else {
            r
        }
    }
}

proof fn lemma_index_of_unique<V>(s: Entries<V>, k: Seq<char>, i: int)
    requires
        keys_unique(s),
        0 <= i < s.len(),
        s[i].0 == k,
    ensures
        has_key(s, k),
        index_of(s, k) == i,
{
    assert(has_key(s, k));
}

/// Setting a client's value keeps one entry per client, and the client is
/// then found with that value.
pub proof fn lemma_upsert<V>(s: Entries<V>, k: Seq<char>, v: V)
    requires
        keys_unique(s),
    ensures
        keys_unique(upsert(s, k, v)),
        value_of(upsert(s, k, v), k) == Some(v),
        forall|k2: Seq<char>| k2 != k ==> value_of(upsert(s, k, v), k2) == value_of(s, k2),
        upsert(s, k, v).len() == if has_key(s, k) { s.len() } else { s.len() + 1 },
{
    let t = upsert(s, k, v);
    if has_key(s, k) {
        let i = index_of(s, k);
        assert(keys_unique(t));
        lemma_index_of_unique(t, k, i);
        assert forall|k2: Seq<char>| k2 != k implies value_of(t, k2) == value_of(s, k2) by {
            if has_key(s, k2) {
                let j = index_of(s, k2);
                lemma_index_of_unique(t, k2, j);
            }
            if has_key(t, k2) {
                let j = index_of(t, k2);
                assert(s[j].0 == k2);
            }
        }
    } else {
        let i = s.len() as int;
        assert(keys_unique(t));
        lemma_index_of_unique(t, k, i);
        assert forall|k2: Seq<char>| k2 != k implies value_of(t, k2) == value_of(s, k2) by {
            if has_key(s, k2) {
                let j = index_of(s, k2);
                assert(t[j] == s[j]);
                lemma_index_of_unique(t, k2, j);
            }
            if has_key(t, k2) {
                let j = index_of(t, k2);
                assert(s[j].0 == k2);
            }
        }
    }
}

/// Taking a client's entry out keeps one entry per client, and the client
/// is then no longer found.
pub proof fn lemma_remove<V>(s: Entries<V>, k: Seq<char>)
    requires
        keys_unique(s),
    ensures
        keys_unique(remove_key(s, k)),
        !has_key(remove_key(s, k), k),
        forall|k2: Seq<char>| k2 != k ==> value_of(remove_key(s, k), k2) == value_of(s, k2),
        remove_key(s, k).len() == if has_key(s, k) { s.len() - 1 } else { s.len() as int },
{
    let t = remove_key(s, k);
    if has_key(s, k) {
        let i = index_of(s, k);
        assert forall|a: int, b: int| 0 <= a < t.len() && 0 <= b < t.len() && #[trigger] t[a].0 == #[trigger] t[b].0 implies a == b by {
            let a2 = if a < i { a } else { a + 1 };
            let b2 = if b < i { b } else { b + 1 };
            assert(t[a] == s[a2]);
            assert(t[b] == s[b2]);
        }
        if has_key(t, k) {
            let j = index_of(t, k);
            let j2 = if j < i { j } else { j + 1 };
            assert(t[j] == s[j2]);
        }
        assert forall|k2: Seq<char>| k2 != k implies value_of(t, k2) == value_of(s, k2) by {
            if has_key(s, k2) {
                let j = index_of(s, k2);
                let j1 = if j < i { j } else { j - 1 };
                assert(t[j1] == s[j]);
                lemma_index_of_unique(t, k2, j1);
            }
            if has_key(t, k2) {
                let j = index_of(t, k2);
                let j2 = if j < i { j } else { j + 1 };
                assert(t[j] == s[j2]);
            }
        }
    }
}

/// The retained entries are entries of the original, so one per client
/// still holds, and a client keeps its entry exactly when its value meets
/// the predicate.
pub proof fn lemma_retained<V>(s: Entries<V>, keep: spec_fn(V) -> bool)
    requires
        keys_unique(s),
    ensures
        keys_unique(retained(s, keep)),
        forall|i: int| 0 <= i < retained(s, keep).len() ==> s.contains(#[trigger] retained(s, keep)[i]),
        forall|i: int| 0 <= i < retained(s, keep).len() ==> keep(#[trigger] retained(s, keep)[i].1),
        forall|k: Seq<char>| #[trigger] value_of(retained(s, keep), k) == match value_of(s, k) {
            Some(v) => if keep(v) { Some(v) } else { None },
            None => None,
        },
    decreases s.len(),
{
    if s.len() > 0 {
        let p = s.drop_last();
        assert(keys_unique(p));
        lemma_retained(p, keep);
        let r = retained(p, keep);
        let t = retained(s, keep);
        let last = s.last();
        assert(forall|i: int| 0 <= i < p.len() ==> p[i] == s[i]);
        assert forall|i: int| 0 <= i < r.len() implies s.contains(#[trigger] r[i]) by {
            assert(p.contains(r[i]));
            let j = choose|j: int| 0 <= j < p.len() && p[j] == r[i];
            assert(s[j] == r[i]);
        }
        assert forall|i: int| 0 <= i < r.len() implies (#[trigger] r[i]).0 != last.0 by {
            assert(p.contains(r[i]));
            let j = choose|j: int| 0 <= j < p.len() && p[j] == r[i];
            assert(s[j] == r[i]);
            assert(s[s.len() - 1] == last);
        }
        if keep(last.1) {
            assert(keys_unique(t)) by {
                assert forall|a: int, b: int| 0 <= a < t.len() && 0 <= b < t.len() && #[trigger] t[a].0 == #[trigger] t[b].0 implies a == b by {
                    if a < r.len() && b < r.len() {
                    } else if a < r.len() {
                        assert(r[a].0 != last.0);
                    } else if b < r.len() {
                        assert(r[b].0 != last.0);
                    }
                }
            }
            assert forall|i: int| 0 <= i < t.len() implies s.contains(#[trigger] t[i]) by {
                if i < r.len() {
                    assert(s.contains(r[i]));
                } else {
                    assert(s[s.len() - 1] == t[i]);
                }
            }
        }
        assert forall|k: Seq<char>| #[trigger] value_of(t, k) == match value_of(s, k) {
            Some(v) => if keep(v) { Some(v) } else { None },
            None => None,
        } by {
            if k == last.0 {
                lemma_index_of_unique(s, k, s.len() - 1);
                assert(!has_key(r, k));
                assert(!has_key(p, k)) by {
                    if has_key(p, k) {
                        let j = index_of(p, k);
                        assert(s[j].0 == k);
                    }
                }
                if keep(last.1) {
                    lemma_index_of_unique(t, k, t.len() - 1);
                } else {
                    assert(t == r);
                }
            } else {
                assert(has_key(s, k) == has_key(p, k)) by {
                    if has_key(s, k) {
                        let j = index_of(s, k);
                        assert(p[j].0 == k);
                    }
                    if has_key(p, k) {
                        let j = index_of(p, k);
                        assert(s[j].0 == k);
                    }
                }
                if has_key(p, k) {
                    lemma_index_of_unique(s, k, index_of(p, k));
                }
                assert(value_of(r, k) == value_of(t, k)) by {
                    if has_key(r, k) {
                        let j = index_of(r, k);
                        assert(t[j] == r[j]);
                        assert(keys_unique(t));
                        lemma_index_of_unique(t, k, j);
                    }
                    if has_key(t, k) {
                        let j = index_of(t, k);
                        assert(j < r.len());
                        assert(r[j] == t[j]);
                    }
                }
            }
        }
    }
}

/// A table from client identity to a value, one entry per client.
pub struct ClientTable<V> {
    entries: Vec<(ClientId, V)>,
}

impl<V: Copy> View for ClientTable<V> {
    type V = Entries<V>;

    closed spec fn view(&self) -> Entries<V> {
        self.entries@.map_values(|e: (ClientId, V)| (e.0@, e.1))
    }
}

impl<V: Copy> ClientTable<V> {
    /// One entry per client.
    pub open spec fn wf(&self) -> bool {
        keys_unique(self@)
    }

    pub fn new() -> (r: ClientTable<V>)
        ensures
            r@ == Seq::<(Seq<char>, V)>::empty(),
            r.wf(),
    {
        let r = ClientTable { entries: Vec::new() };
        assert(r@ =~= Seq::<(Seq<char>, V)>::empty());
        r
    }

    pub fn len(&self) -> (r: usize)
        ensures
            r == self@.len(),
    {
        self.entries.len()
    }

    /// The position of client `k`'s entry, if it has one.
    fn find(&self, k: &ClientId) -> (r: Option<usize>)
        requires
            self.wf(),
        ensures
            match r {
                Some(i) => has_key(self@, k@) && i == index_of(self@, k@) && i < self@.len(),
                None => !has_key(self@, k@),
            },
    {
        let mut i: usize = 0;
        while i < self.entries.len()
            invariant
                0 <= i <= self.entries@.len(),
                self.wf(),
                self@.len() == self.entries@.len(),
                forall|j: int| 0 <= j < i ==> self@[j].0 != k@,
            decreases self.entries@.len() - i,
        {
            if self.entries[i].0 == *k {
                proof {
                    lemma_index_of_unique(self@, k@, i as int);
                }
                return Some(i);
            }
            i = i + 1;
        }
        proof {
            if has_key(self@, k@) {
                let j = index_of(self@, k@);
                assert(self@[j].0 == k@);
            }
        }
        None
    }

    pub fn contains(&self, k: &ClientId) -> (r: bool)
        requires
            self.wf(),
        ensures
            r == has_key(self@, k@),
    {
        self.find(k).is_some()
    }

    pub fn get(&self, k: &ClientId) -> (r: Option<V>)
        requires
            self.wf(),
        ensures
            r == value_of(self@, k@),
    {
        match self.find(k) {
            Some(i) => Some(self.entries[i].1),
            None => None,
        }
    }

    /// The entry at position `i`.
    pub fn entry(&self, i: usize) -> (r: (&ClientId, V))
        requires
            i < self@.len(),
        ensures
            r.0@ == self@[i as int].0,
            r.1 == self@[i as int].1,
    {
        (&self.entries[i].0, self.entries[i].1)
    }

    /// Sets client `k`'s value, in place where it has an entry.
    pub fn upsert(&mut self, k: &ClientId, v: V)
        requires
            old(self).wf(),
        ensures
            final(self)@ == upsert(old(self)@, k@, v),
            final(self).wf(),
    {
        proof {
            lemma_upsert(self@, k@, v);
        }
        match self.find(k) {
            Some(i) => {
                self.entries.set(i, (k.clone(), v));
            },
            None => {
                self.entries.push((k.clone(), v));
            },
        }
        assert(self@ =~= upsert(old(self)@, k@, v));
    }

    /// Takes client `k`'s entry out, if it has one.
    pub fn remove(&mut self, k: &ClientId)
        requires
            old(self).wf(),
        ensures
            final(self)@ == remove_key(old(self)@, k@),
            final(self).wf(),
    {
        proof {
            lemma_remove(self@, k@);
        }
        match self.find(k) {
            Some(i) => {
                self.entries.remove(i);
            },
            None => {},
        }
        assert(self@ =~= remove_key(old(self)@, k@));
    }

    pub fn clear(&mut self)
        ensures
            final(self)@ == Seq::<(Seq<char>, V)>::empty(),
            final(self).wf(),
    {
        self.entries.clear();
        assert(self@ =~= Seq::<(Seq<char>, V)>::empty());
    }

    /// The identities of all clients, in table order.
    pub fn keys(&self) -> (r: Vec<ClientId>)
        ensures
            r@.len() == self@.len(),
            forall|i: int| 0 <= i < r@.len() ==> #[trigger] r@[i]@ == self@[i].0,
    {
        let mut r: Vec<ClientId> = Vec::new();
        let mut i: usize = 0;
        while i < self.entries.len()
            invariant
                0 <= i <= self.entries@.len(),
                self@.len() == self.entries@.len(),
                r@.len() == i,
                forall|j: int| 0 <= j < i ==> #[trigger] r@[j]@ == self@[j].0,
            decreases self.entries@.len() - i,
        {
            r.push(self.entries[i].0.clone());
            i = i + 1;
        }
        r
    }

    /// Keeps the entries whose flag in `keep` is set, in their order.
    pub(crate) fn retain_flagged(&mut self, keep: &Vec<bool>, pred: Ghost<spec_fn(V) -> bool>)
        requires
            old(self).wf(),
            keep@.len() == old(self)@.len(),
            forall|i: int| 0 <= i < keep@.len() ==> keep@[i] == (pred@)(#[trigger] old(self)@[i].1),
        ensures
            final(self)@ == retained(old(self)@, pred@),
            final(self).wf(),
    {
        let ghost s = self@;
        let mut out: Vec<(ClientId, V)> = Vec::new();
        let mut i: usize = 0;
        let n = self.entries.len();
        while i < n
            invariant
                0 <= i <= n,
                n == self.entries@.len(),
                s == self@,
                keep@.len() == n,
                forall|j: int| 0 <= j < keep@.len() ==> keep@[j] == (pred@)(#[trigger] s[j].1),
                out@.map_values(|e: (ClientId, V)| (e.0@, e.1)) == retained(s.subrange(0, i as int), pred@),
            decreases n - i,
        {
            let ghost before = out@;
            if keep[i] {
                out.push((self.entries[i].0.clone(), self.entries[i].1));
            }
            proof {
                let sub = s.subrange(0, i + 1);
                assert(sub.drop_last() =~= s.subrange(0, i as int));
                assert(sub.last() == s[i as int]);
                assert(out@.map_values(|e: (ClientId, V)| (e.0@, e.1)) =~= retained(sub, pred@));
            }
            i = i + 1;
        }
        assert(s.subrange(0, n as int) =~= s);
        self.entries = out;
        proof {
            lemma_retained(s, pred@);
        }
    }
}

} // verus!
