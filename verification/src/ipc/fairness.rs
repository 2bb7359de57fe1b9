//! Per-principal connection fairness.
//!
//! The global connection limit bounds resource use but is blind to who holds
//! the connections. Here every principal has a cap of its own, so that no
//! single one can hold the whole budget.

use super::client_auth::{principal_of, ClientIdentity, Principal, PrincipalKey};
use vstd::prelude::*;

verus! {

/// Max concurrent connections per resolved principal.
pub const MAX_CONNECTIONS_PER_PRINCIPAL: usize = 8;

/// Max concurrent connections sharing the unidentified bucket.
pub const MAX_CONNECTIONS_UNIDENTIFIED: usize = 16;

/// Max concurrent connections over all principals.
pub const MAX_CONCURRENT_CONNECTIONS: usize = 64;

/// The most connections that one principal may hold.
pub open spec fn cap(p: Principal) -> nat {
    match p {
        Principal::Sid(_) => MAX_CONNECTIONS_PER_PRINCIPAL as nat,
        Principal::Unidentified => MAX_CONNECTIONS_UNIDENTIFIED as nat,
    }
}

impl PrincipalKey {
    pub fn cap(&self) -> (limit: usize)
        ensures
            limit == cap(self@),
    {
        match self {
            PrincipalKey::Sid(_) => MAX_CONNECTIONS_PER_PRINCIPAL,
            PrincipalKey::Unidentified => MAX_CONNECTIONS_UNIDENTIFIED,
        }
    }
}

/// Connections held by one principal.
#[derive(Debug)]
struct Holding {
    key: PrincipalKey,
    held: usize,
}

/// Per-principal concurrent-connection accounting.
#[derive(Debug)]
pub struct PrincipalQuota {
    counts: Vec<Holding>,
}

/// A slot taken from a [`PrincipalQuota`]; handing it back to `release` frees
/// the slot.
#[derive(Debug)]
pub struct PrincipalPermit {
    key: PrincipalKey,
}

impl PrincipalPermit {
    /// The principal that the slot is accounted against.
    pub closed spec fn principal(&self) -> Principal {
        self.key@
    }
}

spec fn listed(s: Seq<Holding>, p: Principal) -> bool {
    exists|i: int| 0 <= i < s.len() && (#[trigger] s[i]).key@ == p
}

spec fn position(s: Seq<Holding>, p: Principal) -> int {
    choose|i: int| 0 <= i < s.len() && (#[trigger] s[i]).key@ == p
}

impl View for PrincipalQuota {
    type V = Map<Principal, nat>;

    /// Connections held, for each principal that holds any.
    closed spec fn view(&self) -> Map<Principal, nat> {
        let s = self.counts@;
        Map::new(|p: Principal| listed(s, p), |p: Principal| s[position(s, p)].held as nat)
    }
}

/// Connections that `p` holds.
pub open spec fn held_by(counts: Map<Principal, nat>, p: Principal) -> nat {
    if counts.contains_key(p) {
        counts[p]
    } else {
        0
    }
}

/// Whether `p` may open another connection.
pub open spec fn admits(counts: Map<Principal, nat>, p: Principal) -> bool {
    held_by(counts, p) < cap(p)
}

/// The accounting after `p` took a slot.
pub open spec fn acquired(counts: Map<Principal, nat>, p: Principal) -> Map<Principal, nat> {
    counts.insert(p, held_by(counts, p) + 1)
}

/// The accounting after `p` gave a slot back: an entry at zero is removed.
pub open spec fn released(counts: Map<Principal, nat>, p: Principal) -> Map<Principal, nat> {
    if held_by(counts, p) <= 1 {
        counts.remove(p)
    } else {
        counts.insert(p, (counts[p] - 1) as nat)
    }
}

/// No principal is above its cap and nobody is tracked without a connection.
pub open spec fn fair(counts: Map<Principal, nat>) -> bool {
    forall|p: Principal| #[trigger]
        counts.contains_key(p) ==> 1 <= counts[p] <= cap(p)
}

spec fn distinct(s: Seq<Holding>) -> bool {
    forall|i: int, j: int|
        0 <= i < s.len() && 0 <= j < s.len() && (#[trigger] s[i]).key@ == (
        #[trigger] s[j]).key@ ==> i == j
}

impl PrincipalQuota {
    /// One entry for each principal.
    pub closed spec fn consistent(&self) -> bool {
        distinct(self.counts@)
    }

    pub open spec fn wf(&self) -> bool {
        self.consistent() && fair(self@)
    }

    proof fn lemma_entry(&self, i: int)
        requires
            self.consistent(),
            0 <= i < self.counts@.len(),
        ensures
            self@.contains_key(self.counts@[i].key@),
            self@[self.counts@[i].key@] == self.counts@[i].held,
    {
        let s = self.counts@;
        let p = s[i].key@;
        assert(listed(s, p));
        assert(s[position(s, p)].key@ == p);
    }

    proof fn lemma_listed(&self, p: Principal)
        requires
            self.consistent(),
            self@.contains_key(p),
        ensures
            0 <= position(self.counts@, p) < self.counts@.len(),
            self.counts@[position(self.counts@, p)].key@ == p,
    {
        assert(listed(self.counts@, p));
    }

    pub fn new() -> (quota: PrincipalQuota)
        ensures
            quota.wf(),
            quota@ == Map::<Principal, nat>::empty(),
    {
        let quota = PrincipalQuota { counts: Vec::new() };
        assert(quota@ =~= Map::<Principal, nat>::empty());
        quota
    }

    fn find(&self, key: &PrincipalKey) -> (found: Option<usize>)
        requires
            self.consistent(),
        ensures
            match found {
                Some(i) => i < self.counts@.len() && self.counts@[i as int].key@ == key@,
                None => !self@.contains_key(key@),
            },
    {
        let mut i: usize = 0;
        while i < self.counts.len()
            invariant
                i <= self.counts@.len(),
                forall|j: int| 0 <= j < i ==> (#[trigger] self.counts@[j]).key@ != key@,
            decreases self.counts@.len() - i,
        {
            if self.counts[i].key.same(key) {
                return Some(i);
            }
            i = i + 1;
        }
        assert(!listed(self.counts@, key@));
        None
    }

    /// Try to take one slot for `id`; `None` stands for an unresolved identity.
    /// Without a slot the caller sheds the connection.
    pub fn try_acquire(&mut self, id: Option<&ClientIdentity>) -> (permit: Option<PrincipalPermit>)
        requires
            old(self).wf(),
        ensures
            final(self).wf(),
            permit is Some <==> admits(old(self)@, principal_of(id)),
            match permit {
                Some(p) => p.principal() == principal_of(id) && final(self)@ == acquired(
                    old(self)@,
                    principal_of(id),
                ),
                None => final(self)@ == old(self)@,
            },
    {
        let key = PrincipalKey::from_identity(id);
        let limit: usize = key.cap();
        let ghost before = *self;
        let ghost p = principal_of(id);
        match self.find(&key) {
            Some(i) => {
                proof {
                    before.lemma_entry(i as int);
                }
                let held: usize = self.counts[i].held;
                if held >= limit {
                    return None;
                }
                let entry = Holding { key: key.duplicate(), held: held + 1 };
                self.counts.set(i, entry);
                proof {
                    let s = before.counts@;
                    let t = self.counts@;
                    assert forall|q: Principal| listed(s, q) == listed(t, q) by {
                        if listed(s, q) {
                            assert(t[position(s, q)].key@ == q);
                        }
                        if listed(t, q) {
                            assert(s[position(t, q)].key@ == q);
                        }
                    }
                    assert(distinct(t)) by {
                        assert forall|a: int, b: int|
                            0 <= a < t.len() && 0 <= b < t.len() && (#[trigger] t[a]).key@ == (
                            #[trigger] t[b]).key@ implies a == b by {
                            assert(s[a].key@ == t[a].key@ && s[b].key@ == t[b].key@);
                        }
                    }
                    assert forall|q: Principal| listed(t, q) implies #[trigger] self@[q]
                        == acquired(before@, p)[q] by {
                        self.lemma_entry(position(t, q));
                        before.lemma_entry(position(t, q));
                    }
                    assert(self@ =~= acquired(before@, p));
                    assert(fair(self@));
                }
            },
            None => {
                let entry = Holding { key: key.duplicate(), held: 1 };
                self.counts.push(entry);
                proof {
                    let s = before.counts@;
                    let t = self.counts@;
                    assert(t.len() == s.len() + 1);
                    assert forall|a: int| 0 <= a < s.len() implies (#[trigger] t[a]).key@ != p by {
                        before.lemma_entry(a);
                    }
                    assert(t[s.len() as int].key@ == p);
                    assert forall|q: Principal| listed(t, q) == (listed(s, q) || q == p) by {
                        if listed(s, q) {
                            assert(t[position(s, q)].key@ == q);
                        }
                        if q == p {
                            assert(t[s.len() as int].key@ == q);
                        }
                        if listed(t, q) && q != p {
                            assert(s[position(t, q)].key@ == q);
                        }
                    }
                    assert forall|q: Principal| listed(t, q) implies #[trigger] self@[q]
                        == acquired(before@, p)[q] by {
                        self.lemma_entry(position(t, q));
                        if q != p {
                            before.lemma_entry(position(t, q));
                        }
                    }
                    assert(self@ =~= acquired(before@, p));
                    assert(fair(self@));
                }
            },
        }
        Some(PrincipalPermit { key })
    }

    /// Give a slot back. The entry is removed at zero, so only principals that
    /// hold a connection are kept.
    pub fn release(&mut self, permit: PrincipalPermit)
        requires
            old(self).wf(),
        ensures
            final(self).wf(),
            final(self)@ == released(old(self)@, permit.principal()),
    {
        let ghost before = *self;
        let ghost p = permit.principal();
        match self.find(&permit.key) {
            Some(i) => {
                proof {
                    before.lemma_entry(i as int);
                }
                let held: usize = self.counts[i].held;
                if held == 1 {
                    self.counts.remove(i);
                    proof {
                        let s = before.counts@;
                        let t = self.counts@;
                        assert(t == s.remove(i as int));
                        assert forall|a: int| 0 <= a < t.len() implies #[trigger] t[a] == s[if a
                            < i {
                            a
                        } else {
                            a + 1
                        }] by {}
                        assert forall|q: Principal| listed(t, q) == (listed(s, q) && q != p) by {
                            if listed(t, q) {
                                let a = position(t, q);
                                assert(s[if a < i {
                                    a
                                } else {
                                    a + 1
                                }].key@ == q);
                            }
                            if listed(s, q) && q != p {
                                let a = position(s, q);
                                assert(t[if a < i {
                                    a
                                } else {
                                    a - 1
                                }].key@ == q);
                            }
                        }
                        assert forall|q: Principal| listed(t, q) implies #[trigger] self@[q]
                            == before@[q] by {
                            let a = position(t, q);
                            self.lemma_entry(a);
                            before.lemma_entry(if a < i {
                                a
                            } else {
                                a + 1
                            });
                        }
                        assert(self@ =~= released(before@, p));
                        assert(fair(self@));
                    }
                } else {
                    let entry = Holding { key: permit.key, held: held - 1 };
                    self.counts.set(i, entry);
                    proof {
                        let s = before.counts@;
                        let t = self.counts@;
                        assert forall|a: int| 0 <= a < t.len() implies (#[trigger] t[a]).key@
                            == s[a].key@ by {}
                        assert forall|q: Principal| listed(s, q) == listed(t, q) by {
                            if listed(s, q) {
                                assert(t[position(s, q)].key@ == q);
                            }
                            if listed(t, q) {
                                assert(s[position(t, q)].key@ == q);
                            }
                        }
                        assert forall|q: Principal| listed(t, q) implies #[trigger] self@[q]
                            == released(before@, p)[q] by {
                            self.lemma_entry(position(t, q));
                            before.lemma_entry(position(t, q));
                        }
                        assert(self@ =~= released(before@, p));
                        assert(fair(self@));
                    }
                }
            },
            None => {
                assert(self@ =~= released(before@, p));
            },
        }
    }

    /// Connections that the principal of `id` holds.
    pub fn held(&self, id: Option<&ClientIdentity>) -> (n: usize)
        requires
            self.wf(),
        ensures
            n == held_by(self@, principal_of(id)),
    {
        let key = PrincipalKey::from_identity(id);
        match self.find(&key) {
            Some(i) => {
                proof {
                    self.lemma_entry(i as int);
                }
                self.counts[i].held
            },
            None => 0,
        }
    }

    /// Number of principals that hold a connection.
    pub fn distinct_principals(&self) -> (n: usize)
        requires
            self.wf(),
        ensures
            self@.dom().finite(),
            n == self@.dom().len(),
    {
        proof {
            let keys = Seq::new(self.counts@.len(), |i: int| self.counts@[i].key@);
            assert(keys.no_duplicates());
            keys.unique_seq_to_set();
            assert forall|p: Principal| keys.to_set().contains(p) == self@.dom().contains(p) by {
                if keys.to_set().contains(p) {
                    let i = choose|i: int| 0 <= i < keys.len() && keys[i] == p;
                    self.lemma_entry(i);
                }
                if self@.dom().contains(p) {
                    self.lemma_listed(p);
                    assert(keys[position(self.counts@, p)] == p);
                }
            }
            assert(keys.to_set() =~= self@.dom());
        }
        self.counts.len()
    }
}

/// A principal at its cap gets nothing more.
pub proof fn capped_principal_is_shed(counts: Map<Principal, nat>, p: Principal)
    requires
        held_by(counts, p) >= cap(p),
    ensures
        !admits(counts, p),
{
}

/// Taking a slot is possible only below the cap, so the cap is never passed.
pub proof fn cap_is_kept(counts: Map<Principal, nat>, p: Principal)
    requires
        fair(counts),
        admits(counts, p),
    ensures
        fair(acquired(counts, p)),
        held_by(acquired(counts, p), p) == held_by(counts, p) + 1,
{
}

/// What one principal takes or gives back changes nothing for any other.
pub proof fn principals_are_independent(
    counts: Map<Principal, nat>,
    p: Principal,
    other: Principal,
)
    requires
        p != other,
    ensures
        held_by(acquired(counts, p), other) == held_by(counts, other),
        held_by(released(counts, p), other) == held_by(counts, other),
        admits(acquired(counts, p), other) == admits(counts, other),
        admits(released(counts, p), other) == admits(counts, other),
{
}

/// Giving a slot back undoes taking it.
pub proof fn release_undoes_acquire(counts: Map<Principal, nat>, p: Principal)
    requires
        fair(counts),
        admits(counts, p),
    ensures
        released(acquired(counts, p), p) == counts,
{
    assert(released(acquired(counts, p), p) =~= counts);
}

/// A principal that gave back its last slot is no longer kept.
pub proof fn entry_removed_at_zero(counts: Map<Principal, nat>, p: Principal)
    requires
        held_by(counts, p) <= 1,
    ensures
        !released(counts, p).contains_key(p),
{
}

/// Two principals at their cap and a full unidentified bucket together fit the
/// global limit.
pub proof fn caps_fit_global_limit()
    ensures
        2 * MAX_CONNECTIONS_PER_PRINCIPAL + MAX_CONNECTIONS_UNIDENTIFIED
            <= MAX_CONCURRENT_CONNECTIONS,
{
}

/// A known principal may hold eight connections, all unresolved callers together
/// sixteen.
pub proof fn caps_of_the_principals(counts: Map<Principal, nat>, sid: Seq<char>)
    ensures
        admits(counts, Principal::Sid(sid)) <==> held_by(counts, Principal::Sid(sid)) < 8,
        admits(counts, Principal::Unidentified) <==> held_by(counts, Principal::Unidentified) < 16,
{
}

/// A principal gives back one slot at a time.
pub proof fn release_gives_back_one(counts: Map<Principal, nat>, p: Principal)
    ensures
        held_by(counts, p) > 0 ==> held_by(released(counts, p), p) == held_by(counts, p) - 1,
        held_by(counts, p) == 0 ==> held_by(released(counts, p), p) == 0,
{
}

} // verus!
