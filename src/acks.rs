//! Resolution of acknowledgements against the two queues of unacknowledged
//! notifications.

use vstd::prelude::*;
use crate::protocol::{ClientAck, Notification};

verus! {

/// `i` is the first position in `q` whose notification `a` acknowledges.
pub open spec fn is_first_match(q: Seq<Notification>, a: ClientAck, i: int) -> bool {
    &&& 0 <= i < q.len()
    &&& q[i].answers(a)
    &&& forall|k: int| 0 <= k < i ==> !q[k].answers(a)
}

/// The first position in `q` whose notification `a` acknowledges, or -1.
pub open spec fn first_match(q: Seq<Notification>, a: ClientAck) -> int {
    if exists|i: int| is_first_match(q, a, i) {
        choose|i: int| is_first_match(q, a, i)
    } else {
        -1
    }
}

/// The two queues, the acknowledged stored notifications that carry a topic
/// (to be deleted in the data plane), and how many acknowledgements matched
/// in each queue.
pub struct AckOutcome {
    pub direct: Seq<Notification>,
    pub stored: Seq<Notification>,
    pub deletes: Seq<Notification>,
    pub direct_acked: nat,
    pub stored_acked: nat,
}

/// One acknowledgement: it removes the first matching direct notification;
/// failing that, the first matching stored one; failing that, nothing.
pub open spec fn ack_one(s: AckOutcome, a: ClientAck) -> AckOutcome {
    let i = first_match(s.direct, a);
    let j = first_match(s.stored, a);
    if i >= 0 {
        AckOutcome { direct: s.direct.remove(i), direct_acked: s.direct_acked + 1, ..s }
    } else if j >= 0 {
        AckOutcome {
            stored: s.stored.remove(j),
            stored_acked: s.stored_acked + 1,
            deletes: if s.stored[j].topic.is_some() { s.deletes.push(s.stored[j]) } else { s.deletes },
            ..s
        }
    } else {
        s
    }
}

/// The acknowledgements applied in order.
pub open spec fn ack_all(s: AckOutcome, u: Seq<ClientAck>) -> AckOutcome
    decreases u.len(),
{
    if u.len() == 0 {
        s
    } else {
        ack_one(ack_all(s, u.drop_last()), u.last())
    }
}

/// The outcome of acknowledging `u` against fresh queues `direct` and `stored`.
pub open spec fn acks_applied(direct: Seq<Notification>, stored: Seq<Notification>, u: Seq<ClientAck>) -> AckOutcome {
    ack_all(AckOutcome { direct, stored, deletes: seq![], direct_acked: 0, stored_acked: 0 }, u)
}

proof fn lemma_first_match_is(q: Seq<Notification>, a: ClientAck, i: int)
    requires
        is_first_match(q, a, i),
    ensures
        first_match(q, a) == i,
{
    let c = choose|c: int| is_first_match(q, a, c);
    assert(is_first_match(q, a, c));
    if c < i {
        assert(!q[c].answers(a));
    } else if i < c {
        assert(!q[i].answers(a));
    }
}

/// Finds the first notification in `q` that `a` acknowledges.
pub fn find_acked(q: &Vec<Notification>, a: &ClientAck) -> (r: Option<usize>)
    ensures
        r.is_some() ==> first_match(q@, *a) == r.unwrap() as int,
        r.is_none() ==> first_match(q@, *a) == -1,
        r.is_none() ==> forall|k: int| 0 <= k < q@.len() ==> !q@[k].answers(*a),
{
    let mut i: usize = 0;
    while i < q.len()
        invariant
            i <= q@.len(),
            forall|k: int| 0 <= k < i ==> !q@[k].answers(*a),
        decreases q@.len() - i,
    {
        if q[i].is_acked_by(a) {
            proof {
                lemma_first_match_is(q@, *a, i as int);
            }
            return Some(i);
        }
        i = i + 1;
    }
    proof {
        assert(!exists|c: int| is_first_match(q@, *a, c));
    }
    None
}

/// The two notifications share the key that acknowledgements refer to.
pub open spec fn same_key(n: Notification, m: Notification) -> bool {
    n.channel_id == m.channel_id && n.version@ == m.version@
}

/// No two notifications of `q` share a key.
pub open spec fn keys_unique(q: Seq<Notification>) -> bool {
    forall|i: int, j: int| 0 <= i < q.len() && 0 <= j < q.len() && i != j ==> !same_key(q[i], q[j])
}

/// Both queues together hold each key at most once.
pub open spec fn queues_unique(direct: Seq<Notification>, stored: Seq<Notification>) -> bool {
    &&& keys_unique(direct)
    &&& keys_unique(stored)
    &&& forall|i: int, j: int| 0 <= i < direct.len() && 0 <= j < stored.len() ==> !same_key(direct[i], stored[j])
}

proof fn lemma_remove_keeps_unique(q: Seq<Notification>, i: int)
    requires
        keys_unique(q),
        0 <= i < q.len(),
    ensures
        keys_unique(q.remove(i)),
        forall|k: int| 0 <= k < q.remove(i).len() ==> !same_key(q.remove(i)[k], q[i]),
        forall|k: int| 0 <= k < q.remove(i).len() ==> q.contains(#[trigger] q.remove(i)[k]),
{
    let r = q.remove(i);
    assert forall|k: int| 0 <= k < r.len() implies r[k] == q[if k < i { k } else { k + 1 }] by {}
    assert forall|a: int, b: int| 0 <= a < r.len() && 0 <= b < r.len() && a != b implies !same_key(r[a], r[b]) by {
        let qa = if a < i { a } else { a + 1 };
        let qb = if b < i { b } else { b + 1 };
        assert(r[a] == q[qa] && r[b] == q[qb]);
    }
    assert forall|k: int| 0 <= k < r.len() implies q.contains(#[trigger] r[k]) by {
        let qk = if k < i { k } else { k + 1 };
        assert(r[k] == q[qk]);
    }
}

proof fn lemma_ack_one_unique(s: AckOutcome, a: ClientAck)
    requires
        queues_unique(s.direct, s.stored),
    ensures
        queues_unique(ack_one(s, a).direct, ack_one(s, a).stored),
        forall|k: int| 0 <= k < ack_one(s, a).direct.len() ==> !ack_one(s, a).direct[k].answers(a),
        forall|k: int| 0 <= k < ack_one(s, a).stored.len() ==> !ack_one(s, a).stored[k].answers(a),
        forall|k: int| 0 <= k < ack_one(s, a).direct.len() ==> s.direct.contains(#[trigger] ack_one(s, a).direct[k]),
        forall|k: int| 0 <= k < ack_one(s, a).stored.len() ==> s.stored.contains(#[trigger] ack_one(s, a).stored[k]),
{
    let i = first_match(s.direct, a);
    let j = first_match(s.stored, a);
    let t = ack_one(s, a);
    if i >= 0 {
        assert(is_first_match(s.direct, a, i));
        lemma_remove_keeps_unique(s.direct, i);
        assert forall|k: int| 0 <= k < t.stored.len() implies !t.stored[k].answers(a) by {
            assert(!same_key(s.direct[i], s.stored[k]));
        }
        assert forall|x: int, y: int| 0 <= x < t.direct.len() && 0 <= y < t.stored.len() implies !same_key(t.direct[x], t.stored[y]) by {
            assert(s.direct.contains(t.direct[x]));
        }
    } else if j >= 0 {
        assert(is_first_match(s.stored, a, j));
        lemma_remove_keeps_unique(s.stored, j);
        assert forall|k: int| 0 <= k < t.direct.len() implies !t.direct[k].answers(a) by {
            if t.direct[k].answers(a) {
                lemma_some_match_first(s.direct, a, k);
            }
        }
        assert forall|x: int, y: int| 0 <= x < t.direct.len() && 0 <= y < t.stored.len() implies !same_key(t.direct[x], t.stored[y]) by {
            assert(s.stored.contains(t.stored[y]));
        }
    } else {
        assert forall|k: int| 0 <= k < t.direct.len() implies !t.direct[k].answers(a) by {
            if t.direct[k].answers(a) {
                assert(exists|c: int| is_first_match(s.direct, a, c)) by {
                    lemma_some_match_first(s.direct, a, k);
                }
            }
        }
        assert forall|k: int| 0 <= k < t.stored.len() implies !t.stored[k].answers(a) by {
            if t.stored[k].answers(a) {
                assert(exists|c: int| is_first_match(s.stored, a, c)) by {
                    lemma_some_match_first(s.stored, a, k);
                }
            }
        }
        assert forall|k: int| 0 <= k < t.direct.len() implies s.direct.contains(#[trigger] t.direct[k]) by {}
        assert forall|k: int| 0 <= k < t.stored.len() implies s.stored.contains(#[trigger] t.stored[k]) by {}
    }
}

/// Where some notification of `q` answers `a`, a first one does.
proof fn lemma_some_match_first(q: Seq<Notification>, a: ClientAck, k: int)
    requires
        0 <= k < q.len(),
        q[k].answers(a),
    ensures
        exists|c: int| is_first_match(q, a, c),
    decreases k,
{
    if exists|c: int| 0 <= c < k && q[c].answers(a) {
        let c = choose|c: int| 0 <= c < k && q[c].answers(a);
        lemma_some_match_first(q, a, c);
    } else {
        assert(is_first_match(q, a, k));
    }
}

/// Once a list of acknowledgements has been processed, no notification that
/// any of them acknowledges is left in either queue, provided no key was held
/// twice in the queues.
pub proof fn lemma_acked_leave_queues(direct: Seq<Notification>, stored: Seq<Notification>, u: Seq<ClientAck>)
    requires
        queues_unique(direct, stored),
    ensures
        ({
            let out = acks_applied(direct, stored, u);
            &&& forall|j: int, k: int| 0 <= j < u.len() && 0 <= k < out.direct.len() ==> !out.direct[k].answers(u[j])
            &&& forall|j: int, k: int| 0 <= j < u.len() && 0 <= k < out.stored.len() ==> !out.stored[k].answers(u[j])
        }),
{
    lemma_ack_all_clears(
        AckOutcome { direct, stored, deletes: seq![], direct_acked: 0, stored_acked: 0 },
        u,
    );
}

proof fn lemma_ack_all_clears(s: AckOutcome, u: Seq<ClientAck>)
    requires
        queues_unique(s.direct, s.stored),
    ensures
        queues_unique(ack_all(s, u).direct, ack_all(s, u).stored),
        forall|j: int, k: int| 0 <= j < u.len() && 0 <= k < ack_all(s, u).direct.len() ==> !ack_all(s, u).direct[k].answers(u[j]),
        forall|j: int, k: int| 0 <= j < u.len() && 0 <= k < ack_all(s, u).stored.len() ==> !ack_all(s, u).stored[k].answers(u[j]),
    decreases u.len(),
{
    if u.len() > 0 {
        let p = ack_all(s, u.drop_last());
        lemma_ack_all_clears(s, u.drop_last());
        lemma_ack_one_unique(p, u.last());
        let t = ack_all(s, u);
        assert forall|j: int, k: int| 0 <= j < u.len() && 0 <= k < t.direct.len() implies !t.direct[k].answers(u[j]) by {
            if j < u.len() - 1 {
                assert(p.direct.contains(t.direct[k]));
                assert(u.drop_last()[j] == u[j]);
            }
        }
        assert forall|j: int, k: int| 0 <= j < u.len() && 0 <= k < t.stored.len() implies !t.stored[k].answers(u[j]) by {
            if j < u.len() - 1 {
                assert(p.stored.contains(t.stored[k]));
                assert(u.drop_last()[j] == u[j]);
            }
        }
    }
}

/// A notification that none of the acknowledgements answers stays in its
/// queue: acknowledgements never discard anything else.
pub proof fn lemma_unacked_stay(direct: Seq<Notification>, stored: Seq<Notification>, u: Seq<ClientAck>, n: Notification)
    requires
        forall|j: int| 0 <= j < u.len() ==> !n.answers(#[trigger] u[j]),
    ensures
        direct.contains(n) ==> acks_applied(direct, stored, u).direct.contains(n),
        stored.contains(n) ==> acks_applied(direct, stored, u).stored.contains(n),
{
    lemma_ack_all_keeps(
        AckOutcome { direct, stored, deletes: seq![], direct_acked: 0, stored_acked: 0 },
        u,
        n,
    );
}

proof fn lemma_remove_keeps_other(q: Seq<Notification>, i: int, n: Notification)
    requires
        0 <= i < q.len(),
        q.contains(n),
        q[i] != n,
    ensures
        q.remove(i).contains(n),
{
    let k = choose|k: int| 0 <= k < q.len() && q[k] == n;
    if k < i {
        assert(q.remove(i)[k] == n);
    } else {
        assert(q.remove(i)[k - 1] == n);
    }
}

proof fn lemma_ack_all_keeps(s: AckOutcome, u: Seq<ClientAck>, n: Notification)
    requires
        forall|j: int| 0 <= j < u.len() ==> !n.answers(#[trigger] u[j]),
    ensures
        s.direct.contains(n) ==> ack_all(s, u).direct.contains(n),
        s.stored.contains(n) ==> ack_all(s, u).stored.contains(n),
    decreases u.len(),
{
    if u.len() > 0 {
        let a = u.last();
        assert(!n.answers(u[u.len() - 1]));
        assert forall|j: int| 0 <= j < u.drop_last().len() implies !n.answers(#[trigger] u.drop_last()[j]) by {
            assert(u.drop_last()[j] == u[j]);
        }
        lemma_ack_all_keeps(s, u.drop_last(), n);
        let p = ack_all(s, u.drop_last());
        let i = first_match(p.direct, a);
        let j = first_match(p.stored, a);
        if i >= 0 {
            assert(is_first_match(p.direct, a, i)) by {
                let c = choose|c: int| is_first_match(p.direct, a, c);
            }
            if p.direct.contains(n) {
                lemma_remove_keeps_other(p.direct, i, n);
            }
        } else if j >= 0 {
            assert(is_first_match(p.stored, a, j)) by {
                let c = choose|c: int| is_first_match(p.stored, a, c);
            }
            if p.stored.contains(n) {
                lemma_remove_keeps_other(p.stored, j, n);
            }
        }
    }
}

} // verus!
