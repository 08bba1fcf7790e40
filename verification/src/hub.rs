//! The broadcast hub's fan-out bookkeeping: a set of subscriptions and a
//! publish operation.
//!
//! The hub is modelled as a counter of published signals and, per
//! subscription, a cursor into that count. A subscription starts at the
//! current count, so it never sees history; polling moves its cursor forward
//! one signal at a time; dropping it removes it for good, since identifiers
//! are never reused. The step relation `hub_step` restates each operation's
//! contract, and the lemmas at the end prove the delivery guarantees over
//! whole runs of operations.

use std::collections::HashMap;
use vstd::prelude::*;

verus! {

broadcast use vstd::std_specs::hash::group_hash_axioms;

/// The hub's abstract state: how many signals were published, the next fresh
/// subscription identifier, and each live subscription's cursor — the index
/// of the next signal it will observe.
pub struct HubView {
    pub published: u64,
    pub next_id: u64,
    pub cursors: Map<u64, u64>,
}

/// A well-formed hub: every cursor points at most one past the published
/// signals, and every live identifier was handed out before.
pub open spec fn hub_wf(v: HubView) -> bool {
    forall|id: u64|
        #[trigger] v.cursors.dom().contains(id) ==> v.cursors[id] <= v.published && id
            < v.next_id
}

/// What one hub operation was, for stating properties over runs.
pub enum HubOp {
    /// A fresh subscription `id` was handed out.
    Subscribe { id: u64 },
    /// One signal was published to all current subscriptions.
    Publish,
    /// Subscription `id` observed signal number `index`.
    Deliver { id: u64, index: u64 },
    /// Subscription `id` polled while fully caught up.
    PollEmpty { id: u64 },
    /// An unknown or dropped subscription polled.
    PollClosed { id: u64 },
    /// Subscription `id` was dropped.
    Unsubscribe { id: u64 },
}

/// How one operation relates a hub state to the next.
pub open spec fn hub_step(pre: HubView, post: HubView, op: HubOp) -> bool {
    match op {
        HubOp::Subscribe { id } => {
            &&& id == pre.next_id
            &&& pre.next_id < u64::MAX
            &&& !pre.cursors.dom().contains(id)
            &&& post.published == pre.published
            &&& post.next_id == pre.next_id + 1
            &&& post.cursors == pre.cursors.insert(id, pre.published)
        },
        HubOp::Publish => {
            &&& pre.published < u64::MAX
            &&& post.published == pre.published + 1
            &&& post.next_id == pre.next_id
            &&& post.cursors == pre.cursors
        },
        HubOp::Deliver { id, index } => {
            &&& pre.cursors.dom().contains(id)
            &&& index == pre.cursors[id]
            &&& index < pre.published
            &&& post.published == pre.published
            &&& post.next_id == pre.next_id
            &&& post.cursors == pre.cursors.insert(id, (index + 1) as u64)
        },
        HubOp::PollEmpty { id } => {
            &&& pre.cursors.dom().contains(id)
            &&& pre.cursors[id] == pre.published
            &&& post.published == pre.published
            &&& post.next_id == pre.next_id
            &&& post.cursors == pre.cursors
        },
        HubOp::PollClosed { id } => {
            &&& !pre.cursors.dom().contains(id)
            &&& post.published == pre.published
            &&& post.next_id == pre.next_id
            &&& post.cursors == pre.cursors
        },
        HubOp::Unsubscribe { id } => {
            &&& post.published == pre.published
            &&& post.next_id == pre.next_id
            &&& post.cursors == pre.cursors.remove(id)
        },
    }
}

/// What polling a subscription yields.
pub enum Poll {
    /// A change signal: the client is to be told to reload.
    Signal,
    /// Nothing pending.
    Empty,
    /// The subscription does not exist (never did, or was dropped).
    Closed,
}

/// The hub's concrete bookkeeping.
pub struct Hub {
    published: u64,
    next_id: u64,
    subs: HashMap<u64, u64>,
}

impl View for Hub {
    type V = HubView;

    closed spec fn view(&self) -> HubView {
        HubView { published: self.published, next_id: self.next_id, cursors: self.subs@ }
    }
}

impl Hub {
    /// A fresh hub: nothing published, no subscriptions.
    pub fn new() -> (h: Hub)
        ensures
            h@.published == 0,
            h@.next_id == 0,
            h@.cursors == Map::<u64, u64>::empty(),
            hub_wf(h@),
    {
        Hub { published: 0, next_id: 0, subs: HashMap::new() }
    }

    /// Opens a fresh subscription and returns its identifier. The new cursor
    /// stands at the current published count: nothing published before this
    /// call is ever observed through it.
    pub fn subscribe(&mut self) -> (id: u64)
        requires
            hub_wf(old(self)@),
            old(self)@.next_id < u64::MAX,
        ensures
            hub_wf(final(self)@),
            hub_step(old(self)@, final(self)@, HubOp::Subscribe { id }),
            id == old(self)@.next_id,
            final(self)@.cursors == old(self)@.cursors.insert(id, old(self)@.published),
            final(self)@.published == old(self)@.published,
    {
        let id = self.next_id;
        self.next_id = self.next_id + 1;
        self.subs.insert(id, self.published);
        proof {
            assert(!old(self)@.cursors.dom().contains(id));
        }
        id
    }

    /// Publishes one change signal to every current subscription and returns
    /// how many there are. With none, this does nothing and returns zero —
    /// never an error.
    pub fn publish(&mut self) -> (delivered: usize)
        requires
            hub_wf(old(self)@),
            old(self)@.published < u64::MAX,
        ensures
            hub_wf(final(self)@),
            hub_step(old(self)@, final(self)@, HubOp::Publish),
            final(self)@.published == old(self)@.published + 1,
            final(self)@.cursors == old(self)@.cursors,
            delivered == old(self)@.cursors.dom().len(),
    {
        self.published = self.published + 1;
        let n = self.subs.len();
        proof {
            assert forall|id: u64| self@.cursors.dom().contains(id) implies self@.cursors[id]
                <= self@.published && id < self@.next_id by {
                assert(old(self)@.cursors.dom().contains(id));
            }
        }
        n
    }

    /// Polls subscription `id`: a signal when one is pending, nothing when it
    /// is caught up, closed when no such subscription is live.
    pub fn poll(&mut self, id: u64) -> (r: Poll)
        requires
            hub_wf(old(self)@),
        ensures
            hub_wf(final(self)@),
            match r {
                Poll::Signal => hub_step(
                    old(self)@,
                    final(self)@,
                    HubOp::Deliver { id, index: old(self)@.cursors[id] },
                ),
                Poll::Empty => hub_step(old(self)@, final(self)@, HubOp::PollEmpty { id }),
                Poll::Closed => hub_step(old(self)@, final(self)@, HubOp::PollClosed { id }),
            },
    {
        let cursor = match self.subs.get(&id) {
            Some(c) => *c,
            None => {
                return Poll::Closed;
            },
        };
        if cursor < self.published {
            self.subs.insert(id, cursor + 1);
            Poll::Signal
        } else {
            Poll::Empty
        }
    }

    /// Drops subscription `id`: later publishes no longer deliver to it. Used
    /// when a connection's send fails or the client goes away.
    pub fn unsubscribe(&mut self, id: u64)
        requires
            hub_wf(old(self)@),
        ensures
            hub_wf(final(self)@),
            hub_step(old(self)@, final(self)@, HubOp::Unsubscribe { id }),
            final(self)@.cursors == old(self)@.cursors.remove(id),
            !final(self)@.cursors.dom().contains(id),
    {
        self.subs.remove(&id);
        proof {
            assert forall|other: u64| self@.cursors.dom().contains(other) implies self@.cursors[other]
                <= self@.published && other < self@.next_id by {
                assert(old(self)@.cursors.dom().contains(other));
            }
        }
    }

    /// The explicit transition a connection's send outcome drives: a
    /// successful send changes nothing and the connection stays open; a
    /// failed send means the client is gone, so its subscription is removed
    /// and later publishes never deliver to it again.
    pub fn handle_send_result(&mut self, id: u64, sent_ok: bool) -> (still_open: bool)
        requires
            hub_wf(old(self)@),
        ensures
            hub_wf(final(self)@),
            still_open == sent_ok,
            sent_ok ==> final(self)@ == old(self)@,
            !sent_ok ==> hub_step(old(self)@, final(self)@, HubOp::Unsubscribe { id })
                && !final(self)@.cursors.dom().contains(id),
    {
        if sent_ok {
            true
        } else {
            self.unsubscribe(id);
            false
        }
    }

    /// How many subscriptions are live.
    pub fn subscriber_count(&self) -> (n: usize)
        ensures
            n == self@.cursors.dom().len(),
    {
        self.subs.len()
    }

    /// How many signals were published so far.
    pub fn published_count(&self) -> (n: u64)
        ensures
            n == self@.published,
    {
        self.published
    }
}

/// A run of hub operations: `states` strung together by `ops`, each
/// consecutive pair related by `hub_step`.
pub open spec fn trace_ok(states: Seq<HubView>, ops: Seq<HubOp>) -> bool {
    &&& states.len() == ops.len() + 1
    &&& forall|i: int| 0 <= i < ops.len() ==> #[trigger] hub_step(states[i], states[i + 1], ops[i])
}

/// Every step keeps the hub well-formed.
pub proof fn lemma_step_preserves_wf(pre: HubView, post: HubView, op: HubOp)
    requires
        hub_wf(pre),
        hub_step(pre, post, op),
    ensures
        hub_wf(post),
{
}

/// Well-formedness holds at every state of a run that starts well-formed.
pub proof fn lemma_trace_wf(states: Seq<HubView>, ops: Seq<HubOp>, i: int)
    requires
        trace_ok(states, ops),
        hub_wf(states[0]),
        0 <= i < states.len(),
    ensures
        hub_wf(states[i]),
    decreases i,
{
    if i > 0 {
        let j = i - 1;
        lemma_trace_wf(states, ops, j);
        assert(hub_step(states[j], states[j + 1], ops[j]));
        lemma_step_preserves_wf(states[j], states[j + 1], ops[j]);
        assert(states[i] == states[j + 1]);
    }
}

/// A publish leaves every subscription then present with at least one
/// signal pending: none of them can poll empty before observing something.
pub proof fn lemma_publish_leaves_signal_pending(pre: HubView, post: HubView)
    requires
        hub_wf(pre),
        hub_step(pre, post, HubOp::Publish),
    ensures
        forall|id: u64| post.cursors.dom().contains(id) ==> post.cursors[id] < post.published,
{
    assert forall|id: u64| post.cursors.dom().contains(id) implies post.cursors[id]
        < post.published by {
        assert(pre.cursors.dom().contains(id));
    }
}

/// Tracking a single identifier along a run, from state `i` to state `k`:
/// identifiers only grow, an absent identifier that is already spent (below
/// `next_id`) never comes back, and a present cursor never falls below a
/// bound it once reached.
pub proof fn lemma_track_id(states: Seq<HubView>, ops: Seq<HubOp>, i: int, k: int, id: u64, bound: u64)
    requires
        trace_ok(states, ops),
        0 <= i <= k < states.len(),
        id < states[i].next_id,
    ensures
        states[k].next_id >= states[i].next_id,
        !states[i].cursors.dom().contains(id) ==> !states[k].cursors.dom().contains(id),
        states[i].cursors.dom().contains(id) && states[i].cursors[id] >= bound
            && states[k].cursors.dom().contains(id) ==> states[k].cursors[id] >= bound,
    decreases k - i,
{
    if k > i {
        let j = k - 1;
        lemma_track_id(states, ops, i, j, id, bound);
        assert(hub_step(states[j], states[j + 1], ops[j]));
        assert(states[k] == states[j + 1]);
    }
}

/// No replay: a subscription observes no signal published before it was
/// opened. If `Subscribe { id }` happens at step `i`, every later delivery
/// to `id` carries an index at or past the count published by then.
pub proof fn lemma_no_replay(
    states: Seq<HubView>,
    ops: Seq<HubOp>,
    i: int,
    j: int,
    id: u64,
    index: u64,
)
    requires
        trace_ok(states, ops),
        0 <= i < j < ops.len(),
        ops[i] == (HubOp::Subscribe { id }),
        ops[j] == (HubOp::Deliver { id, index }),
    ensures
        index >= states[i].published,
{
    assert(hub_step(states[i], states[i + 1], ops[i]));
    assert(hub_step(states[j], states[j + 1], ops[j]));
    lemma_track_id(states, ops, i + 1, j, id, states[i].published);
}

/// Deliveries are how a cursor moves: if a subscription stays live from `i`
/// to `j` and its cursor passes `k`, then at some step in between it observed
/// signal `k` itself.
pub proof fn lemma_delivery(
    states: Seq<HubView>,
    ops: Seq<HubOp>,
    i: int,
    j: int,
    id: u64,
    k: u64,
)
    requires
        trace_ok(states, ops),
        hub_wf(states[0]),
        0 <= i <= j < states.len(),
        states[i].cursors.dom().contains(id),
        states[i].cursors[id] <= k,
        states[j].cursors.dom().contains(id),
        states[j].cursors[id] > k,
    ensures
        exists|m: int| i <= m < j && ops[m] == (HubOp::Deliver { id, index: k }),
    decreases j - i,
{
    assert(i < j);
    assert(hub_step(states[i], states[i + 1], ops[i]));
    lemma_trace_wf(states, ops, i);
    if states[i + 1].cursors.dom().contains(id) {
        if states[i + 1].cursors[id] <= k {
            lemma_delivery(states, ops, i + 1, j, id, k);
            let m = choose|m: int|
                i + 1 <= m < j && ops[m] == (HubOp::Deliver { id, index: k });
            assert(i <= m < j && ops[m] == (HubOp::Deliver { id, index: k }));
        } else {
            // the cursor crossed k at this very step, so this step is the
            // delivery of signal k
            assert(ops[i] == (HubOp::Deliver { id, index: k }));
        }
    } else {
        // the subscription is gone and, being spent, can never come back —
        // contradicting that it is live at j
        assert(id < states[i + 1].next_id);
        lemma_track_id(states, ops, i + 1, j, id, 0);
        assert(false);
    }
}

/// A subscription that exists when a signal is published, stays connected,
/// and later catches up past that signal's index, observed that very signal:
/// the second half of the no-replay guarantee.
pub proof fn lemma_subscriber_observes_publish(
    states: Seq<HubView>,
    ops: Seq<HubOp>,
    i: int,
    j: int,
    id: u64,
)
    requires
        trace_ok(states, ops),
        hub_wf(states[0]),
        0 <= i < ops.len(),
        i < j < states.len(),
        ops[i] == (HubOp::Publish),
        states[i].cursors.dom().contains(id),
        states[j].cursors.dom().contains(id),
        states[j].cursors[id] > states[i].published,
    ensures
        exists|m: int| i <= m < j && ops[m] == (HubOp::Deliver { id, index: states[i].published }),
{
    lemma_trace_wf(states, ops, i);
    lemma_delivery(states, ops, i, j, id, states[i].published);
}

/// Deliveries to one subscription come in publish order: a later delivery
/// always carries a strictly larger signal index.
pub proof fn lemma_delivery_in_order(
    states: Seq<HubView>,
    ops: Seq<HubOp>,
    m1: int,
    m2: int,
    id: u64,
    k1: u64,
    k2: u64,
)
    requires
        trace_ok(states, ops),
        hub_wf(states[0]),
        0 <= m1 < m2 < ops.len(),
        ops[m1] == (HubOp::Deliver { id, index: k1 }),
        ops[m2] == (HubOp::Deliver { id, index: k2 }),
    ensures
        k1 < k2,
{
    lemma_trace_wf(states, ops, m1);
    assert(hub_step(states[m1], states[m1 + 1], ops[m1]));
    assert(hub_step(states[m2], states[m2 + 1], ops[m2]));
    assert(states[m1 + 1].cursors[id] == k1 + 1);
    assert(id < states[m1].next_id);
    lemma_track_id(states, ops, m1 + 1, m2, id, (k1 + 1) as u64);
}

/// A dropped subscription stays dropped: after `Unsubscribe { id }` of a live
/// subscription, `id` is never in the subscriber set again and no later step
/// delivers to it.
pub proof fn lemma_unsubscribed_stays_out(
    states: Seq<HubView>,
    ops: Seq<HubOp>,
    i: int,
    j: int,
    id: u64,
)
    requires
        trace_ok(states, ops),
        hub_wf(states[0]),
        0 <= i < ops.len(),
        ops[i] == (HubOp::Unsubscribe { id }),
        states[i].cursors.dom().contains(id),
        i < j < states.len(),
    ensures
        !states[j].cursors.dom().contains(id),
        forall|m: int, index: u64| i < m < j ==> ops[m] != (HubOp::Deliver { id, index }),
{
    lemma_trace_wf(states, ops, i);
    assert(hub_step(states[i], states[i + 1], ops[i]));
    assert(id < states[i + 1].next_id);
    assert forall|m: int| i < m < j implies !states[m].cursors.dom().contains(id) by {
        lemma_track_id(states, ops, i + 1, m, id, 0);
    }
    lemma_track_id(states, ops, i + 1, j, id, 0);
    assert forall|m: int, index: u64| i < m < j implies ops[m] != (HubOp::Deliver {
        id,
        index,
    }) by {
        if ops[m] == (HubOp::Deliver { id, index }) {
            assert(hub_step(states[m], states[m + 1], ops[m]));
        }
    }
}

} // verus!
