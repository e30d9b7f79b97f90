//! The multiplexing engine: the fan-in queue and its assignment discipline.
//!
//! Front-end listeners produce units of forwarding work (one accepted local
//! connection each); tunnel connection handlers race to consume them.  Each
//! unit carries a fresh id.  The model below tracks every id ever accepted:
//! it is either still queued or recorded as assigned to exactly one peer —
//! never both, never twice, never silently dropped while the queue lives.
//!
//! Ordering is best-effort FIFO: a taker always receives the oldest queued
//! unit, but which peer takes next is decided by the race outside the
//! library.  A closed queue refuses new work yet lets takers drain what is
//! already queued.

use vstd::prelude::*;
use crate::errors::TunnelError;

verus! {

/// One observable event at the queue.
pub enum RelayEvent {
    /// A front-end listener accepted a local connection and enqueued it.
    Accept,
    /// The tunnel peer with this id reached the queue's receive point and
    /// took the oldest unit (when one was queued).
    Take(int),
    /// Shutdown began: the queue stops admitting new work.
    Close,
}

/// The mathematical state of the relay: ids `0 .. next_id` have been
/// accepted; each is queued (oldest first) or assigned to one peer.
pub struct RelayModel {
    pub next_id: int,
    pub queued: Seq<int>,
    pub assigned: Seq<(int, int)>,
    pub open: bool,
}

impl RelayModel {
    /// The state before any connection was accepted.
    pub open spec fn init() -> RelayModel {
        RelayModel { next_id: 0, queued: Seq::empty(), assigned: Seq::empty(), open: true }
    }

    /// The work ids already handed to peers, in assignment order.
    pub open spec fn assigned_work(self) -> Seq<int> {
        self.assigned.map_values(|p: (int, int)| p.0)
    }

    /// No id occurs twice in `s`.
    pub open spec fn distinct(s: Seq<int>) -> bool {
        forall|i: int, j: int|
            0 <= i < s.len() && 0 <= j < s.len() && i != j ==> s[i] != s[j]
    }

    /// The assignment discipline.
    pub open spec fn inv(self) -> bool {
        &&& 0 <= self.next_id
        &&& forall|i: int| 0 <= i < self.queued.len() ==> 0 <= #[trigger] self.queued[i] < self.next_id
        &&& forall|i: int|
            0 <= i < self.assigned.len() ==> 0 <= #[trigger] self.assigned[i].0 < self.next_id
        &&& RelayModel::distinct(self.queued)
        &&& RelayModel::distinct(self.assigned_work())
        &&& forall|id: int| !(self.queued.contains(id) && self.assigned_work().contains(id))
        &&& forall|id: int|
            0 <= id < self.next_id ==> self.queued.contains(id) || self.assigned_work().contains(
                id,
            )
        &&& self.queued.len() + self.assigned.len() == self.next_id
    }

    /// The queue's transition relation.
    pub open spec fn spec_step(self, e: RelayEvent) -> RelayModel {
        match e {
            RelayEvent::Accept => if self.open {
                RelayModel {
                    next_id: self.next_id + 1,
                    queued: self.queued.push(self.next_id),
                    assigned: self.assigned,
                    open: true,
                }
            } else {
                self
            },
            RelayEvent::Take(peer) => if self.queued.len() > 0 {
                RelayModel {
                    next_id: self.next_id,
                    queued: self.queued.drop_first(),
                    assigned: self.assigned.push((self.queued[0], peer)),
                    open: self.open,
                }
            } else {
                self
            },
            RelayEvent::Close => RelayModel {
                next_id: self.next_id,
                queued: self.queued,
                assigned: self.assigned,
                open: false,
            },
        }
    }

    /// The state after a whole sequence of events.
    pub open spec fn run(self, es: Seq<RelayEvent>) -> RelayModel
        decreases es.len(),
    {
        if es.len() == 0 {
            self
        } else {
            self.spec_step(es[0]).run(es.drop_first())
        }
    }
}

/// Every step of the queue preserves the assignment discipline.
pub proof fn lemma_step_preserves_inv(s: RelayModel, e: RelayEvent)
    requires
        s.inv(),
    ensures
        s.spec_step(e).inv(),
{
    broadcast use vstd::seq_lib::group_seq_properties;

    let t = s.spec_step(e);
    match e {
        RelayEvent::Accept => {
            if s.open {
                assert(t.assigned_work() =~= s.assigned_work());
                assert forall|id: int| 0 <= id < t.next_id implies t.queued.contains(id)
                    || t.assigned_work().contains(id) by {
                    if id < s.next_id {
                        if s.queued.contains(id) {
                            let k = choose|k: int| 0 <= k < s.queued.len() && s.queued[k] == id;
                            assert(t.queued[k] == id);
                        }
                    } else {
                        assert(t.queued[s.queued.len() as int] == id);
                    }
                }
            }
        },
        RelayEvent::Take(peer) => {
            if s.queued.len() > 0 {
                let head = s.queued[0];
                assert(t.assigned_work() =~= s.assigned_work().push(head));
                assert forall|i: int, j: int|
                    0 <= i < t.assigned_work().len() && 0 <= j < t.assigned_work().len() && i
                        != j implies t.assigned_work()[i] != t.assigned_work()[j] by {
                    if i < s.assigned.len() && j < s.assigned.len() {
                    } else if i < s.assigned.len() {
                        assert(s.assigned_work().contains(s.assigned_work()[i]));
                        assert(s.queued.contains(head));
                    } else if j < s.assigned.len() {
                        assert(s.assigned_work().contains(s.assigned_work()[j]));
                        assert(s.queued.contains(head));
                    }
                }
                assert forall|id: int| !(t.queued.contains(id) && t.assigned_work().contains(
                    id,
                )) by {
                    if t.queued.contains(id) {
                        let k = choose|k: int| 0 <= k < t.queued.len() && t.queued[k] == id;
                        assert(s.queued[k + 1] == id);
                        assert(s.queued.contains(id));
                        assert(id != head);
                    }
                }
                assert forall|id: int| 0 <= id < t.next_id implies t.queued.contains(id)
                    || t.assigned_work().contains(id) by {
                    if s.queued.contains(id) {
                        let k = choose|k: int| 0 <= k < s.queued.len() && s.queued[k] == id;
                        if k == 0 {
                            assert(t.assigned_work()[s.assigned.len() as int] == id);
                        } else {
                            assert(t.queued[k - 1] == id);
                        }
                    } else {
                        let k = choose|k: int|
                            0 <= k < s.assigned_work().len() && s.assigned_work()[k] == id;
                        assert(t.assigned_work()[k] == id);
                    }
                }
            }
        },
        RelayEvent::Close => {
            assert(t.assigned_work() =~= s.assigned_work());
        },
    }
}

/// The discipline holds after any whole run of events.
pub proof fn lemma_run_preserves_inv(s: RelayModel, es: Seq<RelayEvent>)
    requires
        s.inv(),
    ensures
        s.run(es).inv(),
    decreases es.len(),
{
    if es.len() > 0 {
        lemma_step_preserves_inv(s, es[0]);
        lemma_run_preserves_inv(s.spec_step(es[0]), es.drop_first());
    }
}

/// At-most-once work assignment: in any reachable state, every accepted
/// unit is either still queued or assigned, never both; an assigned unit
/// has exactly one assignment record, hence exactly one peer and exactly
/// one stream.  Nothing is silently dropped: queued and assigned together
/// cover every accepted id.
pub proof fn lemma_exactly_once(s: RelayModel)
    requires
        s.inv(),
    ensures
        forall|id: int|
            0 <= id < s.next_id ==> (s.queued.contains(id) || s.assigned_work().contains(id)),
        forall|id: int| !(s.queued.contains(id) && s.assigned_work().contains(id)),
        forall|i: int, j: int|
            0 <= i < s.assigned.len() && 0 <= j < s.assigned.len() && i != j
                ==> #[trigger] s.assigned[i].0 != #[trigger] s.assigned[j].0,
{
    assert forall|i: int, j: int|
        0 <= i < s.assigned.len() && 0 <= j < s.assigned.len() && i != j implies #[trigger] s
        .assigned[i].0 != #[trigger] s.assigned[j].0 by {
        assert(s.assigned_work()[i] == s.assigned[i].0);
        assert(s.assigned_work()[j] == s.assigned[j].0);
    }
}

/// Whenever work is pending, a peer that reaches the receive point is
/// handed the oldest queued unit, and that hand-off is recorded once.
pub proof fn lemma_take_assigns_head(s: RelayModel, peer: int)
    requires
        s.inv(),
        s.queued.len() > 0,
    ensures
        s.spec_step(RelayEvent::Take(peer)).queued == s.queued.drop_first(),
        s.spec_step(RelayEvent::Take(peer)).assigned == s.assigned.push((s.queued[0], peer)),
        s.spec_step(RelayEvent::Take(peer)).inv(),
{
    lemma_step_preserves_inv(s, RelayEvent::Take(peer));
}

/// The empty queue satisfies the assignment discipline.
pub proof fn lemma_init_inv()
    ensures
        RelayModel::init().inv(),
{
    broadcast use vstd::seq_lib::group_seq_properties;

    assert(RelayModel::init().assigned_work() =~= Seq::<int>::empty());
}

/// For any sequence of accepts, takes and the close, from startup: every
/// accepted unit is queued or assigned to exactly one peer — no
/// duplication, no silent drop while the queue lives.
pub proof fn lemma_run_exactly_once(es: Seq<RelayEvent>)
    ensures
        RelayModel::init().run(es).inv(),
        forall|id: int|
            0 <= id < RelayModel::init().run(es).next_id ==> (RelayModel::init().run(
                es,
            ).queued.contains(id) || RelayModel::init().run(es).assigned_work().contains(id)),
        forall|id: int|
            !(RelayModel::init().run(es).queued.contains(id) && RelayModel::init().run(
                es,
            ).assigned_work().contains(id)),
{
    lemma_init_inv();
    lemma_run_preserves_inv(RelayModel::init(), es);
    lemma_exactly_once(RelayModel::init().run(es));
}

/// With no tunnel peer ever taking work, accepted connections accumulate:
/// nothing is assigned, nothing is forwarded, and the queue grows without
/// bound — one entry per accept.
pub proof fn lemma_no_peer_no_forwarding(s: RelayModel, es: Seq<RelayEvent>)
    requires
        s.inv(),
        s.open,
        forall|i: int| 0 <= i < es.len() ==> es[i] == RelayEvent::Accept,
    ensures
        s.run(es).assigned == s.assigned,
        s.run(es).queued.len() == s.queued.len() + es.len(),
    decreases es.len(),
{
    if es.len() > 0 {
        lemma_step_preserves_inv(s, es[0]);
        lemma_no_peer_no_forwarding(s.spec_step(es[0]), es.drop_first());
    }
}

/// The queue itself, as the library models it: ids stand for the accepted
/// local connections whose handles the runtime keeps alongside.
pub struct Relay {
    pub next_id: u64,
    pub queued: Vec<u64>,
    pub assigned: Vec<(u64, u64)>,
    pub open: bool,
}

impl View for Relay {
    type V = RelayModel;

    open spec fn view(&self) -> RelayModel {
        RelayModel {
            next_id: self.next_id as int,
            queued: self.queued@.map_values(|x: u64| x as int),
            assigned: self.assigned@.map_values(|p: (u64, u64)| (p.0 as int, p.1 as int)),
            open: self.open,
        }
    }
}

impl Relay {
    /// Well-formedness: the model invariant holds of the view.
    pub open spec fn inv(&self) -> bool {
        self@.inv()
    }

    /// A fresh, open, empty queue.
    pub fn new() -> (r: Relay)
        ensures
            r.inv(),
            r@ == RelayModel::init(),
    {
        let r = Relay { next_id: 0, queued: Vec::new(), assigned: Vec::new(), open: true };
        proof {
            assert(r@.queued =~= Seq::<int>::empty());
            assert(r@.assigned =~= Seq::<(int, int)>::empty());
        }
        r
    }

    /// A front-end listener enqueues one accepted connection.  Open queue:
    /// the unit gets the next fresh id and joins the back of the queue.
    /// Closed queue: the work is refused — shutdown is in progress, which
    /// the listener treats as fatal.
    pub fn accept_local(&mut self) -> (r: Result<u64, TunnelError>)
        requires
            old(self).inv(),
            old(self).next_id < u64::MAX,
        ensures
            final(self).inv(),
            final(self)@ == old(self)@.spec_step(RelayEvent::Accept),
            old(self).open ==> r == Ok::<u64, TunnelError>(old(self).next_id),
            !old(self).open ==> r == Err::<u64, TunnelError>(TunnelError::QueueClosed)
                && *final(self) == *old(self),
    {
        proof {
            lemma_step_preserves_inv(old(self)@, RelayEvent::Accept);
        }
        if !self.open {
            return Err(TunnelError::QueueClosed);
        }
        let id = self.next_id;
        self.queued.push(id);
        self.next_id = self.next_id + 1;
        proof {
            assert(self@.queued =~= old(self)@.queued.push(old(self)@.next_id));
        }
        Ok(id)
    }

    /// A tunnel connection handler (peer `peer`) reaches the queue's
    /// receive point.  If work is pending it takes the oldest unit and the
    /// assignment is recorded; otherwise it learns that nothing is queued
    /// (the runtime then suspends until work arrives or the queue closes).
    pub fn take_next(&mut self, peer: u64) -> (r: Option<u64>)
        requires
            old(self).inv(),
        ensures
            final(self).inv(),
            final(self)@ == old(self)@.spec_step(RelayEvent::Take(peer as int)),
            old(self).queued@.len() > 0 ==> r == Some(old(self).queued@[0]),
            old(self).queued@.len() == 0 ==> r is None && *final(self) == *old(self),
    {
        proof {
            lemma_step_preserves_inv(old(self)@, RelayEvent::Take(peer as int));
        }
        if self.queued.len() == 0 {
            return None;
        }
        let head = self.queued.remove(0);
        self.assigned.push((head, peer));
        proof {
            assert(self@.queued =~= old(self)@.queued.drop_first());
            assert(self@.assigned =~= old(self)@.assigned.push(
                (old(self)@.queued[0], peer as int),
            ));
        }
        Some(head)
    }

    /// Shutdown reaches the queue: no new work is admitted.  Pending units
    /// stay and may still be drained by live handlers.
    pub fn close(&mut self)
        requires
            old(self).inv(),
        ensures
            final(self).inv(),
            final(self)@ == old(self)@.spec_step(RelayEvent::Close),
            final(self).queued == old(self).queued,
            final(self).assigned == old(self).assigned,
            !final(self).open,
    {
        proof {
            lemma_step_preserves_inv(old(self)@, RelayEvent::Close);
        }
        self.open = false;
    }
}

} // verus!
