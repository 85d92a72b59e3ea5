//! Serialises pipeline runs on one working copy: each delivery takes a
//! ticket, and tickets run one at a time, in the order they were taken.

use vstd::prelude::*;

verus! {

/// The state of the queue: the next ticket to hand out, and the ticket
/// whose run may go on now.
pub struct QueueState {
    pub next: nat,
    pub serving: nat,
}

/// Whether the holder of `ticket` may run its pipeline.
pub open spec fn can_run(q: QueueState, ticket: nat) -> bool {
    ticket == q.serving && q.serving < q.next
}

/// The queue after a ticket is taken.
pub open spec fn after_enter(q: QueueState) -> QueueState {
    QueueState { next: q.next + 1, serving: q.serving }
}

/// The queue after the running ticket is done.
pub open spec fn after_leave(q: QueueState) -> QueueState {
    QueueState { next: q.next, serving: q.serving + 1 }
}

/// A queue of pipeline runs on one working copy.
pub struct DeployQueue {
    next: u64,
    serving: u64,
}

impl View for DeployQueue {
    type V = QueueState;

    closed spec fn view(&self) -> QueueState {
        QueueState { next: self.next as nat, serving: self.serving as nat }
    }
}

impl DeployQueue {
    pub closed spec fn wf(&self) -> bool {
        self.serving <= self.next
    }

    /// An idle queue.
    pub fn new() -> (r: DeployQueue)
        ensures
            r.wf(),
            r@ == (QueueState { next: 0, serving: 0 }),
    {
        DeployQueue { next: 0, serving: 0 }
    }

    /// Takes the next ticket. `None` only once every ticket number has been
    /// handed out, and the queue is then left as it was.
    pub fn enter(&mut self) -> (r: Option<u64>)
        requires
            old(self).wf(),
        ensures
            final(self).wf(),
            old(self)@.next < u64::MAX ==> r == Some(old(self)@.next as u64) && final(self)@
                == after_enter(old(self)@),
            old(self)@.next >= u64::MAX ==> r is None && final(self)@ == old(self)@,
    {
        if self.next == u64::MAX {
            return None;
        }
        let t = self.next;
        self.next = self.next + 1;
        Some(t)
    }

    /// Whether the holder of `ticket` may run its pipeline now.
    pub fn may_run(&self, ticket: u64) -> (r: bool)
        ensures
            r == can_run(self@, ticket as nat),
    {
        ticket == self.serving && self.serving < self.next
    }

    /// Whether no ticket is waiting or running.
    pub fn is_idle(&self) -> (r: bool)
        ensures
            r == (self@.serving == self@.next),
    {
        self.serving == self.next
    }

    /// The holder of `ticket` is done; the next ticket may run.
    pub fn leave(&mut self, ticket: u64)
        requires
            old(self).wf(),
            can_run(old(self)@, ticket as nat),
        ensures
            final(self).wf(),
            final(self)@ == after_leave(old(self)@),
    {
        self.serving = self.serving + 1;
    }
}

/// At most one ticket may run at a time.
pub proof fn lemma_one_run_at_a_time(q: QueueState, t1: nat, t2: nat)
    requires
        can_run(q, t1),
        can_run(q, t2),
    ensures
        t1 == t2,
{
}

/// Two deliveries that take tickets on an idle queue run one after the
/// other: the first runs while the second waits, and the second runs once
/// the first is done.
pub proof fn lemma_two_deliveries_serialised(q: QueueState)
    requires
        q.serving == q.next,
    ensures
        ({
            let t1 = q.next;
            let q1 = after_enter(q);
            let t2 = q1.next;
            let q2 = after_enter(q1);
            &&& t1 != t2
            &&& can_run(q2, t1)
            &&& !can_run(q2, t2)
            &&& can_run(after_leave(q2), t2)
            &&& !can_run(after_leave(q2), t1)
        }),
{
}

/// Tickets run in the order they were taken: while a ticket waits, every
/// earlier ticket that has not run yet runs before it.
pub proof fn lemma_tickets_in_order(q: QueueState, t1: nat, t2: nat)
    requires
        q.serving <= t1 < t2 < q.next,
    ensures
        !can_run(q, t2),
        can_run(q, t1) <==> t1 == q.serving,
{
}

} // verus!
