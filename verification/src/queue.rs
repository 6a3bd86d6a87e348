//! The task queue discipline: an unbounded first-in/first-out buffer of
//! notification tasks. Pushing never fails and never drops work; popping
//! takes the oldest task first.

use vstd::prelude::*;
use crate::task::NotificationTask;

verus! {

/// An unbounded FIFO of notification tasks. There is no capacity bound and
/// no backpressure: accepting every push at once is a deliberate choice,
/// favoring producer latency over a memory bound.
#[derive(Debug)]
pub struct TaskQueue {
    items: Vec<NotificationTask>,
}

impl TaskQueue {
    /// The tasks currently queued, oldest first.
    pub closed spec fn view(&self) -> Seq<NotificationTask> {
        self.items@
    }

    /// An empty queue.
    pub fn new() -> (q: TaskQueue)
        ensures
            q@ == Seq::<NotificationTask>::empty(),
    {
        TaskQueue { items: Vec::new() }
    }

    /// Enqueues a task at the tail. Never fails, never drops or reorders
    /// what is already queued.
    pub fn push(&mut self, task: NotificationTask)
        ensures
            final(self)@ == old(self)@.push(task),
    {
        self.items.push(task);
    }

    /// Dequeues the head task: the oldest one still queued. Returns `None`
    /// exactly when the queue is empty, leaving it unchanged.
    pub fn pop(&mut self) -> (r: Option<NotificationTask>)
        ensures
            old(self)@.len() == 0 ==> r is None && final(self)@ == old(self)@,
            old(self)@.len() > 0 ==> r == Some(old(self)@[0]) && final(self)@ == old(
                self,
            )@.drop_first(),
    {
        if self.items.len() == 0 {
            None
        } else {
            let t = self.items.remove(0);
            assert(self@ =~= old(self)@.drop_first());
            Some(t)
        }
    }

    /// How many tasks are queued.
    pub fn len(&self) -> (n: usize)
        ensures
            n == self@.len(),
    {
        self.items.len()
    }
}

/// First-in/first-out order: from a queue holding `q`, the pop after `k`
/// earlier pops returns `q[k]` and leaves `q` past position `k + 1` — so a
/// consumer draining the queue receives every task, in push order, none
/// lost.
pub proof fn lemma_fifo_order(q: Seq<NotificationTask>, k: int)
    requires
        0 <= k < q.len(),
    ensures
        q.skip(k)[0] == q[k],
        q.skip(k).drop_first() =~= q.skip(k + 1),
{
}

} // verus!
