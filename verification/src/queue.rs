use vstd::prelude::*;

use crate::job::Task;

verus! {

/// The tasks waiting to be run, oldest first. The first task put in is the
/// first taken out.
pub struct Queue {
    inner: Vec<Task>,
}

impl View for Queue {
    type V = Seq<Task>;

    closed spec fn view(&self) -> Seq<Task> {
        self.inner@
    }
}

/// The queue after `task` is put in.
pub open spec fn queue_after_enqueue(q: Seq<Task>, task: Task) -> Seq<Task> {
    q.push(task)
}

/// The task that `dequeue` hands out: the oldest one, if any.
pub open spec fn dequeued_task(q: Seq<Task>) -> Option<Task> {
    if q.len() == 0 {
        None
    } else {
        Some(q[0])
    }
}

/// The queue after `dequeue`: the oldest task is gone.
pub open spec fn queue_after_dequeue(q: Seq<Task>) -> Seq<Task> {
    if q.len() == 0 {
        q
    } else {
        q.subrange(1, q.len() as int)
    }
}

impl Queue {
    /// An empty queue.
    pub fn new() -> (q: Self)
        ensures
            q@ == Seq::<Task>::empty(),
    {
        Queue { inner: Vec::new() }
    }

    /// Puts a task in.
    pub fn enqueue(&mut self, task: Task)
        ensures
            final(self)@ == queue_after_enqueue(old(self)@, task),
    {
        self.inner.push(task)
    }

    /// Takes out the task put in first, if there is one.
    pub fn dequeue(&mut self) -> (r: Option<Task>)
        ensures
            r == dequeued_task(old(self)@),
            final(self)@ == queue_after_dequeue(old(self)@),
    {
        if self.inner.len() == 0 {
            None
        } else {
            let t = self.inner.remove(0);
            assert(self.inner@ =~= old(self)@.subrange(1, old(self)@.len() as int));
            Some(t)
        }
    }

    /// The number of tasks in the queue.
    pub fn len(&self) -> (n: usize)
        ensures
            n == self@.len(),
    {
        self.inner.len()
    }

    /// The task that was put in first (the queue must not be empty).
    pub fn deref(&self) -> (t: &Task)
        requires
            self@.len() > 0,
        ensures
            *t == self@[0],
    {
        &self.inner[0]
    }

    /// The task that was put in first, to be changed in place (the queue must
    /// not be empty).
    pub fn deref_mut(&mut self) -> (t: &mut Task)
        requires
            old(self)@.len() > 0,
        ensures
            *t == old(self)@[0],
            final(self)@ == old(self)@.update(0, *final(t)),
    {
        &mut self.inner[0]
    }
}

/// Putting a task into an empty queue and taking one out gives back that task
/// and leaves the queue empty.
pub proof fn law_dequeue_undoes_enqueue_on_empty(task: Task)
    ensures
        dequeued_task(queue_after_enqueue(Seq::<Task>::empty(), task)) == Some(task),
        queue_after_dequeue(queue_after_enqueue(Seq::<Task>::empty(), task)) == Seq::<Task>::empty(),
{
    assert(Seq::<Task>::empty().push(task).subrange(1, 1) =~= Seq::<Task>::empty());
}

/// The queue is first in, first out: tasks come out in the order they were
/// put in, and putting a task in does not change which task comes out next
/// from a queue that has tasks.
pub proof fn law_first_in_first_out(q: Seq<Task>, a: Task, b: Task)
    ensures
        dequeued_task(queue_after_enqueue(queue_after_enqueue(Seq::<Task>::empty(), a), b))
            == Some(a),
        dequeued_task(
            queue_after_dequeue(
                queue_after_enqueue(queue_after_enqueue(Seq::<Task>::empty(), a), b),
            ),
        ) == Some(b),
        q.len() > 0 ==> dequeued_task(queue_after_enqueue(q, a)) == dequeued_task(q),
        q.len() > 0 ==> queue_after_dequeue(queue_after_enqueue(q, a)) == queue_after_enqueue(
            queue_after_dequeue(q),
            a,
        ),
{
    let two = Seq::<Task>::empty().push(a).push(b);
    assert(two.subrange(1, 2) =~= seq![b]);
    if q.len() > 0 {
        assert(q.push(a).subrange(1, (q.len() + 1) as int) =~= q.subrange(1, q.len() as int).push(a));
    }
}

/// A queue with tasks in it hands one out; an empty queue hands out none and
/// stays empty.
pub proof fn law_dequeue_empty_iff_none(q: Seq<Task>)
    ensures
        dequeued_task(q) is None <==> q.len() == 0,
        q.len() == 0 ==> queue_after_dequeue(q) == q,
        q.len() > 0 ==> queue_after_dequeue(q).len() == q.len() - 1,
{
}

} // verus!
