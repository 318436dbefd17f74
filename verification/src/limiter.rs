use vstd::prelude::*;

verus! {

/// The layer that lets at most `limit` requests into the handlers at once.
#[derive(Debug, Clone, Copy)]
pub struct MyLayer {
    limit: usize,
}

impl MyLayer {
    /// A layer that admits `limit` requests at once.
    pub fn new(limit: usize) -> (l: Self)
        ensures
            l.limit_view() == limit,
    {
        MyLayer { limit }
    }

    /// How many requests the layer admits at once.
    pub closed spec fn limit_view(&self) -> usize {
        self.limit
    }

    /// How many requests the layer admits at once.
    pub fn limit(&self) -> (n: usize)
        ensures
            n == self.limit_view(),
    {
        self.limit
    }
}

/// What polling the semaphore for a permit gave.
pub enum Acquire<P> {
    /// A permit was granted.
    Granted(P),
    /// The semaphore is closed: no permit will come.
    Closed,
    /// No permit is free yet.
    Waiting,
}

/// Whether the limited service is ready for a request.
#[derive(Debug, Clone, Copy, PartialEq, Eq, Structural)]
pub enum Readiness {
    Ready,
    Pending,
}

/// The permit that a limited service holds between `poll_ready` and `call`.
pub struct PermitSlot<P> {
    permit: Option<P>,
}

impl<P> View for PermitSlot<P> {
    type V = Option<P>;

    closed spec fn view(&self) -> Option<P> {
        self.permit
    }
}

/// The readiness that a poll outcome gives.
pub open spec fn readiness_of<P>(outcome: Acquire<P>) -> Readiness {
    match outcome {
        Acquire::Granted(_) => Readiness::Ready,
        _ => Readiness::Pending,
    }
}

/// The permit held after a poll outcome.
pub open spec fn slot_after_poll<P>(held: Option<P>, outcome: Acquire<P>) -> Option<P> {
    match outcome {
        Acquire::Granted(p) => Some(p),
        _ => held,
    }
}

impl<P> PermitSlot<P> {
    /// A slot that holds no permit.
    pub fn new() -> (s: Self)
        ensures
            s@ is None,
    {
        PermitSlot { permit: None }
    }

    /// Whether a permit is held.
    pub fn is_held(&self) -> (r: bool)
        ensures
            r == self@ is Some,
    {
        self.permit.is_some()
    }

    /// `poll_ready`'s decision: a granted permit is kept and the service is
    /// ready; a closed semaphore or no free permit leaves the slot as it was
    /// and the service pending.
    pub fn record_poll(&mut self, outcome: Acquire<P>) -> (r: Readiness)
        ensures
            r == readiness_of(outcome),
            final(self)@ == slot_after_poll(old(self)@, outcome),
    {
        match outcome {
            Acquire::Granted(p) => {
                self.permit = Some(p);
                Readiness::Ready
            },
            Acquire::Closed => Readiness::Pending,
            Acquire::Waiting => Readiness::Pending,
        }
    }

    /// `call`'s decision: the request takes the held permit with it, and the
    /// slot is left empty. `None` when no permit is held (a `call` without a
    /// successful `poll_ready`).
    pub fn take_permit(&mut self) -> (r: Option<P>)
        ensures
            r == old(self)@,
            final(self)@ is None,
    {
        self.permit.take()
    }
}

/// A request gets through only after a poll that granted a permit: a fresh
/// slot, or one whose permit was taken, refuses a `call`, whatever polls came
/// back pending.
pub proof fn law_call_needs_granted_permit<P>(held: Option<P>, outcome: Acquire<P>)
    ensures
        held is None && !(outcome is Granted) ==> slot_after_poll(held, outcome) is None,
        outcome is Granted ==> slot_after_poll(held, outcome) is Some,
        readiness_of(outcome) == Readiness::Ready <==> outcome is Granted,
{
}

} // verus!
