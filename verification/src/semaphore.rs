//! Counting of the connections that are served at once.

use vstd::prelude::*;

verus! {

/// Counting gate that admits at most `capacity` holders at a time. It only
/// counts: waiting for a permit is left to the caller.
pub struct Semaphore {
    permissions: usize,
    capacity: usize,
}

/// Proof of a granted permit. It is handed back to `Semaphore::release`
/// when the holder is done.
pub struct SemaphoreGuard {
    granted: (),
}

/// What happens at a gate: someone asks for a permit, or a holder leaves.
pub enum GateEvent {
    Acquire,
    Release,
}

/// The number of permits in use after one `event` at a gate of `capacity`
/// with `in_use` permits out: a request is granted only below capacity, and
/// only a permit that is out can come back.
pub open spec fn gate_step(capacity: nat, in_use: nat, event: GateEvent) -> nat {
    match event {
        GateEvent::Acquire => if in_use < capacity {
            in_use + 1
        } else {
            in_use
        },
        GateEvent::Release => if in_use > 0 {
            (in_use - 1) as nat
        } else {
            in_use
        },
    }
}

/// The number of permits in use after all of `events`, in order, starting
/// from `in_use`.
pub open spec fn gate_run(capacity: nat, in_use: nat, events: Seq<GateEvent>) -> nat
    decreases events.len(),
{
    if events.len() == 0 {
        in_use
    } else {
        gate_step(capacity, gate_run(capacity, in_use, events.drop_last()), events.last())
    }
}

/// Whatever sequence of requests and releases a gate sees, it never has
/// more permits out than its capacity.
pub proof fn gate_never_exceeds_capacity(capacity: nat, events: Seq<GateEvent>)
    ensures
        gate_run(capacity, 0, events) <= capacity,
    decreases events.len(),
{
    if events.len() > 0 {
        gate_never_exceeds_capacity(capacity, events.drop_last());
    }
}

impl Semaphore {
    /// Holds of every semaphore: no more permits are out than it has.
    #[verifier::type_invariant]
    spec fn bounded(self) -> bool {
        self.permissions <= self.capacity
    }

    /// The most permits that can be out at once.
    pub closed spec fn capacity(self) -> nat {
        self.capacity as nat
    }

    /// The number of permits that are out.
    pub closed spec fn in_use(self) -> nat {
        self.permissions as nat
    }

    /// A gate with all of its `capacity` permits available.
    pub fn new(capacity: usize) -> (gate: Self)
        ensures
            gate.capacity() == capacity,
            gate.in_use() == 0,
    {
        Semaphore { permissions: 0, capacity }
    }

    /// Asks for a permit. It is granted exactly when fewer than `capacity`
    /// permits are out; otherwise nothing changes and the caller has to wait
    /// for a release.
    pub fn acquire(&mut self) -> (guard: Option<SemaphoreGuard>)
        ensures
            final(self).capacity() == old(self).capacity(),
            final(self).in_use() == gate_step(
                old(self).capacity(),
                old(self).in_use(),
                GateEvent::Acquire,
            ),
            guard is Some <==> old(self).in_use() < old(self).capacity(),
            final(self).in_use() <= final(self).capacity(),
    {
        proof {
            use_type_invariant(&*self);
        }
        if self.permissions < self.capacity {
            self.permissions = self.permissions + 1;
            Some(SemaphoreGuard { granted: () })
        } else {
            None
        }
    }

    /// Hands a permit back.
    pub fn release(&mut self, guard: SemaphoreGuard)
        requires
            old(self).in_use() > 0,
        ensures
            final(self).capacity() == old(self).capacity(),
            final(self).in_use() == old(self).in_use() - 1,
            final(self).in_use() == gate_step(
                old(self).capacity(),
                old(self).in_use(),
                GateEvent::Release,
            ),
            final(self).in_use() < final(self).capacity(),
    {
        proof {
            use_type_invariant(&*self);
        }
        self.permissions = self.permissions - 1;
    }

    /// The number of permits that are out; never more than the capacity.
    pub fn permits_in_use(&self) -> (n: usize)
        ensures
            n == self.in_use(),
            n <= self.capacity(),
    {
        proof {
            use_type_invariant(self);
        }
        self.permissions
    }

    /// The most permits that can be out at once.
    pub fn permits(&self) -> (n: usize)
        ensures
            n == self.capacity(),
    {
        self.capacity
    }
}

} // verus!
