//! The concurrency gate: a bounded count of the calls in flight.

use vstd::prelude::*;

verus! {

/// The right to make one outbound call. A permit is handed out by a gate
/// with a free slot and holds that slot until it is given back with
/// [`ConcurrencyGate::release`]. It carries nothing of the tenant's windows:
/// those were recorded when it was granted.
#[derive(Debug)]
pub struct Permit {
    slot: usize,
}

impl Permit {
    /// The number of the slot the permit holds, counted from 1.
    pub closed spec fn spec_slot(&self) -> usize {
        self.slot
    }

    #[verifier::when_used_as_spec(spec_slot)]
    pub fn slot(&self) -> (slot: usize)
        ensures
            slot == self.spec_slot(),
    {
        self.slot
    }
}

/// A counter of the permits that are out, which never passes its limit.
#[derive(Debug)]
pub struct ConcurrencyGate {
    limit: usize,
    outstanding: usize,
}

impl ConcurrencyGate {
    #[verifier::type_invariant]
    spec fn within_limit(self) -> bool {
        self.outstanding <= self.limit
    }

    /// The most permits that may be out at once.
    pub closed spec fn spec_limit(&self) -> usize {
        self.limit
    }

    /// The permits that are out.
    pub closed spec fn spec_outstanding(&self) -> usize {
        self.outstanding
    }

    /// A gate with every slot free.
    pub fn new(limit: usize) -> (gate: ConcurrencyGate)
        ensures
            gate.spec_limit() == limit,
            gate.spec_outstanding() == 0,
    {
        ConcurrencyGate { limit, outstanding: 0 }
    }

    #[verifier::when_used_as_spec(spec_limit)]
    pub fn limit(&self) -> (limit: usize)
        ensures
            limit == self.spec_limit(),
    {
        self.limit
    }

    /// The permits that are out: at no time more than the limit.
    #[verifier::when_used_as_spec(spec_outstanding)]
    pub fn outstanding(&self) -> (outstanding: usize)
        ensures
            outstanding == self.spec_outstanding(),
            outstanding <= self.spec_limit(),
    {
        proof {
            use_type_invariant(self);
        }
        self.outstanding
    }

    /// The slots that are free.
    pub fn available(&self) -> (free: usize)
        ensures
            free == self.spec_limit() - self.spec_outstanding(),
    {
        proof {
            use_type_invariant(self);
        }
        self.limit - self.outstanding
    }

    /// Takes a slot if one is free. `None` means that the caller has to wait
    /// until a permit has been released; this gate is then unchanged.
    pub fn try_acquire(&mut self) -> (permit: Option<Permit>)
        ensures
            final(self).spec_limit() == old(self).spec_limit(),
            permit.is_some() == (old(self).spec_outstanding() < old(self).spec_limit()),
            permit matches Some(p) ==> {
                &&& final(self).spec_outstanding() == old(self).spec_outstanding() + 1
                &&& p.spec_slot() == final(self).spec_outstanding()
            },
            permit.is_none() ==> final(self).spec_outstanding() == old(self).spec_outstanding(),
    {
        proof {
            use_type_invariant(&*self);
        }
        if self.outstanding < self.limit {
            self.outstanding = self.outstanding + 1;
            Some(Permit { slot: self.outstanding })
        } else {
            None
        }
    }

    /// Gives a permit back: its slot is free again. On a gate with no permit
    /// out there is nothing to free, and nothing changes.
    pub fn release(&mut self, permit: Permit)
        ensures
            final(self).spec_limit() == old(self).spec_limit(),
            final(self).spec_outstanding() == if old(self).spec_outstanding() > 0 {
                old(self).spec_outstanding() - 1
            } else {
                0
            },
    {
        proof {
            use_type_invariant(&*self);
        }
        if self.outstanding > 0 {
            self.outstanding = self.outstanding - 1;
        }
    }
}

} // verus!
