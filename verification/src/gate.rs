//! A counting permit pool bounding simultaneous message processing.
//!
//! At most `capacity` permits are outstanding at any instant. A permit is
//! held while one message is processed and returned through
//! [`ConcurrencyGate::release`]; releasing an already-released permit
//! changes nothing, so a release on every exit path is safe.

use vstd::prelude::*;

verus! {

/// A unit of capacity.
pub struct Permit {
    released: bool,
}

impl Permit {
    /// Whether this unit still counts.
    pub closed spec fn live(&self) -> bool {
        !self.released
    }
}

/// A fixed-capacity permit pool. `outstanding` counts the live permits.
pub struct ConcurrencyGate {
    capacity: usize,
    outstanding: usize,
}

impl ConcurrencyGate {
    /// The fixed number of permits that may be live at once.
    pub closed spec fn capacity(&self) -> usize {
        self.capacity
    }

    /// How many permits are currently held.
    pub closed spec fn outstanding(&self) -> usize {
        self.outstanding
    }

    /// The bound that every execution keeps: never more live permits than
    /// the configured capacity.
    pub open spec fn wf(&self) -> bool {
        self.outstanding() <= self.capacity() && self.capacity() > 0
    }

    pub fn new(capacity: usize) -> (gate: ConcurrencyGate)
        requires
            capacity > 0,
        ensures
            gate.capacity() == capacity,
            gate.outstanding() == 0,
            gate.wf(),
    {
        ConcurrencyGate { capacity, outstanding: 0 }
    }

    /// Hands out a permit when fewer than `capacity` are live, and refuses
    /// otherwise. A caller that is refused must wait for a release.
    pub fn try_acquire(&mut self) -> (permit: Option<Permit>)
        requires
            old(self).wf(),
        ensures
            final(self).wf(),
            final(self).capacity() == old(self).capacity(),
            match permit {
                Some(p) => {
                    &&& p.live()
                    &&& old(self).outstanding() < old(self).capacity()
                    &&& final(self).outstanding() == old(self).outstanding() + 1
                },
                None => {
                    &&& old(self).outstanding() == old(self).capacity()
                    &&& *final(self) == *old(self)
                },
            },
    {
        if self.outstanding < self.capacity {
            self.outstanding = self.outstanding + 1;
            Some(Permit { released: false })
        } else {
            None
        }
    }

    /// Accepts a returned unit; a second return has no further effect.
    pub fn release(&mut self, permit: &mut Permit)
        requires
            old(self).wf(),
        ensures
            final(self).wf(),
            final(self).capacity() == old(self).capacity(),
            !final(permit).live(),
            old(permit).live() && old(self).outstanding() > 0 ==> final(self).outstanding()
                == old(self).outstanding() - 1,
            !(old(permit).live() && old(self).outstanding() > 0) ==> final(self).outstanding()
                == old(self).outstanding(),
    {
        if !permit.released && self.outstanding > 0 {
            self.outstanding = self.outstanding - 1;
        }
        permit.released = true;
    }
}

} // verus!
