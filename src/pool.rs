use vstd::prelude::*;

verus! {

/// Relies on num_cpus::get: the number of logical CPUs this process may use.
/// Nothing is assumed of the value.
#[verifier::external_body]
fn logical_cpus() -> (r: usize) {
    num_cpus::get()
}

/// The capacity of a pool sized to `cpus` parallel units: `cpus` itself,
/// raised to one and capped at the largest `u32`.
pub fn capacity_for(cpus: usize) -> (r: u32)
    ensures
        r >= 1,
        cpus == 0 ==> r == 1,
        1 <= cpus <= u32::MAX ==> r == cpus,
        cpus > u32::MAX ==> r == u32::MAX,
{
    if cpus == 0 {
        1
    } else if cpus > u32::MAX as usize {
        u32::MAX
    } else {
        cpus as u32
    }
}

/// The capacity of one pool on this host: its available parallelism.
pub fn host_pool_capacity() -> (r: u32)
    ensures
        r >= 1,
{
    capacity_for(logical_cpus())
}

/// The lease count of one pool: how many connections are out, against a
/// capacity fixed when the pool was made.
pub struct LeaseGauge {
    capacity: u32,
    leased: u32,
}

impl LeaseGauge {
    pub closed spec fn spec_capacity(&self) -> nat {
        self.capacity as nat
    }

    pub closed spec fn spec_leased(&self) -> nat {
        self.leased as nat
    }

    /// No more leases are out than the capacity allows.
    pub open spec fn wf(&self) -> bool {
        &&& self.spec_capacity() >= 1
        &&& self.spec_leased() <= self.spec_capacity()
    }

    /// A gauge with every connection of the pool available.
    pub fn new(capacity: u32) -> (r: LeaseGauge)
        requires
            capacity >= 1,
        ensures
            r.wf(),
            r.spec_capacity() == capacity,
            r.spec_leased() == 0,
    {
        LeaseGauge { capacity, leased: 0 }
    }

    pub fn capacity(&self) -> (r: u32)
        ensures
            r == self.spec_capacity(),
    {
        self.capacity
    }

    pub fn leased(&self) -> (r: u32)
        ensures
            r == self.spec_leased(),
    {
        self.leased
    }

    /// How many connections can still be leased.
    pub fn available(&self) -> (r: u32)
        requires
            self.wf(),
        ensures
            r == self.spec_capacity() - self.spec_leased(),
    {
        self.capacity - self.leased
    }

    /// Takes one lease if one is available; refuses it, unchanged, otherwise.
    pub fn try_lease(&mut self) -> (granted: bool)
        requires
            old(self).wf(),
        ensures
            final(self).wf(),
            final(self).spec_capacity() == old(self).spec_capacity(),
            granted == (old(self).spec_leased() < old(self).spec_capacity()),
            granted ==> final(self).spec_leased() == old(self).spec_leased() + 1,
            !granted ==> final(self).spec_leased() == old(self).spec_leased(),
    {
        if self.leased < self.capacity {
            self.leased = self.leased + 1;
            true
        } else {
            false
        }
    }

    /// Returns one lease to the pool.
    pub fn release(&mut self)
        requires
            old(self).wf(),
            old(self).spec_leased() >= 1,
        ensures
            final(self).wf(),
            final(self).spec_capacity() == old(self).spec_capacity(),
            final(self).spec_leased() == old(self).spec_leased() - 1,
    {
        self.leased = self.leased - 1;
    }
}

} // verus!
