//! The kernel handle as the composition layer sees it: a grant table in
//! which capability-holding boot code reserves per-process driver state.

use vstd::prelude::*;

use crate::capability::MemoryAllocationCapability;

verus! {

/// Handle to a per-process grant region reserved for one driver. The
/// region index is the driver's slot in the kernel's grant table; the
/// process-local memory behind it is populated lazily, at first use, by
/// the external grant-table implementation. Grants are created only by
/// [`Kernel::create_grant`], which demands a memory-allocation capability.
pub struct Grant {
    region: u64,
}

impl Grant {
    /// The index of the reserved slot in the kernel's grant table.
    pub closed spec fn region_spec(self) -> u64 {
        self.region
    }

    pub fn region(&self) -> (r: u64)
        ensures
            r == self.region_spec(),
    {
        self.region
    }
}

/// The kernel as this layer needs it: the number of grant regions it has
/// handed out so far, which is the index the next reservation will get.
pub struct Kernel {
    grants_allocated: u64,
}

impl Kernel {
    /// How many grant regions have been reserved so far.
    pub closed spec fn grants_allocated_spec(self) -> u64 {
        self.grants_allocated
    }

    pub fn grants_allocated(&self) -> (r: u64)
        ensures
            r == self.grants_allocated_spec(),
    {
        self.grants_allocated
    }

    pub fn new() -> (k: Kernel)
        ensures
            k.grants_allocated_spec() == 0,
    {
        Kernel { grants_allocated: 0 }
    }

    /// Reserves the next grant region. The required capability token is
    /// the whole check: holding a `MemoryAllocationCapability` is proof of
    /// the privilege, so no runtime test is made and no failure is
    /// observable here; table exhaustion, if any, surfaces only at first
    /// per-process use, outside this layer.
    pub fn create_grant(&mut self, _cap: &MemoryAllocationCapability) -> (g: Grant)
        requires
            old(self).grants_allocated_spec() < u64::MAX,
        ensures
            g.region_spec() == old(self).grants_allocated_spec(),
            final(self).grants_allocated_spec() == old(self).grants_allocated_spec() + 1,
    {
        let region: u64 = self.grants_allocated;
        self.grants_allocated = self.grants_allocated + 1;
        Grant { region }
    }
}

/// A grant handle is determined by its region index.
pub proof fn lemma_grant_determined(a: Grant, b: Grant)
    requires
        a.region_spec() == b.region_spec(),
    ensures
        a == b,
{
}

/// A kernel handle is determined by how many grant regions it has
/// handed out.
pub proof fn lemma_kernel_determined(a: Kernel, b: Kernel)
    requires
        a.grants_allocated_spec() == b.grants_allocated_spec(),
    ensures
        a == b,
{
}

} // verus!
