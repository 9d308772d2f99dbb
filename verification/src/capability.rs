//! Capability tokens: unforgeable, zero-size proofs of privilege.

use vstd::prelude::*;

verus! {

/// Proof of the right to allocate kernel-owned memory (grant regions).
///
/// The token is a pure compile-time permission: it carries no data and has
/// no runtime cost. Its field is private to this module, so the only way
/// to obtain a value is [`create_capability`]; privileged operations such
/// as grant creation demand a reference to one in their signature, which
/// makes calling them without the permission a type error, not a runtime
/// failure.
pub struct MemoryAllocationCapability {
    #[allow(dead_code)]
    token: (),
}

/// Issues the memory-allocation capability token.
///
/// Always succeeds and has no side effect: the value is proof, not a
/// resource. It is meant to be called only from trusted boot-time code,
/// which then passes the token (by reference) to the privileged operations
/// it performs while wiring the system together.
pub fn create_capability() -> MemoryAllocationCapability {
    MemoryAllocationCapability { token: () }
}

} // verus!
