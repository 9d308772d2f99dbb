//! The component abstraction: a build-time wiring step that is consumed
//! by a single `finalize` call.

use vstd::prelude::*;

verus! {

/// A component holds (handles to) its already-finalized dependencies plus
/// configuration, and exposes one consuming operation, `finalize`, which
/// wires the component's object graph and yields exactly one output.
///
/// Finalization is a boot-time assembly step, not a runtime API: it runs
/// single-threaded, before interrupts and scheduling are live, and it has
/// no error path — misuse is an assembly defect. Because `finalize` takes
/// the component by value, a component cannot be finalized twice.
pub trait Component: Sized {
    /// Pre-reserved static storage handed to `finalize`.
    type StaticInput;

    /// The finished object graph: the driver singleton together with the
    /// updated collaborator handles.
    type Output;

    /// What a correct assembly guarantees before finalizing: the
    /// component's obligations on its dependencies and static input.
    spec fn finalize_pre(self, input: Self::StaticInput) -> bool;

    /// Exactly which object graph finalization produces from this
    /// component and this static input.
    spec fn finalize_post(self, input: Self::StaticInput, out: Self::Output) -> bool;

    /// Consumes the component and wires its output object graph.
    fn finalize(self, input: Self::StaticInput) -> (out: Self::Output)
        requires
            self.finalize_pre(input),
        ensures
            self.finalize_post(input, out),
    ;
}

} // verus!
