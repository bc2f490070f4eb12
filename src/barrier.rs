//! Compiler barriers that order CPU memory accesses around the engine.

use vstd::prelude::*;

verus! {

/// The direction of a barrier.
#[derive(Clone, Copy, Debug, PartialEq, Eq, Structural)]
pub enum Fence {
    /// Accesses before the barrier stay before it: emitted before the engine starts.
    Release,
    /// Accesses after the barrier stay after it: emitted once the engine is seen to be done.
    Acquire,
}

/// Relies on `core::sync::atomic::compiler_fence`, which keeps the compiler
/// from moving memory accesses across it in the direction `order` names, and
/// which panics only for `Relaxed`.
#[verifier::external_body]
fn compiler_fence(order: core::sync::atomic::Ordering)
    requires
        !(order is Relaxed),
    opens_invariants none
    no_unwind
{
    core::sync::atomic::compiler_fence(order)
}

/// Emits a compiler barrier in the direction `f`.
pub fn fence(f: Fence)
    opens_invariants none
    no_unwind
{
    match f {
        Fence::Release => compiler_fence(core::sync::atomic::Ordering::Release),
        Fence::Acquire => compiler_fence(core::sync::atomic::Ordering::Acquire),
    }
}

} // verus!
