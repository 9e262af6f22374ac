//! The instrumented-allocator boundary: the wrapper type that pairs an
//! underlying allocator with a set of allocation hooks, and the capability
//! contract those hooks satisfy.

use vstd::prelude::*;

verus! {

/// Pairs an underlying allocator with a set of allocation hooks. The
/// instrumentation is strictly observational: every operation is forwarded
/// to the underlying allocator unmodified, and the matching hook is invoked
/// after the operation completes, with the resulting address and the
/// requested size and alignment. The operational `GlobalAlloc` glue is
/// platform-level unsafe code and lives with the embedding program.
#[derive(Debug)]
pub struct TracingAllocator<H, A>(pub A, pub H);

impl<H, A> TracingAllocator<H, A> {
    /// Wraps `allocator` so that every operation also reaches `hooks`.
    pub fn new(hooks: H, allocator: A) -> (r: Self)
        ensures
            r == (TracingAllocator(allocator, hooks)),
    {
        TracingAllocator(allocator, hooks)
    }
}

/// The capability contract the instrumented allocator invokes on every heap
/// operation, carrying the address of the affected region and the requested
/// size and alignment. Calls made while no trace session is recording must
/// be no-ops, not errors: the instrumentation point is process-wide and
/// fires for unrelated allocator activity too. A reallocation must be
/// treated as one reallocation event plus a deallocation of the old size
/// plus an allocation of the new size, in that order, also when the old and
/// new addresses coincide.
pub trait AllocHooks {
    fn on_alloc(&self, addr: usize, size: usize, align: usize);

    fn on_dealloc(&self, addr: usize, size: usize, align: usize);

    fn on_alloc_zeroed(&self, addr: usize, size: usize, align: usize);

    fn on_realloc(
        &self,
        old_addr: usize,
        new_addr: usize,
        old_size: usize,
        new_size: usize,
        align: usize,
    );
}

} // verus!
