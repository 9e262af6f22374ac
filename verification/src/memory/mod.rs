//! Heap-allocation measurement: the instrumented-allocator boundary, the
//! trace session and its statistics, and the composite threshold comparator
//! for allocation statistics.

pub mod allocator;
pub mod compare;
pub mod measure;

use vstd::prelude::*;

use self::allocator::TracingAllocator;
use self::measure::MemoryTracingHooks;

verus! {

/// Relies on `std::alloc::System` being an opaque handle type: declaring it
/// lets it stand in the default wrapper's signature; nothing is assumed of
/// its values.
#[verifier::external_type_specification]
#[verifier::external_body]
pub struct ExSystem(std::alloc::System);

/// Relies on `std::alloc::System`: the handle to the operating system's
/// allocator is a stateless unit struct, named here to build the default
/// wrapper.
#[verifier::external_body]
fn system_allocator() -> (r: std::alloc::System) {
    std::alloc::System
}

/// The default instrumented allocator: the system allocator wrapped with the
/// memory-tracing hook set.
pub fn default_tracing_allocator() -> (r: TracingAllocator<MemoryTracingHooks, std::alloc::System>)
    ensures
        r.1 == (MemoryTracingHooks),
{
    TracingAllocator::new(MemoryTracingHooks, system_allocator())
}

} // verus!
