//! The entry point that times a named piece of code under the default
//! iteration budget.

use vstd::prelude::*;

use super::measure::{bench, PerfStats};

verus! {

/// Times the piece of code named `id` under the default iteration budget
/// and hands back its performance statistics. The identifier names the
/// measurement towards the baseline store; it does not influence the
/// measurement.
pub fn perf_benchmark<F: Fn() -> O, O>(id: &str, f: F) -> (r: PerfStats)
    requires
        f.requires(()),
{
    let _ = id;
    bench(f)
}

} // verus!
