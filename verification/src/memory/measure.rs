//! Allocation statistics and the process-wide trace session that accumulates
//! them while allocator hooks fire.

use vstd::prelude::*;

verus! {

/// A snapshot of allocation activity observed during one recording window:
/// the bytes live now, the highest level ever observed, the total bytes and
/// number of claimed regions, and the number of reallocation events.
#[derive(Debug, Clone, Copy, PartialEq, Eq, Structural)]
pub struct MemoryStats {
    pub current: usize,
    pub peak: usize,
    pub total_size: usize,
    pub total_num: usize,
    pub reallocs: usize,
}

impl Default for MemoryStats {
    /// The all-zero statistics of a freshly opened recording window.
    fn default() -> (r: Self)
        ensures
            r == MemoryStats::spec_zero(),
    {
        MemoryStats { current: 0, peak: 0, total_size: 0, total_num: 0, reallocs: 0 }
    }
}

impl MemoryStats {
    /// The all-zero statistics.
    pub open spec fn spec_zero() -> MemoryStats {
        MemoryStats { current: 0, peak: 0, total_size: 0, total_num: 0, reallocs: 0 }
    }

    /// Well-formedness: the level of live bytes never exceeds the recorded
    /// peak.
    pub open spec fn wf(self) -> bool {
        self.current <= self.peak
    }

    /// Whether the counters can absorb an allocation of `size` bytes without
    /// arithmetic overflow.
    pub open spec fn can_alloc(self, size: usize) -> bool {
        &&& self.current + size <= usize::MAX
        &&& self.total_size + size <= usize::MAX
        &&& self.total_num + 1 <= usize::MAX
    }

    /// The transition one allocation of `size` bytes makes on the counters:
    /// the live level and the totals grow, and the peak follows the level.
    pub open spec fn spec_alloc(self, size: usize) -> MemoryStats
        recommends
            self.can_alloc(size),
    {
        let current = (self.current + size) as usize;
        MemoryStats {
            current,
            peak: if current > self.peak {
                current
            } else {
                self.peak
            },
            total_size: (self.total_size + size) as usize,
            total_num: (self.total_num + 1) as usize,
            reallocs: self.reallocs,
        }
    }

    /// The transition one deallocation of `size` bytes makes: the live level
    /// shrinks, saturating at zero; nothing else changes.
    pub open spec fn spec_dealloc(self, size: usize) -> MemoryStats {
        MemoryStats {
            current: if self.current >= size {
                (self.current - size) as usize
            } else {
                0
            },
            peak: self.peak,
            total_size: self.total_size,
            total_num: self.total_num,
            reallocs: self.reallocs,
        }
    }

    /// The counters with one more reallocation event.
    pub open spec fn spec_bump_reallocs(self) -> MemoryStats
        recommends
            self.reallocs + 1 <= usize::MAX,
    {
        MemoryStats {
            current: self.current,
            peak: self.peak,
            total_size: self.total_size,
            total_num: self.total_num,
            reallocs: (self.reallocs + 1) as usize,
        }
    }

    /// Whether the counters can absorb one reallocation of a region of
    /// `old_size` bytes to `new_size` bytes without arithmetic overflow.
    pub open spec fn can_realloc(self, old_size: usize, new_size: usize) -> bool {
        &&& self.reallocs + 1 <= usize::MAX
        &&& self.spec_bump_reallocs().spec_dealloc(old_size).can_alloc(new_size)
    }

    /// The transition one reallocation makes: one reallocation event, then a
    /// deallocation of the old size, then an allocation of the new size, in
    /// that order — also when the region was resized in place, so the totals
    /// count claimed memory, not distinct live regions.
    pub open spec fn spec_realloc(self, old_size: usize, new_size: usize) -> MemoryStats
        recommends
            self.can_realloc(old_size, new_size),
    {
        self.spec_bump_reallocs().spec_dealloc(old_size).spec_alloc(new_size)
    }

    /// Records one allocation of `size` bytes.
    pub fn record_alloc(&mut self, size: usize)
        requires
            old(self).can_alloc(size),
        ensures
            *final(self) == old(self).spec_alloc(size),
    {
        self.current = self.current + size;
        self.total_size = self.total_size + size;
        self.total_num = self.total_num + 1;
        if self.current > self.peak {
            self.peak = self.current;
        }
    }

    /// Records one deallocation of `size` bytes; a level smaller than `size`
    /// saturates at zero and never underflows.
    pub fn record_dealloc(&mut self, size: usize)
        ensures
            *final(self) == old(self).spec_dealloc(size),
    {
        if self.current >= size {
            self.current = self.current - size;
        } else {
            self.current = 0;
        }
    }

    /// Records one zero-initialised allocation: it counts exactly as an
    /// allocation; only the underlying allocation primitive differs.
    pub fn record_alloc_zeroed(&mut self, size: usize)
        requires
            old(self).can_alloc(size),
        ensures
            *final(self) == old(self).spec_alloc(size),
    {
        self.record_alloc(size);
    }

    /// Records one reallocation from `old_size` to `new_size` bytes.
    pub fn record_realloc(&mut self, old_size: usize, new_size: usize)
        requires
            old(self).can_realloc(old_size, new_size),
        ensures
            *final(self) == old(self).spec_realloc(old_size, new_size),
    {
        self.reallocs = self.reallocs + 1;
        self.record_dealloc(old_size);
        self.record_alloc(new_size);
    }
}

/// Law: the invariant `current <= peak` holds of the zero statistics and is
/// preserved by every counter transition.
pub proof fn lemma_transitions_preserve_wf(
    s: MemoryStats,
    size: usize,
    old_size: usize,
    new_size: usize,
)
    ensures
        MemoryStats::spec_zero().wf(),
        s.wf() && s.can_alloc(size) ==> s.spec_alloc(size).wf(),
        s.wf() ==> s.spec_dealloc(size).wf(),
        s.wf() && s.can_realloc(old_size, new_size) ==> s.spec_realloc(old_size, new_size).wf(),
{
}

/// Law: a recording window that sees a single allocation of `size` bytes
/// followed by its deallocation reports no live bytes, a peak of `size`, a
/// total of `size` claimed bytes in one region, and no reallocations.
pub proof fn lemma_single_alloc_then_dealloc(size: usize)
    ensures
        MemoryStats::spec_zero().spec_alloc(size).spec_dealloc(size) == (MemoryStats {
            current: 0,
            peak: size,
            total_size: size,
            total_num: 1,
            reallocs: 0,
        }),
{
}

/// Law: a recording window that sees one allocation of `s1` bytes and then
/// one reallocation of that region to `s2` bytes reports `s2` live bytes, a
/// peak of the larger of the two sizes, `s1 + s2` total claimed bytes, and
/// one reallocation. The reallocation is accounted as a deallocation plus a
/// fresh allocation, so the total number of claimed regions is two.
pub proof fn lemma_single_alloc_then_realloc(s1: usize, s2: usize)
    requires
        s1 + s2 <= usize::MAX,
    ensures
        MemoryStats::spec_zero().spec_alloc(s1).spec_realloc(s1, s2) == (MemoryStats {
            current: s2,
            peak: if s2 > s1 {
                s2
            } else {
                s1
            },
            total_size: (s1 + s2) as usize,
            total_num: 2,
            reallocs: 1,
        }),
{
}

/// The process-wide recording slot: an idle/recording flag together with the
/// statistics accumulated while recording. The harness owns exactly one
/// station per process; the instrumented allocator drives it through the
/// hook methods, which are no-ops while no session is recording, because the
/// instrumentation fires for unrelated allocator activity too.
#[derive(Debug, Clone, Copy, PartialEq, Eq, Structural)]
pub struct TraceStation {
    pub recording: bool,
    pub stats: MemoryStats,
}

impl TraceStation {
    /// What an attempt to acquire the recording slot does: while a session is
    /// already recording it changes nothing and does not acquire; otherwise
    /// it acquires and leaves the accumulator untouched, since `stop` is the
    /// sole point that resets it.
    pub open spec fn spec_try_start(self) -> (TraceStation, bool) {
        if self.recording {
            (self, false)
        } else {
            (TraceStation { recording: true, stats: self.stats }, true)
        }
    }

    /// What releasing the slot does: the accumulated statistics are taken and
    /// replaced by the zero statistics, and the slot becomes idle.
    pub open spec fn spec_stop(self) -> (TraceStation, MemoryStats) {
        (TraceStation { recording: false, stats: MemoryStats::spec_zero() }, self.stats)
    }

    /// An idle station with zeroed statistics.
    pub fn new() -> (r: TraceStation)
        ensures
            !r.recording,
            r.stats == MemoryStats::spec_zero(),
    {
        TraceStation { recording: false, stats: MemoryStats::default() }
    }

    /// Attempts to acquire the recording slot; acquisition succeeds exactly
    /// when no session is recording. A caller that must record spins on this
    /// until it acquires.
    pub fn try_start(&mut self) -> (acquired: bool)
        ensures
            (*final(self), acquired) == old(self).spec_try_start(),
    {
        if self.recording {
            false
        } else {
            self.recording = true;
            true
        }
    }

    /// Releases the slot unconditionally and takes the snapshot, leaving the
    /// accumulator zeroed for the next session.
    pub fn stop(&mut self) -> (snapshot: MemoryStats)
        ensures
            (*final(self), snapshot) == old(self).spec_stop(),
    {
        let snapshot = self.stats;
        self.stats = MemoryStats::default();
        self.recording = false;
        snapshot
    }

    /// Hook: one allocation. Mutates the counters only while recording.
    pub fn on_alloc(&mut self, size: usize)
        requires
            old(self).recording ==> old(self).stats.can_alloc(size),
        ensures
            final(self).recording == old(self).recording,
            final(self).stats == if old(self).recording {
                old(self).stats.spec_alloc(size)
            } else {
                old(self).stats
            },
    {
        if self.recording {
            self.stats.record_alloc(size);
        }
    }

    /// Hook: one deallocation. Mutates the counters only while recording.
    pub fn on_dealloc(&mut self, size: usize)
        ensures
            final(self).recording == old(self).recording,
            final(self).stats == if old(self).recording {
                old(self).stats.spec_dealloc(size)
            } else {
                old(self).stats
            },
    {
        if self.recording {
            self.stats.record_dealloc(size);
        }
    }

    /// Hook: one zero-initialised allocation; identical to `on_alloc`.
    pub fn on_alloc_zeroed(&mut self, size: usize)
        requires
            old(self).recording ==> old(self).stats.can_alloc(size),
        ensures
            final(self).recording == old(self).recording,
            final(self).stats == if old(self).recording {
                old(self).stats.spec_alloc(size)
            } else {
                old(self).stats
            },
    {
        if self.recording {
            self.stats.record_alloc_zeroed(size);
        }
    }

    /// Hook: one reallocation. Mutates the counters only while recording.
    pub fn on_realloc(&mut self, old_size: usize, new_size: usize)
        requires
            old(self).recording ==> old(self).stats.can_realloc(old_size, new_size),
        ensures
            final(self).recording == old(self).recording,
            final(self).stats == if old(self).recording {
                old(self).stats.spec_realloc(old_size, new_size)
            } else {
                old(self).stats
            },
    {
        if self.recording {
            self.stats.record_realloc(old_size, new_size);
        }
    }
}

/// Marker for the hook set that feeds the process-wide trace station. The
/// operational hook implementation — the one the instrumented global
/// allocator calls, which forwards each event to the station owned by the
/// embedding program — lives with that program, since it needs process-wide
/// mutable state; the counter transitions it drives are the `TraceStation`
/// methods above.
#[derive(Debug, Clone, Copy, PartialEq, Eq, Structural)]
pub struct MemoryTracingHooks;

/// Law: recording windows are serialized. While one session is recording, an
/// attempt to start a second one does not acquire the slot and observes no
/// state change, so the second caller keeps retrying; only `stop` clears the
/// flag (the hook transitions above all preserve it), and right after `stop`
/// an attempt acquires the slot. No two recording windows ever overlap.
pub proof fn lemma_sessions_serialized(s: TraceStation)
    requires
        s.recording,
    ensures
        !s.spec_try_start().1,
        s.spec_try_start().0 == s,
        !s.spec_stop().0.recording,
        s.spec_stop().0.spec_try_start().1,
{
}

} // verus!
