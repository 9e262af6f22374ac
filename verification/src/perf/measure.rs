//! Wall-clock measurement: a microsecond instant, an online accumulator for
//! the running moments of duration samples, and the trimmed benchmark loop
//! that feeds it.

use vstd::prelude::*;
use vstd::arithmetic::div_mod::lemma_fundamental_div_mod;

verus! {

/// A point in time, counted in whole microseconds from a fixed origin of the
/// host clock.
#[derive(Debug, Clone, Copy, PartialEq, Eq, PartialOrd, Ord, Hash, Structural)]
pub struct Instant(pub u64);

impl Instant {
    /// The current instant. Relies on `std::time::SystemTime::now`: the
    /// result is the host clock's reading, in whole microseconds after its
    /// epoch (zero for a reading before the epoch); it depends on the moment
    /// of the call, so nothing is promised of it.
    #[verifier::external_body]
    pub fn now() -> Instant {
        let micros = match std::time::SystemTime::now().duration_since(std::time::UNIX_EPOCH) {
            Ok(d) => d.as_micros() as u64,
            Err(_) => 0,
        };
        Instant(micros)
    }

    /// The time elapsed from `earlier` to this instant, in microseconds. An
    /// `earlier` instant that lies after this one has no elapsed time and is
    /// rejected.
    pub fn duration_since(&self, earlier: Instant) -> (r: u64)
        requires
            earlier.0 <= self.0,
        ensures
            r == self.0 - earlier.0,
    {
        self.0 - earlier.0
    }

    /// The microseconds elapsed from this instant to the host clock's
    /// current reading; zero when the clock stands before this instant. The
    /// result follows the clock, so nothing is promised of it.
    pub fn elapsed(&self) -> u64 {
        let now = Instant::now();
        if now.0 >= self.0 {
            now.0 - self.0
        } else {
            0
        }
    }

    /// This instant moved `duration_micros` later; `None` exactly when the
    /// sum leaves the representable range.
    pub fn checked_add(&self, duration_micros: u64) -> (r: Option<Instant>)
        ensures
            r is Some <==> self.0 + duration_micros <= u64::MAX,
            r matches Some(t) ==> t.0 == self.0 + duration_micros,
    {
        if duration_micros <= u64::MAX - self.0 {
            Some(Instant(self.0 + duration_micros))
        } else {
            None
        }
    }

    /// This instant moved `duration_micros` earlier; `None` exactly when the
    /// difference would fall before the origin.
    pub fn checked_sub(&self, duration_micros: u64) -> (r: Option<Instant>)
        ensures
            r is Some <==> duration_micros <= self.0,
            r matches Some(t) ==> t.0 == self.0 - duration_micros,
    {
        if duration_micros <= self.0 {
            Some(Instant(self.0 - duration_micros))
        } else {
            None
        }
    }
}

/// The sum of a sequence of samples.
pub open spec fn sum_seq(s: Seq<int>) -> int
    decreases s.len(),
{
    if s.len() == 0 {
        0
    } else {
        sum_seq(s.drop_last()) + s.last()
    }
}

/// The sum of the squares of a sequence of samples.
pub open spec fn sum_sq_seq(s: Seq<int>) -> int
    decreases s.len(),
{
    if s.len() == 0 {
        0
    } else {
        sum_sq_seq(s.drop_last()) + s.last() * s.last()
    }
}

/// Appending a sample adds it to the sum and its square to the sum of
/// squares.
pub proof fn lemma_sums_push(s: Seq<int>, x: int)
    ensures
        sum_seq(s.push(x)) == sum_seq(s) + x,
        sum_sq_seq(s.push(x)) == sum_sq_seq(s) + x * x,
{
    assert(s.push(x).drop_last() =~= s);
    assert(s.push(x).last() == x);
}

/// Online accumulator for the running moments of a stream of duration
/// samples in microseconds: the sample count, the exact sum, and — while it
/// fits its word — the exact sum of squares. The stream of absorbed samples
/// is kept as a ghost sequence, and the contracts speak of its sums.
pub struct Stats {
    pub n: u64,
    pub sum: u128,
    pub sq: u128,
    pub exact: bool,
    pub samples: Ghost<Seq<int>>,
}

impl View for Stats {
    type V = Seq<int>;

    open spec fn view(&self) -> Seq<int> {
        self.samples@
    }
}

impl Stats {
    /// Well-formedness: the counters agree with the ghost sample stream.
    pub open spec fn wf(self) -> bool {
        &&& self.n == self@.len()
        &&& (forall|i: int| 0 <= i < self@.len() ==> 0 <= #[trigger] self@[i] <= u64::MAX)
        &&& self.sum == sum_seq(self@)
        &&& self.sum <= self.n * (u64::MAX as int)
        &&& (self.exact ==> self.sq == sum_sq_seq(self@))
    }

    /// An empty accumulator.
    pub fn new() -> (r: Self)
        ensures
            r.wf(),
            r@ == Seq::<int>::empty(),
            r.exact,
    {
        Stats { n: 0, sum: 0, sq: 0, exact: true, samples: Ghost(Seq::empty()) }
    }

    /// Absorbs one sample. The count and the sum always absorb it; the sum
    /// of squares follows while it fits its word, after which only the
    /// `exact` flag records that it no longer does.
    pub fn update(&mut self, micros: u64)
        requires
            old(self).wf(),
            old(self).n < u64::MAX,
        ensures
            final(self).wf(),
            final(self)@ == old(self)@.push(micros as int),
            final(self).n == old(self).n + 1,
            final(self).sum == old(self).sum + micros,
            final(self).exact == (old(self).exact && old(self).sq + (micros as int) * (
            micros as int) <= u128::MAX),
            final(self).exact ==> final(self).sq == old(self).sq + (micros as int) * (
            micros as int),
    {
        proof {
            let s0 = old(self).sum as int;
            let n0 = old(self).n as int;
            assert(s0 + micros <= (n0 + 1) * (u64::MAX as int)) by (nonlinear_arith)
                requires
                    s0 <= n0 * (u64::MAX as int),
                    micros <= u64::MAX,
                    n0 >= 0,
            ;
            assert((micros as u128) * (micros as u128) <= u128::MAX) by (nonlinear_arith)
                requires
                    micros <= u64::MAX,
            ;
            lemma_sums_push(old(self)@, micros as int);
        }
        self.n = self.n + 1;
        self.sum = self.sum + (micros as u128);
        let square: u128 = (micros as u128) * (micros as u128);
        if self.exact {
            if square <= u128::MAX - self.sq {
                self.sq = self.sq + square;
            } else {
                self.exact = false;
            }
        }
        self.samples = Ghost(self.samples@.push(micros as int));
    }

    /// The number of absorbed samples.
    pub fn count(&self) -> (r: u64)
        requires
            self.wf(),
        ensures
            r == self@.len(),
    {
        self.n
    }

    /// The mean of the absorbed samples, in whole microseconds: the exact
    /// rational mean rounded toward zero.
    pub fn mean_micros(&self) -> (r: u64)
        requires
            self.wf(),
            self@.len() > 0,
        ensures
            r == sum_seq(self@) / (self@.len() as int),
    {
        proof {
            assert(self.sum / (self.n as u128) <= u64::MAX) by (nonlinear_arith)
                requires
                    self.sum <= self.n * (u64::MAX as int),
                    self.n > 0,
            ;
        }
        (self.sum / (self.n as u128)) as u64
    }
}

/// The sum of squared distances of the samples from the point `x`.
pub open spec fn sum_dist_sq(s: Seq<int>, x: int) -> int
    decreases s.len(),
{
    if s.len() == 0 {
        0
    } else {
        sum_dist_sq(s.drop_last(), x) + (x - s.last()) * (x - s.last())
    }
}

proof fn lemma_sum_dist_sq_nonneg(s: Seq<int>, x: int)
    ensures
        sum_dist_sq(s, x) >= 0,
    decreases s.len(),
{
    if s.len() > 0 {
        lemma_sum_dist_sq_nonneg(s.drop_last(), x);
        let a = s.last();
        assert((x - a) * (x - a) >= 0) by (nonlinear_arith);
    }
}

proof fn lemma_sum_dist_sq_expand(s: Seq<int>, x: int)
    ensures
        sum_dist_sq(s, x) == s.len() * (x * x) - 2 * x * sum_seq(s) + sum_sq_seq(s),
    decreases s.len(),
{
    if s.len() > 0 {
        let d = s.drop_last();
        let a = s.last();
        lemma_sum_dist_sq_expand(d, x);
        let len_d = d.len() as int;
        let sd = sum_dist_sq(d, x);
        let s1 = sum_seq(d);
        let s2 = sum_sq_seq(d);
        assert(sd + (x - a) * (x - a) == (len_d + 1) * (x * x) - 2 * x * (s1 + a) + (s2 + a * a))
            by (nonlinear_arith)
            requires
                sd == len_d * (x * x) - 2 * x * s1 + s2,
        ;
    }
}

/// Law: for every sample stream, the count times the sum of squares is at
/// least the square of the sum, so the population variance is never
/// negative.
pub proof fn lemma_variance_nonneg(s: Seq<int>)
    ensures
        s.len() * sum_sq_seq(s) - sum_seq(s) * sum_seq(s) >= 0,
    decreases s.len(),
{
    if s.len() > 0 {
        let d = s.drop_last();
        let a = s.last();
        lemma_variance_nonneg(d);
        lemma_sum_dist_sq_expand(d, a);
        lemma_sum_dist_sq_nonneg(d, a);
        let len_d = d.len() as int;
        let s1 = sum_seq(d);
        let s2 = sum_sq_seq(d);
        let dist = sum_dist_sq(d, a);
        assert((len_d + 1) * (s2 + a * a) - (s1 + a) * (s1 + a) == (len_d * s2 - s1 * s1) + dist)
            by (nonlinear_arith)
            requires
                dist == len_d * (a * a) - 2 * a * s1 + s2,
        ;
    }
}

impl Stats {
    /// The population variance of the absorbed samples as an exact rational:
    /// the numerator `count * sum_of_squares - sum^2` and the denominator
    /// `count^2`. `None` when no sample was absorbed, when the sum of
    /// squares no longer fits its word, or when the numerator's first term
    /// does not fit its word.
    pub fn variance_parts(&self) -> (r: Option<(u128, u128)>)
        requires
            self.wf(),
        ensures
            r matches Some(v) ==> ({
                &&& self.exact
                &&& self@.len() > 0
                &&& v.0 == (self@.len() as int) * sum_sq_seq(self@) - sum_seq(self@) * sum_seq(
                    self@,
                )
                &&& v.1 == (self@.len() as int) * (self@.len() as int)
            }),
            (self.exact && self@.len() > 0 && (self@.len() as int) * sum_sq_seq(self@)
                <= u128::MAX) ==> r is Some,
    {
        if !self.exact || self.n == 0 {
            return None;
        }
        let n_wide: u128 = self.n as u128;
        if self.sq > 0 && n_wide > u128::MAX / self.sq {
            proof {
                lemma_fundamental_div_mod(u128::MAX as int, self.sq as int);
                assert(n_wide * self.sq > u128::MAX) by (nonlinear_arith)
                    requires
                        u128::MAX as int == (self.sq as int) * ((u128::MAX as int) / (
                        self.sq as int)) + (u128::MAX as int) % (self.sq as int),
                        0 <= (u128::MAX as int) % (self.sq as int) < self.sq as int,
                        n_wide > (u128::MAX as int) / (self.sq as int),
                        self.sq > 0,
                ;
            }
            return None;
        }
        proof {
            if self.sq > 0 {
                lemma_fundamental_div_mod(u128::MAX as int, self.sq as int);
                assert(n_wide * self.sq <= u128::MAX) by (nonlinear_arith)
                    requires
                        u128::MAX as int == (self.sq as int) * ((u128::MAX as int) / (
                        self.sq as int)) + (u128::MAX as int) % (self.sq as int),
                        0 <= (u128::MAX as int) % (self.sq as int) < self.sq as int,
                        n_wide <= (u128::MAX as int) / (self.sq as int),
                        self.sq > 0,
                ;
            } else {
                assert(n_wide * self.sq == 0) by (nonlinear_arith)
                    requires
                        self.sq == 0,
                ;
            }
            lemma_variance_nonneg(self@);
            assert(n_wide * n_wide <= u128::MAX) by (nonlinear_arith)
                requires
                    n_wide <= u64::MAX,
            ;
        }
        let nsq: u128 = n_wide * self.sq;
        let square_of_sum: u128 = self.sum * self.sum;
        let num: u128 = nsq - square_of_sum;
        let den: u128 = n_wide * n_wide;
        Some((num, den))
    }
}

/// The sample stream of the deterministic sequence `1, 2, ..., n` seconds,
/// in microseconds.
pub open spec fn seconds_ramp(n: nat) -> Seq<int> {
    Seq::new(n, |i: int| (i + 1) * 1_000_000)
}

proof fn lemma_seconds_ramp_sums(n: nat)
    ensures
        sum_seq(seconds_ramp(n)) == 500_000 * n * (n + 1),
        6 * sum_sq_seq(seconds_ramp(n)) == 1_000_000_000_000 * (n as int) * (n + 1) * (2 * n + 1),
    decreases n,
{
    if n == 0 {
        assert(seconds_ramp(0).len() == 0);
    } else {
        let m = (n - 1) as nat;
        lemma_seconds_ramp_sums(m);
        assert(seconds_ramp(n).drop_last() =~= seconds_ramp(m));
        let a = seconds_ramp(n).last();
        assert(a == (n as int) * 1_000_000) by (nonlinear_arith)
            requires
                a == ((n - 1) + 1) * 1_000_000,
        ;
        let s1 = sum_seq(seconds_ramp(m));
        let s2 = sum_sq_seq(seconds_ramp(m));
        assert(s1 + a == 500_000 * (n as int) * (n + 1)) by (nonlinear_arith)
            requires
                s1 == 500_000 * (m as int) * (m + 1),
                a == (n as int) * 1_000_000,
                n == m + 1,
        ;
        assert(6 * (s2 + a * a) == 1_000_000_000_000 * (n as int) * (n + 1) * (2 * n + 1))
            by (nonlinear_arith)
            requires
                6 * s2 == 1_000_000_000_000 * (m as int) * (m + 1) * (2 * m + 1),
                a == (n as int) * 1_000_000,
                n == m + 1,
        ;
    }
}

/// Law: an accumulator fed the deterministic sequence `1, 2, ..., n` seconds
/// has the exact mean `(n + 1) / 2` seconds — `500_000 * (n + 1)` whole
/// microseconds — and its population variance equals the closed form
/// `(n^2 - 1) / 12` square seconds exactly, stated here cleared of
/// denominators in square microseconds.
pub proof fn lemma_ramp_moments(n: nat)
    requires
        n >= 1,
    ensures
        sum_seq(seconds_ramp(n)) == 500_000 * n * (n + 1),
        sum_seq(seconds_ramp(n)) / (n as int) == 500_000 * (n + 1),
        12 * ((n as int) * sum_sq_seq(seconds_ramp(n)) - sum_seq(seconds_ramp(n)) * sum_seq(
            seconds_ramp(n),
        )) == 1_000_000_000_000 * (n as int) * (n as int) * ((n as int) * (n as int) - 1),
{
    lemma_seconds_ramp_sums(n);
    let s1 = sum_seq(seconds_ramp(n));
    let s2 = sum_sq_seq(seconds_ramp(n));
    assert(s1 / (n as int) == 500_000 * (n + 1)) by (nonlinear_arith)
        requires
            s1 == 500_000 * (n as int) * (n + 1),
            n >= 1,
    ;
    assert(12 * ((n as int) * s2 - s1 * s1) == 1_000_000_000_000 * (n as int) * (n as int) * ((
    n as int) * (n as int) - 1)) by (nonlinear_arith)
        requires
            s1 == 500_000 * (n as int) * (n + 1),
            6 * s2 == 1_000_000_000_000 * (n as int) * (n + 1) * (2 * n + 1),
    ;
}

/// Law: an accumulator that absorbed exactly the deterministic sequence
/// `1, 2, ..., n` seconds reports the mean `500_000 * (n + 1)` microseconds
/// — that is, `(n + 1) / 2` seconds — and its variance numerator and
/// denominator satisfy the closed form `(n^2 - 1) / 12` square seconds
/// exactly.
pub proof fn lemma_stats_of_ramp(st: Stats, n: nat)
    requires
        st.wf(),
        st@ == seconds_ramp(n),
        n >= 1,
    ensures
        sum_seq(st@) / (st@.len() as int) == 500_000 * (n + 1),
        12 * ((st@.len() as int) * sum_sq_seq(st@) - sum_seq(st@) * sum_seq(st@)) == (n as int) * (
        n as int) * ((n as int) * (n as int) - 1) * 1_000_000_000_000,
{
    lemma_ramp_moments(n);
    assert(st@.len() == n);
    let k = (n as int) * (n as int);
    assert(1_000_000_000_000 * (n as int) * (n as int) * (k - 1) == (n as int) * (n as int) * (k
        - 1) * 1_000_000_000_000) by (nonlinear_arith);
}

/// Statistics of a timed benchmark run: the mean duration of the measured
/// iterations, in whole microseconds.
#[derive(Debug, Clone, Copy, PartialEq, Eq, Structural)]
pub struct PerfStats {
    pub mean: u64,
}

impl Default for PerfStats {
    /// A zero mean.
    fn default() -> (r: Self)
        ensures
            r == (PerfStats { mean: 0 }),
    {
        PerfStats { mean: 0 }
    }
}

impl PerfStats {
    /// The summary of an accumulator that absorbed at least one sample: its
    /// mean rounded to whole microseconds.
    pub fn from_stats(stats: &Stats) -> (r: PerfStats)
        requires
            stats.wf(),
            stats@.len() > 0,
        ensures
            r.mean == sum_seq(stats@) / (stats@.len() as int),
    {
        PerfStats { mean: stats.mean_micros() }
    }
}

/// The time one run of `f` takes, in whole microseconds by the host clock;
/// zero when the clock does not advance. The result follows the clock, so
/// nothing is promised of it.
pub fn duration_of<F: Fn() -> O, O>(f: F) -> u64
    requires
        f.requires(()),
{
    let then = Instant::now();
    let _o = f();
    let now = Instant::now();
    if now.0 >= then.0 {
        now.0 - then.0
    } else {
        0
    }
}

/// How many timing samples the trimmed window has absorbed after `i` of
/// `iters` iterations, when the first and last `wu_cd` samples are
/// discarded.
pub open spec fn trimmed_count(i: int, wu_cd: int, iters: int) -> int {
    if i <= wu_cd {
        0
    } else if i <= iters - wu_cd {
        i - wu_cd
    } else {
        iters - 2 * wu_cd
    }
}

/// Runs `f` for `iters` timed iterations, discards the first and the last
/// `wu_cd_iters` samples as warm-up and cool-down, and feeds the remaining
/// samples to a moments accumulator; the result carries the trimmed mean in
/// whole microseconds. The iteration budget must leave a non-empty trimmed
/// window that warm-up does not dominate.
pub fn bench_internal<O, F: Fn() -> O>(iters: usize, wu_cd_iters: usize, f: F) -> (r: PerfStats)
    requires
        f.requires(()),
        iters >= 20,
        wu_cd_iters >= 1,
        iters / wu_cd_iters > 3,
{
    proof {
        lemma_fundamental_div_mod(iters as int, wu_cd_iters as int);
        assert(4 * wu_cd_iters <= iters) by (nonlinear_arith)
            requires
                iters == wu_cd_iters * (iters as int / wu_cd_iters as int) + (iters as int
                    % wu_cd_iters as int),
                iters as int / wu_cd_iters as int >= 4,
                iters as int % wu_cd_iters as int >= 0,
                wu_cd_iters >= 1,
        ;
    }
    let mut stats = Stats::new();
    let mut i: usize = 0;
    while i < iters
        invariant
            f.requires(()),
            iters >= 20,
            wu_cd_iters >= 1,
            4 * wu_cd_iters <= iters,
            i <= iters,
            stats.wf(),
            stats@.len() == trimmed_count(i as int, wu_cd_iters as int, iters as int),
        decreases iters - i,
    {
        let time = duration_of(&f);
        if i >= wu_cd_iters && i < iters - wu_cd_iters {
            stats.update(time);
        }
        i = i + 1;
    }
    PerfStats::from_stats(&stats)
}

/// Times `f` under the default iteration budget: twenty iterations, of which
/// the first five and the last five are discarded as warm-up and cool-down.
pub fn bench<O, F: Fn() -> O>(f: F) -> PerfStats
    requires
        f.requires(()),
{
    bench_internal(20, 5, f)
}

/// Times `f` for a caller-chosen number of iterations, discarding a tenth of
/// them at each end as warm-up and cool-down. Fewer than twenty iterations
/// cannot produce a trustworthy trimmed mean and are rejected.
pub fn bench_iters<O, F: Fn() -> O>(iters: usize, f: F) -> PerfStats
    requires
        f.requires(()),
        iters >= 20,
{
    proof {
        lemma_fundamental_div_mod(iters as int, 10);
        let wu = iters as int / 10;
        lemma_fundamental_div_mod(iters as int, wu);
        assert(iters as int / wu > 3) by (nonlinear_arith)
            requires
                iters == 10 * (iters as int / 10) + (iters as int % 10),
                0 <= iters as int % 10 < 10,
                iters >= 20,
                wu == iters as int / 10,
                iters == wu * (iters as int / wu) + (iters as int % wu),
                0 <= iters as int % wu < wu,
        ;
    }
    bench_internal(iters, iters / 10, f)
}

} // verus!
