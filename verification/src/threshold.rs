//! Numeric tolerance policies and the threshold-comparison algebra that turns
//! a measured value plus a baseline value into a pass/fail verdict.

use vstd::prelude::*;

verus! {

/// Tolerance policy for how much a measured value may grow over its baseline.
///
/// `Unlimited` accepts every value; `Cap` allows growth up to an absolute slack;
/// `Ratio` allows relative growth up to the fraction `numerator / denominator`
/// of the baseline, decided by exact rational arithmetic.
#[derive(Debug, Clone, Copy, PartialEq, Eq, Structural)]
pub enum Threshold {
    Unlimited,
    Cap(u64),
    Ratio(u64, u64),
}

/// The exact pass condition of a `Cap` threshold: the value may exceed the
/// baseline by at most `cap`; a value at or below the baseline always passes.
pub open spec fn cap_passes(cap: int, value: int, ref_value: int) -> bool {
    value <= ref_value + cap
}

/// The exact pass condition of a `Ratio` threshold: a value at or below the
/// baseline always passes; above a positive baseline the relative growth
/// `(value - ref_value) / ref_value` must not exceed `numer / denom`, compared
/// exactly as `(value - ref_value) * denom <= numer * ref_value`; any growth
/// over a zero baseline fails, whatever the ratio.
pub open spec fn ratio_passes(numer: int, denom: int, value: int, ref_value: int) -> bool {
    ||| value <= ref_value
    ||| (ref_value > 0 && (value - ref_value) * denom <= numer * ref_value)
}

/// What it means for a value to pass a threshold check against a baseline.
pub open spec fn threshold_passes(t: Threshold, value: int, ref_value: int) -> bool {
    match t {
        Threshold::Unlimited => true,
        Threshold::Cap(cap) => cap_passes(cap as int, value, ref_value),
        Threshold::Ratio(numer, denom) => ratio_passes(
            numer as int,
            denom as int,
            value,
            ref_value,
        ),
    }
}

/// A violation report: the threshold that was violated together with the
/// observed value and the baseline value it was compared against.
#[derive(Debug, Clone, Copy, PartialEq, Eq, Structural)]
pub struct ThresholdError {
    pub limit: Threshold,
    pub value: u64,
    pub ref_value: u64,
}

impl Default for Threshold {
    /// The neutral threshold: every check passes.
    fn default() -> (r: Self)
        ensures
            r == Threshold::Unlimited,
    {
        Threshold::Unlimited
    }
}

impl Threshold {
    /// An absolute-slack tolerance of `cap`.
    pub fn cap(cap: u64) -> (r: Self)
        ensures
            r == Threshold::Cap(cap),
    {
        Threshold::Cap(cap)
    }

    /// A relative-slack tolerance of `numer / denom`. A ratio with a zero
    /// denominator is not a rational number and cannot be constructed.
    pub fn ratio(numer: u64, denom: u64) -> (r: Self)
        requires
            denom > 0,
        ensures
            r == Threshold::Ratio(numer, denom),
    {
        Threshold::Ratio(numer, denom)
    }

    fn check_cap(cap: &u64, value: &u64, ref_value: &u64) -> (r: bool)
        ensures
            r == cap_passes(*cap as int, *value as int, *ref_value as int),
    {
        (*value as u128) <= (*ref_value as u128) + (*cap as u128)
    }

    fn check_ratio(numer: &u64, denom: &u64, value: &u64, ref_value: &u64) -> (r: bool)
        ensures
            r == ratio_passes(*numer as int, *denom as int, *value as int, *ref_value as int),
    {
        if *value <= *ref_value {
            true
        } else if *ref_value == 0 {
            false
        } else {
            let growth: u128 = (*value - *ref_value) as u128;
            proof {
                assert(growth * (*denom as u128) <= u128::MAX && (*numer as u128) * (*ref_value
                    as u128) <= u128::MAX) by (nonlinear_arith)
                    requires
                        growth <= u64::MAX && *denom <= u64::MAX && *numer <= u64::MAX && *ref_value
                            <= u64::MAX,
                ;
            }
            let allowed_num: u128 = (*numer as u128) * (*ref_value as u128);
            let scaled_growth: u128 = growth * (*denom as u128);
            scaled_growth <= allowed_num
        }
    }

    /// Checks `value` against `ref_value` under this tolerance. Returns the
    /// violation, carrying the threshold and both values, exactly when the
    /// pass condition does not hold.
    pub fn check(&self, value: &u64, ref_value: &u64) -> (r: Result<(), ThresholdError>)
        ensures
            r is Ok <==> threshold_passes(*self, *value as int, *ref_value as int),
            r matches Err(e) ==> e == (ThresholdError {
                limit: *self,
                value: *value,
                ref_value: *ref_value,
            }),
    {
        let passed = match self {
            Threshold::Unlimited => true,
            Threshold::Cap(cap) => Self::check_cap(cap, value, ref_value),
            Threshold::Ratio(numer, denom) => Self::check_ratio(numer, denom, value, ref_value),
        };
        if passed {
            Ok(())
        } else {
            Err(ThresholdError { limit: *self, value: *value, ref_value: *ref_value })
        }
    }
}

/// Law: under a `Cap` tolerance, a value at or below the baseline passes for
/// every cap; the baseline plus the cap itself still passes; one unit more
/// fails.
pub proof fn lemma_cap_boundary(cap: u64, value: u64, ref_value: u64)
    ensures
        value <= ref_value ==> threshold_passes(
            Threshold::Cap(cap),
            value as int,
            ref_value as int,
        ),
        threshold_passes(Threshold::Cap(cap), ref_value + cap, ref_value as int),
        !threshold_passes(Threshold::Cap(cap), ref_value + cap + 1, ref_value as int),
{
}

/// Law: against a positive baseline, a `Ratio` check passes exactly when
/// `(value - ref_value) * denom <= numer * ref_value`, the exact rational
/// comparison of the relative growth against `numer / denom`.
pub proof fn lemma_ratio_exact_rational(numer: u64, denom: u64, value: u64, ref_value: u64)
    requires
        ref_value > 0,
    ensures
        threshold_passes(Threshold::Ratio(numer, denom), value as int, ref_value as int) <==> (
        value - ref_value) * (denom as int) <= (numer as int) * (ref_value as int),
{
    if value <= ref_value {
        assert((value - ref_value) * (denom as int) <= 0) by (nonlinear_arith)
            requires
                value <= ref_value,
                denom >= 0,
        ;
        assert(0 <= (numer as int) * (ref_value as int)) by (nonlinear_arith)
            requires
                numer >= 0,
                ref_value >= 0,
        ;
    }
}

/// Law: a `Ratio` threshold over a zero baseline fails for every positive
/// value, whatever the ratio: growth from nothing is unbounded relative
/// growth.
pub proof fn lemma_ratio_zero_baseline(numer: u64, denom: u64, value: u64)
    requires
        value > 0,
    ensures
        !threshold_passes(Threshold::Ratio(numer, denom), value as int, 0),
{
}

/// A policy that decides whether a measured value passes against a baseline
/// value of the same shape.
pub trait ThresholdFor<T> {
    type Error;

    /// The exact pass condition that `check_threshold` decides.
    spec fn spec_passes(&self, value: T, ref_value: T) -> bool;

    fn check_threshold(&self, value: &T, ref_value: &T) -> (r: Result<(), Self::Error>)
        ensures
            r is Ok <==> self.spec_passes(*value, *ref_value),
    ;
}

impl ThresholdFor<u64> for Threshold {
    type Error = ThresholdError;

    open spec fn spec_passes(&self, value: u64, ref_value: u64) -> bool {
        threshold_passes(*self, value as int, ref_value as int)
    }

    fn check_threshold(&self, value: &u64, ref_value: &u64) -> (r: Result<(), ThresholdError>) {
        self.check(value, ref_value)
    }
}

/// Runs the measurement closure once and checks the measured value against
/// `ref_value`; hands the value back when it passes, the policy's violation
/// when it does not.
pub fn check_threshold<F: Fn() -> T, H: ThresholdFor<T>, T>(
    f: F,
    ref_value: &T,
    threshold: H,
) -> (r: Result<T, H::Error>)
    requires
        f.requires(()),
    ensures
        r matches Ok(v) ==> f.ensures((), v) && threshold.spec_passes(v, *ref_value),
        r is Err ==> exists|v: T| f.ensures((), v) && !threshold.spec_passes(v, *ref_value),
{
    let value = f();
    match threshold.check_threshold(&value, ref_value) {
        Ok(()) => Ok(value),
        Err(e) => Err(e),
    }
}

/// The error kinds that a baseline-backed threshold check can surface: a
/// detected regression (the expected "test failed" outcome), an unreadable
/// baseline record, and a baseline record that exists but cannot be decoded.
#[derive(Debug)]
pub enum CheckThresholdError<E> {
    Regression(E),
    IO(String),
    Decode(String),
}

/// The outcome of reading and decoding a stored baseline record, as reported
/// by the I/O layer that owns the record format.
#[derive(Debug)]
pub enum BaselineRead<T> {
    Loaded(T),
    NotFound,
    Unreadable(String),
    Undecodable(String),
}

/// Decides the outcome of one measurement against the outcome of reading its
/// stored baseline. When no load was requested, or the record is merely
/// missing in non-strict mode, the run establishes a new baseline and passes;
/// a loaded record is compared under `threshold`; every other read outcome
/// surfaces as its own error kind.
pub fn compare_with_baseline<H: ThresholdFor<T>, T>(
    value: &T,
    read: &BaselineRead<T>,
    load_prev: bool,
    strict_compare: bool,
    threshold: &H,
) -> (r: Result<(), CheckThresholdError<H::Error>>)
    ensures
        !load_prev ==> r is Ok,
        load_prev ==> match *read {
            BaselineRead::Loaded(rv) => {
                &&& (r is Ok <==> threshold.spec_passes(*value, rv))
                &&& (!threshold.spec_passes(*value, rv) ==> (r matches Err(
                    CheckThresholdError::Regression(_),
                )))
            },
            BaselineRead::NotFound => if strict_compare {
                r matches Err(CheckThresholdError::IO(_))
            } else {
                r is Ok
            },
            BaselineRead::Unreadable(m) => r matches Err(CheckThresholdError::IO(m2)) && m2@ == m@,
            BaselineRead::Undecodable(m) => r matches Err(CheckThresholdError::Decode(m2)) && m2@
                == m@,
        },
{
    if !load_prev {
        return Ok(());
    }
    match read {
        BaselineRead::Loaded(ref_value) => match threshold.check_threshold(value, ref_value) {
            Ok(()) => Ok(()),
            Err(e) => Err(CheckThresholdError::Regression(e)),
        },
        BaselineRead::NotFound => {
            if strict_compare {
                Err(CheckThresholdError::IO("baseline record not found".to_owned()))
            } else {
                Ok(())
            }
        },
        BaselineRead::Unreadable(m) => Err(CheckThresholdError::IO(m.clone())),
        BaselineRead::Undecodable(m) => Err(CheckThresholdError::Decode(m.clone())),
    }
}

/// How one harness invocation treats the stored baseline: the directory that
/// holds the record, whether the record is loaded and compared against,
/// whether a missing record is an error, and whether the new measurement is
/// saved.
#[derive(Debug)]
pub struct BaselinePlan {
    pub baseline_dir: String,
    pub load_prev: bool,
    pub strict_compare: bool,
    pub save_new: bool,
}

/// Resolves the mutually exclusive three-way configuration choice: load from
/// an explicit directory (strict comparison, no save), save to an explicit
/// directory (no comparison), or use the default directory (no comparison,
/// saving unless baselines are discarded). Returns `None` when more than one
/// option was specified.
pub fn resolve_baseline_plan(
    load_baseline: Option<String>,
    save_baseline: Option<String>,
    discard_baseline: bool,
    default_dir: String,
) -> (r: Option<BaselinePlan>)
    ensures
        match (load_baseline, save_baseline) {
            (Some(d), None) => if discard_baseline {
                r is None
            } else {
                r matches Some(p) && p.baseline_dir@ == d@ && p.load_prev && p.strict_compare
                    && !p.save_new
            },
            (None, Some(d)) => if discard_baseline {
                r is None
            } else {
                r matches Some(p) && p.baseline_dir@ == d@ && !p.load_prev && !p.strict_compare
                    && p.save_new
            },
            (None, None) => r matches Some(p) && p.baseline_dir@ == default_dir@ && !p.load_prev
                && !p.strict_compare && p.save_new == !discard_baseline,
            (Some(_), Some(_)) => r is None,
        },
{
    match (load_baseline, save_baseline, discard_baseline) {
        (Some(dir), None, false) => Some(
            BaselinePlan {
                baseline_dir: dir,
                load_prev: true,
                strict_compare: true,
                save_new: false,
            },
        ),
        (None, Some(dir), false) => Some(
            BaselinePlan {
                baseline_dir: dir,
                load_prev: false,
                strict_compare: false,
                save_new: true,
            },
        ),
        (None, None, discard) => Some(
            BaselinePlan {
                baseline_dir: default_dir,
                load_prev: false,
                strict_compare: false,
                save_new: !discard,
            },
        ),
        _ => None,
    }
}

/// The file that stores the baseline record of the measurement named `id`:
/// the identifier with the record extension, inside `dir`. The identifier is
/// used as the whole file stem.
pub fn baseline_file(dir: &str, id: &str) -> (r: String)
    ensures
        r@ == dir@ + "/"@ + id@ + ".toml"@,
{
    let mut file = dir.to_owned();
    file.append("/");
    file.append(id);
    file.append(".toml");
    file
}

/// Whether a command-line token is a flag: it starts with `-`.
pub open spec fn is_flag_token(s: Seq<char>) -> bool {
    s.len() > 0 && s[0] == '-'
}

/// The number of positional (non-flag) tokens from index `i` up to the first
/// `--` separator.
pub open spec fn positional_count(args: Seq<Seq<char>>, i: int) -> int
    decreases args.len() - i,
{
    if i < 0 || i >= args.len() || args[i] == "--"@ {
        0
    } else {
        (if !is_flag_token(args[i]) {
            1int
        } else {
            0int
        }) + positional_count(args, i + 1)
    }
}

/// Whether the token `--exact` occurs from index `i` up to the first `--`
/// separator.
pub open spec fn has_exact_token(args: Seq<Seq<char>>, i: int) -> bool
    decreases args.len() - i,
{
    if i < 0 || i >= args.len() || args[i] == "--"@ {
        false
    } else {
        args[i] == "--exact"@ || has_exact_token(args, i + 1)
    }
}

fn starts_with_dash(s: &String) -> (r: bool)
    ensures
        r == is_flag_token(s@),
{
    if s.as_str().unicode_len() == 0 {
        false
    } else {
        s.as_str().get_char(0) == '-'
    }
}

/// Scans the arguments of one test-runner invocation (skipping the binary
/// name at index 0 and stopping at the `--` separator that introduces the
/// harness's own options) and reports how many positional test selectors
/// occur and whether `--exact` was passed. A run measures reliably only when
/// exactly one test was selected, exactly.
pub fn scan_test_args(args: &Vec<String>) -> (r: (usize, bool))
    ensures
        r.0 == positional_count(args.deep_view(), 1),
        r.1 == has_exact_token(args.deep_view(), 1),
{
    let ghost v = args.deep_view();
    let sep = "--".to_owned();
    let exact_flag = "--exact".to_owned();
    let mut count: usize = 0;
    let mut exact: bool = false;
    let mut stop: bool = false;
    let mut i: usize = 1;
    proof {
        assert(v.len() == args@.len());
    }
    while !stop && i < args.len()
        invariant
            1 <= i,
            i <= v.len() || i == 1,
            count <= i,
            v == args.deep_view(),
            v.len() == args@.len(),
            sep@ == "--"@,
            exact_flag@ == "--exact"@,
            !stop ==> count + positional_count(v, i as int) == positional_count(v, 1),
            !stop ==> ((exact || has_exact_token(v, i as int)) == has_exact_token(v, 1)),
            stop ==> count == positional_count(v, 1) && exact == has_exact_token(v, 1),
        decreases (if stop {
            0int
        } else {
            1int
        }) + v.len() - i,
    {
        let a: &String = &args[i];
        proof {
            assert(a@ == v[i as int]);
        }
        if a.eq(&sep) {
            stop = true;
        } else {
            if a.eq(&exact_flag) {
                exact = true;
            }
            if !starts_with_dash(a) {
                count = count + 1;
            }
            i = i + 1;
        }
    }
    (count, exact)
}

} // verus!
