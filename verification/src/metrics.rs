//! Statistics over dive samples.
//!
//! All quantities are integers in fixed units: depth in millimetres,
//! temperature in milli-degrees Celsius, setpoint in millibar, gradient
//! factors in milli-percent, rates in millimetres per minute.  Divisions
//! round toward negative infinity.

use vstd::prelude::*;
use vstd::arithmetic::div_mod::{lemma_div_is_ordered, lemma_div_multiples_vanish,
    lemma_fundamental_div_mod, lemma_fundamental_div_mod_converse};

verus! {

/// Largest accepted sample time offset, in seconds.
pub const MAX_T_SEC: i32 = 500000000;

/// Largest accepted depth magnitude, in millimetres.
pub const MAX_DEPTH_MM: i64 = 10000000;

/// Largest accepted temperature magnitude, in milli-degrees Celsius.
pub const MAX_TEMP_MC: i64 = 1000000;

/// Largest accepted number of samples.
pub const MAX_SAMPLES: usize = 100000000;

/// Classification of dive depth ranges.
#[derive(Debug, Clone, Copy, PartialEq, Eq, Structural)]
pub enum DepthClass {
    /// Up to 18 m: recreational limit.
    Recreational,
    /// 18 m to 40 m: deep recreational.
    Deep,
    /// 40 m to 60 m: extended range / technical.
    Extended,
    /// Beyond 60 m: extreme technical.
    Extreme,
}

/// The class of a maximum depth given in millimetres.
pub open spec fn spec_depth_class(depth_mm: int) -> DepthClass {
    if depth_mm <= 18000 {
        DepthClass::Recreational
    } else if depth_mm <= 40000 {
        DepthClass::Deep
    } else if depth_mm <= 60000 {
        DepthClass::Extended
    } else {
        DepthClass::Extreme
    }
}

/// The display label of a depth class.
pub open spec fn spec_depth_class_label(c: DepthClass) -> Seq<char> {
    match c {
        DepthClass::Recreational => "Recreational"@,
        DepthClass::Deep => "Deep"@,
        DepthClass::Extended => "Extended Range"@,
        DepthClass::Extreme => "Extreme"@,
    }
}

impl DepthClass {
    /// Classify a maximum depth given in millimetres.
    pub fn from_depth_mm(depth_mm: i64) -> (c: DepthClass)
        ensures
            c == spec_depth_class(depth_mm as int),
    {
        if depth_mm <= 18000 {
            DepthClass::Recreational
        } else if depth_mm <= 40000 {
            DepthClass::Deep
        } else if depth_mm <= 60000 {
            DepthClass::Extended
        } else {
            DepthClass::Extreme
        }
    }

    /// The display label of this class.
    pub fn label(&self) -> (s: &'static str)
        ensures
            s@ == spec_depth_class_label(*self),
    {
        match self {
            DepthClass::Recreational => "Recreational",
            DepthClass::Deep => "Deep",
            DepthClass::Extended => "Extended Range",
            DepthClass::Extreme => "Extreme",
        }
    }
}

/// Input data for a dive (the fields statistics need).
#[derive(Debug, Clone)]
pub struct DiveInput {
    /// Start time as a Unix timestamp.
    pub start_time_unix: i64,
    /// End time as a Unix timestamp.
    pub end_time_unix: i64,
    /// Bottom time in seconds, for dives stored without samples.
    pub bottom_time_sec: i32,
}

/// One sample of a dive profile.
#[derive(Debug, Clone, Copy)]
pub struct SampleInput {
    /// Time offset from dive start, in seconds.
    pub t_sec: i32,
    /// Depth in millimetres.
    pub depth_mm: i64,
    /// Temperature in milli-degrees Celsius.
    pub temp_mc: i64,
    /// Rebreather setpoint PPO2 in millibar, if any.
    pub setpoint_ppo2_mbar: Option<i64>,
    /// Decompression ceiling in millimetres, if any.
    pub ceiling_mm: Option<i64>,
    /// GF99 in milli-percent, if any.
    pub gf99_milli: Option<i64>,
    /// Index of the gas mix being breathed, if known.
    pub gasmix_index: Option<i32>,
}

/// Sample times never decrease along the series.
pub open spec fn spec_times_sorted(s: Seq<SampleInput>) -> bool {
    forall|k: int| 0 <= k < s.len() - 1 ==> #[trigger] s[k].t_sec <= s[k + 1].t_sec
}

/// Every sample is within the accepted machine bounds.
pub open spec fn spec_samples_bounded(s: Seq<SampleInput>) -> bool {
    forall|k: int| 0 <= k < s.len() ==> {
        &&& 0 <= #[trigger] s[k].t_sec <= MAX_T_SEC
        &&& -MAX_DEPTH_MM <= s[k].depth_mm <= MAX_DEPTH_MM
        &&& -MAX_TEMP_MC <= s[k].temp_mc <= MAX_TEMP_MC
    }
}

/// A well-formed sample series: bounded values, sorted times, and a length
/// a machine can sum over.
pub open spec fn spec_samples_wf(s: Seq<SampleInput>) -> bool {
    &&& s.len() <= MAX_SAMPLES
    &&& spec_times_sorted(s)
    &&& spec_samples_bounded(s)
}

/// The weighting interval of sample `k`: to the next sample, or to the
/// previous one for the final sample, or one second for a lone sample.
pub open spec fn spec_dt(s: Seq<SampleInput>, k: int) -> int {
    if k + 1 < s.len() {
        s[k + 1].t_sec - s[k].t_sec
    } else if k > 0 {
        s[k].t_sec - s[k - 1].t_sec
    } else {
        1
    }
}

/// Maximum depth over the first `n` samples, at least zero.
pub open spec fn spec_max_depth(s: Seq<SampleInput>, n: int) -> int
    decreases n,
{
    if n <= 0 {
        0
    } else {
        let m = spec_max_depth(s, n - 1);
        if s[n - 1].depth_mm > m {
            s[n - 1].depth_mm as int
        } else {
            m
        }
    }
}

/// Sum of the depths of the first `n` samples.
pub open spec fn spec_depth_sum(s: Seq<SampleInput>, n: int) -> int
    decreases n,
{
    if n <= 0 {
        0
    } else {
        spec_depth_sum(s, n - 1) + s[n - 1].depth_mm
    }
}

/// Sum of depth times weighting interval over the first `n` samples.
pub open spec fn spec_weighted_depth_sum(s: Seq<SampleInput>, n: int) -> int
    decreases n,
{
    if n <= 0 {
        0
    } else {
        spec_weighted_depth_sum(s, n - 1) + s[n - 1].depth_mm * spec_dt(s, n - 1)
    }
}

/// Sum of the weighting intervals of the first `n` samples.
pub open spec fn spec_weight_sum(s: Seq<SampleInput>, n: int) -> int
    decreases n,
{
    if n <= 0 {
        0
    } else {
        spec_weight_sum(s, n - 1) + spec_dt(s, n - 1)
    }
}

/// Minimum temperature over the first `n` samples, `i64::MAX` when `n` is 0.
pub open spec fn spec_min_temp(s: Seq<SampleInput>, n: int) -> int
    decreases n,
{
    if n <= 0 {
        i64::MAX as int
    } else {
        let m = spec_min_temp(s, n - 1);
        if s[n - 1].temp_mc < m {
            s[n - 1].temp_mc as int
        } else {
            m
        }
    }
}

/// Maximum temperature over the first `n` samples, `i64::MIN` when `n` is 0.
pub open spec fn spec_max_temp(s: Seq<SampleInput>, n: int) -> int
    decreases n,
{
    if n <= 0 {
        i64::MIN as int
    } else {
        let m = spec_max_temp(s, n - 1);
        if s[n - 1].temp_mc > m {
            s[n - 1].temp_mc as int
        } else {
            m
        }
    }
}

/// Sum of the temperatures of the first `n` samples.
pub open spec fn spec_temp_sum(s: Seq<SampleInput>, n: int) -> int
    decreases n,
{
    if n <= 0 {
        0
    } else {
        spec_temp_sum(s, n - 1) + s[n - 1].temp_mc
    }
}

/// Seconds spent with a positive reported ceiling, over the first `n`
/// samples, each sample weighted by its interval.
pub open spec fn spec_deco_time(s: Seq<SampleInput>, n: int) -> int
    decreases n,
{
    if n <= 0 {
        0
    } else {
        spec_deco_time(s, n - 1) + match s[n - 1].ceiling_mm {
            Some(c) => if c > 0 {
                spec_dt(s, n - 1)
            } else {
                0
            },
            None => 0,
        }
    }
}

/// Largest reported ceiling over the first `n` samples, at least zero.
pub open spec fn spec_max_ceiling(s: Seq<SampleInput>, n: int) -> int
    decreases n,
{
    if n <= 0 {
        0
    } else {
        let m = spec_max_ceiling(s, n - 1);
        match s[n - 1].ceiling_mm {
            Some(c) => if c > m {
                c as int
            } else {
                m
            },
            None => m,
        }
    }
}

/// Largest reported GF99 over the first `n` samples, at least zero.
pub open spec fn spec_max_gf99(s: Seq<SampleInput>, n: int) -> int
    decreases n,
{
    if n <= 0 {
        0
    } else {
        let m = spec_max_gf99(s, n - 1);
        match s[n - 1].gf99_milli {
            Some(g) => if g > m {
                g as int
            } else {
                m
            },
            None => m,
        }
    }
}

/// Seconds spent deeper than three metres, over the first `n` samples,
/// each sample weighted by its interval.
pub open spec fn spec_bottom_time(s: Seq<SampleInput>, n: int) -> int
    decreases n,
{
    if n <= 0 {
        0
    } else {
        spec_bottom_time(s, n - 1) + if s[n - 1].depth_mm > 3000 {
            spec_dt(s, n - 1)
        } else {
            0
        }
    }
}

/// Number of changes of the gas-mix index over the first `n` samples,
/// together with the last index seen; samples without an index are
/// skipped and cause no switch.
pub open spec fn spec_gas_switches(s: Seq<SampleInput>, n: int) -> (int, Option<i32>)
    decreases n,
{
    if n <= 0 {
        (0, None::<i32>)
    } else {
        let (c, prev) = spec_gas_switches(s, n - 1);
        match s[n - 1].gasmix_index {
            Some(ix) => match prev {
                Some(p) => if ix != p {
                    (c + 1, Some(ix))
                } else {
                    (c, Some(ix))
                },
                None => (c, Some(ix)),
            },
            None => (c, prev),
        }
    }
}

// ============================================================================
// Flooring division
// ============================================================================

/// Quotient of `a` by `b`, rounded toward negative infinity, as the
/// mathematical `/` on integers rounds.
fn div_floor_i64(a: i64, b: i64) -> (q: i64)
    requires
        b > 0,
        a > i64::MIN,
    ensures
        q == a as int / b as int,
{
    if a >= 0 {
        let qu = (a as u64) / (b as u64);
        proof {
            assert(qu == a as int / b as int);
        }
        qu as i64
    } else {
        let m = (-a) as u64;
        let bu = b as u64;
        let q0 = m / bu;
        let r0 = m % bu;
        proof {
            lemma_fundamental_div_mod(m as int, bu as int);
            assert(m as int == (b as int) * (q0 as int) + (r0 as int));
        }
        if r0 == 0 {
            let q = -(q0 as i64);
            proof {
                assert(a as int == (-(q0 as int)) * (b as int) + 0) by (nonlinear_arith)
                    requires
                        m as int == (b as int) * (q0 as int),
                        a as int == -(m as int),
                ;
                lemma_fundamental_div_mod_converse(a as int, b as int, -(q0 as int), 0);
            }
            q
        } else {
            let q = -(q0 as i64) - 1;
            proof {
                assert(a as int == (-(q0 as int) - 1) * (b as int) + ((b as int) - (r0 as int)))
                    by (nonlinear_arith)
                    requires
                        m as int == (b as int) * (q0 as int) + (r0 as int),
                        a as int == -(m as int),
                ;
                lemma_fundamental_div_mod_converse(
                    a as int,
                    b as int,
                    -(q0 as int) - 1,
                    (b as int) - (r0 as int),
                );
            }
            q
        }
    }
}

/// Quotient of `a` by `b`, rounded toward negative infinity, for wide
/// intermediate values.
fn div_floor_i128(a: i128, b: i128) -> (q: i128)
    requires
        b > 0,
        a > i128::MIN,
    ensures
        q == a as int / b as int,
{
    if a >= 0 {
        let qu = (a as u128) / (b as u128);
        proof {
            assert(qu == a as int / b as int);
        }
        qu as i128
    } else {
        let m = (-a) as u128;
        let bu = b as u128;
        let q0 = m / bu;
        let r0 = m % bu;
        proof {
            lemma_fundamental_div_mod(m as int, bu as int);
            assert(m as int == (b as int) * (q0 as int) + (r0 as int));
        }
        if r0 == 0 {
            let q = -(q0 as i128);
            proof {
                assert(a as int == (-(q0 as int)) * (b as int) + 0) by (nonlinear_arith)
                    requires
                        m as int == (b as int) * (q0 as int),
                        a as int == -(m as int),
                ;
                lemma_fundamental_div_mod_converse(a as int, b as int, -(q0 as int), 0);
            }
            q
        } else {
            let q = -(q0 as i128) - 1;
            proof {
                assert(a as int == (-(q0 as int) - 1) * (b as int) + ((b as int) - (r0 as int)))
                    by (nonlinear_arith)
                    requires
                        m as int == (b as int) * (q0 as int) + (r0 as int),
                        a as int == -(m as int),
                ;
                lemma_fundamental_div_mod_converse(
                    a as int,
                    b as int,
                    -(q0 as int) - 1,
                    (b as int) - (r0 as int),
                );
            }
            q
        }
    }
}

// ============================================================================
// Rates
// ============================================================================

/// True maximum depth over the first `n` samples (`n` at least 1), with no
/// clamping at zero.
pub open spec fn spec_true_max_depth(s: Seq<SampleInput>, n: int) -> int
    decreases n,
{
    if n <= 1 {
        s[0].depth_mm as int
    } else {
        let m = spec_true_max_depth(s, n - 1);
        if s[n - 1].depth_mm > m {
            s[n - 1].depth_mm as int
        } else {
            m
        }
    }
}

/// Index of the first sample holding the true maximum depth.
pub open spec fn spec_first_max_idx(s: Seq<SampleInput>, n: int) -> int
    decreases n,
{
    if n <= 1 {
        0
    } else if s[n - 1].depth_mm > spec_true_max_depth(s, n - 1) {
        n - 1
    } else {
        spec_first_max_idx(s, n - 1)
    }
}

/// Index of the last sample holding the true maximum depth.
pub open spec fn spec_last_max_idx(s: Seq<SampleInput>, n: int) -> int
    decreases n,
{
    if n <= 1 {
        0
    } else if s[n - 1].depth_mm >= spec_true_max_depth(s, n - 1) {
        n - 1
    } else {
        spec_last_max_idx(s, n - 1)
    }
}

/// Descent rate in millimetres per minute: depth at the first arrival at
/// maximum depth over the minutes from the profile start, or zero when the
/// profile starts at its maximum or no time elapsed.
pub open spec fn spec_descent_rate(s: Seq<SampleInput>) -> int {
    if s.len() < 2 {
        0
    } else {
        let fi = spec_first_max_idx(s, s.len() as int);
        let dt = s[fi].t_sec - s[0].t_sec;
        if fi > 0 && dt > 0 {
            (s[fi].depth_mm * 60) / dt
        } else {
            0
        }
    }
}

/// Ascent rate in millimetres per minute: depth lost from the last
/// departure from maximum depth to the profile end over the minutes in
/// between, or zero when the profile ends at its maximum or no time
/// elapsed.
pub open spec fn spec_ascent_rate(s: Seq<SampleInput>) -> int {
    if s.len() < 2 {
        0
    } else {
        let li = spec_last_max_idx(s, s.len() as int);
        let dt = s[s.len() - 1].t_sec - s[li].t_sec;
        if li < s.len() - 1 && dt > 0 {
            ((s[li].depth_mm - s[s.len() - 1].depth_mm) * 60) / dt
        } else {
            0
        }
    }
}


// ============================================================================
// Dive statistics
// ============================================================================

/// Computed statistics for a dive.
#[derive(Debug, Clone)]
pub struct DiveStats {
    /// Total dive time in seconds.
    pub total_time_sec: i64,
    /// Bottom time in seconds (time at depth beyond 3 m).
    pub bottom_time_sec: i64,
    /// Deco time in seconds (time with a positive ceiling).
    pub deco_time_sec: i64,
    /// Maximum depth reached, in millimetres.
    pub max_depth_mm: i64,
    /// Average depth across all samples, in millimetres.
    pub avg_depth_mm: i64,
    /// Time-weighted average depth, in millimetres.
    pub weighted_avg_depth_mm: i64,
    /// Minimum temperature recorded, in milli-degrees Celsius.
    pub min_temp_mc: i64,
    /// Maximum temperature recorded, in milli-degrees Celsius.
    pub max_temp_mc: i64,
    /// Average temperature, in milli-degrees Celsius.
    pub avg_temp_mc: i64,
    /// Depth classification of the maximum depth.
    pub depth_class: DepthClass,
    /// Number of gas switches detected.
    pub gas_switch_count: u32,
    /// Maximum ceiling encountered, in millimetres.
    pub max_ceiling_mm: i64,
    /// Maximum GF99 value, in milli-percent.
    pub max_gf99_milli: i64,
    /// Descent rate over the first phase, in millimetres per minute.
    pub descent_rate_mm_min: i64,
    /// Ascent rate over the final phase, in millimetres per minute.
    pub ascent_rate_mm_min: i64,
}

/// The statistics of a dive whose samples are absent.
pub open spec fn spec_stats_without_samples(dive: DiveInput) -> DiveStats {
    DiveStats {
        total_time_sec: (dive.end_time_unix - dive.start_time_unix) as i64,
        bottom_time_sec: dive.bottom_time_sec as i64,
        deco_time_sec: 0,
        max_depth_mm: 0,
        avg_depth_mm: 0,
        weighted_avg_depth_mm: 0,
        min_temp_mc: 0,
        max_temp_mc: 0,
        avg_temp_mc: 0,
        depth_class: DepthClass::Recreational,
        gas_switch_count: 0,
        max_ceiling_mm: 0,
        max_gf99_milli: 0,
        descent_rate_mm_min: 0,
        ascent_rate_mm_min: 0,
    }
}

impl DiveStats {
/// Compute descent and ascent rates for a profile, in millimetres per
    /// minute.
        #[verifier::loop_isolation(false)]
        pub fn compute_rates(samples: &[SampleInput]) -> (r: (i64, i64))
        requires
            spec_samples_wf(samples@),
        ensures
            r.0 == spec_descent_rate(samples@),
            r.1 == spec_ascent_rate(samples@),
    {
        let n = samples.len();
        if n < 2 {
            return (0, 0);
        }
        let mut m = samples[0].depth_mm;
        let mut fi: usize = 0;
        let mut li: usize = 0;
        let mut k: usize = 1;
        while k < n
            invariant
                1 <= k <= n,
                m == spec_true_max_depth(samples@, k as int),
                fi == spec_first_max_idx(samples@, k as int),
                li == spec_last_max_idx(samples@, k as int),
                fi < k,
                li < k,
            decreases n - k,
        {
            let d = samples[k].depth_mm;
            if d > m {
                m = d;
                fi = k;
                li = k;
            } else if d == m {
                li = k;
            }
            k = k + 1;
        }
        let dt_desc = samples[fi].t_sec - samples[0].t_sec;
        let descent: i64 = if fi > 0 && dt_desc > 0 {
            div_floor_i64(samples[fi].depth_mm * 60, dt_desc as i64)
        } else {
            0
        };
        let dt_asc = samples[n - 1].t_sec - samples[li].t_sec;
        let ascent: i64 = if li < n - 1 && dt_asc > 0 {
            div_floor_i64((samples[li].depth_mm - samples[n - 1].depth_mm) * 60, dt_asc as i64)
        } else {
            0
        };
        (descent, ascent)
    }

    /// Compute statistics from dive input and samples.
    ///
    /// Every field of the result is pinned by the specification functions
    /// of this module; averages divide the corresponding sums, rounding
    /// toward negative infinity.
    #[verifier::loop_isolation(false)]
    #[verifier::rlimit(100)]
    pub fn compute(dive: &DiveInput, samples: &[SampleInput]) -> (r: DiveStats)
        requires
            0 <= dive.start_time_unix <= dive.end_time_unix,
            spec_samples_wf(samples@),
        ensures
            ({
                let s = samples@;
                let n = s.len() as int;
                if n == 0 {
                    r == spec_stats_without_samples(*dive)
                } else {
                    &&& r.total_time_sec == dive.end_time_unix - dive.start_time_unix
                    &&& r.bottom_time_sec == spec_bottom_time(s, n)
                    &&& r.deco_time_sec == spec_deco_time(s, n)
                    &&& r.max_depth_mm == spec_max_depth(s, n)
                    &&& r.avg_depth_mm == spec_depth_sum(s, n) / n
                    &&& r.weighted_avg_depth_mm == (if spec_weight_sum(s, n) > 0 {
                        spec_weighted_depth_sum(s, n) / spec_weight_sum(s, n)
                    } else {
                        spec_depth_sum(s, n) / n
                    })
                    &&& r.min_temp_mc == (if spec_min_temp(s, n) == i64::MAX {
                        0
                    } else {
                        spec_min_temp(s, n)
                    })
                    &&& r.max_temp_mc == (if spec_max_temp(s, n) == i64::MIN {
                        0
                    } else {
                        spec_max_temp(s, n)
                    })
                    &&& r.avg_temp_mc == spec_temp_sum(s, n) / n
                    &&& r.depth_class == spec_depth_class(spec_max_depth(s, n))
                    &&& r.gas_switch_count == spec_gas_switches(s, n).0
                    &&& r.max_ceiling_mm == spec_max_ceiling(s, n)
                    &&& r.max_gf99_milli == spec_max_gf99(s, n)
                    &&& r.descent_rate_mm_min == spec_descent_rate(s)
                    &&& r.ascent_rate_mm_min == spec_ascent_rate(s)
                }
            }),
    {
        let n = samples.len();
        if n == 0 {
            return Self::from_dive_only(dive);
        }
        let ghost s = samples@;

        let mut max_depth: i64 = 0;
        let mut depth_sum: i64 = 0;
        let mut weighted_sum: i128 = 0;
        let mut weight_sum: i64 = 0;
        let mut min_temp: i64 = i64::MAX;
        let mut max_temp: i64 = i64::MIN;
        let mut temp_sum: i64 = 0;
        let mut deco_time: i64 = 0;
        let mut max_ceiling: i64 = 0;
        let mut max_gf99: i64 = 0;
        let mut switches: u32 = 0;
        let mut prev_mix: Option<i32> = None;
        let mut bottom_time: i64 = 0;

        let mut k: usize = 0;
        while k < n
            invariant
                k <= n,
                max_depth == spec_max_depth(s, k as int),
                0 <= max_depth <= MAX_DEPTH_MM,
                depth_sum == spec_depth_sum(s, k as int),
                -(k as int) * MAX_DEPTH_MM <= depth_sum <= (k as int) * MAX_DEPTH_MM,
                weighted_sum == spec_weighted_depth_sum(s, k as int),
                weight_sum == spec_weight_sum(s, k as int),
                0 <= weight_sum <= (k as int) * (MAX_T_SEC as int),
                -MAX_DEPTH_MM * weight_sum <= weighted_sum <= MAX_DEPTH_MM * weight_sum,
                min_temp == spec_min_temp(s, k as int),
                max_temp == spec_max_temp(s, k as int),
                temp_sum == spec_temp_sum(s, k as int),
                -(k as int) * MAX_TEMP_MC <= temp_sum <= (k as int) * MAX_TEMP_MC,
                deco_time == spec_deco_time(s, k as int),
                0 <= deco_time <= (k as int) * (MAX_T_SEC as int),
                max_ceiling == spec_max_ceiling(s, k as int),
                max_gf99 == spec_max_gf99(s, k as int),
                (switches as int, prev_mix) == spec_gas_switches(s, k as int),
                switches <= k,
                bottom_time == spec_bottom_time(s, k as int),
                0 <= bottom_time <= (k as int) * (MAX_T_SEC as int),
            decreases n - k,
        {
            let smp = &samples[k];

            if smp.depth_mm > max_depth {
                max_depth = smp.depth_mm;
            }
            depth_sum = depth_sum + smp.depth_mm;

            let dt: i64 = if k + 1 < n {
                (samples[k + 1].t_sec - smp.t_sec) as i64
            } else if k > 0 {
                (smp.t_sec - samples[k - 1].t_sec) as i64
            } else {
                1
            };
            proof {
                assert(dt == spec_dt(s, k as int));
                assert(0 <= dt <= MAX_T_SEC as int);
                assert((smp.depth_mm as int) * dt <= MAX_DEPTH_MM * dt
                    && -MAX_DEPTH_MM * dt <= (smp.depth_mm as int) * dt) by (nonlinear_arith)
                    requires
                        -MAX_DEPTH_MM <= smp.depth_mm <= MAX_DEPTH_MM,
                        0 <= dt,
                ;
            }
            weighted_sum = weighted_sum + (smp.depth_mm as i128) * (dt as i128);
            weight_sum = weight_sum + dt;

            if smp.temp_mc < min_temp {
                min_temp = smp.temp_mc;
            }
            if smp.temp_mc > max_temp {
                max_temp = smp.temp_mc;
            }
            temp_sum = temp_sum + smp.temp_mc;

            match smp.ceiling_mm {
                Some(c) => {
                    if c > 0 {
                        deco_time = deco_time + dt;
                    }
                    if c > max_ceiling {
                        max_ceiling = c;
                    }
                },
                None => {},
            }

            match smp.gf99_milli {
                Some(g) => {
                    if g > max_gf99 {
                        max_gf99 = g;
                    }
                },
                None => {},
            }

            match smp.gasmix_index {
                Some(ix) => {
                    match prev_mix {
                        Some(p) => {
                            if ix != p {
                                switches = switches + 1;
                            }
                        },
                        None => {},
                    }
                    prev_mix = Some(ix);
                },
                None => {},
            }

            if smp.depth_mm > 3000 {
                bottom_time = bottom_time + dt;
            }

            k = k + 1;
        }

        let avg_depth = div_floor_i64(depth_sum, n as i64);
        let weighted_avg: i64 = if weight_sum > 0 {
            proof {
                lemma_div_is_ordered(weighted_sum as int, MAX_DEPTH_MM * weight_sum, weight_sum as int);
                lemma_div_is_ordered(-MAX_DEPTH_MM * weight_sum, weighted_sum as int, weight_sum as int);
                lemma_div_multiples_vanish(MAX_DEPTH_MM as int, weight_sum as int);
                lemma_div_multiples_vanish(-(MAX_DEPTH_MM as int), weight_sum as int);
                assert(MAX_DEPTH_MM * weight_sum == (weight_sum as int) * MAX_DEPTH_MM)
                    by (nonlinear_arith);
                assert(-MAX_DEPTH_MM * weight_sum == (weight_sum as int) * (-MAX_DEPTH_MM))
                    by (nonlinear_arith);
            }
            div_floor_i128(weighted_sum, weight_sum as i128) as i64
        } else {
            avg_depth
        };
        let avg_temp = div_floor_i64(temp_sum, n as i64);

        let (descent, ascent) = Self::compute_rates(samples);

        DiveStats {
            total_time_sec: dive.end_time_unix - dive.start_time_unix,
            bottom_time_sec: bottom_time,
            deco_time_sec: deco_time,
            max_depth_mm: max_depth,
            avg_depth_mm: avg_depth,
            weighted_avg_depth_mm: weighted_avg,
            min_temp_mc: if min_temp == i64::MAX {
                0
            } else {
                min_temp
            },
            max_temp_mc: if max_temp == i64::MIN {
                0
            } else {
                max_temp
            },
            avg_temp_mc: avg_temp,
            depth_class: DepthClass::from_depth_mm(max_depth),
            gas_switch_count: switches,
            max_ceiling_mm: max_ceiling,
            max_gf99_milli: max_gf99,
            descent_rate_mm_min: descent,
            ascent_rate_mm_min: ascent,
        }
    }

    /// The statistics of a dive whose samples are absent.
    fn from_dive_only(dive: &DiveInput) -> (r: DiveStats)
        requires
            0 <= dive.start_time_unix <= dive.end_time_unix,
        ensures
            r == spec_stats_without_samples(*dive),
    {
        DiveStats {
            total_time_sec: dive.end_time_unix - dive.start_time_unix,
            bottom_time_sec: dive.bottom_time_sec as i64,
            deco_time_sec: 0,
            max_depth_mm: 0,
            avg_depth_mm: 0,
            weighted_avg_depth_mm: 0,
            min_temp_mc: 0,
            max_temp_mc: 0,
            avg_temp_mc: 0,
            depth_class: DepthClass::Recreational,
            gas_switch_count: 0,
            max_ceiling_mm: 0,
            max_gf99_milli: 0,
            descent_rate_mm_min: 0,
            ascent_rate_mm_min: 0,
        }
    }
}


// ============================================================================
// Segment statistics
// ============================================================================

/// The samples whose time offset falls within `[lo, hi]`, in order.
pub open spec fn spec_window(s: Seq<SampleInput>, lo: int, hi: int) -> Seq<SampleInput>
    decreases s,
{
    if s.len() == 0 {
        Seq::empty()
    } else {
        let rest = spec_window(s.drop_last(), lo, hi);
        if lo <= s.last().t_sec <= hi {
            rest.push(s.last())
        } else {
            rest
        }
    }
}

/// A window of a well-formed series is well formed, no longer than the
/// series, and stays below the series' final time.
pub proof fn lemma_window_wf(s: Seq<SampleInput>, lo: int, hi: int)
    requires
        spec_times_sorted(s),
        spec_samples_bounded(s),
    ensures
        spec_window(s, lo, hi).len() <= s.len(),
        spec_times_sorted(spec_window(s, lo, hi)),
        spec_samples_bounded(spec_window(s, lo, hi)),
        s.len() > 0 ==> forall|k: int|
            0 <= k < spec_window(s, lo, hi).len() ==> #[trigger] spec_window(s, lo, hi)[k].t_sec
                <= s[s.len() - 1].t_sec,
    decreases s.len(),
{
    if s.len() > 0 {
        let s2 = s.drop_last();
        assert(forall|k: int| 0 <= k < s2.len() ==> s2[k] == s[k]);
        assert(spec_times_sorted(s2));
        assert(spec_samples_bounded(s2));
        lemma_window_wf(s2, lo, hi);
        let w2 = spec_window(s2, lo, hi);
        let w = spec_window(s, lo, hi);
        if s.len() >= 2 {
            assert(s[s.len() - 2].t_sec <= s[s.len() - 1].t_sec);
            assert(s2.len() > 0 ==> s2[s2.len() - 1] == s[s.len() - 2]);
        }
        if lo <= s.last().t_sec <= hi {
            assert(w == w2.push(s.last()));
            assert(forall|k: int| 0 <= k < w.len() - 1 ==> w[k] == w2[k]);
            assert(w[w.len() - 1] == s.last());
            assert forall|k: int| 0 <= k < w.len() - 1 implies #[trigger] w[k].t_sec <= w[k
                + 1].t_sec by {
                if k + 1 < w.len() - 1 {
                    assert(w2[k].t_sec <= w2[k + 1].t_sec);
                } else {
                    assert(w[k] == w2[k]);
                }
            }
        }
    }
}

/// Computed statistics for a segment of a dive.
#[derive(Debug, Clone)]
pub struct SegmentStats {
    /// Duration of the segment window in seconds.
    pub duration_sec: i32,
    /// Maximum depth in the segment, in millimetres.
    pub max_depth_mm: i64,
    /// Average depth in the segment, in millimetres.
    pub avg_depth_mm: i64,
    /// Minimum temperature in the segment, in milli-degrees Celsius.
    pub min_temp_mc: i64,
    /// Maximum temperature in the segment, in milli-degrees Celsius.
    pub max_temp_mc: i64,
    /// Deco time within the segment, in seconds.
    pub deco_time_sec: i64,
    /// Number of samples in the segment.
    pub sample_count: u64,
}

impl SegmentStats {
    /// Compute statistics over the samples whose time offset falls within
    /// the inclusive window `[start_t_sec, end_t_sec]`.
    #[verifier::loop_isolation(false)]
    #[verifier::rlimit(100)]
    pub fn compute(start_t_sec: i32, end_t_sec: i32, all_samples: &[SampleInput]) -> (r:
        SegmentStats)
        requires
            0 <= start_t_sec <= end_t_sec,
            spec_samples_wf(all_samples@),
        ensures
            ({
                let w = spec_window(all_samples@, start_t_sec as int, end_t_sec as int);
                let n = w.len() as int;
                &&& r.duration_sec == end_t_sec - start_t_sec
                &&& r.sample_count == n
                &&& n == 0 ==> r == (SegmentStats {
                    duration_sec: r.duration_sec,
                    max_depth_mm: 0,
                    avg_depth_mm: 0,
                    min_temp_mc: 0,
                    max_temp_mc: 0,
                    deco_time_sec: 0,
                    sample_count: 0,
                })
                &&& n > 0 ==> {
                    &&& r.max_depth_mm == spec_max_depth(w, n)
                    &&& r.avg_depth_mm == spec_depth_sum(w, n) / n
                    &&& r.min_temp_mc == (if spec_min_temp(w, n) == i64::MAX {
                        0
                    } else {
                        spec_min_temp(w, n)
                    })
                    &&& r.max_temp_mc == (if spec_max_temp(w, n) == i64::MIN {
                        0
                    } else {
                        spec_max_temp(w, n)
                    })
                    &&& r.deco_time_sec == spec_deco_time(w, n)
                }
            }),
    {
        let ghost w = spec_window(all_samples@, start_t_sec as int, end_t_sec as int);
        proof {
            lemma_window_wf(all_samples@, start_t_sec as int, end_t_sec as int);
        }

        let mut inside: Vec<SampleInput> = Vec::new();
        let mut i: usize = 0;
        proof {
            assert(all_samples@.subrange(0, 0) =~= Seq::<SampleInput>::empty());
        }
        while i < all_samples.len()
            invariant
                i <= all_samples@.len(),
                inside@ == spec_window(
                    all_samples@.subrange(0, i as int),
                    start_t_sec as int,
                    end_t_sec as int,
                ),
            decreases all_samples@.len() - i,
        {
            let smp = &all_samples[i];
            proof {
                let pfx = all_samples@.subrange(0, i + 1);
                assert(pfx.drop_last() =~= all_samples@.subrange(0, i as int));
                assert(pfx.last() == all_samples@[i as int]);
            }
            if start_t_sec <= smp.t_sec && smp.t_sec <= end_t_sec {
                inside.push(*smp);
            }
            i = i + 1;
        }
        proof {
            assert(all_samples@.subrange(0, all_samples@.len() as int) =~= all_samples@);
        }

        let n = inside.len();
        if n == 0 {
            return SegmentStats {
                duration_sec: end_t_sec - start_t_sec,
                max_depth_mm: 0,
                avg_depth_mm: 0,
                min_temp_mc: 0,
                max_temp_mc: 0,
                deco_time_sec: 0,
                sample_count: 0,
            };
        }

        let mut max_depth: i64 = 0;
        let mut depth_sum: i64 = 0;
        let mut min_temp: i64 = i64::MAX;
        let mut max_temp: i64 = i64::MIN;
        let mut deco_time: i64 = 0;

        let mut k: usize = 0;
        while k < n
            invariant
                k <= n == inside@.len(),
                inside@ == w,
                max_depth == spec_max_depth(w, k as int),
                depth_sum == spec_depth_sum(w, k as int),
                -(k as int) * MAX_DEPTH_MM <= depth_sum <= (k as int) * MAX_DEPTH_MM,
                min_temp == spec_min_temp(w, k as int),
                max_temp == spec_max_temp(w, k as int),
                deco_time == spec_deco_time(w, k as int),
                0 <= deco_time <= (k as int) * (MAX_T_SEC as int),
            decreases n - k,
        {
            let smp = &inside[k];

            if smp.depth_mm > max_depth {
                max_depth = smp.depth_mm;
            }
            depth_sum = depth_sum + smp.depth_mm;

            if smp.temp_mc < min_temp {
                min_temp = smp.temp_mc;
            }
            if smp.temp_mc > max_temp {
                max_temp = smp.temp_mc;
            }

            match smp.ceiling_mm {
                Some(c) => {
                    if c > 0 {
                        let dt: i64 = if k + 1 < n {
                            (inside[k + 1].t_sec - smp.t_sec) as i64
                        } else if k > 0 {
                            (smp.t_sec - inside[k - 1].t_sec) as i64
                        } else {
                            1
                        };
                        proof {
                            assert(dt == spec_dt(w, k as int));
                        }
                        deco_time = deco_time + dt;
                    }
                },
                None => {},
            }

            k = k + 1;
        }

        let avg_depth = div_floor_i64(depth_sum, n as i64);

        SegmentStats {
            duration_sec: end_t_sec - start_t_sec,
            max_depth_mm: max_depth,
            avg_depth_mm: avg_depth,
            min_temp_mc: if min_temp == i64::MAX {
                0
            } else {
                min_temp
            },
            max_temp_mc: if max_temp == i64::MIN {
                0
            } else {
                max_temp
            },
            deco_time_sec: deco_time,
            sample_count: n as u64,
        }
    }
}


} // verus!
