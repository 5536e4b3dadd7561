//! Delay curves: how fall and lock delays progress with the number of cleared lines.

use vstd::prelude::*;

use crate::durations::{
    ExtDuration, FACTOR_SCALE, Factor, MILLISECOND, ext_le, ext_max, ext_minus, ext_scaled,
    ext_times,
};

verus! {

/// `FACTOR_SCALE * (f / FACTOR_SCALE)^n` in fixed point, rounding down after
/// every multiplication.
pub open spec fn factor_power(f: nat, n: nat) -> nat
    decreases n,
{
    if n == 0 {
        FACTOR_SCALE as nat
    } else {
        factor_power(f, (n - 1) as nat) * f / (FACTOR_SCALE as nat)
    }
}

proof fn lemma_factor_step_bounded(v: nat, f: nat)
    requires
        v <= FACTOR_SCALE,
        f <= FACTOR_SCALE,
    ensures
        v * f / (FACTOR_SCALE as nat) <= v,
        f < FACTOR_SCALE && v > 0 ==> v * f / (FACTOR_SCALE as nat) < v,
        f == FACTOR_SCALE ==> v * f / (FACTOR_SCALE as nat) == v,
{
    assert(v * f <= v * (FACTOR_SCALE as nat)) by (nonlinear_arith)
        requires
            f <= FACTOR_SCALE,
    ;
    assert(v * (FACTOR_SCALE as nat) / (FACTOR_SCALE as nat) == v) by (nonlinear_arith);
    assert(v * f / (FACTOR_SCALE as nat) <= v * (FACTOR_SCALE as nat) / (FACTOR_SCALE as nat))
        by (nonlinear_arith)
        requires
            v * f <= v * (FACTOR_SCALE as nat),
    ;
    if f < FACTOR_SCALE && v > 0 {
        assert(v * f < v * (FACTOR_SCALE as nat)) by (nonlinear_arith)
            requires
                f < FACTOR_SCALE,
                v > 0,
        ;
        assert(v * f / (FACTOR_SCALE as nat) < v) by (nonlinear_arith)
            requires
                v * f < v * (FACTOR_SCALE as nat),
        ;
    }
}

/// A factor of at most one keeps every power within `0..=FACTOR_SCALE`, and
/// powers never increase with the exponent.
pub proof fn lemma_factor_power_bounded(f: nat, n: nat)
    requires
        f <= FACTOR_SCALE,
    ensures
        factor_power(f, n) <= FACTOR_SCALE,
        n > 0 ==> factor_power(f, n) <= factor_power(f, (n - 1) as nat),
        f == FACTOR_SCALE ==> factor_power(f, n) == FACTOR_SCALE,
    decreases n,
{
    if n > 0 {
        lemma_factor_power_bounded(f, (n - 1) as nat);
        lemma_factor_step_bounded(factor_power(f, (n - 1) as nat), f);
    }
}

/// Once a power reaches zero, or when the factor is one, it stays unchanged.
proof fn lemma_factor_power_stable(f: nat, i: nat, n: nat)
    requires
        f <= FACTOR_SCALE,
        i <= n,
        factor_power(f, i) == 0 || f == FACTOR_SCALE,
    ensures
        factor_power(f, n) == factor_power(f, i),
    decreases n - i,
{
    if i < n {
        lemma_factor_power_stable(f, i, (n - 1) as nat);
        lemma_factor_power_bounded(f, n);
        lemma_factor_power_bounded(f, (n - 1) as nat);
    }
}

/// Powers never increase with the exponent.
pub proof fn lemma_factor_power_antitone(f: nat, n: nat, m: nat)
    requires
        f <= FACTOR_SCALE,
        n <= m,
    ensures
        factor_power(f, m) <= factor_power(f, n),
    decreases m - n,
{
    if n < m {
        lemma_factor_power_antitone(f, n, (m - 1) as nat);
        lemma_factor_power_bounded(f, m);
    }
}

/// Computes [`factor_power`] for a factor of at most one.
fn factor_pow(f: u64, n: u32) -> (r: u64)
    requires
        f <= FACTOR_SCALE,
    ensures
        r == factor_power(f as nat, n as nat),
        r <= FACTOR_SCALE,
{
    let mut v: u64 = FACTOR_SCALE;
    let mut i: u32 = 0;
    while i < n
        invariant
            i <= n,
            f <= FACTOR_SCALE,
            v == factor_power(f as nat, i as nat),
            v <= FACTOR_SCALE,
        decreases n - i,
    {
        if v == 0 || f == FACTOR_SCALE {
            proof {
                lemma_factor_power_stable(f as nat, i as nat, n as nat);
            }
            return v;
        }
        proof {
            lemma_factor_step_bounded(v as nat, f as nat);
            assert(v * f <= FACTOR_SCALE * FACTOR_SCALE) by (nonlinear_arith)
                requires
                    v <= FACTOR_SCALE,
                    f <= FACTOR_SCALE,
            ;
        }
        v = v * f / FACTOR_SCALE;
        i = i + 1;
    }
    v
}

/// Parameters of a delay that decays with the number of cleared lines:
/// `max(lowerbound, base_delay * factor^lineclears - subtrahend * lineclears)`.
///
/// The factor is at most one and the lower bound never exceeds the base delay.
#[derive(PartialEq, Eq, Structural, Clone, Copy, Debug, Hash)]
pub struct DelayParameters {
    base_delay: ExtDuration,
    factor: Factor,
    subtrahend: ExtDuration,
    lowerbound: ExtDuration,
}

impl DelayParameters {
    /// The factor is at most one and the lower bound is at most the base delay.
    #[verifier::type_invariant]
    pub closed spec fn inv(self) -> bool {
        &&& self.factor.millionths <= FACTOR_SCALE
        &&& ext_le(self.lowerbound, self.base_delay)
    }

    /// The duration at which the delay starts.
    pub closed spec fn base_delay_spec(self) -> ExtDuration {
        self.base_delay
    }

    /// The factor exponentiated by the number of cleared lines.
    pub closed spec fn factor_spec(self) -> Factor {
        self.factor
    }

    /// The amount subtracted per cleared line.
    pub closed spec fn subtrahend_spec(self) -> ExtDuration {
        self.subtrahend
    }

    /// The duration below which the delay does not decrease.
    pub closed spec fn lowerbound_spec(self) -> ExtDuration {
        self.lowerbound
    }

    /// The duration at which the delay starts.
    pub fn base_delay(&self) -> (r: ExtDuration)
        ensures
            r == self.base_delay_spec(),
    {
        self.base_delay
    }

    /// The base factor that gets exponentiated by the number of line clears.
    pub fn factor(&self) -> (r: Factor)
        ensures
            r == self.factor_spec(),
    {
        self.factor
    }

    /// The amount subtracted per line clear.
    pub fn subtrahend(&self) -> (r: ExtDuration)
        ensures
            r == self.subtrahend_spec(),
    {
        self.subtrahend
    }

    /// The duration below which the delay cannot decrease.
    pub fn lowerbound(&self) -> (r: ExtDuration)
        ensures
            r == self.lowerbound_spec(),
    {
        self.lowerbound
    }

    /// Delay parameters decaying with the number of cleared lines; `None` when
    /// the lower bound exceeds the base delay or the factor exceeds one.
    pub fn new(base_delay: ExtDuration, lowerbound: ExtDuration, factor: Factor, subtrahend: ExtDuration) -> (r: Option<Self>)
        ensures
            r is Some <==> ext_le(lowerbound, base_delay) && factor.millionths <= FACTOR_SCALE,
            r matches Some(p) ==> p.base_delay_spec() == base_delay && p.lowerbound_spec() == lowerbound
                && p.factor_spec() == factor && p.subtrahend_spec() == subtrahend,
    {
        match Self::constant(ExtDuration::zero()).with_bounds(base_delay, lowerbound) {
            Some(p) => p.with_coefficients(factor, subtrahend),
            None => None,
        }
    }

    /// These parameters with only the bounds changed; `None` when the lower
    /// bound exceeds the base delay.
    pub fn with_bounds(&self, base_delay: ExtDuration, lowerbound: ExtDuration) -> (r: Option<Self>)
        ensures
            r is Some <==> ext_le(lowerbound, base_delay),
            r matches Some(p) ==> p.base_delay_spec() == base_delay && p.lowerbound_spec() == lowerbound
                && p.factor_spec() == self.factor_spec() && p.subtrahend_spec()
                == self.subtrahend_spec(),
    {
        proof {
            use_type_invariant(self);
        }
        if lowerbound.le(&base_delay) {
            Some(DelayParameters { base_delay, lowerbound, ..*self })
        } else {
            None
        }
    }

    /// These parameters with only the coefficients changed; `None` when the
    /// factor exceeds one.
    pub fn with_coefficients(&self, factor: Factor, subtrahend: ExtDuration) -> (r: Option<Self>)
        ensures
            r is Some <==> factor.millionths <= FACTOR_SCALE,
            r matches Some(p) ==> p.base_delay_spec() == self.base_delay_spec() && p.lowerbound_spec()
                == self.lowerbound_spec() && p.factor_spec() == factor && p.subtrahend_spec()
                == subtrahend,
    {
        proof {
            use_type_invariant(self);
        }
        if factor.millionths <= FACTOR_SCALE {
            Some(DelayParameters { factor, subtrahend, ..*self })
        } else {
            None
        }
    }

    /// A delay that does not change with the number of cleared lines.
    pub fn constant(delay: ExtDuration) -> (r: Self)
        ensures
            r.base_delay_spec() == delay,
            r.lowerbound_spec() == delay,
            r.factor_spec().millionths == FACTOR_SCALE,
            r.subtrahend_spec() == ExtDuration::Finite(0),
    {
        DelayParameters {
            base_delay: delay,
            factor: Factor::one(),
            subtrahend: ExtDuration::zero(),
            lowerbound: delay,
        }
    }

    /// Whether the parameters describe a delay that does not depend on the
    /// number of cleared lines (factor one, no subtrahend).
    pub fn is_constant(&self) -> (r: bool)
        ensures
            r == self.is_constant_spec(),
    {
        self.factor.millionths == FACTOR_SCALE && self.subtrahend.is_zero()
    }

    /// Factor one and a zero subtrahend.
    pub open spec fn is_constant_spec(self) -> bool {
        self.factor_spec().millionths == FACTOR_SCALE && self.subtrahend_spec()
            == ExtDuration::Finite(0)
    }

    /// Guideline-like fall delays: one second per cell at first, decaying by a
    /// factor of 0.9763 and 42 microseconds per cleared line, down to zero.
    pub fn standard_fall() -> (r: Self)
        ensures
            r.base_delay_spec() == ExtDuration::Finite(1_000_000_000),
            r.factor_spec().millionths == 976_300,
            r.subtrahend_spec() == ExtDuration::Finite(42_000),
            r.lowerbound_spec() == ExtDuration::Finite(0),
    {
        DelayParameters {
            base_delay: ExtDuration::Finite(1_000_000_000),
            factor: Factor::from_millionths(976_300),
            subtrahend: ExtDuration::Finite(42_000),
            lowerbound: ExtDuration::Finite(0),
        }
    }

    /// Guideline-like lock delays: 500 ms at first, one millisecond less per
    /// cleared line, down to 100 ms.
    pub fn standard_lock() -> (r: Self)
        ensures
            r.base_delay_spec() == ExtDuration::Finite(500_000_000),
            r.factor_spec().millionths == FACTOR_SCALE,
            r.subtrahend_spec() == ExtDuration::Finite(MILLISECOND),
            r.lowerbound_spec() == ExtDuration::Finite(100_000_000),
    {
        DelayParameters {
            base_delay: ExtDuration::Finite(500_000_000),
            factor: Factor::one(),
            subtrahend: ExtDuration::Finite(MILLISECOND),
            lowerbound: ExtDuration::Finite(100_000_000),
        }
    }

    /// The delay after `lineclears` cleared lines, before applying the lower
    /// bound.
    pub open spec fn raw_delay(self, lineclears: nat) -> ExtDuration {
        ext_minus(
            ext_scaled(
                self.base_delay_spec(),
                Factor {
                    millionths: factor_power(self.factor_spec().millionths as nat, lineclears) as u64,
                },
            ),
            ext_times(self.subtrahend_spec(), lineclears),
        )
    }

    /// The delay after `lineclears` cleared lines.
    pub open spec fn delay_at(self, lineclears: nat) -> ExtDuration {
        ext_max(self.lowerbound_spec(), self.raw_delay(lineclears))
    }

    /// The delay after `lineclears` cleared lines, and whether the lower bound
    /// has been reached.
    pub fn calculate_and_check(&self, lineclears: u32) -> (r: (ExtDuration, bool))
        ensures
            r.0 == self.delay_at(lineclears as nat),
            r.1 == ext_le(self.raw_delay(lineclears as nat), self.lowerbound_spec()),
    {
        proof {
            use_type_invariant(self);
            lemma_factor_power_bounded(self.factor.millionths as nat, lineclears as nat);
        }
        let mul = Factor { millionths: factor_pow(self.factor.millionths, lineclears) };
        let sub = self.subtrahend.mul_count(lineclears);
        let raw = self.base_delay.mul_factor(mul).saturating_sub(sub);
        (self.lowerbound.max(raw), raw.le(&self.lowerbound))
    }
}

/// Law: delay parameters reporting themselves constant give their base delay
/// after any number of cleared lines.
pub proof fn lemma_constant_delay(p: DelayParameters, lineclears: nat)
    requires
        p.inv(),
        p.is_constant_spec(),
    ensures
        p.delay_at(lineclears) == p.base_delay_spec(),
{
    lemma_factor_power_bounded(FACTOR_SCALE as nat, lineclears);
    match p.base_delay_spec() {
        ExtDuration::Finite(x) => {
            assert(x * FACTOR_SCALE / (FACTOR_SCALE as int) == x) by (nonlinear_arith);
        },
        ExtDuration::Infinite => {},
    }
}

/// Law: the delay given by well-formed parameters never grows as more lines are
/// cleared, and never drops below the lower bound.
pub proof fn lemma_delay_nonincreasing(p: DelayParameters, n: nat, m: nat)
    requires
        p.inv(),
        n <= m,
    ensures
        ext_le(p.delay_at(m), p.delay_at(n)),
        ext_le(p.lowerbound_spec(), p.delay_at(m)),
{
    let f = p.factor_spec().millionths as nat;
    lemma_factor_power_antitone(f, n, m);
    lemma_factor_power_bounded(f, n);
    lemma_factor_power_bounded(f, m);
    let pn = factor_power(f, n);
    let pm = factor_power(f, m);
    let sn = ext_scaled(p.base_delay_spec(), Factor { millionths: pn as u64 });
    let sm = ext_scaled(p.base_delay_spec(), Factor { millionths: pm as u64 });
    match p.base_delay_spec() {
        ExtDuration::Finite(x) => {
            assert(x * pm <= x * pn) by (nonlinear_arith)
                requires
                    pm <= pn,
            ;
            assert(x * pm / (FACTOR_SCALE as int) <= x * pn / (FACTOR_SCALE as int)) by (nonlinear_arith)
                requires
                    x * pm <= x * pn,
            ;
        },
        ExtDuration::Infinite => {
            if pn == 0 {
                lemma_factor_power_stable(f, n, m);
            }
        },
    }
    assert(ext_le(sm, sn));
    let tn = ext_times(p.subtrahend_spec(), n);
    let tm = ext_times(p.subtrahend_spec(), m);
    match p.subtrahend_spec() {
        ExtDuration::Finite(y) => {
            assert(y * n <= y * m) by (nonlinear_arith)
                requires
                    n <= m,
            ;
        },
        ExtDuration::Infinite => {},
    }
    assert(ext_le(tn, tm));
    assert(ext_le(ext_minus(sm, tm), ext_minus(sn, tn)));
}

/// A hardcoded table of delays indexed by progress in cleared lines.
/// The table is never empty.
#[derive(PartialEq, Eq, Debug, Hash)]
pub struct DelayTable {
    entries: Vec<ExtDuration>,
}

impl Clone for DelayTable {
    fn clone(&self) -> (r: Self)
        ensures
            r.entries_spec() == self.entries_spec(),
    {
        proof {
            use_type_invariant(self);
        }
        let mut entries: Vec<ExtDuration> = Vec::new();
        let mut i: usize = 0;
        while i < self.entries.len()
            invariant
                i <= self.entries@.len(),
                entries@ =~= self.entries@.take(i as int),
            decreases self.entries@.len() - i,
        {
            entries.push(self.entries[i]);
            i = i + 1;
        }
        assert(self.entries@.take(self.entries@.len() as int) =~= self.entries@);
        DelayTable { entries }
    }
}

/// The classic fall delays in nanoseconds, per level.
pub open spec fn classic_fall_frames() -> Seq<u64> {
    seq![
        800000000u64, 716666667, 633333333, 550000000, 466666667, 383333333, 300000000,
        216666667, 133333333, 100000000, 83333333, 83333333, 83333333, 66666667, 66666667,
        66666667, 50000000, 50000000, 50000000, 33333333, 33333333, 33333333, 33333333,
        33333333, 33333333, 33333333, 33333333, 33333333, 33333333, 16666667,
    ]
}

impl DelayTable {
    /// The table has at least one entry.
    #[verifier::type_invariant]
    pub closed spec fn inv(self) -> bool {
        self.entries@.len() > 0
    }

    /// The table's entries.
    pub closed spec fn entries_spec(self) -> Seq<ExtDuration> {
        self.entries@
    }

    /// A table with the given entries; `None` when there are none.
    pub fn new(entries: Vec<ExtDuration>) -> (r: Option<Self>)
        ensures
            r is Some <==> entries@.len() > 0,
            r matches Some(t) ==> t.entries_spec() == entries@,
    {
        if entries.len() > 0 {
            Some(DelayTable { entries })
        } else {
            None
        }
    }

    /// The entries of the table.
    pub fn entries(&self) -> (r: &Vec<ExtDuration>)
        ensures
            r@ == self.entries_spec(),
    {
        &self.entries
    }

    /// NES-like fall delays: the frame counts of the classic game at sixty
    /// frames per second, rounded to whole nanoseconds.
    pub fn classic_fall() -> (r: Self)
        ensures
            r.entries_spec() == classic_fall_frames().map_values(|ns: u64| ExtDuration::Finite(ns)),
    {
        let frames: [u64; 30] = [
            800000000, 716666667, 633333333, 550000000, 466666667, 383333333, 300000000,
            216666667, 133333333, 100000000, 83333333, 83333333, 83333333, 66666667, 66666667,
            66666667, 50000000, 50000000, 50000000, 33333333, 33333333, 33333333, 33333333,
            33333333, 33333333, 33333333, 33333333, 33333333, 33333333, 16666667,
        ];
        let mut entries: Vec<ExtDuration> = Vec::new();
        let mut i: usize = 0;
        while i < 30
            invariant
                i <= 30,
                entries@.len() == i,
                forall|j: int| 0 <= j < i ==> #[trigger] entries@[j] == ExtDuration::Finite(frames[j]),
                frames@ == classic_fall_frames(),
            decreases 30 - i,
        {
            entries.push(ExtDuration::Finite(frames[i]));
            i = i + 1;
        }
        assert(entries@ =~= classic_fall_frames().map_values(|ns: u64| ExtDuration::Finite(ns)));
        DelayTable { entries }
    }

    /// The index of the entry used after `lineclears` cleared lines, advancing
    /// every `every` lines (at least every line) and saturating at the last entry.
    pub open spec fn index_at(self, lineclears: nat, every: nat) -> int {
        let raw = lineclears / (if every == 0 { 1 } else { every });
        if raw < self.entries_spec().len() - 1 {
            raw as int
        } else {
            self.entries_spec().len() - 1
        }
    }

    /// The delay after `lineclears` cleared lines, and whether the last entry
    /// has been reached.
    pub fn lookup_and_check(&self, lineclears: u32, update_delays_every_n_lineclears: u32) -> (r: (
        ExtDuration,
        bool,
    ))
        ensures
            r.0 == self.entries_spec()[self.index_at(
                lineclears as nat,
                update_delays_every_n_lineclears as nat,
            )],
            r.1 == (self.index_at(lineclears as nat, update_delays_every_n_lineclears as nat)
                == self.entries_spec().len() - 1),
    {
        proof {
            use_type_invariant(self);
        }
        let every = if update_delays_every_n_lineclears == 0 {
            1
        } else {
            update_delays_every_n_lineclears
        };
        let raw_idx = (lineclears / every) as usize;
        let last = self.entries.len() - 1;
        let idx = if raw_idx < last {
            raw_idx
        } else {
            last
        };
        (self.entries[idx], idx == last)
    }
}

/// How a delay progresses: by parameters or by a table.
#[derive(PartialEq, Eq, Debug, Hash)]
pub enum DelayCurve {
    Parameters(DelayParameters),
    Table(DelayTable),
}

/// Two curves describe the same delays (tables compared by their entries).
pub open spec fn same_curve(a: DelayCurve, b: DelayCurve) -> bool {
    match (a, b) {
        (DelayCurve::Parameters(p), DelayCurve::Parameters(q)) => p == q,
        (DelayCurve::Table(t), DelayCurve::Table(u)) => t.entries_spec() == u.entries_spec(),
        _ => false,
    }
}

impl Clone for DelayCurve {
    fn clone(&self) -> (r: Self)
        ensures
            same_curve(r, *self),
    {
        match self {
            DelayCurve::Parameters(p) => DelayCurve::Parameters(*p),
            DelayCurve::Table(t) => DelayCurve::Table(t.clone()),
        }
    }
}

impl DelayCurve {
    /// The delay after `lineclears` cleared lines.
    pub open spec fn value_at(self, lineclears: nat, every: nat) -> ExtDuration {
        match self {
            DelayCurve::Parameters(p) => p.delay_at(lineclears),
            DelayCurve::Table(t) => t.entries_spec()[t.index_at(lineclears, every)],
        }
    }

    /// Whether the curve has reached its limit after `lineclears` cleared lines.
    pub open spec fn limit_reached_at(self, lineclears: nat, every: nat) -> bool {
        match self {
            DelayCurve::Parameters(p) => ext_le(p.raw_delay(lineclears), p.lowerbound_spec()),
            DelayCurve::Table(t) => t.index_at(lineclears, every) == t.entries_spec().len() - 1,
        }
    }

}

/// Reading a delay curve.
pub trait DelayCurveExt {
    /// Retrieves the delay after a number of cleared lines and whether the
    /// curve has reached its limit there.
    fn retrieve_and_check(&self, lineclears: u32, update_delays_every_n_lineclears: u32) -> (ExtDuration, bool);
}

impl DelayCurveExt for DelayCurve {
    fn retrieve_and_check(&self, lineclears: u32, update_delays_every_n_lineclears: u32) -> (r: (
        ExtDuration,
        bool,
    ))
        ensures
            r.0 == self.value_at(lineclears as nat, update_delays_every_n_lineclears as nat),
            r.1 == self.limit_reached_at(lineclears as nat, update_delays_every_n_lineclears as nat),
    {
        match self {
            DelayCurve::Parameters(p) => p.calculate_and_check(lineclears),
            DelayCurve::Table(t) => t.lookup_and_check(lineclears, update_delays_every_n_lineclears),
        }
    }
}

} // verus!
