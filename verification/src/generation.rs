//! Random generation of tetrominos.

use vstd::prelude::*;

use crate::durations::{FACTOR_SCALE, Factor};
use crate::pieces::Tetromino;
use crate::rng::{GameRng, random_index_below_seven, weighted_index, weighted_index_u32};

verus! {

/// The tetromino at a position of `O, I, S, Z, T, L, J` order.
pub open spec fn tetromino_at(i: int) -> Tetromino {
    if i == 0 {
        Tetromino::O
    } else if i == 1 {
        Tetromino::I
    } else if i == 2 {
        Tetromino::S
    } else if i == 3 {
        Tetromino::Z
    } else if i == 4 {
        Tetromino::T
    } else if i == 5 {
        Tetromino::L
    } else {
        Tetromino::J
    }
}

/// The position of a tetromino in `O, I, S, Z, T, L, J` order.
pub open spec fn tetromino_index(t: Tetromino) -> int {
    match t {
        Tetromino::O => 0,
        Tetromino::I => 1,
        Tetromino::S => 2,
        Tetromino::Z => 3,
        Tetromino::T => 4,
        Tetromino::L => 5,
        Tetromino::J => 6,
    }
}

/// The tetromino at a position of `O, I, S, Z, T, L, J` order.
pub fn tetromino_from_index(i: usize) -> (r: Tetromino)
    requires
        i < 7,
    ensures
        r == tetromino_at(i as int),
        tetromino_index(r) == i,
{
    if i == 0 {
        Tetromino::O
    } else if i == 1 {
        Tetromino::I
    } else if i == 2 {
        Tetromino::S
    } else if i == 3 {
        Tetromino::Z
    } else if i == 4 {
        Tetromino::T
    } else if i == 5 {
        Tetromino::L
    } else {
        Tetromino::J
    }
}

impl Tetromino {
    /// The position of the tetromino in `O, I, S, Z, T, L, J` order.
    pub fn index(self) -> (r: usize)
        ensures
            r == tetromino_index(self),
            r < 7,
    {
        match self {
            Tetromino::O => 0,
            Tetromino::I => 1,
            Tetromino::S => 2,
            Tetromino::Z => 3,
            Tetromino::T => 4,
            Tetromino::L => 5,
            Tetromino::J => 6,
        }
    }
}

/// Uniformly random generation that rerolls up to `aversion_to_last` times
/// while it draws the tetromino it emitted last.
#[derive(PartialEq, Eq, Structural, Clone, Copy, Debug, Hash)]
pub struct RerollGen {
    /// The tetromino that was last generated.
    pub tet_last_emitted: Option<Tetromino>,
    /// How many times to reroll to get a different piece before giving up.
    pub aversion_to_last: u32,
}

/// 'Bag' generation: a stock of each tetromino is handed out uniformly at
/// random, and all stocks are refilled by `restock_multiplicity` once empty.
#[derive(PartialEq, Eq, Clone, Copy, Debug, Hash)]
pub struct StockGen {
    /// How many of each tetromino are left in stock.
    pub tets_stocked: [u32; 7],
    /// How many of each tetromino to refill with (zero refills as one).
    pub restock_multiplicity: u32,
}

/// Generation weighted against tetrominos seen more often than the others.
#[derive(PartialEq, Eq, Clone, Copy, Debug, Hash)]
pub struct BalanceOutGen {
    /// How many more times each tetromino was seen than the least seen one.
    pub tets_relative_tallies: [u32; 7],
}

/// Generation weighted towards tetrominos not seen for a while; the tetromino
/// just generated is never generated again at once.
#[derive(PartialEq, Eq, Clone, Copy, Debug, Hash)]
pub struct RecencyGen {
    /// How many pieces ago each tetromino was last emitted (`0`: most recent).
    pub tets_last_emitted: [u32; 7],
    /// How strongly pieces not seen in a while are favoured.
    pub factor: Factor,
    /// Whether the factor is the base (`factor^n`) rather than the exponent
    /// (`n^factor`) of the weights.
    pub is_base_not_exp: bool,
}

/// The standard tetromino generators.
#[derive(PartialEq, Eq, Clone, Copy, Debug, Hash)]
pub enum StdTetGen {
    Reroll(RerollGen),
    Stock(StockGen),
    BalanceOut(BalanceOutGen),
    Recency(RecencyGen),
}

/// The largest weight given to a tetromino.
pub const WEIGHT_CAP: u64 = 1_125_899_906_842_624;

/// The stocks before one draw: when all stocks are empty they are first
/// refilled by the multiplicity (at least one).
pub open spec fn restocked(g: StockGen) -> Seq<u32> {
    if g.tets_stocked[0] + g.tets_stocked[1] + g.tets_stocked[2] + g.tets_stocked[3]
        + g.tets_stocked[4] + g.tets_stocked[5] + g.tets_stocked[6] == 0 {
        let m: u32 = if g.restock_multiplicity == 0 { 1 } else { g.restock_multiplicity };
        Seq::new(7, |i: int| m)
    } else {
        g.tets_stocked@
    }
}

/// The smallest of seven tallies.
pub open spec fn tally_min(t: [u32; 7]) -> u32 {
    let a = if t[0] <= t[1] { t[0] } else { t[1] };
    let b = if a <= t[2] { a } else { t[2] };
    let c = if b <= t[3] { b } else { t[3] };
    let d = if c <= t[4] { c } else { t[4] };
    let e = if d <= t[5] { d } else { t[5] };
    if e <= t[6] { e } else { t[6] }
}

/// `x + 1`, saturating at `u32::MAX`.
pub open spec fn sat_inc(x: u32) -> u32 {
    if x < u32::MAX { (x + 1) as u32 } else { x }
}

/// The relative tallies after normalising them so that the smallest is zero.
pub open spec fn normalized(t: [u32; 7]) -> Seq<u32> {
    Seq::new(7, |i: int| (t[i] - tally_min(t)) as u32)
}

/// The recency counts after one more piece: all incremented (saturating).
pub open spec fn aged(t: [u32; 7]) -> Seq<u32> {
    Seq::new(7, |i: int| sat_inc(t[i]))
}

/// Whether some recency count is positive, that is whether a piece has been
/// dealt since the counts were all zero.
pub open spec fn any_seen(t: [u32; 7]) -> bool {
    t[0] > 0 || t[1] > 0 || t[2] > 0 || t[3] > 0 || t[4] > 0 || t[5] > 0 || t[6] > 0
}

/// The weight that a recency generator gives position `i` on its next draw:
/// zero for the piece just dealt (count `0`, once some count is positive), and
/// otherwise the [`recency_weight_spec`] of its count after ageing.
pub open spec fn recency_draw_weight(g: RecencyGen, i: int) -> int {
    if g.tets_last_emitted[i] == 0 && any_seen(g.tets_last_emitted) {
        0
    } else {
        recency_weight_spec(sat_inc(g.tets_last_emitted[i]) as int, g.factor, g.is_base_not_exp)
    }
}

/// One draw of a generator: `r` is the drawn position and `g2` the generator
/// afterwards.
pub open spec fn draw_step(g: StdTetGen, r: int, g2: StdTetGen) -> bool {
    &&& 0 <= r < 7
    &&& match (g, g2) {
        (StdTetGen::Reroll(a), StdTetGen::Reroll(b)) => {
            &&& b.tet_last_emitted == Some(tetromino_at(r))
            &&& b.aversion_to_last == a.aversion_to_last
        },
        (StdTetGen::Stock(a), StdTetGen::Stock(b)) => {
            &&& restocked(a)[r] > 0
            &&& b.tets_stocked@ == restocked(a).update(r, (restocked(a)[r] - 1) as u32)
            &&& b.restock_multiplicity == a.restock_multiplicity
        },
        (StdTetGen::BalanceOut(a), StdTetGen::BalanceOut(b)) => {
            b.tets_relative_tallies@ == normalized(a.tets_relative_tallies).update(
                r,
                sat_inc(normalized(a.tets_relative_tallies)[r]),
            )
        },
        (StdTetGen::Recency(a), StdTetGen::Recency(b)) => {
            &&& any_seen(a.tets_last_emitted) ==> a.tets_last_emitted[r] != 0
            &&& b.tets_last_emitted@ == aged(a.tets_last_emitted).update(r, 0u32)
            &&& b.factor == a.factor
            &&& b.is_base_not_exp == a.is_base_not_exp
        },
        _ => false,
    }
}

/// Two to the power 20.
pub const TWO_POW_20: u128 = 1_048_576;

/// Two to the power 40.
pub const TWO_POW_40: u128 = 1_099_511_627_776;

/// Two to the power 52.
pub const TWO_POW_52: u128 = 4_503_599_627_370_496;

/// Two to the power 60.
pub const TWO_POW_60: u128 = 1_152_921_504_606_846_976;

/// Two to the power 80.
pub const TWO_POW_80: u128 = 1_208_925_819_614_629_174_706_176;

/// Weights of the balance-out generator: `2^40 * e^-n` rounded to whole
/// numbers, and at least one.
pub open spec fn balance_weight(n: u32) -> u64 {
    let table = seq![
        1099511627776u64, 404487723188, 148802717567, 54741460583, 20138257928, 7408451073,
        2725416841, 1002624824, 368845060, 135690515, 49917751, 18363714, 6755633, 2485258,
        914275, 336343, 123734, 45519, 16746, 6160, 2266, 834, 307, 113, 42, 15, 6, 2,
    ];
    if n < 28 {
        table[n as int]
    } else {
        1
    }
}

fn balance_weight_exec(n: u32) -> (r: u64)
    ensures
        r == balance_weight(n),
        1 <= r <= WEIGHT_CAP,
{
    let table: [u64; 28] = [
        1099511627776, 404487723188, 148802717567, 54741460583, 20138257928, 7408451073,
        2725416841, 1002624824, 368845060, 135690515, 49917751, 18363714, 6755633, 2485258,
        914275, 336343, 123734, 45519, 16746, 6160, 2266, 834, 307, 113, 42, 15, 6, 2,
    ];
    if n < 28 {
        let r = table[n as usize];
        assert(table@ =~= seq![
            1099511627776u64, 404487723188, 148802717567, 54741460583, 20138257928, 7408451073,
            2725416841, 1002624824, 368845060, 135690515, 49917751, 18363714, 6755633, 2485258,
            914275, 336343, 123734, 45519, 16746, 6160, 2266, 834, 307, 113, 42, 15, 6, 2,
        ]);
        r
    } else {
        1
    }
}

/// `base^exp` for whole numbers, every multiplication capped at [`WEIGHT_CAP`].
pub open spec fn capped_power(base: int, exp: nat) -> int
    decreases exp,
{
    if exp == 0 {
        1
    } else {
        let p = capped_power(base, (exp - 1) as nat) * base;
        if p < WEIGHT_CAP {
            p
        } else {
            WEIGHT_CAP as int
        }
    }
}

/// With base one, or once the cap is reached, further powers stay the same;
/// with base zero every positive power is zero.
proof fn lemma_capped_power_stable(base: int, i: nat, e: nat)
    requires
        i <= e,
        base >= 0,
        base <= 1 || capped_power(base, i) == WEIGHT_CAP,
        base == 0 ==> i >= 1,
    ensures
        capped_power(base, e) == capped_power(base, i),
    decreases e - i,
{
    if i < e {
        lemma_capped_power_stable(base, i, (e - 1) as nat);
        let v = capped_power(base, (e - 1) as nat);
        if base >= 2 {
            assert(v * base >= v) by (nonlinear_arith)
                requires
                    base >= 2,
                    v >= 0,
            ;
        }
    }
}

/// `b^n` for a fixed-point base `b` in millionths, every multiplication
/// rounded down and capped at [`WEIGHT_CAP`].
pub open spec fn capped_factor_power(b: int, n: nat) -> int
    decreases n,
{
    if n == 0 {
        FACTOR_SCALE as int
    } else {
        let p = capped_factor_power(b, (n - 1) as nat) * b / (FACTOR_SCALE as int);
        if p < WEIGHT_CAP {
            p
        } else {
            WEIGHT_CAP as int
        }
    }
}

/// Once a fixed-point power is zero, or capped with a base above one, or when
/// the base is one, further powers stay the same.
proof fn lemma_capped_factor_power_stable(b: int, i: nat, e: nat)
    requires
        i <= e,
        0 <= b,
        0 <= capped_factor_power(b, i) <= WEIGHT_CAP,
        capped_factor_power(b, i) == 0 || b == FACTOR_SCALE || (capped_factor_power(b, i) == WEIGHT_CAP
            && b > FACTOR_SCALE),
    ensures
        capped_factor_power(b, e) == capped_factor_power(b, i),
    decreases e - i,
{
    if i < e {
        lemma_capped_factor_power_stable(b, i, (e - 1) as nat);
        let v = capped_factor_power(b, (e - 1) as nat);
        let p = v * b / (FACTOR_SCALE as int);
        assert(capped_factor_power(b, e) == (if p < WEIGHT_CAP { p } else { WEIGHT_CAP as int }));
        if v == 0 {
            assert(p == 0) by (nonlinear_arith)
                requires
                    v == 0,
                    p == v * b / (FACTOR_SCALE as int),
            ;
        } else if b == FACTOR_SCALE {
            assert(p == v) by (nonlinear_arith)
                requires
                    b == FACTOR_SCALE,
                    p == v * b / (FACTOR_SCALE as int),
            ;
        } else {
            assert(p >= v) by (nonlinear_arith)
                requires
                    b > FACTOR_SCALE,
                    v >= 0,
                    p == v * b / (FACTOR_SCALE as int),
            ;
        }
    }
}

/// Whether `r` is the integer square root of `x`.
pub open spec fn is_floor_sqrt(x: int, r: int) -> bool {
    0 <= r && r * r <= x < (r + 1) * (r + 1)
}

/// The integer square root of `x`.
pub open spec fn floor_sqrt(x: int) -> int {
    choose|r: int| is_floor_sqrt(x, r)
}

/// The integer square root is unique.
proof fn lemma_floor_sqrt_unique(x: int, r: int)
    requires
        is_floor_sqrt(x, r),
    ensures
        floor_sqrt(x) == r,
{
    let s = floor_sqrt(x);
    assert(is_floor_sqrt(x, s));
    if s < r {
        assert((s + 1) * (s + 1) <= r * r) by (nonlinear_arith)
            requires
                0 <= s,
                s + 1 <= r,
        ;
    } else if s > r {
        assert((r + 1) * (r + 1) <= s * s) by (nonlinear_arith)
            requires
                0 <= r,
                r + 1 <= s,
        ;
    }
}

/// The state `(result, root, remainder)` of the fixed-point fractional power
/// of `n` after `k` binary digits of the exponent `frac / FACTOR_SCALE`: the
/// root is square-rooted once per digit, and multiplied into the result (capped
/// at `2^60`) where the digit is one.
pub open spec fn fractional_power_state(n: int, frac: int, k: nat) -> (int, int, int)
    decreases k,
{
    if k == 0 {
        (TWO_POW_20 as int, n * TWO_POW_20, frac)
    } else {
        let (result, root, rem) = fractional_power_state(n, frac, (k - 1) as nat);
        let next = floor_sqrt(root * TWO_POW_20);
        if rem * 2 >= FACTOR_SCALE {
            let product = result * next / (TWO_POW_20 as int);
            (if product < TWO_POW_60 { product } else { TWO_POW_60 as int }, next, rem * 2 - FACTOR_SCALE)
        } else {
            (result, next, rem * 2)
        }
    }
}

/// The integer square root of `x`.
fn isqrt(x: u128) -> (r: u128)
    requires
        x < TWO_POW_80,
    ensures
        r == floor_sqrt(x as int),
        r * r <= x < (r + 1) * (r + 1),
        r < TWO_POW_40,
{
    let mut lo: u128 = 0;
    let mut hi: u128 = TWO_POW_40;
    while lo + 1 < hi
        invariant
            lo < hi <= TWO_POW_40,
            lo * lo <= x,
            x < hi * hi,
        decreases hi - lo,
    {
        let mid = lo + (hi - lo) / 2;
        assert(mid * mid <= hi * hi) by (nonlinear_arith)
            requires
                mid < hi,
        ;
        assert(hi * hi <= (TWO_POW_40) * (TWO_POW_40)) by (nonlinear_arith)
            requires
                hi <= TWO_POW_40,
        ;
        if mid * mid <= x {
            lo = mid;
        } else {
            hi = mid;
        }
    }
    proof {
        lemma_floor_sqrt_unique(x as int, lo as int);
    }
    lo
}

/// `n^(frac / FACTOR_SCALE)` in fixed point with twenty fractional bits, from
/// twenty binary digits of the exponent and repeated square roots of `n`.
fn fractional_power(n: u64, frac: u64) -> (r: u128)
    requires
        1 <= n <= u32::MAX,
        frac < FACTOR_SCALE,
    ensures
        r == fractional_power_state(n as int, frac as int, 20).0,
        r <= TWO_POW_60,
{
    let mut result: u128 = TWO_POW_20;
    let mut root: u128 = (n as u128) * TWO_POW_20;
    let mut rem: u64 = frac;
    let mut k: u32 = 0;
    while k < 20
        invariant
            k <= 20,
            rem < FACTOR_SCALE,
            TWO_POW_20 <= root <= TWO_POW_52,
            result <= TWO_POW_60,
            (result as int, root as int, rem as int) == fractional_power_state(n as int, frac as int, k as nat),
        decreases 20 - k,
    {
        assert(root * TWO_POW_20 < TWO_POW_80) by (nonlinear_arith)
            requires
                root <= TWO_POW_52,
        ;
        let next = isqrt(root * TWO_POW_20);
        assert(next >= TWO_POW_20) by (nonlinear_arith)
            requires
                root >= TWO_POW_20,
                root * TWO_POW_20 < (next + 1) * (next + 1),
        ;
        root = next;
        assert(root <= TWO_POW_52);
        if rem * 2 >= FACTOR_SCALE {
            rem = rem * 2 - FACTOR_SCALE;
            assert(result * root <= (TWO_POW_60) * (TWO_POW_52)) by (nonlinear_arith)
                requires
                    result <= TWO_POW_60,
                    root <= TWO_POW_52,
            ;
            let product = (result * root) / TWO_POW_20;
            result = if product < TWO_POW_60 {
                product
            } else {
                TWO_POW_60
            };
        } else {
            rem = rem * 2;
        }
        k = k + 1;
    }
    result
}

/// `base^exp` for whole numbers, saturating at [`WEIGHT_CAP`].
fn saturating_power(base: u64, exp: u64) -> (r: u64)
    requires
        base <= u32::MAX,
    ensures
        r == capped_power(base as int, exp as nat),
        r <= WEIGHT_CAP,
        base >= 1 ==> r >= 1,
{
    let mut v: u64 = 1;
    let mut i: u64 = 0;
    while i < exp
        invariant
            i <= exp,
            v <= WEIGHT_CAP,
            base <= u32::MAX,
            base >= 1 ==> v >= 1,
            v == capped_power(base as int, i as nat),
        decreases exp - i,
    {
        if v == WEIGHT_CAP || base <= 1 {
            if base == 0 {
                proof {
                    if i == 0 {
                        assert(capped_power(0, 1) == 0);
                        lemma_capped_power_stable(0, 1, exp as nat);
                    } else {
                        lemma_capped_power_stable(0, i as nat, exp as nat);
                    }
                }
                return 0;
            }
            proof {
                lemma_capped_power_stable(base as int, i as nat, exp as nat);
            }
            return v;
        }
        assert(v * base <= WEIGHT_CAP * (u32::MAX as u64)) by (nonlinear_arith)
            requires
                v <= WEIGHT_CAP,
                base <= u32::MAX,
        ;
        assert(base >= 1 && v >= 1 ==> v * base >= 1) by (nonlinear_arith);
        let p: u128 = v as u128 * base as u128;
        v = if p < WEIGHT_CAP as u128 {
            p as u64
        } else {
            WEIGHT_CAP
        };
        i = i + 1;
    }
    v
}

/// `base^n` for a fixed-point base, in millionths, saturating at [`WEIGHT_CAP`].
fn saturating_factor_power(base: u64, n: u32) -> (r: u64)
    ensures
        r == capped_factor_power(if base < WEIGHT_CAP { base as int } else { WEIGHT_CAP as int }, n as nat),
        r <= WEIGHT_CAP,
{
    let b: u64 = if base < WEIGHT_CAP { base } else { WEIGHT_CAP };
    let mut v: u64 = FACTOR_SCALE;
    let mut i: u32 = 0;
    while i < n
        invariant
            i <= n,
            v <= WEIGHT_CAP,
            b <= WEIGHT_CAP,
            b == (if base < WEIGHT_CAP { base as int } else { WEIGHT_CAP as int }),
            v == capped_factor_power(b as int, i as nat),
            v == WEIGHT_CAP ==> b > FACTOR_SCALE,
        decreases n - i,
    {
        if v == 0 || v == WEIGHT_CAP || b == FACTOR_SCALE {
            proof {
                lemma_capped_factor_power_stable(b as int, i as nat, n as nat);
            }
            return v;
        }
        assert(b < FACTOR_SCALE ==> v * b / (FACTOR_SCALE as int) <= v) by (nonlinear_arith)
            requires
                v >= 0,
        ;
        assert(v * b <= WEIGHT_CAP * WEIGHT_CAP) by (nonlinear_arith)
            requires
                v <= WEIGHT_CAP,
                b <= WEIGHT_CAP,
        ;
        let p: u128 = (v as u128) * (b as u128) / (FACTOR_SCALE as u128);
        v = if p < WEIGHT_CAP as u128 {
            p as u64
        } else {
            WEIGHT_CAP
        };
        i = i + 1;
    }
    v
}

/// The recency weight of a tetromino last emitted `n` pieces ago. In base mode
/// it is `factor^n` (see [`capped_factor_power`], the factor capped at
/// [`WEIGHT_CAP`]); otherwise `n^factor`, the whole part of the exponent by
/// [`capped_power`] and the fractional part by [`fractional_power_state`] with
/// twenty fractional bits. Weights are kept between one and [`WEIGHT_CAP`].
pub open spec fn recency_weight_spec(n: int, factor: Factor, is_base_not_exp: bool) -> int {
    let f = factor.millionths as int;
    if is_base_not_exp {
        let v = capped_factor_power(if f < WEIGHT_CAP { f } else { WEIGHT_CAP as int }, n as nat);
        if v == 0 {
            1
        } else {
            v
        }
    } else {
        let whole = capped_power(n, (f / FACTOR_SCALE as int) as nat);
        let frac = fractional_power_state(n, f % FACTOR_SCALE as int, 20).0;
        let w = whole * frac / (TWO_POW_20 as int);
        if w < 1 {
            1
        } else if w < WEIGHT_CAP {
            w
        } else {
            WEIGHT_CAP as int
        }
    }
}

/// The weight of a tetromino last emitted `n` pieces ago (`n >= 1`): `n^factor`,
/// or `factor^n` in base mode, in fixed point, between one and [`WEIGHT_CAP`];
/// see [`recency_weight_spec`].
fn recency_weight(n: u32, factor: Factor, is_base_not_exp: bool) -> (r: u64)
    requires
        n >= 1,
    ensures
        r == recency_weight_spec(n as int, factor, is_base_not_exp),
        1 <= r <= WEIGHT_CAP,
{
    if is_base_not_exp {
        let v = saturating_factor_power(factor.millionths, n);
        if v == 0 {
            1
        } else {
            v
        }
    } else {
        let whole = saturating_power(n as u64, factor.millionths / FACTOR_SCALE);
        let frac = fractional_power(n as u64, factor.millionths % FACTOR_SCALE);
        assert(whole * frac <= WEIGHT_CAP * (TWO_POW_60)) by (nonlinear_arith)
            requires
                whole <= WEIGHT_CAP,
                frac <= TWO_POW_60,
        ;
        let w: u128 = (whole as u128 * frac) / TWO_POW_20;
        if w < 1 {
            1
        } else if w < WEIGHT_CAP as u128 {
            w as u64
        } else {
            WEIGHT_CAP
        }
    }
}

/// The recency-based generator with exponent 2.5 and no piece seen yet.
pub open spec fn is_snappy(g: StdTetGen) -> bool {
    g matches StdTetGen::Recency(r) && r.tets_last_emitted@ == Seq::new(7, |i: int| 0u32)
        && r.factor.millionths == 2_500_000 && !r.is_base_not_exp
}

impl Default for StdTetGen {
    /// The recency-based generator with exponent 2.5.
    fn default() -> (r: Self)
        ensures
            is_snappy(r),
    {
        StdTetGen::snappy()
    }
}

impl StdTetGen {
    /// Uniformly random generation.
    pub fn uniform() -> (r: Self)
        ensures
            r == StdTetGen::Reroll(RerollGen { tet_last_emitted: None, aversion_to_last: 0 }),
    {
        StdTetGen::Reroll(RerollGen { tet_last_emitted: None, aversion_to_last: 0 })
    }

    /// Classic generation: uniformly random, but rerolls once on a repeat.
    pub fn classic() -> (r: Self)
        ensures
            r == StdTetGen::Reroll(RerollGen { tet_last_emitted: None, aversion_to_last: 1 }),
    {
        StdTetGen::Reroll(RerollGen { tet_last_emitted: None, aversion_to_last: 1 })
    }

    /// The common 7-bag: one of each tetromino, refilled one at a time.
    pub fn bag() -> (r: Self)
        ensures
            r matches StdTetGen::Stock(g) && g.tets_stocked@ == Seq::new(7, |i: int| 1u32)
                && g.restock_multiplicity == 1,
    {
        let r = StdTetGen::Stock(StockGen { tets_stocked: [1; 7], restock_multiplicity: 1 });
        assert(r->Stock_0.tets_stocked@ =~= Seq::new(7, |i: int| 1u32));
        r
    }

    /// Balance-out generation starting from equal tallies.
    pub fn balance_out() -> (r: Self)
        ensures
            r matches StdTetGen::BalanceOut(g) && g.tets_relative_tallies@ == Seq::new(7, |i: int| 0u32),
    {
        let r = StdTetGen::BalanceOut(BalanceOutGen { tets_relative_tallies: [0; 7] });
        assert(r->BalanceOut_0.tets_relative_tallies@ =~= Seq::new(7, |i: int| 0u32));
        r
    }

    /// Recency-based generation with exponent 2.5.
    pub fn snappy() -> (r: Self)
        ensures
            is_snappy(r),
    {
        let r = StdTetGen::Recency(
            RecencyGen {
                tets_last_emitted: [0; 7],
                factor: Factor::from_millionths(2_500_000),
                is_base_not_exp: false,
            },
        );
        assert(r->Recency_0.tets_last_emitted@ =~= Seq::new(7, |i: int| 0u32));
        r
    }

    /// Draws the next tetromino, updating the generator's state.
    pub fn next(&mut self, rng: &mut GameRng) -> (r: Tetromino)
        ensures
            draw_step(*old(self), tetromino_index(r), *final(self)),
    {
        let idx = match self {
            StdTetGen::Reroll(g) => g.draw(rng),
            StdTetGen::Stock(g) => g.draw(rng),
            StdTetGen::BalanceOut(g) => g.draw(rng),
            StdTetGen::Recency(g) => g.draw(rng),
        };
        tetromino_from_index(idx)
    }
}

/// Whether a reroll generator draws again after drawing position `idx` with
/// `done` rerolls made: the draw repeats the tetromino dealt last, and fewer
/// than `aversion` rerolls were made.
pub fn rerolls_again(last: Option<Tetromino>, idx: usize, done: u32, aversion: u32) -> (r: bool)
    requires
        idx < 7,
    ensures
        r == (done < aversion && last == Some(tetromino_at(idx as int))),
{
    match last {
        Some(t) => {
            let same = t.index() == idx;
            proof {
                assert(same <==> t == tetromino_at(idx as int)) by {
                    assert(tetromino_at(tetromino_index(t)) == t);
                }
            }
            done < aversion && same
        },
        None => false,
    }
}

impl RerollGen {
    /// Draws a position uniformly, and draws again while [`rerolls_again`]
    /// says so: while the draw repeats the last tetromino, at most
    /// `aversion_to_last` times.
    pub fn draw(&mut self, rng: &mut GameRng) -> (r: usize)
        ensures
            r < 7,
            final(self).tet_last_emitted == Some(tetromino_at(r as int)),
            final(self).aversion_to_last == old(self).aversion_to_last,
    {
        let last = self.tet_last_emitted;
        let aversion = self.aversion_to_last;
        let mut idx = random_index_below_seven(rng);
        let mut done: u32 = 0;
        while rerolls_again(last, idx, done, aversion)
            invariant
                idx < 7,
                done <= aversion,
            decreases aversion - done,
        {
            idx = random_index_below_seven(rng);
            done = done + 1;
        }
        self.tet_last_emitted = Some(tetromino_from_index(idx));
        idx
    }
}

impl StockGen {
    /// The weights of the next draw: the stocks, refilled by the multiplicity
    /// (at least one) when all are empty.
    pub fn weights(&self) -> (r: [u32; 7])
        ensures
            r@ == restocked(*self),
    {
        let sum: u64 = self.tets_stocked[0] as u64 + self.tets_stocked[1] as u64
            + self.tets_stocked[2] as u64 + self.tets_stocked[3] as u64
            + self.tets_stocked[4] as u64 + self.tets_stocked[5] as u64
            + self.tets_stocked[6] as u64;
        if sum == 0 {
            let m: u32 = if self.restock_multiplicity == 0 {
                1
            } else {
                self.restock_multiplicity
            };
            let r = [m, m, m, m, m, m, m];
            assert(r@ =~= restocked(*self));
            r
        } else {
            assert(self.tets_stocked@ =~= restocked(*self));
            self.tets_stocked
        }
    }

    /// Draws a position with positive stock (after refilling an empty stock)
    /// and takes one of it. The stocks are sampled as `u32` weights; a total
    /// beyond `u32::MAX`, on which that sampler cannot be built, is sampled as
    /// `u64` weights instead.
    pub fn draw(&mut self, rng: &mut GameRng) -> (r: usize)
        ensures
            r < 7,
            restocked(*old(self))[r as int] > 0,
            final(self).tets_stocked@ == restocked(*old(self)).update(
                r as int,
                (restocked(*old(self))[r as int] - 1) as u32,
            ),
            final(self).restock_multiplicity == old(self).restock_multiplicity,
    {
        let ghost before = *self;
        let w = self.weights();
        self.tets_stocked = w;
        let total: u64 = w[0] as u64 + w[1] as u64 + w[2] as u64 + w[3] as u64 + w[4] as u64
            + w[5] as u64 + w[6] as u64;
        assert(total > 0) by {
            if before.tets_stocked[0] + before.tets_stocked[1] + before.tets_stocked[2]
                + before.tets_stocked[3] + before.tets_stocked[4] + before.tets_stocked[5]
                + before.tets_stocked[6] == 0 {
                assert(w[0] == restocked(before)[0]);
            }
        }
        let idx = if total <= u32::MAX as u64 {
            weighted_index_u32(rng, &w)
        } else {
            let wide: [u64; 7] = [
                w[0] as u64,
                w[1] as u64,
                w[2] as u64,
                w[3] as u64,
                w[4] as u64,
                w[5] as u64,
                w[6] as u64,
            ];
            weighted_index(rng, &wide)
        };
        self.tets_stocked[idx] = self.tets_stocked[idx] - 1;
        idx
    }
}

/// The tallies shifted down so that the smallest is zero.
fn normalized_tallies(t: [u32; 7]) -> (r: [u32; 7])
    ensures
        r@ == normalized(t),
{
    let mut m = t[0];
    let mut i: usize = 1;
    while i < 7
        invariant
            1 <= i <= 7,
            m == tally_prefix_min(t, i as int),
        decreases 7 - i,
    {
        if t[i] < m {
            m = t[i];
        }
        i = i + 1;
    }
    proof {
        lemma_tally_min_is_min(t);
    }
    let mut norm: [u32; 7] = t;
    let mut j: usize = 0;
    while j < 7
        invariant
            j <= 7,
            m == tally_min(t),
            forall|k: int| 0 <= k < 7 ==> tally_min(t) <= #[trigger] t[k],
            forall|k: int| 0 <= k < j ==> #[trigger] norm[k] == t[k] - m,
            forall|k: int| j <= k < 7 ==> #[trigger] norm[k] == t[k],
        decreases 7 - j,
    {
        norm[j] = norm[j] - m;
        j = j + 1;
    }
    assert(norm@ =~= normalized(t));
    norm
}

impl BalanceOutGen {
    /// The weights of the next draw: [`balance_weight`] of each normalised
    /// tally.
    pub fn weights(&self) -> (r: [u64; 7])
        ensures
            forall|i: int|
                0 <= i < 7 ==> r[i] == balance_weight(
                    #[trigger] normalized(self.tets_relative_tallies)[i],
                ),
    {
        let norm = normalized_tallies(self.tets_relative_tallies);
        [
            balance_weight_exec(norm[0]),
            balance_weight_exec(norm[1]),
            balance_weight_exec(norm[2]),
            balance_weight_exec(norm[3]),
            balance_weight_exec(norm[4]),
            balance_weight_exec(norm[5]),
            balance_weight_exec(norm[6]),
        ]
    }

    /// Normalises the tallies so the smallest is zero, draws a position
    /// weighted by `e^-tally`, and counts it.
    pub fn draw(&mut self, rng: &mut GameRng) -> (r: usize)
        ensures
            r < 7,
            final(self).tets_relative_tallies@ == normalized(old(self).tets_relative_tallies).update(
                r as int,
                sat_inc(normalized(old(self).tets_relative_tallies)[r as int]),
            ),
    {
        let weights = self.weights();
        let mut norm = normalized_tallies(self.tets_relative_tallies);
        assert(weights[0] >= 1 && weights[1] >= 1 && weights[2] >= 1 && weights[3] >= 1
            && weights[4] >= 1 && weights[5] >= 1 && weights[6] >= 1) by {
            assert(weights[0] == balance_weight(norm[0]));
            assert(weights[1] == balance_weight(norm[1]));
            assert(weights[2] == balance_weight(norm[2]));
            assert(weights[3] == balance_weight(norm[3]));
            assert(weights[4] == balance_weight(norm[4]));
            assert(weights[5] == balance_weight(norm[5]));
            assert(weights[6] == balance_weight(norm[6]));
        }
        assert(weights[0] <= WEIGHT_CAP && weights[1] <= WEIGHT_CAP && weights[2] <= WEIGHT_CAP
            && weights[3] <= WEIGHT_CAP && weights[4] <= WEIGHT_CAP && weights[5] <= WEIGHT_CAP
            && weights[6] <= WEIGHT_CAP) by {
            assert(weights[0] == balance_weight(norm[0]));
            assert(weights[1] == balance_weight(norm[1]));
            assert(weights[2] == balance_weight(norm[2]));
            assert(weights[3] == balance_weight(norm[3]));
            assert(weights[4] == balance_weight(norm[4]));
            assert(weights[5] == balance_weight(norm[5]));
            assert(weights[6] == balance_weight(norm[6]));
        }
        let idx = weighted_index(rng, &weights);
        norm[idx] = if norm[idx] < u32::MAX {
            norm[idx] + 1
        } else {
            norm[idx]
        };
        self.tets_relative_tallies = norm;
        idx
    }
}

/// The weight of one position of a recency generator; see
/// [`recency_draw_weight`].
fn recency_entry_weight(count: u32, seen: bool, factor: Factor, is_base_not_exp: bool) -> (r: u64)
    ensures
        r == (if count == 0 && seen {
            0
        } else {
            recency_weight_spec(sat_inc(count) as int, factor, is_base_not_exp)
        }),
        r <= WEIGHT_CAP,
        !(count == 0 && seen) ==> r >= 1,
{
    if count == 0 && seen {
        0
    } else {
        let aged_count: u32 = if count < u32::MAX {
            count + 1
        } else {
            count
        };
        recency_weight(aged_count, factor, is_base_not_exp)
    }
}

impl RecencyGen {
    /// The weights of the next draw: for each position its
    /// [`recency_draw_weight`], so that the piece just dealt cannot come again.
    pub fn weights(&self) -> (r: [u64; 7])
        ensures
            forall|i: int| 0 <= i < 7 ==> r[i] == #[trigger] recency_draw_weight(*self, i),
    {
        let t = self.tets_last_emitted;
        let seen = t[0] > 0 || t[1] > 0 || t[2] > 0 || t[3] > 0 || t[4] > 0 || t[5] > 0 || t[6] > 0;
        let f = self.factor;
        let base_mode = self.is_base_not_exp;
        [
            recency_entry_weight(t[0], seen, f, base_mode),
            recency_entry_weight(t[1], seen, f, base_mode),
            recency_entry_weight(t[2], seen, f, base_mode),
            recency_entry_weight(t[3], seen, f, base_mode),
            recency_entry_weight(t[4], seen, f, base_mode),
            recency_entry_weight(t[5], seen, f, base_mode),
            recency_entry_weight(t[6], seen, f, base_mode),
        ]
    }

    /// Draws a position by the recency weights (never the piece just dealt),
    /// ages all counts by one, and resets the drawn count.
    pub fn draw(&mut self, rng: &mut GameRng) -> (r: usize)
        ensures
            r < 7,
            any_seen(old(self).tets_last_emitted) ==> old(self).tets_last_emitted[r as int] != 0,
            final(self).tets_last_emitted@ == aged(old(self).tets_last_emitted).update(r as int, 0u32),
            final(self).factor == old(self).factor,
            final(self).is_base_not_exp == old(self).is_base_not_exp,
    {
        let ghost before = *self;
        let weights = self.weights();
        proof {
            let t = before.tets_last_emitted;
            assert forall|k: int| 0 <= k < 7 implies weights[k] <= WEIGHT_CAP by {
                assert(weights[k] == recency_draw_weight(before, k));
                if !(t[k] == 0 && any_seen(t)) {
                    assert(sat_inc(t[k]) >= 1);
                }
            }
            let j: int = if t[0] > 0 { 0 } else if t[1] > 0 { 1 } else if t[2] > 0 { 2 }
                else if t[3] > 0 { 3 } else if t[4] > 0 { 4 } else if t[5] > 0 { 5 } else { 6 };
            assert(weights[j] == recency_draw_weight(before, j));
            assert(weights[j] >= 1);
        }
        let idx = weighted_index(rng, &weights);
        proof {
            assert(weights[idx as int] == recency_draw_weight(before, idx as int));
        }
        let mut counts: [u32; 7] = self.tets_last_emitted;
        let mut j: usize = 0;
        while j < 7
            invariant
                j <= 7,
                forall|k: int| 0 <= k < j ==> #[trigger] counts[k] == sat_inc(before.tets_last_emitted[k]),
                forall|k: int| j <= k < 7 ==> #[trigger] counts[k] == before.tets_last_emitted[k],
            decreases 7 - j,
        {
            counts[j] = if counts[j] < u32::MAX {
                counts[j] + 1
            } else {
                counts[j]
            };
            j = j + 1;
        }
        assert(counts@ =~= aged(before.tets_last_emitted));
        counts[idx] = 0;
        self.tets_last_emitted = counts;
        idx
    }
}

/// Law: a recency generator never deals the same tetromino twice in a row: after a
/// draw the piece dealt has count zero while every other count is positive, so
/// it has weight zero on the next draw.
pub proof fn lemma_recency_no_repeat(g0: StdTetGen, r1: int, g1: StdTetGen, r2: int, g2: StdTetGen)
    requires
        g0 is Recency,
        draw_step(g0, r1, g1),
        draw_step(g1, r2, g2),
    ensures
        r1 != r2,
{
    let a = g0->Recency_0;
    let b = g1->Recency_0;
    let j: int = if r1 == 0 { 1 } else { 0 };
    assert(b.tets_last_emitted@[j] == sat_inc(a.tets_last_emitted[j]));
    assert(b.tets_last_emitted[j] > 0);
    assert(any_seen(b.tets_last_emitted));
    assert(b.tets_last_emitted@[r1] == 0);
}

/// The smallest of the first `i` tallies.
pub open spec fn tally_prefix_min(t: [u32; 7], i: int) -> u32
    decreases i,
{
    if i <= 1 {
        t[0]
    } else {
        let m = tally_prefix_min(t, i - 1);
        if t[i - 1] < m { t[i - 1] } else { m }
    }
}

/// A run of draws: generator `gens[i]` draws position `drawn[i]` and becomes
/// `gens[i + 1]`.
pub open spec fn draw_chain(gens: Seq<StdTetGen>, drawn: Seq<int>) -> bool {
    &&& gens.len() == drawn.len() + 1
    &&& forall|i: int| 0 <= i < drawn.len() ==> draw_step(#[trigger] gens[i], drawn[i], gens[i + 1])
}

/// A run of draws extended by one more draw.
pub proof fn lemma_draw_chain_push(gens: Seq<StdTetGen>, drawn: Seq<int>, r: int, g: StdTetGen)
    requires
        draw_chain(gens, drawn),
        draw_step(gens.last(), r, g),
    ensures
        draw_chain(gens.push(g), drawn.push(r)),
{
    let gens2 = gens.push(g);
    let drawn2 = drawn.push(r);
    assert forall|i: int| 0 <= i < drawn2.len() implies draw_step(#[trigger] gens2[i], drawn2[i], gens2[i + 1]) by {
        if i < drawn.len() {
            assert(draw_step(gens[i], drawn[i], gens[i + 1]));
        }
    }
}

/// The positions of a sequence of tetrominoes.
pub open spec fn drawn_indices(s: Seq<Tetromino>) -> Seq<int> {
    s.map_values(|t: Tetromino| tetromino_index(t))
}

/// Generator `g1` is `g0` after drawing the tetrominoes `drawn`, in order.
pub open spec fn generated(g0: StdTetGen, drawn: Seq<Tetromino>, g1: StdTetGen) -> bool {
    exists|gens: Seq<StdTetGen>| #[trigger] draw_chain(gens, drawn_indices(drawn)) && gens[0] == g0 && gens.last() == g1
}

/// Drawing one more tetromino extends the generated run.
pub proof fn lemma_generated_push(gens: Seq<StdTetGen>, drawn: Seq<Tetromino>, t: Tetromino, g: StdTetGen)
    requires
        draw_chain(gens, drawn_indices(drawn)),
        draw_step(gens.last(), tetromino_index(t), g),
    ensures
        draw_chain(gens.push(g), drawn_indices(drawn.push(t))),
{
    lemma_draw_chain_push(gens, drawn_indices(drawn), tetromino_index(t), g);
    assert(drawn_indices(drawn.push(t)) =~= drawn_indices(drawn).push(tetromino_index(t)));
}

/// A full bag: the next draw sees one of each tetromino in stock, either
/// because one of each is left or because the bag is empty and is refilled
/// with one of each.
pub open spec fn full_bag(g: StdTetGen) -> bool {
    g matches StdTetGen::Stock(s) && restocked(s) == Seq::new(7, |i: int| 1u32)
}

/// Whether the positions in a sequence are pairwise different.
pub open spec fn all_different(s: Seq<int>) -> bool {
    forall|i: int, j: int| 0 <= i < j < s.len() ==> s[i] != s[j]
}

/// The sum of seven stocks.
spec fn seq_total(st: Seq<u32>) -> int {
    st[0] + st[1] + st[2] + st[3] + st[4] + st[5] + st[6]
}

/// What a bag's stocks look like after `drawn` was dealt from a full one:
/// every stock at most one, the drawn ones empty, and one piece gone per draw.
spec fn bag_after(st: Seq<u32>, drawn: Seq<int>) -> bool {
    &&& st.len() == 7
    &&& seq_total(st) == 7 - drawn.len()
    &&& forall|j: int| 0 <= j < 7 ==> #[trigger] st[j] <= 1
    &&& forall|i: int| 0 <= i < drawn.len() ==> 0 <= #[trigger] drawn[i] < 7 && st[drawn[i]] == 0
    &&& all_different(drawn)
}

proof fn lemma_bag_step(st: Seq<u32>, drawn: Seq<int>, r: int, st2: Seq<u32>)
    requires
        bag_after(st, drawn),
        drawn.len() < 7,
        0 <= r < 7,
        st[r] > 0,
        st2 == st.update(r, (st[r] - 1) as u32),
    ensures
        bag_after(st2, drawn.push(r)),
{
    assert(st[r] == 1);
    assert(seq_total(st2) == seq_total(st) - 1);
    let d2 = drawn.push(r);
    assert forall|i: int| 0 <= i < d2.len() implies 0 <= #[trigger] d2[i] < 7 && st2[d2[i]] == 0 by {
        if i < drawn.len() {
            assert(d2[i] == drawn[i]);
            assert(st[drawn[i]] == 0);
            assert(drawn[i] != r);
        } else {
            assert(d2[i] == r);
        }
    }
    assert forall|i: int, j: int| 0 <= i < j < d2.len() implies d2[i] != d2[j] by {
        if j == drawn.len() {
            assert(d2[i] == drawn[i]);
            assert(st[drawn[i]] == 0);
        } else {
            assert(d2[i] == drawn[i] && d2[j] == drawn[j]);
        }
    }
}

/// One draw from a stock generator, as far as a bag needs it.
spec fn stock_step(g: StdTetGen, r: int, g2: StdTetGen) -> bool {
    &&& g2 is Stock
    &&& 0 <= r < 7
    &&& restocked(g->Stock_0)[r] > 0
    &&& g2->Stock_0.tets_stocked@ == restocked(g->Stock_0).update(
        r,
        (restocked(g->Stock_0)[r] - 1) as u32,
    )
    &&& g2->Stock_0.restock_multiplicity == g->Stock_0.restock_multiplicity
}

/// Every draw from a stock generator in a run is a stock draw.
spec fn stock_steps(gens: Seq<StdTetGen>, drawn: Seq<int>) -> bool {
    forall|i: int|
        0 <= i < drawn.len() && gens[i] is Stock ==> #[trigger] stock_step(gens[i], drawn[i], gens[i + 1])
}

proof fn lemma_chain_stock_steps(gens: Seq<StdTetGen>, drawn: Seq<int>)
    requires
        draw_chain(gens, drawn),
    ensures
        stock_steps(gens, drawn),
{
    assert forall|i: int| 0 <= i < drawn.len() && gens[i] is Stock implies #[trigger] stock_step(
        gens[i],
        drawn[i],
        gens[i + 1],
    ) by {
        assert(draw_step(gens[i], drawn[i], gens[i + 1]));
    }
}

proof fn lemma_bag_prefix(gens: Seq<StdTetGen>, drawn: Seq<int>, k: int)
    requires
        gens.len() == 8,
        stock_steps(gens, drawn),
        drawn.len() == 7,
        full_bag(gens[0]),
        0 <= k <= 7,
    ensures
        gens[k] is Stock,
        gens[k]->Stock_0.restock_multiplicity == gens[0]->Stock_0.restock_multiplicity,
        k == 0 ==> bag_after(restocked(gens[0]->Stock_0), drawn.take(k)),
        k > 0 ==> bag_after(gens[k]->Stock_0.tets_stocked@, drawn.take(k)),
    decreases k,
{
    if k == 0 {
        assert(drawn.take(0) =~= Seq::<int>::empty());
        let st = restocked(gens[0]->Stock_0);
        assert(st[0] == 1 && st[1] == 1 && st[2] == 1 && st[3] == 1 && st[4] == 1 && st[5] == 1 && st[6] == 1);
    } else {
        lemma_bag_prefix(gens, drawn, k - 1);
        let j = k - 1;
        assert(stock_step(gens[j], drawn[j], gens[j + 1]));
        let a = gens[j]->Stock_0;
        if j > 0 {
            assert(seq_total(a.tets_stocked@) > 0);
            assert(restocked(a) == a.tets_stocked@);
        }
        lemma_bag_step(restocked(a), drawn.take(j), drawn[j], gens[k]->Stock_0.tets_stocked@);
        assert(drawn.take(j).push(drawn[j]) =~= drawn.take(k));
    }
}

/// Law: seven draws from a full bag hand out seven different tetrominoes and
/// leave the bag empty, with its refill unchanged.
pub proof fn lemma_bag_deals_each_once(gens: Seq<StdTetGen>, drawn: Seq<int>)
    requires
        draw_chain(gens, drawn),
        drawn.len() == 7,
        full_bag(gens[0]),
    ensures
        all_different(drawn),
        gens[7] matches StdTetGen::Stock(s) && s.tets_stocked@ == Seq::new(7, |i: int| 0u32)
            && s.restock_multiplicity == gens[0]->Stock_0.restock_multiplicity,
{
    lemma_chain_stock_steps(gens, drawn);
    lemma_bag_prefix(gens, drawn, 7);
    assert(drawn.take(7) =~= drawn);
    let s = gens[7]->Stock_0;
    assert(s.tets_stocked@ =~= Seq::new(7, |i: int| 0u32)) by {
        assert(s.tets_stocked@[0] <= 1 && s.tets_stocked@[1] <= 1 && s.tets_stocked@[2] <= 1);
        assert(s.tets_stocked@[3] <= 1 && s.tets_stocked@[4] <= 1 && s.tets_stocked@[5] <= 1);
        assert(s.tets_stocked@[6] <= 1);
    }
}

/// A part of a run of draws is a run of draws.
proof fn lemma_draw_chain_subrange(gens: Seq<StdTetGen>, drawn: Seq<int>, lo: int, hi: int)
    requires
        draw_chain(gens, drawn),
        0 <= lo <= hi <= drawn.len(),
    ensures
        draw_chain(gens.subrange(lo, hi + 1), drawn.subrange(lo, hi)),
{
    let g2 = gens.subrange(lo, hi + 1);
    let d2 = drawn.subrange(lo, hi);
    assert forall|i: int| 0 <= i < d2.len() implies draw_step(#[trigger] g2[i], d2[i], g2[i + 1]) by {
        assert(g2[i] == gens[lo + i] && g2[i + 1] == gens[lo + i + 1] && d2[i] == drawn[lo + i]);
    }
}

/// The first round of seven draws from a full bag refilled one at a time
/// deals seven different tetrominoes and leaves such a bag again.
proof fn lemma_first_bag(gens: Seq<StdTetGen>, drawn: Seq<int>)
    requires
        draw_chain(gens, drawn),
        drawn.len() >= 7,
        full_bag(gens[0]),
        gens[0]->Stock_0.restock_multiplicity <= 1,
    ensures
        all_different(drawn.subrange(0, 7)),
        full_bag(gens[7]),
        gens[7]->Stock_0.restock_multiplicity <= 1,
{
    lemma_draw_chain_subrange(gens, drawn, 0, 7);
    let g1 = gens.subrange(0, 8);
    lemma_bag_deals_each_once(g1, drawn.subrange(0, 7));
    assert(g1[7] == gens[7] && g1[0] == gens[0]);
    let s = gens[7]->Stock_0;
    assert(restocked(s) =~= Seq::new(7, |i: int| 1u32)) by {
        assert(s.tets_stocked@[0] == 0 && s.tets_stocked@[1] == 0 && s.tets_stocked@[2] == 0);
        assert(s.tets_stocked@[3] == 0 && s.tets_stocked@[4] == 0 && s.tets_stocked@[5] == 0);
        assert(s.tets_stocked@[6] == 0);
    }
}

/// A run of draws from a full bag that is refilled one of each at a time.
#[verifier::opaque]
spec fn bag_run(gens: Seq<StdTetGen>, drawn: Seq<int>) -> bool {
    &&& draw_chain(gens, drawn)
    &&& full_bag(gens[0])
    &&& gens[0]->Stock_0.restock_multiplicity <= 1
}

proof fn lemma_bag_rounds(gens: Seq<StdTetGen>, drawn: Seq<int>, n: nat)
    requires
        bag_run(gens, drawn),
        drawn.len() == 7 * n,
    ensures
        forall|j: int| 0 <= j < n ==> #[trigger] all_different(drawn.subrange(7 * j, 7 * j + 7)),
    decreases n,
{
    if n > 0 {
        let last = drawn.len() as int;
        let g2 = gens.subrange(7, last + 1);
        let d2 = drawn.subrange(7, last);
        assert(all_different(drawn.subrange(0, 7)) && bag_run(g2, d2)) by {
            reveal(bag_run);
            lemma_first_bag(gens, drawn);
            lemma_draw_chain_subrange(gens, drawn, 7, last);
            assert(g2[0] == gens[7]);
        }
        lemma_bag_rounds(g2, d2, (n - 1) as nat);
        assert forall|j: int| 0 <= j < n implies #[trigger] all_different(drawn.subrange(7 * j, 7 * j + 7)) by {
            if j > 0 {
                assert(all_different(d2.subrange(7 * (j - 1), 7 * (j - 1) + 7)));
                assert(d2.subrange(7 * (j - 1), 7 * (j - 1) + 7) =~= drawn.subrange(7 * j, 7 * j + 7));
            }
        }
    }
}

/// Law: the 7-bag. A full bag refilled one of each at a time deals every
/// round of seven draws as seven different tetrominoes.
pub proof fn lemma_bags_deal_each_once(gens: Seq<StdTetGen>, drawn: Seq<int>, n: nat)
    requires
        draw_chain(gens, drawn),
        drawn.len() == 7 * n,
        full_bag(gens[0]),
        gens[0]->Stock_0.restock_multiplicity <= 1,
    ensures
        forall|j: int| 0 <= j < n ==> #[trigger] all_different(drawn.subrange(7 * j, 7 * j + 7)),
{
    assert(bag_run(gens, drawn)) by {
        reveal(bag_run);
    }
    lemma_bag_rounds(gens, drawn, n);
}

/// The minimum of all seven tallies is the smallest tally.
proof fn lemma_tally_min_is_min(t: [u32; 7])
    ensures
        tally_prefix_min(t, 7) == tally_min(t),
        forall|k: int| 0 <= k < 7 ==> tally_min(t) <= #[trigger] t[k],
        exists|k: int| 0 <= k < 7 && tally_min(t) == #[trigger] t[k],
{
    reveal_with_fuel(tally_prefix_min, 7);
    if tally_min(t) == t[0] {
        assert(tally_min(t) == t[0]);
    } else if tally_min(t) == t[1] {
        assert(tally_min(t) == t[1]);
    } else if tally_min(t) == t[2] {
        assert(tally_min(t) == t[2]);
    } else if tally_min(t) == t[3] {
        assert(tally_min(t) == t[3]);
    } else if tally_min(t) == t[4] {
        assert(tally_min(t) == t[4]);
    } else if tally_min(t) == t[5] {
        assert(tally_min(t) == t[5]);
    } else {
        assert(tally_min(t) == t[6]);
    }
}

} // verus!
