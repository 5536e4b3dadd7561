use falling_tetromino_engine::{
    DelayCurve, DelayCurveExt, DelayParameters, DelayTable, ExtDuration, Factor, MILLISECOND,
};

#[test]
fn constant_delays_never_change() {
    let p = DelayParameters::constant(ExtDuration::Finite(5 * MILLISECOND));
    assert!(p.is_constant());
    assert_eq!(p.calculate_and_check(0), (ExtDuration::Finite(5 * MILLISECOND), true));
    assert_eq!(p.calculate_and_check(1000), (ExtDuration::Finite(5 * MILLISECOND), true));
}

#[test]
fn standard_fall_delays_decay() {
    let p = DelayParameters::standard_fall();
    assert!(!p.is_constant());
    assert_eq!(p.calculate_and_check(0), (ExtDuration::Finite(1_000_000_000), false));
    assert_eq!(p.calculate_and_check(1), (ExtDuration::Finite(976_258_000), false));
    assert_eq!(p.calculate_and_check(2), (ExtDuration::Finite(953_077_000), false));
    let (late, hit) = p.calculate_and_check(4000);
    assert_eq!(late, ExtDuration::Finite(0));
    assert!(hit);
}

#[test]
fn standard_lock_delays_reach_their_lower_bound() {
    let p = DelayParameters::standard_lock();
    assert_eq!(p.calculate_and_check(10), (ExtDuration::Finite(490 * MILLISECOND), false));
    assert_eq!(p.calculate_and_check(400), (ExtDuration::Finite(100 * MILLISECOND), true));
    assert_eq!(p.calculate_and_check(500), (ExtDuration::Finite(100 * MILLISECOND), true));
}

#[test]
fn delay_parameters_are_validated() {
    let base = ExtDuration::Finite(800 * MILLISECOND);
    let lower = ExtDuration::Finite(100 * MILLISECOND);
    assert!(DelayParameters::new(base, lower, Factor::from_millionths(500_000), ExtDuration::zero()).is_some());
    assert!(DelayParameters::new(lower, base, Factor::one(), ExtDuration::zero()).is_none());
    assert!(DelayParameters::new(base, lower, Factor::from_millionths(1_000_001), ExtDuration::zero()).is_none());
    let p = DelayParameters::new(base, lower, Factor::from_millionths(500_000), ExtDuration::zero()).unwrap();
    assert_eq!(p.base_delay(), base);
    assert_eq!(p.lowerbound(), lower);
    assert_eq!(p.factor(), Factor::from_millionths(500_000));
    assert_eq!(p.subtrahend(), ExtDuration::zero());
    assert_eq!(p.calculate_and_check(1), (ExtDuration::Finite(400 * MILLISECOND), false));
    assert_eq!(p.calculate_and_check(3), (ExtDuration::Finite(100 * MILLISECOND), true));
    let q = p.with_bounds(ExtDuration::Infinite, ExtDuration::zero()).unwrap();
    assert_eq!(q.calculate_and_check(0), (ExtDuration::Infinite, false));
    assert!(p.with_coefficients(Factor::from_millionths(2_000_000), ExtDuration::zero()).is_none());
}

#[test]
fn classic_fall_table_steps_every_n_lines() {
    let t = DelayTable::classic_fall();
    assert_eq!(t.entries().len(), 30);
    assert_eq!(t.lookup_and_check(0, 10), (ExtDuration::Finite(800_000_000), false));
    assert_eq!(t.lookup_and_check(15, 10), (ExtDuration::Finite(716_666_667), false));
    assert_eq!(t.lookup_and_check(290, 10), (ExtDuration::Finite(16_666_667), true));
    assert_eq!(t.lookup_and_check(100_000, 10), (ExtDuration::Finite(16_666_667), true));
    assert_eq!(t.lookup_and_check(3, 0), (ExtDuration::Finite(550_000_000), false));
}

#[test]
fn delay_tables_must_not_be_empty() {
    assert!(DelayTable::new(Vec::new()).is_none());
    let t = DelayTable::new(vec![ExtDuration::Finite(3), ExtDuration::Finite(1)]).unwrap();
    assert_eq!(t.entries(), &vec![ExtDuration::Finite(3), ExtDuration::Finite(1)]);
    assert_eq!(t.lookup_and_check(1, 1), (ExtDuration::Finite(1), true));
}

#[test]
fn delay_curves_read_either_kind() {
    let params = DelayCurve::Parameters(DelayParameters::standard_lock());
    assert_eq!(params.retrieve_and_check(10, 7), (ExtDuration::Finite(490 * MILLISECOND), false));
    let table = DelayCurve::Table(DelayTable::classic_fall());
    assert_eq!(table.retrieve_and_check(10, 5), (ExtDuration::Finite(633_333_333), false));
}

#[test]
fn extended_durations_saturate() {
    let a = ExtDuration::Finite(10);
    assert_eq!(a.min(ExtDuration::Infinite), a);
    assert_eq!(a.max(ExtDuration::Infinite), ExtDuration::Infinite);
    assert!(a.le(&ExtDuration::Infinite));
    assert!(!ExtDuration::Infinite.le(&a));
    assert_eq!(ExtDuration::Infinite.saturating_duration(), u64::MAX);
    assert_eq!(a.mul_factor(Factor::from_millionths(2_500_000)), ExtDuration::Finite(25));
    assert_eq!(a.div_factor(Factor::from_millionths(4_000_000)), ExtDuration::Finite(2));
    assert_eq!(a.div_factor(Factor::from_millionths(0)), ExtDuration::Infinite);
    assert_eq!(ExtDuration::Finite(u64::MAX).mul_count(2), ExtDuration::Infinite);
    assert_eq!(a.saturating_sub(ExtDuration::Finite(25)), ExtDuration::Finite(0));
    assert_eq!(ExtDuration::Infinite.saturating_sub(a), ExtDuration::Infinite);
    assert_eq!(ExtDuration::from_millis(3), ExtDuration::Finite(3 * MILLISECOND));
    assert!(ExtDuration::zero().is_zero());
    assert_eq!(Factor::from_integer(3), Factor::from_millionths(3_000_000));
}

#[test]
fn standard_delays_never_grow() {
    let fall = DelayParameters::standard_fall();
    let lock = DelayParameters::standard_lock();
    for n in 0..600u32 {
        assert!(fall.calculate_and_check(n + 1).0.le(&fall.calculate_and_check(n).0));
        assert!(lock.calculate_and_check(n + 1).0.le(&lock.calculate_and_check(n).0));
        assert!(lock.lowerbound().le(&lock.calculate_and_check(n).0));
    }
}
