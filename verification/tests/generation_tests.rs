use falling_tetromino_engine::generation::{rerolls_again, tetromino_from_index};
use falling_tetromino_engine::{
    BalanceOutGen, Factor, RecencyGen, RerollGen, StdTetGen, StockGen, Tetromino,
};
use rand_chacha::ChaCha8Rng;
use rand_chacha::rand_core::SeedableRng;

#[test]
fn indices_round_trip() {
    for i in 0..7 {
        assert_eq!(tetromino_from_index(i).index(), i);
    }
    assert_eq!(tetromino_from_index(4), Tetromino::T);
}

#[test]
fn a_full_bag_deals_each_tetromino_once() {
    let mut rng = ChaCha8Rng::seed_from_u64(42);
    let mut bag = StdTetGen::bag();
    let mut seen = Vec::new();
    for _ in 0..7 {
        let t = bag.next(&mut rng);
        assert!(!seen.contains(&t));
        seen.push(t);
    }
    assert_eq!(bag, StdTetGen::Stock(StockGen { tets_stocked: [0; 7], restock_multiplicity: 1 }));
    // The empty bag is refilled before the next draw.
    let t = bag.next(&mut rng);
    let mut expected = [1u32; 7];
    expected[t.index()] = 0;
    assert_eq!(bag, StdTetGen::Stock(StockGen { tets_stocked: expected, restock_multiplicity: 1 }));
}

#[test]
fn a_stock_deals_only_what_it_holds() {
    let mut rng = ChaCha8Rng::seed_from_u64(5);
    let mut stock = StdTetGen::Stock(StockGen { tets_stocked: [0, 3, 0, 0, 0, 0, 0], restock_multiplicity: 2 });
    for _ in 0..3 {
        assert_eq!(stock.next(&mut rng), Tetromino::I);
    }
    assert_eq!(
        stock,
        StdTetGen::Stock(StockGen { tets_stocked: [0; 7], restock_multiplicity: 2 })
    );
    let t = stock.next(&mut rng);
    let mut expected = [2u32; 7];
    expected[t.index()] = 1;
    assert_eq!(stock, StdTetGen::Stock(StockGen { tets_stocked: expected, restock_multiplicity: 2 }));
}

#[test]
fn reroll_generation_remembers_the_last_piece() {
    let mut rng = ChaCha8Rng::seed_from_u64(1);
    let mut g = StdTetGen::classic();
    let t = g.next(&mut rng);
    assert_eq!(g, StdTetGen::Reroll(RerollGen { tet_last_emitted: Some(t), aversion_to_last: 1 }));
    let mut u = StdTetGen::uniform();
    let t = u.next(&mut rng);
    assert_eq!(u, StdTetGen::Reroll(RerollGen { tet_last_emitted: Some(t), aversion_to_last: 0 }));
}

#[test]
fn balance_out_tallies_stay_normalised() {
    let mut rng = ChaCha8Rng::seed_from_u64(9);
    let mut g = StdTetGen::balance_out();
    let t = g.next(&mut rng);
    let mut expected = [0u32; 7];
    expected[t.index()] = 1;
    assert_eq!(g, StdTetGen::BalanceOut(BalanceOutGen { tets_relative_tallies: expected }));
    // A generator in which every tally is positive is normalised before drawing.
    let mut h = StdTetGen::BalanceOut(BalanceOutGen { tets_relative_tallies: [3, 2, 2, 2, 2, 2, 2] });
    let u = h.next(&mut rng);
    let mut tallies = [1u32, 0, 0, 0, 0, 0, 0];
    tallies[u.index()] += 1;
    assert_eq!(h, StdTetGen::BalanceOut(BalanceOutGen { tets_relative_tallies: tallies }));
}

#[test]
fn recency_generation_ages_every_piece_and_resets_the_drawn_one() {
    let mut rng = ChaCha8Rng::seed_from_u64(3);
    let mut g = StdTetGen::snappy();
    let t = g.next(&mut rng);
    match g {
        StdTetGen::Recency(RecencyGen { tets_last_emitted, factor, is_base_not_exp }) => {
            let mut expected = [1u32; 7];
            expected[t.index()] = 0;
            assert_eq!(tets_last_emitted, expected);
            assert_eq!(factor.millionths, 2_500_000);
            assert!(!is_base_not_exp);
        },
        _ => panic!("the recency generator changed kind"),
    }
}

#[test]
fn generators_are_reproducible_from_the_seed() {
    let draw = |seed: u64| {
        let mut rng = ChaCha8Rng::seed_from_u64(seed);
        let mut g = StdTetGen::snappy();
        (0..20).map(|_| g.next(&mut rng)).collect::<Vec<_>>()
    };
    assert_eq!(draw(77), draw(77));
}

#[test]
fn recency_never_deals_the_piece_just_played_again() {
    for seed in 0..20u64 {
        let mut rng = ChaCha8Rng::seed_from_u64(seed);
        let mut snappy = StdTetGen::snappy();
        let mut based = StdTetGen::Recency(RecencyGen {
            tets_last_emitted: [0; 7],
            factor: Factor::from_integer(2),
            is_base_not_exp: true,
        });
        let mut last_snappy = snappy.next(&mut rng);
        let mut last_based = based.next(&mut rng);
        for _ in 0..200 {
            let t = snappy.next(&mut rng);
            assert_ne!(t, last_snappy);
            last_snappy = t;
            let u = based.next(&mut rng);
            assert_ne!(u, last_based);
            last_based = u;
        }
    }
}

#[test]
fn recency_weights_leave_out_the_piece_just_played() {
    let fresh = RecencyGen { tets_last_emitted: [0; 7], factor: Factor::from_millionths(2_500_000), is_base_not_exp: false };
    assert_eq!(fresh.weights(), [1; 7]);
    let played = RecencyGen { tets_last_emitted: [1, 1, 0, 1, 1, 1, 1], ..fresh };
    assert_eq!(played.weights(), [5, 5, 0, 5, 5, 5, 5]);
    let older = RecencyGen { tets_last_emitted: [2, 7, 0, 1, 1, 1, 1], ..fresh };
    assert_eq!(older.weights(), [15, 181, 0, 5, 5, 5, 5]);
    let based = RecencyGen { tets_last_emitted: [0, 2, 0, 0, 0, 0, 0], factor: Factor::from_integer(2), is_base_not_exp: true };
    assert_eq!(based.weights(), [0, 8_000_000, 0, 0, 0, 0, 0]);
}

#[test]
fn stock_weights_are_the_refilled_stocks() {
    assert_eq!(StockGen { tets_stocked: [0; 7], restock_multiplicity: 3 }.weights(), [3; 7]);
    assert_eq!(StockGen { tets_stocked: [0; 7], restock_multiplicity: 0 }.weights(), [1; 7]);
    assert_eq!(
        StockGen { tets_stocked: [0, 2, 0, 1, 0, 0, 4], restock_multiplicity: 5 }.weights(),
        [0, 2, 0, 1, 0, 0, 4]
    );
}

#[test]
fn balance_out_weights_fall_with_the_normalised_tally() {
    let g = BalanceOutGen { tets_relative_tallies: [3, 2, 2, 2, 2, 2, 30] };
    assert_eq!(
        g.weights(),
        [404_487_723_188, 1_099_511_627_776, 1_099_511_627_776, 1_099_511_627_776, 1_099_511_627_776, 1_099_511_627_776, 1]
    );
}

#[test]
fn a_large_stock_is_dealt_from_what_it_holds() {
    let mut rng = ChaCha8Rng::seed_from_u64(11);
    let mut stock = StdTetGen::Stock(StockGen { tets_stocked: [0, 0, 0, 0, 0, 1_000_000_000, 0], restock_multiplicity: 1 });
    assert_eq!(stock.next(&mut rng), Tetromino::L);
    assert_eq!(stock, StdTetGen::Stock(StockGen { tets_stocked: [0, 0, 0, 0, 0, 999_999_999, 0], restock_multiplicity: 1 }));
}

#[test]
fn a_bag_deals_each_round_of_seven_as_a_permutation() {
    for seed in 0..10u64 {
        let mut rng = ChaCha8Rng::seed_from_u64(seed);
        let mut bag = StdTetGen::bag();
        for _ in 0..3 {
            let mut round: Vec<usize> = (0..7).map(|_| bag.next(&mut rng).index()).collect();
            round.sort();
            assert_eq!(round, vec![0, 1, 2, 3, 4, 5, 6]);
        }
    }
}

#[test]
fn rerolls_happen_only_on_a_repeat_within_the_aversion() {
    assert!(rerolls_again(Some(Tetromino::T), 4, 0, 1));
    assert!(!rerolls_again(Some(Tetromino::T), 4, 1, 1));
    assert!(!rerolls_again(Some(Tetromino::T), 3, 0, 1));
    assert!(!rerolls_again(None, 4, 0, 1));
    assert!(!rerolls_again(Some(Tetromino::O), 0, 0, 0));
    assert!(rerolls_again(Some(Tetromino::J), 6, 5, 9));
}

#[test]
fn a_strongly_averse_reroll_generator_avoids_repeats() {
    let mut rng = ChaCha8Rng::seed_from_u64(13);
    let mut g = StdTetGen::Reroll(RerollGen { tet_last_emitted: None, aversion_to_last: 1000 });
    let mut last = g.next(&mut rng);
    for _ in 0..500 {
        let t = g.next(&mut rng);
        assert_ne!(t, last);
        last = t;
    }
}
