use std::collections::HashSet;
use tetris_core::rng::BagRandomizer;
use tetris_core::tetromino::TetrominoShape;

fn sorted_ids(v: &[TetrominoShape]) -> Vec<u8> {
    let mut ids: Vec<u8> = v.iter().map(|s| s.color_id()).collect();
    ids.sort();
    ids
}

#[test]
fn each_round_deals_every_kind_once() {
    let mut bag = BagRandomizer::new();
    for _ in 0..10 {
        let round: Vec<TetrominoShape> = (0..7).map(|_| bag.next()).collect();
        assert_eq!(sorted_ids(&round), vec![1, 2, 3, 4, 5, 6, 7]);
    }
}

#[test]
fn rounds_are_shuffled() {
    let mut bag = BagRandomizer::new();
    let mut orders = HashSet::new();
    for _ in 0..40 {
        let round: Vec<u8> = (0..7).map(|_| bag.next().color_id()).collect();
        orders.insert(round);
    }
    assert!(orders.len() > 1);
}

#[test]
fn same_seed_deals_same_sequence() {
    let mut a = BagRandomizer::with_seed(42);
    let mut b = BagRandomizer::with_seed(42);
    let da: Vec<u8> = (0..21).map(|_| a.next().color_id()).collect();
    let db: Vec<u8> = (0..21).map(|_| b.next().color_id()).collect();
    assert_eq!(da, db);
    for round in da.chunks(7) {
        let mut ids = round.to_vec();
        ids.sort();
        assert_eq!(ids, vec![1, 2, 3, 4, 5, 6, 7]);
    }
}

#[test]
fn seeded_rounds_are_shuffled() {
    let mut bag = BagRandomizer::with_seed(7);
    let mut orders = HashSet::new();
    for _ in 0..40 {
        let round: Vec<u8> = (0..7).map(|_| bag.next().color_id()).collect();
        orders.insert(round);
    }
    assert!(orders.len() > 1);
}
