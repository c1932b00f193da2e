use memory_game::deck::{generate_deck, ordered_deck, shuffle_deck, DECK_SIZE, PAIR_COUNT};

fn assert_valid(deck: &[usize]) {
    assert_eq!(deck.len(), DECK_SIZE);
    for v in 0..PAIR_COUNT {
        assert_eq!(deck.iter().filter(|&&c| c == v).count(), 2, "value {}", v);
    }
    assert!(deck.iter().all(|&c| c < PAIR_COUNT));
}

#[test]
fn ordered_deck_pairs_each_value() {
    assert_eq!(ordered_deck(), vec![0, 0, 1, 1, 2, 2, 3, 3, 4, 4, 5, 5, 6, 6, 7, 7]);
}

#[test]
fn no_draws_leaves_the_order() {
    assert_eq!(generate_deck(&vec![]), ordered_deck());
}

#[test]
fn first_draw_swaps_the_last_card() {
    let deck = generate_deck(&vec![0]);
    assert_eq!(deck, vec![7, 0, 1, 1, 2, 2, 3, 3, 4, 4, 5, 5, 6, 6, 7, 0]);
}

#[test]
fn draws_are_reduced_below_the_position() {
    // 17 % 16 == 1 for the last position, then 14 % 15 == 14 for the next.
    let deck = generate_deck(&vec![17, 14]);
    assert_eq!(deck, vec![0, 7, 1, 1, 2, 2, 3, 3, 4, 4, 5, 5, 6, 6, 7, 0]);
}

#[test]
fn every_generated_deck_is_valid() {
    let mut seed: u64 = 0x2545_F491_4F6C_DD1D;
    for _ in 0..200 {
        let mut draws = Vec::new();
        for _ in 0..15 {
            seed ^= seed << 13;
            seed ^= seed >> 7;
            seed ^= seed << 17;
            draws.push((seed % 1000) as usize);
        }
        assert_valid(&generate_deck(&draws));
    }
    assert_valid(&generate_deck(&vec![usize::MAX; 15]));
    assert_valid(&generate_deck(&vec![3]));
}

#[test]
fn shuffle_of_empty_deck_is_empty() {
    let mut deck: Vec<usize> = Vec::new();
    shuffle_deck(&mut deck, &vec![1, 2, 3]);
    assert!(deck.is_empty());
}
