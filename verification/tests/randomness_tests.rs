//! Tests of the deterministic pseudo-random derivation: replaying the
//! same context reproduces the same bytes, every input matters, and
//! the digest is a real function of the whole payload rather than a
//! copy of part of it.

use kitties::{ChainContext, Pallet};

#[test]
fn random_value_replays_identically() {
    let ctx = ChainContext { randomness_seed: [7u8; 32], extrinsic_index: 4 };
    assert_eq!(Pallet::random_value(&ctx, 1), Pallet::random_value(&ctx, 1));
}

#[test]
fn random_value_depends_on_every_input() {
    let ctx = ChainContext { randomness_seed: [7u8; 32], extrinsic_index: 4 };
    let base = Pallet::random_value(&ctx, 1);

    let other_seed = ChainContext { randomness_seed: [8u8; 32], extrinsic_index: 4 };
    assert_ne!(base, Pallet::random_value(&other_seed, 1));

    let other_index = ChainContext { randomness_seed: [7u8; 32], extrinsic_index: 5 };
    assert_ne!(base, Pallet::random_value(&other_index, 1));

    assert_ne!(base, Pallet::random_value(&ctx, 2));
}

#[test]
fn random_value_is_not_an_input_prefix() {
    // Two contexts whose payloads agree on far more than the first 16
    // bytes still derive different values, so the derivation cannot be
    // returning a slice of its input.
    let ctx_a = ChainContext { randomness_seed: [3u8; 32], extrinsic_index: 0 };
    let ctx_b = ChainContext { randomness_seed: [3u8; 32], extrinsic_index: 1 };
    let value_a = Pallet::random_value(&ctx_a, 1);
    let value_b = Pallet::random_value(&ctx_b, 1);
    assert_ne!(value_a, value_b);
    assert_ne!(value_a, [3u8; 16]);
}

#[test]
fn create_stores_the_derived_genome() {
    let ctx = ChainContext { randomness_seed: [11u8; 32], extrinsic_index: 2 };
    let mut pallet = Pallet::new();
    assert_eq!(pallet.create(&ctx, 1, *b"kittycat"), Ok(0));
    let stored = pallet.kitties(0).unwrap();
    assert_eq!(stored.dna, Pallet::random_value(&ctx, 1));
    assert_eq!(stored.name, *b"kittycat");
}

#[test]
fn bred_replays_identically_on_identical_inputs() {
    // Two independent stores, identical parent genomes, identical
    // caller and injected randomness: the children are byte-identical,
    // label and store history notwithstanding.
    let ctx = ChainContext { randomness_seed: [5u8; 32], extrinsic_index: 0 };
    let other = ChainContext { randomness_seed: [5u8; 32], extrinsic_index: 8 };

    let mut first = Pallet::new();
    assert_eq!(first.create(&ctx, 1, *b"parent_a"), Ok(0));
    assert_eq!(first.create(&other, 1, *b"parent_b"), Ok(1));

    let mut second = Pallet::new();
    assert_eq!(second.create(&ctx, 1, *b"other_aa"), Ok(0));
    assert_eq!(second.create(&other, 1, *b"other_bb"), Ok(1));
    // An extra creation so the children get different ids in the two stores.
    assert_eq!(second.create(&other, 3, *b"bystandr"), Ok(2));

    assert_eq!(first.kitties(0).unwrap().dna, second.kitties(0).unwrap().dna);
    assert_eq!(first.kitties(1).unwrap().dna, second.kitties(1).unwrap().dna);

    let breed_ctx = ChainContext { randomness_seed: [6u8; 32], extrinsic_index: 2 };
    assert_eq!(first.bred(&breed_ctx, 4, 0, 1, *b"child_aa"), Ok(2));
    assert_eq!(second.bred(&breed_ctx, 4, 0, 1, *b"child_bb"), Ok(3));

    assert_eq!(first.kitties(2).unwrap().dna, second.kitties(3).unwrap().dna);
}

#[test]
fn bred_child_follows_the_bit_law() {
    let ctx = ChainContext { randomness_seed: [11u8; 32], extrinsic_index: 2 };
    let mut pallet = Pallet::new();
    assert_eq!(pallet.create(&ctx, 1, *b"parent_a"), Ok(0));
    let other = ChainContext { randomness_seed: [11u8; 32], extrinsic_index: 9 };
    assert_eq!(pallet.create(&other, 1, *b"parent_b"), Ok(1));

    assert_eq!(pallet.bred(&ctx, 1, 0, 1, *b"children"), Ok(2));

    let parent_a = pallet.kitties(0).unwrap();
    let parent_b = pallet.kitties(1).unwrap();
    let child = pallet.kitties(2).unwrap();
    let selector = Pallet::random_value(&ctx, 1);
    for i in 0..16 {
        assert_eq!(
            child.dna[i],
            (parent_a.dna[i] & selector[i]) | (parent_b.dna[i] & !selector[i])
        );
    }
    // The parents differ, so the child cannot equal both.
    assert_ne!(parent_a.dna, parent_b.dna);
}
