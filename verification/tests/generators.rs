//! Tests of the side generators: currency amounts, coin pouches, loot
//! records and the character-chain name model.

use atlas::{Coins, LootItemRecord, LootStash, MarkovModel, Money, RPGenerator};

#[test]
fn kreuzer_amounts_are_exact() {
    assert_eq!(Money::from_kreuzer(0).kreuzer, 0);
    assert_eq!(Money::from_kreuzer(2073).kreuzer, 2073);
    assert_eq!(Money::from_kreuzer(u32::MAX).kreuzer, u32::MAX as u64);
}

#[test]
fn money_text_drops_leading_denominations() {
    assert_eq!(Money::from_kreuzer(3).to_text(), "3 K");
    assert_eq!(Money::from_kreuzer(35).to_text(), "3 H 5 K");
    assert_eq!(Money::from_kreuzer(352).to_text(), "3 S 5 H 2 K");
    assert_eq!(Money::from_kreuzer(2073).to_text(), "2 D 0 S 7 H 3 K");
    assert_eq!(Money::from_kreuzer(0).to_text(), "0 K");
    assert_eq!(Money::from_kreuzer(10000).to_text(), "10 D 0 S 0 H 0 K");
}

#[test]
fn coins_convert_to_their_worth() {
    let m = Money::from(Coins { d: 1, s: 2, h: 3, k: 4 });
    assert_eq!(m.kreuzer, 1234);
    let m = Money::from(Coins { d: 0, s: 0, h: 0, k: 0 });
    assert_eq!(m.kreuzer, 0);
}

#[test]
fn random_coins_sum_to_their_amount() {
    for amount in [0u32, 1, 9, 10, 999, 1000, 2073, 65535, 1_000_000, 72_809_385] {
        let money = Money::from_kreuzer(amount);
        let coins = Coins::new_random(money);
        assert_eq!(Money::from(coins).kreuzer, amount as u64);
    }
}

#[test]
fn loot_stash_holds_its_catalogue() {
    let records = vec![
        LootItemRecord::new("dagger".to_string(), "Rusty Dagger".to_string(), 2),
        LootItemRecord::new("rope".to_string(), "Hemp Rope".to_string(), 1),
    ];
    let stash = LootStash::new(records);
    assert_eq!(stash.len(), 2);
    assert_eq!(stash.all_items[0].handle, "dagger");
    assert_eq!(stash.all_items[1].max_pp, 1);
}

#[test]
fn empty_training_yields_no_characters() {
    let mut model = MarkovModel::new("");
    assert_eq!(model.next(), None);
    let mut model = MarkovModel::new("a ab  b");
    // Two-character words carry no transition, so nothing is known.
    assert_eq!(model.next(), None);
}

#[test]
fn chain_walk_follows_trained_transitions() {
    let mut model = MarkovModel::new("abc");
    // Exactly the two bigrams of "abc" are known.
    assert_eq!(model.ngrams.len(), 2);
    assert!(model.ngrams.contains(&('a', 'b')));
    assert!(model.ngrams.contains(&('b', 'c')));

    // The walk starts on a random bigram and emits its two characters;
    // from ('a','b') the only counted successor is ('b','c').
    let c1 = model.next().expect("a trained chain starts");
    let c2 = model.next().expect("the first bigram has two characters");
    match (c1, c2) {
        ('a', 'b') => {
            assert_eq!(model.next(), Some('c'));
            assert_eq!(model.next(), None);
        }
        ('b', 'c') => {
            assert_eq!(model.next(), None);
        }
        other => panic!("the walk must start on a trained bigram, not {:?}", other),
    }
}

#[test]
fn training_counts_repeated_transitions() {
    let mut model = MarkovModel::new("abab\nab");
    // Bigrams of "abab": (a,b), (b,a); transitions (a,b)->(b,a) and
    // (b,a)->(a,b).  The word "ab" adds nothing.
    assert_eq!(model.ngrams.len(), 2);
    for _ in 0..12 {
        // Every emitted character comes from the trained alphabet, and
        // the walk never gets stuck on this cyclic chain.
        let c = model.next().expect("the cycle never ends");
        assert!(c == 'a' || c == 'b');
    }
}

#[test]
fn reseeding_keeps_the_training() {
    let mut model = MarkovModel::new("xyz");
    let before = model.ngrams.clone();
    <MarkovModel as RPGenerator>::seed(&mut model, 7);
    assert_eq!(model.ngrams, before);
    let c = model.next();
    assert!(c.is_some());
}
