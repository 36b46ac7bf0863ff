use poker_duel::cards::{Card, CardPool, CardType};
use poker_duel::combination::{CardCombination, CombinationBuilder};
use rand::Rng;

#[allow(dead_code)]
fn manual_comb_test() {
    let cards: Vec<Card> = vec![
        Card::new(CardType::Spade, 10),
        Card::new(CardType::Diamond, 11),
        Card::new(CardType::Heart, 12),
        Card::new(CardType::Spade, 9),
        Card::new(CardType::Spade, 8),
        Card::new(CardType::Diamond, 7),
    ];

    let mut printer = cards.clone();
    printer.sort_by(|a, b| a.number.cmp(&b.number));

    for item in printer {
        println!("{:?}", item);
    }

    let (highest, meta) = CombinationBuilder::get_highest_combination(cards);
    println!("Highest combination is : {:?}, meta : {:?}", highest, meta);
}

fn rand_comb_test() {
    let mut card_pool = CardPool::new();
    let mut cards = vec![];
    let cards_2: Vec<Card> = vec![];
    for _ in 0..4 {
        let index = rand::thread_rng().gen_range(0..card_pool.cards.len());
        cards.push(card_pool.cards.remove(index));
    }

    for _ in 0..2 {
        let index = rand::thread_rng().gen_range(0..card_pool.cards.len());
        cards.push(card_pool.cards.remove(index));
    }

    let merged = cards.iter().chain(cards_2.iter()).cloned().collect::<Vec<Card>>();

    let mut printer = merged.clone();
    printer.sort_by(|a, b| a.number.cmp(&b.number));

    for item in printer {
        println!("{:?}", item);
    }

    let (highest, meta) = CombinationBuilder::get_highest_combination(merged);
    println!("Highest combination is : {:?}, meta :{:?}", highest, meta);
}

#[test]
fn function_name_test() {
    rand_comb_test();
}

fn eval(cards: Vec<Card>) -> (CardCombination, Option<String>) {
    CombinationBuilder::get_highest_combination(cards)
}

#[test]
fn high_card_reports_highest_number() {
    let cards = vec![
        Card::new(CardType::Spade, 2),
        Card::new(CardType::Heart, 5),
        Card::new(CardType::Diamond, 7),
        Card::new(CardType::Clover, 9),
        Card::new(CardType::Spade, 11),
    ];
    let (comb, meta) = eval(cards);
    assert_eq!(comb, CardCombination::HighCard);
    assert_eq!(meta, Some("11".to_string()));
}

#[test]
fn a_pair_is_found() {
    let cards = vec![
        Card::new(CardType::Spade, 5),
        Card::new(CardType::Heart, 5),
        Card::new(CardType::Diamond, 2),
        Card::new(CardType::Clover, 9),
        Card::new(CardType::Spade, 12),
    ];
    let (comb, meta) = eval(cards);
    assert_eq!(comb, CardCombination::Pair);
    assert_eq!(meta, None);
}

#[test]
fn two_pairs_are_found() {
    let cards = vec![
        Card::new(CardType::Spade, 5),
        Card::new(CardType::Heart, 5),
        Card::new(CardType::Diamond, 9),
        Card::new(CardType::Clover, 9),
        Card::new(CardType::Spade, 12),
    ];
    let (comb, meta) = eval(cards);
    assert_eq!(comb, CardCombination::TwoPair);
    assert_eq!(meta, None);
}

#[test]
fn three_of_a_kind_is_found() {
    let cards = vec![
        Card::new(CardType::Spade, 7),
        Card::new(CardType::Heart, 7),
        Card::new(CardType::Diamond, 7),
        Card::new(CardType::Clover, 2),
        Card::new(CardType::Spade, 9),
    ];
    let (comb, _) = eval(cards);
    assert_eq!(comb, CardCombination::ThreeOfaKind);
}

#[test]
fn full_house_is_found() {
    let cards = vec![
        Card::new(CardType::Spade, 7),
        Card::new(CardType::Heart, 7),
        Card::new(CardType::Diamond, 7),
        Card::new(CardType::Clover, 9),
        Card::new(CardType::Spade, 9),
    ];
    let (comb, _) = eval(cards);
    assert_eq!(comb, CardCombination::FullHouse);
}

#[test]
fn two_triples_count_as_a_full_house() {
    let cards = vec![
        Card::new(CardType::Spade, 7),
        Card::new(CardType::Heart, 7),
        Card::new(CardType::Diamond, 7),
        Card::new(CardType::Clover, 9),
        Card::new(CardType::Spade, 9),
        Card::new(CardType::Heart, 9),
        Card::new(CardType::Diamond, 2),
    ];
    let (comb, _) = eval(cards);
    assert_eq!(comb, CardCombination::FullHouse);
}

#[test]
fn four_of_a_kind_alone_counts_as_a_triple() {
    let cards = vec![
        Card::new(CardType::Spade, 7),
        Card::new(CardType::Heart, 7),
        Card::new(CardType::Diamond, 7),
        Card::new(CardType::Clover, 7),
        Card::new(CardType::Spade, 2),
    ];
    let (comb, _) = eval(cards);
    assert_eq!(comb, CardCombination::ThreeOfaKind);
}

#[test]
fn a_straight_is_found() {
    let cards = vec![
        Card::new(CardType::Spade, 3),
        Card::new(CardType::Heart, 4),
        Card::new(CardType::Diamond, 5),
        Card::new(CardType::Clover, 6),
        Card::new(CardType::Spade, 7),
    ];
    let (comb, _) = eval(cards);
    assert_eq!(comb, CardCombination::Straight);
}

#[test]
fn a_flush_is_found() {
    let cards = vec![
        Card::new(CardType::Heart, 2),
        Card::new(CardType::Heart, 5),
        Card::new(CardType::Heart, 7),
        Card::new(CardType::Heart, 9),
        Card::new(CardType::Heart, 12),
    ];
    let (comb, _) = eval(cards);
    assert_eq!(comb, CardCombination::Flush);
}

#[test]
fn a_straight_flush_is_found() {
    let cards = vec![
        Card::new(CardType::Heart, 4),
        Card::new(CardType::Heart, 5),
        Card::new(CardType::Heart, 6),
        Card::new(CardType::Heart, 7),
        Card::new(CardType::Heart, 8),
    ];
    let (comb, _) = eval(cards);
    assert_eq!(comb, CardCombination::Sflush);
}

#[test]
fn the_top_run_in_one_suit_is_royal() {
    let cards = vec![
        Card::new(CardType::Spade, 9),
        Card::new(CardType::Spade, 10),
        Card::new(CardType::Spade, 11),
        Card::new(CardType::Spade, 12),
        Card::new(CardType::Spade, 13),
    ];
    let (comb, _) = eval(cards);
    assert_eq!(comb, CardCombination::Rflush);
}

#[test]
fn evaluation_ignores_the_order_of_the_cards() {
    let forwards = vec![
        Card::new(CardType::Spade, 5),
        Card::new(CardType::Heart, 5),
        Card::new(CardType::Diamond, 9),
        Card::new(CardType::Clover, 9),
        Card::new(CardType::Spade, 12),
        Card::new(CardType::Heart, 3),
        Card::new(CardType::Diamond, 13),
    ];
    let mut backwards = forwards.clone();
    backwards.reverse();
    assert_eq!(eval(forwards), eval(backwards));
}

#[test]
fn seven_cards_are_evaluated() {
    let cards = vec![
        Card::new(CardType::Spade, 2),
        Card::new(CardType::Heart, 3),
        Card::new(CardType::Diamond, 5),
        Card::new(CardType::Clover, 8),
        Card::new(CardType::Spade, 11),
        Card::new(CardType::Heart, 11),
        Card::new(CardType::Diamond, 4),
    ];
    let (comb, _) = eval(cards);
    assert_eq!(comb, CardCombination::Pair);
}

#[test]
fn category_order_runs_from_high_card_to_royal_flush() {
    let ordered = [
        CardCombination::HighCard,
        CardCombination::Pair,
        CardCombination::TwoPair,
        CardCombination::ThreeOfaKind,
        CardCombination::FullHouse,
        CardCombination::Straight,
        CardCombination::Flush,
        CardCombination::Sflush,
        CardCombination::Rflush,
    ];
    for i in 0..ordered.len() {
        assert_eq!(ordered[i].ordinal() as usize, i);
        if i > 0 {
            assert!(ordered[i - 1].ordinal() < ordered[i].ordinal());
        }
    }
}
