use std::collections::HashSet;

use poker_duel::cards::{Card, CardPool, CardType};

#[test]
fn fresh_pool_holds_52_distinct_cards() {
    let pool = CardPool::new();
    assert_eq!(pool.cards.len(), 52);
    let set: HashSet<Card> = pool.cards.iter().cloned().collect();
    assert_eq!(set.len(), 52);
    for c in &pool.cards {
        assert!(1 <= c.number && c.number <= 13);
    }
}

#[test]
fn drawing_k_cards_yields_k_distinct_and_shrinks_by_k() {
    let mut pool = CardPool::new();
    let drawn = pool.poll_cards(7).unwrap();
    assert_eq!(drawn.len(), 7);
    assert_eq!(pool.cards.len(), 45);
    let set: HashSet<Card> = drawn.iter().cloned().collect();
    assert_eq!(set.len(), 7);
    for c in &drawn {
        assert!(!pool.cards.contains(c));
    }
}

#[test]
fn overdrawing_fails_without_mutation() {
    let mut pool = CardPool::new();
    let before = pool.cards.clone();
    assert!(pool.poll_cards(53).is_none());
    assert_eq!(pool.cards, before);
}

#[test]
fn drawing_everything_empties_the_pool() {
    let mut pool = CardPool::new();
    let all = pool.poll_cards(52).unwrap();
    assert_eq!(all.len(), 52);
    assert_eq!(pool.cards.len(), 0);
    let set: HashSet<Card> = all.iter().cloned().collect();
    assert_eq!(set.len(), 52);
    assert!(pool.poll_card().is_none());
    assert!(pool.poll_cards(1).is_none());
    let none_left = pool.poll_cards(0).unwrap();
    assert_eq!(none_left.len(), 0);
}

#[test]
fn single_draw_removes_one_card() {
    let mut pool = CardPool::new();
    let c = pool.poll_card().unwrap();
    assert_eq!(pool.cards.len(), 51);
    assert!(!pool.cards.contains(&c));
}

#[test]
fn card_new_keeps_its_fields() {
    let c = Card::new(CardType::Heart, 12);
    assert_eq!(c.card_type, CardType::Heart);
    assert_eq!(c.number, 12);
}
