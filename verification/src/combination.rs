//! The hand evaluator: given at least two cards, find the best
//! combination category they contain, together with the high-card
//! tie-break where the category is `HighCard`.
//!
//! Every specification here is phrased over the multiset of cards, so
//! the evaluation of a hand cannot depend on the order in which the
//! cards happen to be listed.

use vstd::multiset::Multiset;
use vstd::prelude::*;

use crate::cards::{all_valid, Card, CardType};

verus! {

broadcast use vstd::seq_lib::group_to_multiset_ensures;

/// The combination categories, from weakest to strongest.
#[derive(Debug, Clone, Copy, PartialEq, Eq, Structural)]
pub enum CardCombination {
    HighCard,
    Pair,
    TwoPair,
    ThreeOfaKind,
    FullHouse,
    Straight,
    Flush,
    Sflush,
    Rflush,
}

/// The rank of a category inside the total category order:
/// `HighCard` is weakest and `Rflush` strongest.
pub open spec fn combination_ordinal(c: CardCombination) -> int {
    match c {
        CardCombination::HighCard => 0,
        CardCombination::Pair => 1,
        CardCombination::TwoPair => 2,
        CardCombination::ThreeOfaKind => 3,
        CardCombination::FullHouse => 4,
        CardCombination::Straight => 5,
        CardCombination::Flush => 6,
        CardCombination::Sflush => 7,
        CardCombination::Rflush => 8,
    }
}

impl CardCombination {
    /// The ordinal as a runtime value, for comparing two categories.
    pub fn ordinal(self) -> (n: u8)
        ensures
            n == combination_ordinal(self),
    {
        match self {
            CardCombination::HighCard => 0,
            CardCombination::Pair => 1,
            CardCombination::TwoPair => 2,
            CardCombination::ThreeOfaKind => 3,
            CardCombination::FullHouse => 4,
            CardCombination::Straight => 5,
            CardCombination::Flush => 6,
            CardCombination::Sflush => 7,
            CardCombination::Rflush => 8,
        }
    }
}

/// How often the exact card with suit `t` and number `n` occurs in a
/// bag of cards.
pub open spec fn card_count_m(m: Multiset<Card>, t: CardType, n: int) -> nat {
    m.count(Card { card_type: t, number: n as u8 })
}

/// How often the exact card with suit `t` and number `n` occurs.
pub open spec fn card_count(s: Seq<Card>, t: CardType, n: int) -> nat {
    card_count_m(s.to_multiset(), t, n)
}

/// How often number `n` occurs in a bag, over all four suits.
pub open spec fn rank_count_m(m: Multiset<Card>, n: int) -> nat {
    card_count_m(m, CardType::Diamond, n) + card_count_m(m, CardType::Spade, n)
        + card_count_m(m, CardType::Heart, n) + card_count_m(m, CardType::Clover, n)
}

/// How often number `n` occurs, over all four suits.
pub open spec fn rank_count(s: Seq<Card>, n: int) -> nat {
    rank_count_m(s.to_multiset(), n)
}

/// How many cards of suit `t` in a bag carry a number in `1..=n`.
pub open spec fn suit_count_upto_m(m: Multiset<Card>, t: CardType, n: int) -> nat
    decreases n,
{
    if n <= 0 {
        0
    } else {
        suit_count_upto_m(m, t, n - 1) + card_count_m(m, t, n)
    }
}

/// How many cards of suit `t` carry a number in `1..=n`.
pub open spec fn suit_count_upto(s: Seq<Card>, t: CardType, n: int) -> nat {
    suit_count_upto_m(s.to_multiset(), t, n)
}

/// How many cards of suit `t` a bag holds (over valid cards this
/// counts every card of the suit).
pub open spec fn suit_count_m(m: Multiset<Card>, t: CardType) -> nat {
    suit_count_upto_m(m, t, 13)
}

/// How many cards of suit `t` the hand holds.
pub open spec fn suit_count(s: Seq<Card>, t: CardType) -> nat {
    suit_count_m(s.to_multiset(), t)
}

/// Some card of the bag carries number `n`.
pub open spec fn has_rank_m(m: Multiset<Card>, n: int) -> bool {
    rank_count_m(m, n) > 0
}

/// Some card carries number `n`.
pub open spec fn has_rank(s: Seq<Card>, n: int) -> bool {
    has_rank_m(s.to_multiset(), n)
}

/// The card with suit `t` and number `n` is in the bag.
pub open spec fn has_card_m(m: Multiset<Card>, t: CardType, n: int) -> bool {
    card_count_m(m, t, n) > 0
}

/// The card with suit `t` and number `n` is present.
pub open spec fn has_card(s: Seq<Card>, t: CardType, n: int) -> bool {
    has_card_m(s.to_multiset(), t, n)
}

/// Pushing a card onto a hand raises the exact-card counts of that
/// card by one and leaves all others alone, so `rank_count` grows by
/// one exactly when the numbers agree.
proof fn lemma_rank_count_push(s: Seq<Card>, x: Card, n: int)
    requires
        1 <= n <= 13,
    ensures
        rank_count(s.push(x), n) == rank_count(s, n) + (if x.number == n {
            1nat
        } else {
            0nat
        }),
{
    assert(s.push(x).to_multiset() =~= s.to_multiset().insert(x));
}

/// A suit prefix count of the empty hand is zero.
proof fn lemma_suit_count_upto_empty(s: Seq<Card>, t: CardType, n: int)
    requires
        s.len() == 0,
    ensures
        suit_count_upto(s, t, n) == 0,
    decreases n,
{
    if n <= 0 {
    } else {
        lemma_suit_count_upto_empty(s, t, n - 1);
        assert(s.to_multiset().len() == 0);
    }
}

/// The same, for the per-suit prefix counts.
proof fn lemma_suit_count_upto_push(s: Seq<Card>, x: Card, t: CardType, n: int)
    requires
        x.valid(),
        n <= 13,
    ensures
        suit_count_upto(s.push(x), t, n) == suit_count_upto(s, t, n) + (if x.card_type == t
            && 1 <= x.number <= n {
            1nat
        } else {
            0nat
        }),
    decreases n,
{
    if n <= 0 {
    } else {
        lemma_suit_count_upto_push(s, x, t, n - 1);
        assert(s.push(x).to_multiset() =~= s.to_multiset().insert(x));
    }
}

/// An exact card is counted positively exactly when the hand contains it.
proof fn lemma_card_count_contains(s: Seq<Card>, t: CardType, n: int)
    requires
        1 <= n <= 13,
    ensures
        card_count(s, t, n) > 0 <==> s.contains(Card { card_type: t, number: n as u8 }),
{
    let target = Card { card_type: t, number: n as u8 };
    assert(s.to_multiset().count(target) == card_count(s, t, n));
}

/// A number is counted positively exactly when some card carries it.
proof fn lemma_has_rank_witness(s: Seq<Card>, n: int)
    requires
        1 <= n <= 13,
    ensures
        has_rank(s, n) <==> exists|i: int| 0 <= i < s.len() && s[i].number == n,
{
    lemma_card_count_contains(s, CardType::Diamond, n);
    lemma_card_count_contains(s, CardType::Spade, n);
    lemma_card_count_contains(s, CardType::Heart, n);
    lemma_card_count_contains(s, CardType::Clover, n);
    if has_rank(s, n) {
        assert(exists|i: int| 0 <= i < s.len() && s[i].number == n) by {
            if card_count(s, CardType::Diamond, n) > 0 {
                let i = choose|i: int| 0 <= i < s.len() && s[i] == (Card {
                    card_type: CardType::Diamond,
                    number: n as u8,
                });
                assert(0 <= i < s.len() && s[i].number == n);
            } else if card_count(s, CardType::Spade, n) > 0 {
                let i = choose|i: int| 0 <= i < s.len() && s[i] == (Card {
                    card_type: CardType::Spade,
                    number: n as u8,
                });
                assert(0 <= i < s.len() && s[i].number == n);
            } else if card_count(s, CardType::Heart, n) > 0 {
                let i = choose|i: int| 0 <= i < s.len() && s[i] == (Card {
                    card_type: CardType::Heart,
                    number: n as u8,
                });
                assert(0 <= i < s.len() && s[i].number == n);
            } else {
                let i = choose|i: int| 0 <= i < s.len() && s[i] == (Card {
                    card_type: CardType::Clover,
                    number: n as u8,
                });
                assert(0 <= i < s.len() && s[i].number == n);
            }
        }
    }
    if exists|i: int| 0 <= i < s.len() && s[i].number == n {
        let i = choose|i: int| 0 <= i < s.len() && s[i].number == n;
        let c = s[i];
        assert(c == (Card { card_type: c.card_type, number: n as u8 }));
        assert(s.contains(Card { card_type: c.card_type, number: n as u8 }));
        lemma_card_count_contains(s, c.card_type, n);
        match c.card_type {
            CardType::Diamond => assert(card_count(s, CardType::Diamond, n) > 0),
            CardType::Spade => assert(card_count(s, CardType::Spade, n) > 0),
            CardType::Heart => assert(card_count(s, CardType::Heart, n) > 0),
            CardType::Clover => assert(card_count(s, CardType::Clover, n) > 0),
        }
    }
}

/// Counts the cards that carry number `n`.
fn count_rank(cards: &Vec<Card>, n: u8) -> (c: usize)
    requires
        1 <= n <= 13,
    ensures
        c == rank_count(cards@, n as int),
{
    let mut c: usize = 0;
    let mut i: usize = 0;
    while i < cards.len()
        invariant
            1 <= n <= 13,
            i <= cards@.len(),
            c <= i,
            c == rank_count(cards@.take(i as int), n as int),
        decreases cards@.len() - i,
    {
        proof {
            assert(cards@.take(i + 1) =~= cards@.take(i as int).push(cards@[i as int]));
            lemma_rank_count_push(cards@.take(i as int), cards@[i as int], n as int);
        }
        if cards[i].number == n {
            c = c + 1;
        }
        i = i + 1;
    }
    proof {
        assert(cards@.take(cards@.len() as int) =~= cards@);
    }
    c
}

/// Counts the cards of suit `t`.
fn count_suit(cards: &Vec<Card>, t: CardType) -> (c: usize)
    requires
        all_valid(cards@),
    ensures
        c == suit_count(cards@, t),
{
    let mut c: usize = 0;
    let mut i: usize = 0;
    proof {
        lemma_suit_count_upto_empty(cards@.take(0), t, 13);
    }
    while i < cards.len()
        invariant
            all_valid(cards@),
            i <= cards@.len(),
            c <= i,
            c == suit_count(cards@.take(i as int), t),
        decreases cards@.len() - i,
    {
        proof {
            assert(cards@[i as int].valid());
            assert(cards@.take(i + 1) =~= cards@.take(i as int).push(cards@[i as int]));
            lemma_suit_count_upto_push(cards@.take(i as int), cards@[i as int], t, 13);
        }
        if cards[i].card_type == t {
            c = c + 1;
        }
        i = i + 1;
    }
    proof {
        assert(cards@.take(cards@.len() as int) =~= cards@);
    }
    c
}

/// Looks for the exact card with suit `t` and number `n`.
fn contains_card(cards: &Vec<Card>, t: CardType, n: u8) -> (b: bool)
    requires
        1 <= n <= 13,
    ensures
        b == has_card(cards@, t, n as int),
{
    let mut i: usize = 0;
    while i < cards.len()
        invariant
            1 <= n <= 13,
            i <= cards@.len(),
            forall|j: int| 0 <= j < i ==> cards@[j] != (Card { card_type: t, number: n }),
        decreases cards@.len() - i,
    {
        if cards[i].card_type == t && cards[i].number == n {
            proof {
                assert(cards@[i as int] == (Card { card_type: t, number: n }));
                assert(cards@.contains(Card { card_type: t, number: n }));
                lemma_card_count_contains(cards@, t, n as int);
            }
            return true;
        }
        i = i + 1;
    }
    proof {
        assert(!cards@.contains(Card { card_type: t, number: n }));
        lemma_card_count_contains(cards@, t, n as int);
    }
    false
}

/// Five consecutive numbers starting at `lo` are all in the bag.
pub open spec fn straight_at_m(m: Multiset<Card>, lo: int) -> bool {
    forall|r: int| lo <= r < lo + 5 ==> has_rank_m(m, r)
}

/// Five consecutive numbers starting at `lo` are all present.
pub open spec fn straight_at(s: Seq<Card>, lo: int) -> bool {
    straight_at_m(s.to_multiset(), lo)
}

/// Some run of five consecutive numbers is in the bag.
pub open spec fn has_straight_m(m: Multiset<Card>) -> bool {
    exists|lo: int| 1 <= lo <= 9 && straight_at_m(m, lo)
}

/// Some run of five consecutive numbers is present.
pub open spec fn has_straight(s: Seq<Card>) -> bool {
    has_straight_m(s.to_multiset())
}

/// Five consecutive cards of suit `t` starting at `lo` are all in the bag.
pub open spec fn straight_flush_at_m(m: Multiset<Card>, t: CardType, lo: int) -> bool {
    forall|r: int| lo <= r < lo + 5 ==> has_card_m(m, t, r)
}

/// Five consecutive cards of suit `t` starting at `lo` are all present.
pub open spec fn straight_flush_at(s: Seq<Card>, t: CardType, lo: int) -> bool {
    straight_flush_at_m(s.to_multiset(), t, lo)
}

/// Some suit of the bag holds the full run starting at `lo`.
pub open spec fn suited_straight_at_m(m: Multiset<Card>, lo: int) -> bool {
    straight_flush_at_m(m, CardType::Diamond, lo) || straight_flush_at_m(m, CardType::Spade, lo)
        || straight_flush_at_m(m, CardType::Heart, lo) || straight_flush_at_m(
        m,
        CardType::Clover,
        lo,
    )
}

/// Some suit holds the full run starting at `lo`.
pub open spec fn suited_straight_at(s: Seq<Card>, lo: int) -> bool {
    suited_straight_at_m(s.to_multiset(), lo)
}

/// Some suit of the bag holds a full run of five consecutive cards.
pub open spec fn has_straight_flush_m(m: Multiset<Card>) -> bool {
    exists|lo: int| 1 <= lo <= 9 && suited_straight_at_m(m, lo)
}

/// Some suit holds a full run of five consecutive cards.
pub open spec fn has_straight_flush(s: Seq<Card>) -> bool {
    has_straight_flush_m(s.to_multiset())
}

/// The run that ends at the highest number, all in one suit.
pub open spec fn has_royal_flush_m(m: Multiset<Card>) -> bool {
    suited_straight_at_m(m, 9)
}

/// The run that ends at the highest number, all in one suit.
pub open spec fn has_royal_flush(s: Seq<Card>) -> bool {
    has_royal_flush_m(s.to_multiset())
}

/// Five or more cards of one suit in the bag.
pub open spec fn has_flush_m(m: Multiset<Card>) -> bool {
    suit_count_m(m, CardType::Diamond) >= 5 || suit_count_m(m, CardType::Spade) >= 5
        || suit_count_m(m, CardType::Heart) >= 5 || suit_count_m(m, CardType::Clover) >= 5
}

/// Five or more cards of one suit.
pub open spec fn has_flush(s: Seq<Card>) -> bool {
    has_flush_m(s.to_multiset())
}

/// Three or more cards of one number in the bag.
pub open spec fn has_triple_m(m: Multiset<Card>) -> bool {
    exists|n: int| 1 <= n <= 13 && rank_count_m(m, n) >= 3
}

/// Three or more cards of one number.
pub open spec fn has_triple(s: Seq<Card>) -> bool {
    has_triple_m(s.to_multiset())
}

/// A triple of one number beside at least a pair of a different number.
pub open spec fn has_full_house_m(m: Multiset<Card>) -> bool {
    exists|n1: int, n2: int|
        1 <= n1 <= 13 && 1 <= n2 <= 13 && n1 != n2 && rank_count_m(m, n1) >= 3 && rank_count_m(
            m,
            n2,
        ) >= 2
}

/// A triple of one number beside at least a pair of a different number.
pub open spec fn has_full_house(s: Seq<Card>) -> bool {
    has_full_house_m(s.to_multiset())
}

/// Pairs of two different numbers in the bag.
pub open spec fn has_two_pair_m(m: Multiset<Card>) -> bool {
    exists|n1: int, n2: int|
        1 <= n1 <= 13 && 1 <= n2 <= 13 && n1 != n2 && rank_count_m(m, n1) >= 2 && rank_count_m(
            m,
            n2,
        ) >= 2
}

/// Pairs of two different numbers.
pub open spec fn has_two_pair(s: Seq<Card>) -> bool {
    has_two_pair_m(s.to_multiset())
}

/// Two or more cards of one number in the bag.
pub open spec fn has_pair_m(m: Multiset<Card>) -> bool {
    exists|n: int| 1 <= n <= 13 && rank_count_m(m, n) >= 2
}

/// Two or more cards of one number.
pub open spec fn has_pair(s: Seq<Card>) -> bool {
    has_pair_m(s.to_multiset())
}

/// The category a bag of cards evaluates to.  Runs are inspected
/// first: a run in a single suit is a straight flush, royal when it
/// ends at the top number.  With no run present, a flush wins over the
/// grouped categories, and groups are ranked full house, triple, two
/// pair, pair.  A bag with none of these is a high card.
pub open spec fn best_combination_m(m: Multiset<Card>) -> CardCombination {
    if has_straight_m(m) {
        if has_royal_flush_m(m) {
            CardCombination::Rflush
        } else if has_straight_flush_m(m) {
            CardCombination::Sflush
        } else {
            CardCombination::Straight
        }
    } else if has_flush_m(m) {
        CardCombination::Flush
    } else if has_full_house_m(m) {
        CardCombination::FullHouse
    } else if has_triple_m(m) {
        CardCombination::ThreeOfaKind
    } else if has_two_pair_m(m) {
        CardCombination::TwoPair
    } else if has_pair_m(m) {
        CardCombination::Pair
    } else {
        CardCombination::HighCard
    }
}

/// The category a hand evaluates to; a function of the multiset of
/// cards alone, so any reordering of a hand evaluates alike.
pub open spec fn best_combination(s: Seq<Card>) -> CardCombination {
    best_combination_m(s.to_multiset())
}

/// `n` is the largest number any card of the bag carries.
pub open spec fn is_highest_rank_m(m: Multiset<Card>, n: int) -> bool {
    has_rank_m(m, n) && (forall|q: int| n < q <= 13 ==> !has_rank_m(m, q))
}

/// `n` is the largest number any card carries.
pub open spec fn is_highest_rank(s: Seq<Card>, n: int) -> bool {
    is_highest_rank_m(s.to_multiset(), n)
}

/// The largest number any card of the bag carries (meaningful on
/// non-empty bags of valid cards).
pub open spec fn high_rank_m(m: Multiset<Card>) -> int {
    choose|n: int| 1 <= n <= 13 && is_highest_rank_m(m, n)
}

/// The largest number any card carries (meaningful on non-empty hands
/// of valid cards).
pub open spec fn high_rank(s: Seq<Card>) -> int {
    high_rank_m(s.to_multiset())
}

/// Above any present number stands a highest present number.
proof fn lemma_highest_above(s: Seq<Card>, n: int)
    requires
        1 <= n <= 13,
        has_rank(s, n),
    ensures
        exists|m: int| n <= m <= 13 && is_highest_rank(s, m),
    decreases 13 - n,
{
    if exists|q: int| n < q <= 13 && has_rank(s, q) {
        let q = choose|q: int| n < q <= 13 && has_rank(s, q);
        lemma_highest_above(s, q);
        let m = choose|m: int| q <= m <= 13 && is_highest_rank(s, m);
        assert(n <= m <= 13 && is_highest_rank(s, m));
    } else {
        assert forall|q: int| n < q <= 13 implies !has_rank_m(s.to_multiset(), q) by {
            assert(!has_rank(s, q));
        }
        assert(is_highest_rank(s, n));
    }
}

/// Every non-empty hand of valid cards has a highest number.
proof fn lemma_high_rank_exists(s: Seq<Card>)
    requires
        s.len() >= 1,
        all_valid(s),
    ensures
        1 <= high_rank(s) <= 13,
        is_highest_rank(s, high_rank(s)),
{
    let n0 = s[0].number as int;
    assert(s[0].valid());
    lemma_has_rank_witness(s, n0);
    assert(has_rank(s, n0));
    lemma_highest_above(s, n0);
    let m = choose|m: int| n0 <= m <= 13 && is_highest_rank(s, m);
    assert(1 <= m <= 13 && is_highest_rank(s, m));
}

/// Checks the run of five numbers starting at `lo`.
fn straight_at_exec(cards: &Vec<Card>, lo: u8) -> (b: bool)
    requires
        1 <= lo <= 9,
    ensures
        b == straight_at(cards@, lo as int),
{
    let mut r: u8 = lo;
    while r < lo + 5
        invariant
            1 <= lo <= 9,
            lo <= r <= lo + 5,
            forall|q: int| lo <= q < r ==> has_rank(cards@, q),
        decreases lo + 5 - r,
    {
        if count_rank(cards, r) == 0 {
            proof {
                assert(!has_rank_m(cards@.to_multiset(), r as int));
            }
            return false;
        }
        r = r + 1;
    }
    proof {
        assert forall|q: int| lo <= q < lo + 5 implies has_rank_m(cards@.to_multiset(), q) by {
            assert(has_rank(cards@, q));
        }
    }
    true
}

/// Looks for any run of five consecutive numbers.
fn has_straight_exec(cards: &Vec<Card>) -> (b: bool)
    ensures
        b == has_straight(cards@),
{
    let mut lo: u8 = 1;
    while lo <= 9
        invariant
            1 <= lo <= 10,
            forall|l: int| 1 <= l < lo ==> !straight_at(cards@, l),
        decreases 10 - lo,
    {
        if straight_at_exec(cards, lo) {
            return true;
        }
        lo = lo + 1;
    }
    proof {
        assert forall|l: int| 1 <= l <= 9 implies !straight_at_m(cards@.to_multiset(), l) by {
            assert(!straight_at(cards@, l));
        }
    }
    false
}

/// Checks the suited run of five cards of suit `t` starting at `lo`.
fn straight_flush_at_exec(cards: &Vec<Card>, t: CardType, lo: u8) -> (b: bool)
    requires
        1 <= lo <= 9,
    ensures
        b == straight_flush_at(cards@, t, lo as int),
{
    let mut r: u8 = lo;
    while r < lo + 5
        invariant
            1 <= lo <= 9,
            lo <= r <= lo + 5,
            forall|q: int| lo <= q < r ==> has_card(cards@, t, q),
        decreases lo + 5 - r,
    {
        if !contains_card(cards, t, r) {
            proof {
                assert(!has_card_m(cards@.to_multiset(), t, r as int));
            }
            return false;
        }
        r = r + 1;
    }
    proof {
        assert forall|q: int| lo <= q < lo + 5 implies has_card_m(cards@.to_multiset(), t, q) by {
            assert(has_card(cards@, t, q));
        }
    }
    true
}

/// Checks whether any suit holds the full run starting at `lo`.
fn suited_straight_at_exec(cards: &Vec<Card>, lo: u8) -> (b: bool)
    requires
        1 <= lo <= 9,
    ensures
        b == suited_straight_at(cards@, lo as int),
{
    straight_flush_at_exec(cards, CardType::Diamond, lo) || straight_flush_at_exec(
        cards,
        CardType::Spade,
        lo,
    ) || straight_flush_at_exec(cards, CardType::Heart, lo) || straight_flush_at_exec(
        cards,
        CardType::Clover,
        lo,
    )
}

/// Looks for a suited run of five consecutive cards.
fn has_straight_flush_exec(cards: &Vec<Card>) -> (b: bool)
    ensures
        b == has_straight_flush(cards@),
{
    let mut lo: u8 = 1;
    while lo <= 9
        invariant
            1 <= lo <= 10,
            forall|l: int| 1 <= l < lo ==> !suited_straight_at(cards@, l),
        decreases 10 - lo,
    {
        if suited_straight_at_exec(cards, lo) {
            return true;
        }
        lo = lo + 1;
    }
    proof {
        assert forall|l: int| 1 <= l <= 9 implies !suited_straight_at_m(cards@.to_multiset(), l) by {
            assert(!suited_straight_at(cards@, l));
        }
    }
    false
}

/// Looks for five or more cards of one suit.
fn has_flush_exec(cards: &Vec<Card>) -> (b: bool)
    requires
        all_valid(cards@),
    ensures
        b == has_flush(cards@),
{
    count_suit(cards, CardType::Diamond) >= 5 || count_suit(cards, CardType::Spade) >= 5
        || count_suit(cards, CardType::Heart) >= 5 || count_suit(cards, CardType::Clover) >= 5
}

/// What one pass over the numbers found: a number with three or more
/// cards, and up to two distinct numbers with two or more cards.
struct GroupScan {
    triple: Option<u8>,
    pair_a: Option<u8>,
    pair_b: Option<u8>,
}

/// Scans the numbers for triples and pairs, returning witnesses where
/// they exist and a guarantee of absence where they do not.
fn find_groups(cards: &Vec<Card>) -> (g: GroupScan)
    ensures
        g.triple matches Some(n) ==> 1 <= n <= 13 && rank_count(cards@, n as int) >= 3,
        g.triple is None ==> !has_triple(cards@),
        g.pair_a matches Some(n) ==> 1 <= n <= 13 && rank_count(cards@, n as int) >= 2,
        g.pair_a is None ==> !has_pair(cards@),
        g.pair_b matches Some(n2) ==> (g.pair_a matches Some(n1) && n1 != n2 && 1 <= n2 <= 13
            && rank_count(cards@, n2 as int) >= 2),
        g.pair_b is None ==> !has_two_pair(cards@),
{
    let mut triple: Option<u8> = None;
    let mut pair_a: Option<u8> = None;
    let mut pair_b: Option<u8> = None;
    let mut n: u8 = 1;
    while n <= 13
        invariant
            1 <= n <= 14,
            triple matches Some(m) ==> 1 <= m <= 13 && rank_count(cards@, m as int) >= 3,
            triple is None ==> forall|q: int| 1 <= q < n ==> rank_count(cards@, q) < 3,
            pair_a matches Some(m) ==> 1 <= m <= 13 && rank_count(cards@, m as int) >= 2,
            pair_a is None ==> forall|q: int| 1 <= q < n ==> rank_count(cards@, q) < 2,
            pair_b matches Some(m2) ==> (pair_a matches Some(m1) && m1 != m2 && 1 <= m2 <= 13
                && rank_count(cards@, m2 as int) >= 2),
            pair_b is None ==> (pair_a matches Some(m1) ==> forall|q: int|
                1 <= q < n && q != m1 ==> rank_count(cards@, q) < 2),
        decreases 14 - n,
    {
        let c = count_rank(cards, n);
        if c >= 3 && triple.is_none() {
            triple = Some(n);
        }
        if c >= 2 {
            match pair_a {
                None => {
                    pair_a = Some(n);
                },
                Some(p) => {
                    if pair_b.is_none() && p != n {
                        pair_b = Some(n);
                    }
                },
            }
        }
        n = n + 1;
    }
    proof {
        let ms = cards@.to_multiset();
        if triple is None {
            assert(!has_triple(cards@)) by {
                if has_triple_m(ms) {
                    let q = choose|q: int| 1 <= q <= 13 && rank_count_m(ms, q) >= 3;
                    assert(rank_count(cards@, q) < 3);
                    assert(false);
                }
            }
        }
        if pair_a is None {
            assert(!has_pair(cards@)) by {
                if has_pair_m(ms) {
                    let q = choose|q: int| 1 <= q <= 13 && rank_count_m(ms, q) >= 2;
                    assert(rank_count(cards@, q) < 2);
                    assert(false);
                }
            }
        }
        if pair_b is None {
            assert(!has_two_pair(cards@)) by {
                if has_two_pair_m(ms) {
                    let (q1, q2) = choose|q1: int, q2: int|
                        1 <= q1 <= 13 && 1 <= q2 <= 13 && q1 != q2 && rank_count_m(ms, q1) >= 2
                            && rank_count_m(ms, q2) >= 2;
                    match pair_a {
                        Some(m1) => {
                            assert(rank_count(cards@, q1) >= 2);
                            assert(rank_count(cards@, q2) >= 2);
                            assert(q1 == m1 && q2 == m1);
                        },
                        None => {
                            assert(rank_count(cards@, q1) < 2);
                        },
                    }
                    assert(false);
                }
            }
        }
    }
    GroupScan { triple, pair_a, pair_b }
}

/// The largest number any card of a non-empty hand carries.
fn highest_number(cards: &Vec<Card>) -> (m: u8)
    requires
        cards@.len() >= 1,
        all_valid(cards@),
    ensures
        1 <= m <= 13,
        m as int == high_rank(cards@),
{
    let mut m: u8 = cards[0].number;
    let mut i: usize = 1;
    while i < cards.len()
        invariant
            all_valid(cards@),
            cards@.len() >= 1,
            1 <= i <= cards@.len(),
            exists|k: int| 0 <= k < cards@.len() && cards@[k].number == m,
            forall|j: int| 0 <= j < i ==> cards@[j].number <= m,
        decreases cards@.len() - i,
    {
        if cards[i].number > m {
            m = cards[i].number;
        }
        i = i + 1;
    }
    proof {
        let s = cards@;
        let k = choose|k: int| 0 <= k < s.len() && s[k].number == m;
        assert(s[k].valid());
        lemma_has_rank_witness(s, m as int);
        assert(has_rank(s, m as int));
        assert forall|q: int| m < q <= 13 implies !has_rank(s, q) by {
            lemma_has_rank_witness(s, q);
        }
        assert(is_highest_rank(s, m as int));
        lemma_high_rank_exists(s);
        let hr = high_rank(s);
        if hr != m {
            if hr > m {
                assert(!has_rank(s, hr));
            } else {
                assert(!has_rank(s, m as int));
            }
        }
    }
    m
}

/// The decimal spelling of a card number.
pub open spec fn rank_string(n: int) -> Seq<char> {
    if n == 1 {
        "1"@
    } else if n == 2 {
        "2"@
    } else if n == 3 {
        "3"@
    } else if n == 4 {
        "4"@
    } else if n == 5 {
        "5"@
    } else if n == 6 {
        "6"@
    } else if n == 7 {
        "7"@
    } else if n == 8 {
        "8"@
    } else if n == 9 {
        "9"@
    } else if n == 10 {
        "10"@
    } else if n == 11 {
        "11"@
    } else if n == 12 {
        "12"@
    } else {
        "13"@
    }
}

/// Spells a card number in decimal.
fn rank_to_string(n: u8) -> (s: String)
    requires
        1 <= n <= 13,
    ensures
        s@ == rank_string(n as int),
{
    match n {
        1 => String::from_str("1"),
        2 => String::from_str("2"),
        3 => String::from_str("3"),
        4 => String::from_str("4"),
        5 => String::from_str("5"),
        6 => String::from_str("6"),
        7 => String::from_str("7"),
        8 => String::from_str("8"),
        9 => String::from_str("9"),
        10 => String::from_str("10"),
        11 => String::from_str("11"),
        12 => String::from_str("12"),
        _ => String::from_str("13"),
    }
}

/// Evaluates a hand of at least two valid cards: the best category it
/// contains, with the highest number as tie-break when (and only when)
/// the category is `HighCard`.
pub(crate) fn evaluate(cards: &Vec<Card>) -> (r: (CardCombination, Option<u8>))
    requires
        cards@.len() >= 2,
        all_valid(cards@),
    ensures
        r.0 == best_combination(cards@),
        (r.1 is Some) <==> (r.0 is HighCard),
        r.1 matches Some(m) ==> 1 <= m <= 13 && m as int == high_rank(cards@),
{
    {
        if has_straight_exec(&cards) {
            if suited_straight_at_exec(&cards, 9) {
                (CardCombination::Rflush, None)
            } else if has_straight_flush_exec(&cards) {
                (CardCombination::Sflush, None)
            } else {
                (CardCombination::Straight, None)
            }
        } else if has_flush_exec(&cards) {
            (CardCombination::Flush, None)
        } else {
            let g = find_groups(&cards);
            match (g.triple, g.pair_a, g.pair_b) {
                (Some(nt), Some(n1), Some(n2)) => {
                    proof {
                        let s = cards@;
                        let ms = s.to_multiset();
                        let w: int = if n1 != nt {
                            n1 as int
                        } else {
                            n2 as int
                        };
                        assert(1 <= w <= 13 && w != nt as int && rank_count(s, w) >= 2);
                        assert(rank_count(s, nt as int) >= 3);
                        assert(rank_count_m(ms, w) >= 2 && rank_count_m(ms, nt as int) >= 3);
                        assert(has_full_house(s));
                    }
                    (CardCombination::FullHouse, None)
                },
                (Some(nt), _, None) => {
                    proof {
                        let s = cards@;
                        let ms = s.to_multiset();
                        assert(rank_count(s, nt as int) >= 3);
                        assert(rank_count_m(ms, nt as int) >= 3);
                        assert(has_triple(s));
                        assert(!has_full_house(s)) by {
                            if has_full_house_m(ms) {
                                let (q1, q2) = choose|q1: int, q2: int|
                                    1 <= q1 <= 13 && 1 <= q2 <= 13 && q1 != q2 && rank_count_m(
                                        ms,
                                        q1,
                                    ) >= 3 && rank_count_m(ms, q2) >= 2;
                                assert(has_two_pair(s));
                                assert(false);
                            }
                        }
                    }
                    (CardCombination::ThreeOfaKind, None)
                },
                (None, Some(n1), Some(n2)) => {
                    proof {
                        let s = cards@;
                        let ms = s.to_multiset();
                        assert(rank_count(s, n1 as int) >= 2);
                        assert(rank_count(s, n2 as int) >= 2);
                        assert(rank_count_m(ms, n1 as int) >= 2 && rank_count_m(ms, n2 as int)
                            >= 2);
                        assert(has_two_pair(s));
                        assert(!has_full_house(s)) by {
                            if has_full_house_m(ms) {
                                let (q1, q2) = choose|q1: int, q2: int|
                                    1 <= q1 <= 13 && 1 <= q2 <= 13 && q1 != q2 && rank_count_m(
                                        ms,
                                        q1,
                                    ) >= 3 && rank_count_m(ms, q2) >= 2;
                                assert(has_triple(s));
                                assert(false);
                            }
                        }
                    }
                    (CardCombination::TwoPair, None)
                },
                (None, Some(n1), None) => {
                    proof {
                        let s = cards@;
                        let ms = s.to_multiset();
                        assert(rank_count(s, n1 as int) >= 2);
                        assert(rank_count_m(ms, n1 as int) >= 2);
                        assert(has_pair(s));
                        assert(!has_full_house(s)) by {
                            if has_full_house_m(ms) {
                                let (q1, q2) = choose|q1: int, q2: int|
                                    1 <= q1 <= 13 && 1 <= q2 <= 13 && q1 != q2 && rank_count_m(
                                        ms,
                                        q1,
                                    ) >= 3 && rank_count_m(ms, q2) >= 2;
                                assert(has_triple(s));
                                assert(false);
                            }
                        }
                    }
                    (CardCombination::Pair, None)
                },
                (Some(_), None, Some(_)) => {
                    // a second pair is only ever recorded after a first one
                    proof {
                        assert(g.pair_a is Some);
                    }
                    (CardCombination::ThreeOfaKind, None)
                },
                (None, None, _) => {
                    proof {
                        let s = cards@;
                        let ms = s.to_multiset();
                        assert(!has_triple(s)) by {
                            if has_triple_m(ms) {
                                let q = choose|q: int| 1 <= q <= 13 && rank_count_m(ms, q) >= 3;
                                assert(has_pair(s));
                                assert(false);
                            }
                        }
                        assert(!has_full_house(s)) by {
                            if has_full_house_m(ms) {
                                let (q1, q2) = choose|q1: int, q2: int|
                                    1 <= q1 <= 13 && 1 <= q2 <= 13 && q1 != q2 && rank_count_m(
                                        ms,
                                        q1,
                                    ) >= 3 && rank_count_m(ms, q2) >= 2;
                                assert(has_pair(s));
                                assert(false);
                            }
                        }
                        assert(!has_two_pair(s)) by {
                            if has_two_pair_m(ms) {
                                let (q1, q2) = choose|q1: int, q2: int|
                                    1 <= q1 <= 13 && 1 <= q2 <= 13 && q1 != q2 && rank_count_m(
                                        ms,
                                        q1,
                                    ) >= 2 && rank_count_m(ms, q2) >= 2;
                                assert(has_pair(s));
                                assert(false);
                            }
                        }
                    }
                    let m = highest_number(&cards);
                    (CardCombination::HighCard, Some(m))
                },
            }
        }
    }
}

/// Law: hand evaluation is order-independent.  Two hands that hold
/// the same cards, in whatever order, evaluate to the same category
/// and carry the same highest number.  Every predicate that
/// `best_combination` and `high_rank` are built from is a function of
/// the multiset of cards alone.
pub proof fn lemma_rank_order_independent(s1: Seq<Card>, s2: Seq<Card>)
    requires
        s1.to_multiset() == s2.to_multiset(),
    ensures
        best_combination(s1) == best_combination(s2),
        high_rank(s1) == high_rank(s2),
{
}

/// Law: the category order is total and runs from `HighCard` at the
/// bottom through `Pair`, `TwoPair`, `ThreeOfaKind`, `FullHouse`,
/// `Straight`, `Flush` and `Sflush` up to `Rflush` at the top: two
/// categories compare by their ordinals, and equal ordinals mean equal
/// categories.
pub proof fn lemma_combination_order_total(a: CardCombination, b: CardCombination)
    ensures
        0 <= combination_ordinal(a) <= 8,
        combination_ordinal(a) == combination_ordinal(b) ==> a == b,
        combination_ordinal(a) < combination_ordinal(b) || combination_ordinal(b)
            < combination_ordinal(a) || a == b,
        combination_ordinal(CardCombination::HighCard) < combination_ordinal(CardCombination::Pair)
            < combination_ordinal(CardCombination::TwoPair) < combination_ordinal(
            CardCombination::ThreeOfaKind,
        ) < combination_ordinal(CardCombination::FullHouse) < combination_ordinal(
            CardCombination::Straight,
        ) < combination_ordinal(CardCombination::Flush) < combination_ordinal(
            CardCombination::Sflush,
        ) < combination_ordinal(CardCombination::Rflush),
{
}

/// Namespace for the hand evaluation entry point.
pub struct CombinationBuilder;

impl CombinationBuilder {
    /// Evaluates a hand of at least two valid cards: the best category
    /// it contains, with the spelled-out highest number as tie-break
    /// when (and only when) the category is `HighCard`.
    pub fn get_highest_combination(cards: Vec<Card>) -> (r: (CardCombination, Option<String>))
        requires
            cards@.len() >= 2,
            all_valid(cards@),
        ensures
            r.0 == best_combination(cards@),
            (r.1 is Some) <==> (r.0 is HighCard),
            r.1 matches Some(meta) ==> meta@ == rank_string(high_rank(cards@)),
    {
        let (comb, meta) = evaluate(&cards);
        match meta {
            Some(m) => (comb, Some(rank_to_string(m))),
            None => (comb, None),
        }
    }
}

} // verus!
