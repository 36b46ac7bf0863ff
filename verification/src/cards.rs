//! Cards and the deck (card pool) they are drawn from.
//!
//! A pool starts as the full 52-card deck and hands cards out uniformly
//! at random, without replacement.  Drawing never duplicates a card and
//! never draws more cards than remain.

use rand::Rng;
use vstd::prelude::*;

verus! {

broadcast use vstd::seq_lib::group_to_multiset_ensures;

/// Highest card number in a suit; numbers run from 1 to this value.
pub const CARD_MAX_NUMBER: u8 = 13;

/// The four suits.
#[derive(Debug, Clone, Copy, PartialEq, Eq, Structural, Hash)]
pub enum CardType {
    Diamond,
    Spade,
    Heart,
    Clover,
}

/// A single playing card: a suit and a number in `1..=CARD_MAX_NUMBER`.
#[derive(Debug, Clone, Copy, PartialEq, Eq, Structural, Hash)]
pub struct Card {
    pub card_type: CardType,
    pub number: u8,
}

impl Card {
    /// A card is valid when its number lies in `1..=CARD_MAX_NUMBER`.
    pub open spec fn valid(self) -> bool {
        1 <= self.number <= CARD_MAX_NUMBER
    }

    pub fn new(card_type: CardType, number: u8) -> (c: Card)
        ensures
            c == (Card { card_type, number }),
    {
        Card { card_type, number }
    }
}

/// Every card of the sequence is valid.
pub open spec fn all_valid(s: Seq<Card>) -> bool {
    forall|i: int| 0 <= i < s.len() ==> (#[trigger] s[i]).valid()
}

/// Numbers the suits, for stating that the deck is built suit by suit.
pub open spec fn suit_ord(t: CardType) -> int {
    match t {
        CardType::Diamond => 0,
        CardType::Spade => 1,
        CardType::Heart => 2,
        CardType::Clover => 3,
    }
}

/// Relies on rand's `Rng::gen_range` over the range `0..n`: the result is
/// drawn from that range, and the call panics only on an empty range,
/// which the precondition rules out.
#[verifier::external_body]
fn random_below(n: usize) -> (r: usize)
    requires
        1 <= n,
    ensures
        r < n,
{
    rand::thread_rng().gen_range(0..n)
}

/// The bag of cards that remain to be drawn this round.
pub struct CardPool {
    pub cards: Vec<Card>,
}

impl CardPool {
    /// A well-formed pool holds pairwise distinct, valid cards.
    pub open spec fn wf(self) -> bool {
        self.cards@.no_duplicates() && all_valid(self.cards@)
    }

    /// A fresh pool: all 52 cards, each exactly once.
    pub fn new() -> (pool: CardPool)
        ensures
            pool.wf(),
            pool.cards@.len() == 52,
    {
        let mut cards: Vec<Card> = Vec::new();
        let mut si: usize = 0;
        while si < 4
            invariant
                si <= 4,
                cards@.len() == si * 13,
                all_valid(cards@),
                cards@.no_duplicates(),
                forall|i: int| 0 <= i < cards@.len() ==> suit_ord(#[trigger] cards@[i].card_type) < si,
            decreases 4 - si,
        {
            let suit = match si {
                0 => CardType::Diamond,
                1 => CardType::Spade,
                2 => CardType::Heart,
                _ => CardType::Clover,
            };
            proof {
                assert(suit_ord(suit) == si);
            }
            let mut n: u8 = 1;
            while n <= 13
                invariant
                    1 <= n <= 14,
                    si < 4,
                    suit_ord(suit) == si,
                    cards@.len() == si * 13 + (n - 1),
                    all_valid(cards@),
                    cards@.no_duplicates(),
                    forall|i: int| 0 <= i < cards@.len()
                        ==> suit_ord(#[trigger] cards@[i].card_type) < si
                            || (cards@[i].card_type == suit && cards@[i].number < n),
                decreases 14 - n,
            {
                let c = Card { card_type: suit, number: n };
                proof {
                    let s = cards@;
                    assert forall|i: int, j: int|
                        0 <= i < s.push(c).len() && 0 <= j < s.push(c).len() && i != j
                        implies s.push(c)[i] != s.push(c)[j] by {
                        if i < s.len() && j < s.len() {
                            assert(s[i] != s[j]);
                        } else if i < s.len() {
                            assert(s.push(c)[j] == c);
                            assert(suit_ord(s[i].card_type) < si
                                || (s[i].card_type == suit && s[i].number < n));
                            assert(s[i] != c);
                        } else {
                            assert(s.push(c)[i] == c);
                            assert(suit_ord(s[j].card_type) < si
                                || (s[j].card_type == suit && s[j].number < n));
                            assert(s[j] != c);
                        }
                    }
                }
                cards.push(c);
                n = n + 1;
            }
            si = si + 1;
        }
        CardPool { cards }
    }

    /// Draws one card uniformly at random, or returns `None` on an empty
    /// pool, leaving the pool untouched.
    pub fn poll_card(&mut self) -> (r: Option<Card>)
        requires
            old(self).wf(),
        ensures
            final(self).wf(),
            old(self).cards@.len() == 0 ==> r is None && *final(self) == *old(self),
            old(self).cards@.len() > 0 ==> (r matches Some(c)
                && old(self).cards@.contains(c)
                && c.valid()
                && final(self).cards@.len() + 1 == old(self).cards@.len()
                && final(self).cards@.to_multiset() == old(self).cards@.to_multiset().remove(c)),
    {
        if self.cards.len() == 0 {
            return None;
        }
        let idx = random_below(self.cards.len());
        let c = self.cards.remove(idx);
        proof {
            lemma_removed_keeps_wf(old(self).cards@, idx as int);
        }
        Some(c)
    }

    /// Draws `count` cards uniformly at random without replacement.
    /// The drawn cards are distinct and the pool shrinks by exactly
    /// `count`; asking for more cards than remain fails without
    /// touching the pool.
    pub fn poll_cards(&mut self, count: usize) -> (r: Option<Vec<Card>>)
        requires
            old(self).wf(),
        ensures
            final(self).wf(),
            count > old(self).cards@.len() ==> r is None && *final(self) == *old(self),
            count <= old(self).cards@.len() ==> (r matches Some(drawn)
                && drawn@.len() == count
                && drawn@.no_duplicates()
                && all_valid(drawn@)
                && final(self).cards@.len() + count == old(self).cards@.len()
                && old(self).cards@.to_multiset()
                    == final(self).cards@.to_multiset().add(drawn@.to_multiset())),
    {
        if count > self.cards.len() {
            return None;
        }
        let ghost full = self.cards@;
        let mut drawn: Vec<Card> = Vec::new();
        proof {
            assert(full.to_multiset() =~= self.cards@.to_multiset().add(drawn@.to_multiset()));
        }
        while drawn.len() < count
            invariant
                self.wf(),
                count <= full.len(),
                drawn@.len() <= count,
                drawn@.no_duplicates(),
                all_valid(drawn@),
                self.cards@.len() + drawn@.len() == full.len(),
                full.no_duplicates(),
                full.to_multiset() == self.cards@.to_multiset().add(drawn@.to_multiset()),
            decreases count - drawn@.len(),
        {
            let idx = random_below(self.cards.len());
            let ghost before = self.cards@;
            let c = self.cards.remove(idx);
            proof {
                lemma_removed_keeps_wf(before, idx as int);
                // the drawn card cannot already be among `drawn`: the full
                // pool held it at most once
                full.lemma_multiset_has_no_duplicates();
                assert(full.to_multiset().count(c) <= 1);
                assert(before.to_multiset().count(c) >= 1);
                if drawn@.contains(c) {
                    assert(drawn@.to_multiset().count(c) >= 1);
                    assert(full.to_multiset().count(c) >= 2);
                    assert(false);
                }
                let sp = drawn@;
                assert forall|i: int, j: int|
                    0 <= i < sp.push(c).len() && 0 <= j < sp.push(c).len() && i != j
                    implies sp.push(c)[i] != sp.push(c)[j] by {
                    if i < sp.len() && j < sp.len() {
                        assert(sp[i] != sp[j]);
                    } else if i < sp.len() {
                        assert(sp.push(c)[j] == c);
                        assert(!sp.contains(c));
                        assert(sp[i] != c);
                    } else {
                        assert(sp.push(c)[i] == c);
                        assert(!sp.contains(c));
                        assert(sp[j] != c);
                    }
                }
                assert(full.to_multiset() =~= self.cards@.to_multiset().add(
                    drawn@.push(c).to_multiset(),
                ));
            }
            drawn.push(c);
        }
        Some(drawn)
    }
}

/// Removing an element of a distinct, valid sequence keeps it distinct
/// and valid.
proof fn lemma_removed_keeps_wf(s: Seq<Card>, i: int)
    requires
        0 <= i < s.len(),
        s.no_duplicates(),
        all_valid(s),
    ensures
        s.remove(i).no_duplicates(),
        all_valid(s.remove(i)),
{
    let r = s.remove(i);
    assert forall|k: int| 0 <= k < r.len() implies (#[trigger] r[k]).valid() by {
        if k < i {
            assert(r[k] == s[k]);
        } else {
            assert(r[k] == s[k + 1]);
        }
    }
    assert forall|k: int, l: int| 0 <= k < r.len() && 0 <= l < r.len() && k != l
        implies r[k] != r[l] by {
        let k0 = if k < i { k } else { k + 1 };
        let l0 = if l < i { l } else { l + 1 };
        assert(r[k] == s[k0]);
        assert(r[l] == s[l0]);
    }
}

} // verus!
