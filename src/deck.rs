//! A deck of 52 cards: made in order, shuffled, and dealt into four hands.
use vstd::prelude::*;

use rand::seq::SliceRandom;

use crate::card::{rank_of_value, Card, Rank, Suit};
use crate::hand::{rank_with_value, suit_block, Hand};

verus! {

/// The suit of the `k`-th group of thirteen cards in a new deck.
pub open spec fn deck_suit(k: int) -> Suit {
    if k == 0 {
        Suit::Spades
    } else if k == 1 {
        Suit::Hearts
    } else if k == 2 {
        Suit::Diamonds
    } else {
        Suit::Clubs
    }
}

/// Card `i` of a new deck: spades, hearts, diamonds, clubs, each from two up to ace.
pub open spec fn deck_card(i: int) -> Card {
    Card {
        suit: deck_suit(i / 13),
        rank: match rank_of_value(i % 13 + 2) {
            Some(r) => r,
            None => Rank::Two,
        },
    }
}

/// The cards that hand `i` of a deal receives: the first hand the last
/// thirteen cards, the last hand the first thirteen.
pub open spec fn dealt(d: Seq<Card>, i: int) -> Seq<Card> {
    d.subrange(39 - 13 * i, 52 - 13 * i)
}

/// Relies on `rand::seq::SliceRandom::shuffle`, given the generator of
/// `rand::rng()`: it only swaps cards, so the same cards remain.
#[verifier::external_body]
fn shuffle_cards(v: &mut Vec<Card>)
    ensures
        final(v)@.to_multiset() == old(v)@.to_multiset(),
{
    let mut rng = rand::rng();
    v.shuffle(&mut rng);
}

fn deck_suit_at(k: usize) -> (r: Suit)
    requires
        k < 4,
    ensures
        r == deck_suit(k as int),
{
    match k {
        0 => Suit::Spades,
        1 => Suit::Hearts,
        2 => Suit::Diamonds,
        _ => Suit::Clubs,
    }
}

/// A deck: always 52 cards.
#[derive(Debug)]
pub struct Deck(Vec<Card>);

impl Deck {
    #[verifier::type_invariant]
    spec fn full(self) -> bool {
        self.0@.len() == 52
    }

    /// The cards of the deck, from bottom to top.
    pub closed spec fn cards(self) -> Seq<Card> {
        self.0@
    }

    /// Puts the cards in a random order.
    pub fn shuffle(&mut self)
        ensures
            final(self).cards().to_multiset() == old(self).cards().to_multiset(),
    {
        proof {
            use_type_invariant(&*self);
        }
        let mut v = self.0.clone();
        proof {
            assert(v@ =~= self.0@);
        }
        shuffle_cards(&mut v);
        proof {
            broadcast use vstd::seq_lib::group_to_multiset_ensures;

            assert(v@.len() == v@.to_multiset().len());
        }
        *self = Deck(v);
    }

    /// Deals the deck into four hands of thirteen cards: the first hand gets
    /// the last thirteen cards, the next hand the thirteen before them, and so on.
    pub fn deal(self) -> (r: [Hand; 4])
        ensures
            forall|i: int, s: Suit|
                0 <= i < 4 ==> #[trigger] r[i].suit_cards(s) == suit_block(dealt(self.cards(), i), s),
            forall|i: int| 0 <= i < 4 ==> #[trigger] r[i].cards().len() == 13,
    {
        proof {
            use_type_invariant(&self);
        }
        let Deck(mut v) = self;
        let ghost d = v@;
        let a = v.split_off(39);
        let b = v.split_off(26);
        let c = v.split_off(13);
        proof {
            assert(a@ == dealt(d, 0));
            assert(b@ == dealt(d, 1));
            assert(c@ == dealt(d, 2));
            assert(v@ == dealt(d, 3));
        }
        [Hand::from_cards(a), Hand::from_cards(b), Hand::from_cards(c), Hand::from_cards(v)]
    }
}

impl Default for Deck {
    /// A new deck in order: spades, hearts, diamonds, clubs, each from two up to ace.
    fn default() -> (r: Deck)
        ensures
            r.cards() == Seq::new(52, |i: int| deck_card(i)),
    {
        let mut v: Vec<Card> = Vec::new();
        let mut k: usize = 0;
        while k < 4
            invariant
                k <= 4,
                v@ == Seq::new((13 * k) as nat, |i: int| deck_card(i)),
            decreases 4 - k,
        {
            let suit = deck_suit_at(k);
            let mut j: u8 = 0;
            while j < 13
                invariant
                    k < 4,
                    j <= 13,
                    suit == deck_suit(k as int),
                    v@ == Seq::new((13 * k + j) as nat, |i: int| deck_card(i)),
                decreases 13 - j,
            {
                let rank = rank_with_value(j + 2);
                let card = Card { suit, rank };
                proof {
                    let i = 13 * k + j;
                    assert(i / 13 == k && i % 13 == j) by (nonlinear_arith)
                        requires
                            i == 13 * k + j,
                            j < 13,
                    ;
                    assert(card == deck_card(i));
                }
                v.push(card);
                j = j + 1;
                proof {
                    assert(v@ =~= Seq::new((13 * k + j) as nat, |i: int| deck_card(i)));
                }
            }
            k = k + 1;
        }
        Deck(v)
    }
}

} // verus!
