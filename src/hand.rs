//! A hand of cards, kept by suit with each suit ordered from ace down.
use vstd::prelude::*;

use crate::card::{rank_of_value, Card, Rank, Suit};
use crate::text::{char_string, push_char};

verus! {

/// How many times `c` occurs in `v`.
pub open spec fn occurrences(v: Seq<Card>, c: Card) -> nat
    decreases v.len(),
{
    if v.len() == 0 {
        0
    } else {
        occurrences(v.drop_last(), c) + if v.last() == c {
            1nat
        } else {
            0nat
        }
    }
}

/// The cards of suit `s` in `v` whose rank is at most `k`, highest rank first.
pub open spec fn rank_run(v: Seq<Card>, s: Suit, k: int) -> Seq<Card>
    decreases k,
{
    if k < 2 {
        Seq::empty()
    } else {
        match rank_of_value(k) {
            Some(r) => {
                let c = Card { suit: s, rank: r };
                Seq::new(occurrences(v, c), |i: int| c) + rank_run(v, s, k - 1)
            },
            None => Seq::empty(),
        }
    }
}

/// The cards of suit `s` in `v`, from ace down to two.
pub open spec fn suit_block(v: Seq<Card>, s: Suit) -> Seq<Card> {
    rank_run(v, s, 14)
}

/// The high-card points of a sequence of cards.
pub open spec fn points_of(cs: Seq<Card>) -> nat
    decreases cs.len(),
{
    if cs.len() == 0 {
        0
    } else {
        points_of(cs.drop_last()) + cs.last().rank.points()
    }
}

/// The ranks of `cs` as displayed, separated by single spaces.
pub open spec fn joined_ranks(cs: Seq<Card>) -> Seq<char>
    decreases cs.len(),
{
    if cs.len() <= 1 {
        if cs.len() == 0 {
            Seq::empty()
        } else {
            cs[0].rank.text_spec()
        }
    } else {
        joined_ranks(cs.drop_last()) + seq![' '] + cs.last().rank.text_spec()
    }
}

/// The ranks of one suit of a hand as displayed, or a dash for a void.
pub open spec fn suit_text(cs: Seq<Card>) -> Seq<char> {
    if cs.len() == 0 {
        "\u{e2}\u{20ac}\u{201d}"@
    } else {
        joined_ranks(cs)
    }
}

/// The rank with face value `k`, from 2 to 14.
pub(crate) fn rank_with_value(k: u8) -> (r: Rank)
    requires
        2 <= k <= 14,
    ensures
        rank_of_value(k as int) == Some(r),
{
    match k {
        2 => Rank::Two,
        3 => Rank::Three,
        4 => Rank::Four,
        5 => Rank::Five,
        6 => Rank::Six,
        7 => Rank::Seven,
        8 => Rank::Eight,
        9 => Rank::Nine,
        10 => Rank::Ten,
        11 => Rank::Jack,
        12 => Rank::Queen,
        13 => Rank::King,
        _ => Rank::Ace,
    }
}

/// How many times `c` occurs in `v`.
fn count_card(v: &Vec<Card>, c: Card) -> (r: usize)
    ensures
        r == occurrences(v@, c),
{
    let mut n: usize = 0;
    let mut i: usize = 0;
    while i < v.len()
        invariant
            i <= v@.len(),
            n <= i,
            n == occurrences(v@.subrange(0, i as int), c),
        decreases v@.len() - i,
    {
        proof {
            assert(v@.subrange(0, i + 1).drop_last() == v@.subrange(0, i as int));
        }
        if v[i] == c {
            n = n + 1;
        }
        i = i + 1;
    }
    proof {
        assert(v@.subrange(0, v@.len() as int) == v@);
    }
    n
}

/// The cards of suit `s` in `v`, from ace down to two.
fn suit_cards_of(v: &Vec<Card>, s: Suit) -> (r: Vec<Card>)
    ensures
        r@ == suit_block(v@, s),
{
    let mut r: Vec<Card> = Vec::new();
    let mut k: u8 = 14;
    while k >= 2
        invariant
            1 <= k <= 14,
            r@ + rank_run(v@, s, k as int) == suit_block(v@, s),
        decreases k,
    {
        let rank = rank_with_value(k);
        let c = Card { suit: s, rank };
        let n = count_card(v, c);
        let ghost before = r@;
        let mut j: usize = 0;
        while j < n
            invariant
                j <= n,
                r@ == before + Seq::new(j as nat, |i: int| c),
            decreases n - j,
        {
            r.push(c);
            j = j + 1;
            proof {
                assert(r@ =~= before + Seq::new(j as nat, |i: int| c));
            }
        }
        proof {
            assert(rank_run(v@, s, k as int) == Seq::new(n as nat, |i: int| c) + rank_run(
                v@,
                s,
                k - 1,
            ));
            assert(r@ + rank_run(v@, s, k - 1) =~= before + rank_run(v@, s, k as int));
        }
        k = k - 1;
    }
    proof {
        assert(rank_run(v@, s, k as int) == Seq::<Card>::empty());
        assert(r@ =~= r@ + rank_run(v@, s, k as int));
    }
    r
}

/// Adding a card to a sequence adds one card to the run of its suit, when its
/// rank is at most `k`.
proof fn lemma_run_push(u: Seq<Card>, c: Card, s: Suit, k: int)
    requires
        k <= 14,
    ensures
        rank_run(u.push(c), s, k).len() == rank_run(u, s, k).len() + if c.suit == s && 2
            <= c.rank.value_spec() <= k {
            1int
        } else {
            0int
        },
    decreases k,
{
    assert(u.push(c).drop_last() == u);
    if k >= 2 {
        lemma_run_push(u, c, s, k - 1);
        match rank_of_value(k) {
            Some(r) => {
                let d = Card { suit: s, rank: r };
                assert(occurrences(u.push(c), d) == occurrences(u, d) + if c == d {
                    1nat
                } else {
                    0nat
                });
                assert((c == d) <==> (c.suit == s && c.rank.value_spec() == k));
                assert(rank_run(u.push(c), s, k) == Seq::new(occurrences(u.push(c), d), |i: int| d)
                    + rank_run(u.push(c), s, k - 1));
                assert(rank_run(u, s, k) == Seq::new(occurrences(u, d), |i: int| d) + rank_run(
                    u,
                    s,
                    k - 1,
                ));
            },
            None => {},
        }
    }
}

/// The four suit blocks of `v` hold as many cards as `v`.
proof fn lemma_blocks_len(v: Seq<Card>)
    ensures
        suit_block(v, Suit::Spades).len() + suit_block(v, Suit::Hearts).len() + suit_block(
            v,
            Suit::Diamonds,
        ).len() + suit_block(v, Suit::Clubs).len() == v.len(),
    decreases v.len(),
{
    if v.len() == 0 {
        lemma_run_empty(v, Suit::Spades, 14);
        lemma_run_empty(v, Suit::Hearts, 14);
        lemma_run_empty(v, Suit::Diamonds, 14);
        lemma_run_empty(v, Suit::Clubs, 14);
    } else {
        let u = v.drop_last();
        let c = v.last();
        lemma_blocks_len(u);
        assert(u.push(c) == v);
        lemma_run_push(u, c, Suit::Spades, 14);
        lemma_run_push(u, c, Suit::Hearts, 14);
        lemma_run_push(u, c, Suit::Diamonds, 14);
        lemma_run_push(u, c, Suit::Clubs, 14);
    }
}

proof fn lemma_run_empty(v: Seq<Card>, s: Suit, k: int)
    requires
        v.len() == 0,
    ensures
        rank_run(v, s, k).len() == 0,
    decreases k,
{
    if k >= 2 {
        lemma_run_empty(v, s, k - 1);
    }
}

/// A hand: its cards split by suit, each suit ordered from ace down to two.
#[derive(Debug)]
pub struct Hand {
    spades: Vec<Card>,
    hearts: Vec<Card>,
    diamonds: Vec<Card>,
    clubs: Vec<Card>,
}

impl Hand {
    #[verifier::type_invariant]
    spec fn size_fits(self) -> bool {
        self.spades@.len() + self.hearts@.len() + self.diamonds@.len() + self.clubs@.len()
            <= usize::MAX
    }

    /// The cards of suit `s` in the hand, from ace down.
    pub closed spec fn suit_cards(self, s: Suit) -> Seq<Card> {
        match s {
            Suit::Spades => self.spades@,
            Suit::Hearts => self.hearts@,
            Suit::Diamonds => self.diamonds@,
            Suit::Clubs => self.clubs@,
        }
    }

    /// All cards of the hand: spades, hearts, diamonds, then clubs.
    pub open spec fn cards(self) -> Seq<Card> {
        self.suit_cards(Suit::Spades) + self.suit_cards(Suit::Hearts) + self.suit_cards(
            Suit::Diamonds,
        ) + self.suit_cards(Suit::Clubs)
    }

    /// The hand as displayed: each suit symbol followed by its ranks, spades first.
    pub open spec fn text_spec(self) -> Seq<char> {
        seq![Suit::Spades.symbol_spec(), ' '] + suit_text(self.suit_cards(Suit::Spades))
            + seq![' ', ' ', Suit::Hearts.symbol_spec(), ' '] + suit_text(
            self.suit_cards(Suit::Hearts),
        ) + seq![' ', ' ', Suit::Diamonds.symbol_spec(), ' '] + suit_text(
            self.suit_cards(Suit::Diamonds),
        ) + seq![' ', ' ', Suit::Clubs.symbol_spec(), ' '] + suit_text(
            self.suit_cards(Suit::Clubs),
        )
    }

    /// Sorts the cards into a hand.
    pub fn from_cards(v: Vec<Card>) -> (r: Hand)
        ensures
            r.suit_cards(Suit::Spades) == suit_block(v@, Suit::Spades),
            r.suit_cards(Suit::Hearts) == suit_block(v@, Suit::Hearts),
            r.suit_cards(Suit::Diamonds) == suit_block(v@, Suit::Diamonds),
            r.suit_cards(Suit::Clubs) == suit_block(v@, Suit::Clubs),
            r.cards().len() == v@.len(),
    {
        let total = v.len();
        let spades = suit_cards_of(&v, Suit::Spades);
        let hearts = suit_cards_of(&v, Suit::Hearts);
        let diamonds = suit_cards_of(&v, Suit::Diamonds);
        let clubs = suit_cards_of(&v, Suit::Clubs);
        proof {
            lemma_blocks_len(v@);
            assert(total == v@.len());
        }
        Hand { spades, hearts, diamonds, clubs }
    }

    /// The number of cards in the hand.
    pub fn len(&self) -> (r: usize)
        ensures
            r == self.cards().len(),
    {
        proof {
            use_type_invariant(self);
        }
        self.spades.len() + self.hearts.len() + self.diamonds.len() + self.clubs.len()
    }

    pub fn is_empty(&self) -> (r: bool)
        ensures
            r == (self.cards().len() == 0),
    {
        self.spades.len() == 0 && self.hearts.len() == 0 && self.diamonds.len() == 0
            && self.clubs.len() == 0
    }

    /// The number of spades, hearts, diamonds and clubs, in that order.
    pub fn distribution(&self) -> (r: [usize; 4])
        ensures
            r@ == seq![
                self.suit_cards(Suit::Spades).len() as usize,
                self.suit_cards(Suit::Hearts).len() as usize,
                self.suit_cards(Suit::Diamonds).len() as usize,
                self.suit_cards(Suit::Clubs).len() as usize,
            ],
    {
        [self.spades.len(), self.hearts.len(), self.diamonds.len(), self.clubs.len()]
    }

    /// The cards of the hand in order: spades, hearts, diamonds, clubs, each
    /// from ace down.
    pub fn iter(&self) -> (r: Vec<Card>)
        ensures
            r@ == self.cards(),
    {
        let mut r: Vec<Card> = Vec::new();
        extend_cards(&mut r, &self.spades);
        extend_cards(&mut r, &self.hearts);
        extend_cards(&mut r, &self.diamonds);
        extend_cards(&mut r, &self.clubs);
        r
    }

    /// The high-card points of the hand: ace 4, king 3, queen 2, jack 1.
    pub fn hcp(&self) -> (r: u8)
        requires
            points_of(self.cards()) <= u8::MAX,
        ensures
            r == points_of(self.cards()),
    {
        let cs = self.iter();
        let mut total: u8 = 0;
        let mut i: usize = 0;
        while i < cs.len()
            invariant
                cs@ == self.cards(),
                points_of(self.cards()) <= u8::MAX,
                i <= cs@.len(),
                total == points_of(cs@.subrange(0, i as int)),
            decreases cs@.len() - i,
        {
            proof {
                assert(cs@.subrange(0, i + 1).drop_last() == cs@.subrange(0, i as int));
                lemma_points_prefix(cs@, i + 1);
            }
            total = total + cs[i].rank.high_card_points();
            i = i + 1;
        }
        proof {
            assert(cs@.subrange(0, i as int) == cs@);
        }
        total
    }

    pub fn to_string(&self) -> (r: String)
        ensures
            r@ == self.text_spec(),
    {
        let mut r = char_string(Suit::Spades.symbol());
        push_char(&mut r, ' ');
        let t = suit_string(&self.spades);
        r.append(t.as_str());
        push_char(&mut r, ' ');
        push_char(&mut r, ' ');
        push_char(&mut r, Suit::Hearts.symbol());
        push_char(&mut r, ' ');
        let t = suit_string(&self.hearts);
        r.append(t.as_str());
        push_char(&mut r, ' ');
        push_char(&mut r, ' ');
        push_char(&mut r, Suit::Diamonds.symbol());
        push_char(&mut r, ' ');
        let t = suit_string(&self.diamonds);
        r.append(t.as_str());
        push_char(&mut r, ' ');
        push_char(&mut r, ' ');
        push_char(&mut r, Suit::Clubs.symbol());
        push_char(&mut r, ' ');
        let t = suit_string(&self.clubs);
        r.append(t.as_str());
        proof {
            assert(r@ =~= self.text_spec());
        }
        r
    }
}

/// The points of a prefix are at most those of the whole.
proof fn lemma_points_prefix(cs: Seq<Card>, i: int)
    requires
        0 <= i <= cs.len(),
    ensures
        points_of(cs.subrange(0, i)) <= points_of(cs),
    decreases cs.len() - i,
{
    if i < cs.len() {
        lemma_points_prefix(cs, i + 1);
        assert(cs.subrange(0, i + 1).drop_last() == cs.subrange(0, i));
    } else {
        assert(cs.subrange(0, i) == cs);
    }
}

fn extend_cards(r: &mut Vec<Card>, v: &Vec<Card>)
    ensures
        final(r)@ == old(r)@ + v@,
{
    let ghost start = r@;
    let mut i: usize = 0;
    while i < v.len()
        invariant
            i <= v@.len(),
            r@ == start + v@.subrange(0, i as int),
        decreases v@.len() - i,
    {
        r.push(v[i]);
        i = i + 1;
        proof {
            assert(r@ =~= start + v@.subrange(0, i as int));
        }
    }
    proof {
        assert(v@.subrange(0, i as int) == v@);
    }
}

/// The ranks of one suit as displayed, or a dash for a void.
fn suit_string(v: &Vec<Card>) -> (r: String)
    ensures
        r@ == suit_text(v@),
{
    if v.len() == 0 {
        return String::from_str("\u{e2}\u{20ac}\u{201d}");
    }
    let mut r = v[0].rank.to_string();
    let mut i: usize = 1;
    proof {
        assert(v@.subrange(0, 1) =~= seq![v@[0]]);
    }
    while i < v.len()
        invariant
            1 <= i <= v@.len(),
            r@ == joined_ranks(v@.subrange(0, i as int)),
        decreases v@.len() - i,
    {
        push_char(&mut r, ' ');
        let t = v[i].rank.to_string();
        r.append(t.as_str());
        proof {
            let p = v@.subrange(0, i + 1);
            assert(p.drop_last() == v@.subrange(0, i as int));
            assert(r@ =~= joined_ranks(p));
        }
        i = i + 1;
    }
    proof {
        assert(v@.subrange(0, i as int) == v@);
    }
    r
}

impl core::convert::From<Vec<Card>> for Hand {
    fn from(v: Vec<Card>) -> (r: Hand) {
        Hand::from_cards(v)
    }
}

/// A hand is described by what its suits hold (see `Hand::from_cards`), not as
/// one value, so `from` carries no specification of its own.
impl vstd::std_specs::convert::FromSpecImpl<Vec<Card>> for Hand {
    open spec fn obeys_from_spec() -> bool {
        false
    }

    open spec fn from_spec(v: Vec<Card>) -> Hand {
        arbitrary()
    }
}

impl Clone for Hand {
    fn clone(&self) -> (r: Hand) {
        proof {
            use_type_invariant(self);
        }
        Hand {
            spades: self.spades.clone(),
            hearts: self.hearts.clone(),
            diamonds: self.diamonds.clone(),
            clubs: self.clubs.clone(),
        }
    }
}

} // verus!
