//! Suits, ranks and cards.
use vstd::prelude::*;

use crate::error::ParseError;
use crate::text::{char_string, lower_of, lowercase, push_char, text_is};

verus! {

/// The four suits, from lowest (clubs) to highest (spades).
#[derive(Debug, Clone, Copy, PartialEq, Eq, Structural, PartialOrd, Ord, Hash)]
pub enum Suit {
    Clubs,
    Diamonds,
    Hearts,
    Spades,
}

/// The suit named by an already lowercased text: its full name, its singular
/// name, or its first letter.
pub open spec fn suit_from_lower(t: Seq<char>) -> Result<Suit, ParseError> {
    if t == "spades"@ || t == "s"@ || t == "spade"@ {
        Ok(Suit::Spades)
    } else if t == "hearts"@ || t == "h"@ || t == "heart"@ {
        Ok(Suit::Hearts)
    } else if t == "diamonds"@ || t == "d"@ || t == "diamond"@ {
        Ok(Suit::Diamonds)
    } else if t == "clubs"@ || t == "c"@ || t == "club"@ {
        Ok(Suit::Clubs)
    } else {
        Err(ParseError::SuitNotValid)
    }
}

/// The suit that a capital letter stands for in card notation.
pub open spec fn suit_of_letter(c: char) -> Option<Suit> {
    if c == 'S' {
        Some(Suit::Spades)
    } else if c == 'H' {
        Some(Suit::Hearts)
    } else if c == 'D' {
        Some(Suit::Diamonds)
    } else if c == 'C' {
        Some(Suit::Clubs)
    } else {
        None
    }
}

impl Suit {
    /// Position in the suit order: clubs 0, diamonds 1, hearts 2, spades 3.
    pub open spec fn order(self) -> nat {
        match self {
            Suit::Clubs => 0,
            Suit::Diamonds => 1,
            Suit::Hearts => 2,
            Suit::Spades => 3,
        }
    }

    pub open spec fn letter_spec(self) -> char {
        match self {
            Suit::Spades => 'S',
            Suit::Hearts => 'H',
            Suit::Diamonds => 'D',
            Suit::Clubs => 'C',
        }
    }

    pub open spec fn symbol_spec(self) -> char {
        match self {
            Suit::Spades => '\u{2660}',
            Suit::Hearts => '\u{2665}',
            Suit::Diamonds => '\u{2666}',
            Suit::Clubs => '\u{2663}',
        }
    }

    pub fn index(&self) -> (r: u8)
        ensures
            r == self.order(),
    {
        match self {
            Suit::Clubs => 0,
            Suit::Diamonds => 1,
            Suit::Hearts => 2,
            Suit::Spades => 3,
        }
    }

    /// The capital letter of the suit in card notation (`S`, `H`, `D`, `C`).
    pub fn letter(&self) -> (r: char)
        ensures
            r == self.letter_spec(),
    {
        match self {
            Suit::Spades => 'S',
            Suit::Hearts => 'H',
            Suit::Diamonds => 'D',
            Suit::Clubs => 'C',
        }
    }

    /// The suit symbol used when displaying cards and bids.
    pub fn symbol(&self) -> (r: char)
        ensures
            r == self.symbol_spec(),
    {
        match self {
            Suit::Spades => '\u{2660}',
            Suit::Hearts => '\u{2665}',
            Suit::Diamonds => '\u{2666}',
            Suit::Clubs => '\u{2663}',
        }
    }

    /// The suit symbol as a string.
    pub fn to_string(&self) -> (r: String)
        ensures
            r@ == seq![self.symbol_spec()],
    {
        char_string(self.symbol())
    }

    /// Reads a suit from text that is already lowercased.
    pub fn from_lower(t: &String) -> (r: Result<Suit, ParseError>)
        ensures
            r == suit_from_lower(t@),
    {
        if text_is(t, "spades") || text_is(t, "s") || text_is(t, "spade") {
            Ok(Suit::Spades)
        } else if text_is(t, "hearts") || text_is(t, "h") || text_is(t, "heart") {
            Ok(Suit::Hearts)
        } else if text_is(t, "diamonds") || text_is(t, "d") || text_is(t, "diamond") {
            Ok(Suit::Diamonds)
        } else if text_is(t, "clubs") || text_is(t, "c") || text_is(t, "club") {
            Ok(Suit::Clubs)
        } else {
            Err(ParseError::SuitNotValid)
        }
    }

    /// Reads a suit, ignoring case.
    pub fn from_str(s: &str) -> (r: Result<Suit, ParseError>)
        ensures
            r == suit_from_lower(lower_of(s@)),
    {
        let t = lowercase(s);
        Suit::from_lower(&t)
    }

    /// Reads the capital letter of a suit in card notation.
    pub fn try_from_letter(c: char) -> (r: Result<Suit, ParseError>)
        ensures
            r == match suit_of_letter(c) {
                Some(s) => Ok(s),
                None => Err(ParseError::SuitNotValid),
            },
    {
        if c == 'S' {
            Ok(Suit::Spades)
        } else if c == 'H' {
            Ok(Suit::Hearts)
        } else if c == 'D' {
            Ok(Suit::Diamonds)
        } else if c == 'C' {
            Ok(Suit::Clubs)
        } else {
            Err(ParseError::SuitNotValid)
        }
    }
}

impl core::str::FromStr for Suit {
    type Err = ParseError;

    fn from_str(s: &str) -> Result<Suit, ParseError> {
        Suit::from_str(s)
    }
}

impl core::convert::TryFrom<char> for Suit {
    type Error = ParseError;

    fn try_from(c: char) -> Result<Suit, ParseError> {
        Suit::try_from_letter(c)
    }
}

impl vstd::std_specs::convert::TryFromSpecImpl<char> for Suit {
    open spec fn obeys_try_from_spec() -> bool {
        true
    }

    open spec fn try_from_spec(v: char) -> Result<Suit, ParseError> {
        match suit_of_letter(v) {
            Some(s) => Ok(s),
            None => Err(ParseError::SuitNotValid),
        }
    }
}

impl core::convert::From<Suit> for char {
    fn from(s: Suit) -> (r: char) {
        s.letter()
    }
}

impl vstd::std_specs::convert::FromSpecImpl<Suit> for char {
    open spec fn obeys_from_spec() -> bool {
        true
    }

    open spec fn from_spec(s: Suit) -> char {
        s.letter_spec()
    }
}

/// The thirteen ranks, from two up to ace.
#[derive(Debug, Clone, Copy, PartialEq, Eq, Structural, PartialOrd, Ord, Hash)]
pub enum Rank {
    Two,
    Three,
    Four,
    Five,
    Six,
    Seven,
    Eight,
    Nine,
    Ten,
    Jack,
    Queen,
    King,
    Ace,
}

/// The rank with the given face value (two is 2, ace is 14).
pub open spec fn rank_of_value(v: int) -> Option<Rank> {
    if v == 2 {
        Some(Rank::Two)
    } else if v == 3 {
        Some(Rank::Three)
    } else if v == 4 {
        Some(Rank::Four)
    } else if v == 5 {
        Some(Rank::Five)
    } else if v == 6 {
        Some(Rank::Six)
    } else if v == 7 {
        Some(Rank::Seven)
    } else if v == 8 {
        Some(Rank::Eight)
    } else if v == 9 {
        Some(Rank::Nine)
    } else if v == 10 {
        Some(Rank::Ten)
    } else if v == 11 {
        Some(Rank::Jack)
    } else if v == 12 {
        Some(Rank::Queen)
    } else if v == 13 {
        Some(Rank::King)
    } else if v == 14 {
        Some(Rank::Ace)
    } else {
        None
    }
}

/// The rank that a character stands for in card notation.
pub open spec fn rank_of_char(c: char) -> Option<Rank> {
    if '2' <= c && c <= '9' {
        rank_of_value((c as u32) - ('0' as u32))
    } else if c == 'T' {
        Some(Rank::Ten)
    } else if c == 'J' {
        Some(Rank::Jack)
    } else if c == 'Q' {
        Some(Rank::Queen)
    } else if c == 'K' {
        Some(Rank::King)
    } else if c == 'A' {
        Some(Rank::Ace)
    } else {
        None
    }
}

impl Rank {
    /// Face value: two is 2, ten is 10, jack 11, queen 12, king 13, ace 14.
    pub open spec fn value_spec(self) -> nat {
        match self {
            Rank::Two => 2,
            Rank::Three => 3,
            Rank::Four => 4,
            Rank::Five => 5,
            Rank::Six => 6,
            Rank::Seven => 7,
            Rank::Eight => 8,
            Rank::Nine => 9,
            Rank::Ten => 10,
            Rank::Jack => 11,
            Rank::Queen => 12,
            Rank::King => 13,
            Rank::Ace => 14,
        }
    }

    /// Milton Work points: ace 4, king 3, queen 2, jack 1, others 0.
    pub open spec fn points(self) -> nat {
        match self {
            Rank::Jack => 1,
            Rank::Queen => 2,
            Rank::King => 3,
            Rank::Ace => 4,
            _ => 0,
        }
    }

    /// The character of the rank in card notation (`2`..`9`, `T`, `J`, `Q`, `K`, `A`).
    pub open spec fn char_spec(self) -> char {
        if self.value_spec() <= 9 {
            (('0' as u32) + self.value_spec()) as char
        } else {
            match self {
                Rank::Ten => 'T',
                Rank::Jack => 'J',
                Rank::Queen => 'Q',
                Rank::King => 'K',
                _ => 'A',
            }
        }
    }

    /// The rank as it is displayed: its number for two to ten, else its initial.
    pub open spec fn text_spec(self) -> Seq<char> {
        if self == Rank::Ten {
            seq!['1', '0']
        } else {
            seq![self.char_spec()]
        }
    }

    pub fn value(&self) -> (r: u8)
        ensures
            r == self.value_spec(),
    {
        match self {
            Rank::Two => 2,
            Rank::Three => 3,
            Rank::Four => 4,
            Rank::Five => 5,
            Rank::Six => 6,
            Rank::Seven => 7,
            Rank::Eight => 8,
            Rank::Nine => 9,
            Rank::Ten => 10,
            Rank::Jack => 11,
            Rank::Queen => 12,
            Rank::King => 13,
            Rank::Ace => 14,
        }
    }

    pub fn high_card_points(&self) -> (r: u8)
        ensures
            r == self.points(),
    {
        match self {
            Rank::Jack => 1,
            Rank::Queen => 2,
            Rank::King => 3,
            Rank::Ace => 4,
            _ => 0,
        }
    }

    pub fn to_char(&self) -> (r: char)
        ensures
            r == self.char_spec(),
    {
        match self {
            Rank::Two => '2',
            Rank::Three => '3',
            Rank::Four => '4',
            Rank::Five => '5',
            Rank::Six => '6',
            Rank::Seven => '7',
            Rank::Eight => '8',
            Rank::Nine => '9',
            Rank::Ten => 'T',
            Rank::Jack => 'J',
            Rank::Queen => 'Q',
            Rank::King => 'K',
            Rank::Ace => 'A',
        }
    }

    pub fn to_string(&self) -> (r: String)
        ensures
            r@ == self.text_spec(),
    {
        match self {
            Rank::Ten => {
                let mut r = char_string('1');
                push_char(&mut r, '0');
                r
            },
            _ => char_string(self.to_char()),
        }
    }

    /// Reads the character of a rank in card notation.
    pub fn try_from_char(c: char) -> (r: Result<Rank, ParseError>)
        ensures
            r == match rank_of_char(c) {
                Some(k) => Ok(k),
                None => Err(ParseError::RankNotValid),
            },
    {
        match c {
            '2' => Ok(Rank::Two),
            '3' => Ok(Rank::Three),
            '4' => Ok(Rank::Four),
            '5' => Ok(Rank::Five),
            '6' => Ok(Rank::Six),
            '7' => Ok(Rank::Seven),
            '8' => Ok(Rank::Eight),
            '9' => Ok(Rank::Nine),
            'T' => Ok(Rank::Ten),
            'J' => Ok(Rank::Jack),
            'Q' => Ok(Rank::Queen),
            'K' => Ok(Rank::King),
            'A' => Ok(Rank::Ace),
            _ => Err(ParseError::RankNotValid),
        }
    }

    /// The rank with the given face value.
    pub fn try_from_value(v: u8) -> (r: Result<Rank, ParseError>)
        ensures
            r == match rank_of_value(v as int) {
                Some(k) => Ok(k),
                None => Err(ParseError::RankNotValid),
            },
    {
        match v {
            2 => Ok(Rank::Two),
            3 => Ok(Rank::Three),
            4 => Ok(Rank::Four),
            5 => Ok(Rank::Five),
            6 => Ok(Rank::Six),
            7 => Ok(Rank::Seven),
            8 => Ok(Rank::Eight),
            9 => Ok(Rank::Nine),
            10 => Ok(Rank::Ten),
            11 => Ok(Rank::Jack),
            12 => Ok(Rank::Queen),
            13 => Ok(Rank::King),
            14 => Ok(Rank::Ace),
            _ => Err(ParseError::RankNotValid),
        }
    }
}

impl core::convert::TryFrom<char> for Rank {
    type Error = ParseError;

    fn try_from(c: char) -> Result<Rank, ParseError> {
        Rank::try_from_char(c)
    }
}

impl core::convert::TryFrom<u8> for Rank {
    type Error = ParseError;

    fn try_from(v: u8) -> Result<Rank, ParseError> {
        Rank::try_from_value(v)
    }
}

impl vstd::std_specs::convert::TryFromSpecImpl<char> for Rank {
    open spec fn obeys_try_from_spec() -> bool {
        true
    }

    open spec fn try_from_spec(v: char) -> Result<Rank, ParseError> {
        match rank_of_char(v) {
            Some(k) => Ok(k),
            None => Err(ParseError::RankNotValid),
        }
    }
}

impl vstd::std_specs::convert::TryFromSpecImpl<u8> for Rank {
    open spec fn obeys_try_from_spec() -> bool {
        true
    }

    open spec fn try_from_spec(v: u8) -> Result<Rank, ParseError> {
        match rank_of_value(v as int) {
            Some(k) => Ok(k),
            None => Err(ParseError::RankNotValid),
        }
    }
}

impl core::convert::From<Rank> for char {
    fn from(k: Rank) -> (r: char) {
        k.to_char()
    }
}

impl vstd::std_specs::convert::FromSpecImpl<Rank> for char {
    open spec fn obeys_from_spec() -> bool {
        true
    }

    open spec fn from_spec(k: Rank) -> char {
        k.char_spec()
    }
}

/// A playing card.
#[derive(Debug, Clone, Copy, PartialEq, Eq, Structural, Hash)]
pub struct Card {
    pub suit: Suit,
    pub rank: Rank,
}

/// A card in the two-character notation rank then suit (`TH`, `2C`).
pub open spec fn card_from_text(t: Seq<char>) -> Result<Card, ParseError> {
    if t.len() < 2 {
        Err(ParseError::TooShort)
    } else if t.len() > 2 {
        Err(ParseError::TooLong)
    } else {
        match suit_of_letter(t[1]) {
            None => Err(ParseError::SuitNotValid),
            Some(suit) => match rank_of_char(t[0]) {
                None => Err(ParseError::RankNotValid),
                Some(rank) => Ok(Card { suit, rank }),
            },
        }
    }
}

impl Card {
    /// The displayed form: suit symbol then rank (`♥10`).
    pub open spec fn text_spec(self) -> Seq<char> {
        seq![self.suit.symbol_spec()] + self.rank.text_spec()
    }

    pub fn to_string(&self) -> (r: String)
        ensures
            r@ == self.text_spec(),
    {
        let mut r = self.suit.to_string();
        let k = self.rank.to_string();
        r.append(k.as_str());
        r
    }

    /// Reads a card in the notation rank then suit, such as `QD`.
    pub fn from_str(s: &str) -> (r: Result<Card, ParseError>)
        ensures
            r == card_from_text(s@),
    {
        let n = s.unicode_len();
        if n < 2 {
            return Err(ParseError::TooShort);
        }
        if n > 2 {
            return Err(ParseError::TooLong);
        }
        let rank = s.get_char(0);
        let suit = s.get_char(1);
        let suit = match Suit::try_from_letter(suit) {
            Ok(x) => x,
            Err(e) => return Err(e),
        };
        let rank = match Rank::try_from_char(rank) {
            Ok(x) => x,
            Err(e) => return Err(e),
        };
        Ok(Card { suit, rank })
    }
}

impl core::str::FromStr for Card {
    type Err = ParseError;

    fn from_str(s: &str) -> Result<Card, ParseError> {
        Card::from_str(s)
    }
}

} // verus!
