//! The auction: bids and calls with their order, their text forms, seat
//! rotation, and the sequence of calls with its closure test and resolved
//! contract.
use vstd::prelude::*;

use core::cmp::Ordering;
use vstd::std_specs::cmp::PartialOrdSpec;

use crate::card::{suit_from_lower, Suit};
use crate::error::ParseError;
use crate::text::{
    all_ascii, char_string, is_white_space, lemma_without_spaces_keeps, lower_of, lowercase, push_char, strip_spaces, text_is, without_spaces,
};

verus! {

/// The denomination of a bid: a suit, or no trumps, which ranks above every suit.
#[derive(Debug, Clone, Copy, PartialEq, Eq, Structural, Ord, Hash)]
pub enum BiddingSuit {
    Suit(Suit),
    NoTrumps,
}

/// The order of two integers as an `Ordering`.
pub open spec fn compare(a: int, b: int) -> Ordering {
    if a < b {
        Ordering::Less
    } else if a > b {
        Ordering::Greater
    } else {
        Ordering::Equal
    }
}

impl BiddingSuit {
    /// Position on the bidding ladder: clubs 0, diamonds 1, hearts 2, spades 3, no trumps 4.
    pub open spec fn order(self) -> nat {
        match self {
            BiddingSuit::Suit(s) => s.order(),
            BiddingSuit::NoTrumps => 4,
        }
    }

    pub open spec fn text_spec(self) -> Seq<char> {
        match self {
            BiddingSuit::Suit(s) => seq![s.symbol_spec()],
            BiddingSuit::NoTrumps => "NT"@,
        }
    }

    pub fn index(&self) -> (r: u8)
        ensures
            r == self.order(),
    {
        match self {
            BiddingSuit::Suit(s) => s.index(),
            BiddingSuit::NoTrumps => 4,
        }
    }

    /// The displayed form: the suit symbol, or `NT`.
    pub fn to_string(&self) -> (r: String)
        ensures
            r@ == self.text_spec(),
    {
        match self {
            BiddingSuit::Suit(s) => s.to_string(),
            BiddingSuit::NoTrumps => String::from_str("NT"),
        }
    }

    /// Reads a denomination from text that is already lowercased.
    pub fn from_lower(t: &String) -> (r: Result<BiddingSuit, ParseError>)
        ensures
            r == bidding_suit_from_lower(t@),
    {
        if text_is(t, "nt") || text_is(t, "notrumps") || text_is(t, "no trumps") {
            Ok(BiddingSuit::NoTrumps)
        } else {
            match Suit::from_lower(t) {
                Ok(s) => Ok(BiddingSuit::Suit(s)),
                Err(e) => Err(e),
            }
        }
    }

    /// Reads a denomination, ignoring case.
    pub fn from_str(s: &str) -> (r: Result<BiddingSuit, ParseError>)
        ensures
            r == bidding_suit_from_lower(lower_of(s@)),
    {
        let t = lowercase(s);
        BiddingSuit::from_lower(&t)
    }
}

/// The denomination named by an already lowercased text.
pub open spec fn bidding_suit_from_lower(t: Seq<char>) -> Result<BiddingSuit, ParseError> {
    if t == "nt"@ || t == "notrumps"@ || t == "no trumps"@ {
        Ok(BiddingSuit::NoTrumps)
    } else {
        match suit_from_lower(t) {
            Ok(s) => Ok(BiddingSuit::Suit(s)),
            Err(e) => Err(e),
        }
    }
}

impl PartialOrd for BiddingSuit {
    fn partial_cmp(&self, other: &BiddingSuit) -> (r: Option<Ordering>) {
        let a = self.index();
        let b = other.index();
        if a < b {
            Some(Ordering::Less)
        } else if a > b {
            Some(Ordering::Greater)
        } else {
            Some(Ordering::Equal)
        }
    }
}

impl vstd::std_specs::cmp::PartialOrdSpecImpl for BiddingSuit {
    open spec fn obeys_partial_cmp_spec() -> bool {
        true
    }

    open spec fn partial_cmp_spec(&self, other: &BiddingSuit) -> Option<Ordering> {
        Some(compare(self.order() as int, other.order() as int))
    }
}

impl core::str::FromStr for BiddingSuit {
    type Err = ParseError;

    fn from_str(s: &str) -> Result<BiddingSuit, ParseError> {
        BiddingSuit::from_str(s)
    }
}

/// Relies on `deranged::RangedU8::<1, 7>::new`, which accepts exactly the
/// values from 1 to 7, and on `get`, which gives the value back.
#[verifier::external_body]
fn ranged_level(level: u8) -> (r: Option<u8>)
    ensures
        r == (if 1 <= level <= 7 {
            Some(level)
        } else {
            None
        }),
{
    match deranged::RangedU8::<1, 7>::new(level) {
        Some(v) => Some(v.get()),
        None => None,
    }
}

/// A bid: a level from 1 to 7 and a denomination.
#[derive(Debug, Clone, Copy, PartialEq, Eq, Structural, Ord, Hash)]
pub struct ContractBid {
    level: u8,
    suit: BiddingSuit,
}

/// The value of a decimal digit.
pub open spec fn digit_of(c: char) -> Option<int> {
    if '0' <= c && c <= '9' {
        Some((c as u32) - ('0' as u32))
    } else {
        None
    }
}

/// The digit that writes a level.
pub open spec fn level_char(l: int) -> char {
    if l == 1 {
        '1'
    } else if l == 2 {
        '2'
    } else if l == 3 {
        '3'
    } else if l == 4 {
        '4'
    } else if l == 5 {
        '5'
    } else if l == 6 {
        '6'
    } else {
        '7'
    }
}

fn digit_value(c: char) -> (r: Option<u8>)
    ensures
        r matches Some(v) ==> digit_of(c) == Some(v as int),
        r is None ==> digit_of(c) is None,
{
    if '0' <= c && c <= '9' {
        Some(((c as u32) - ('0' as u32)) as u8)
    } else {
        None
    }
}

/// A bid read from text: the first character is the level, the rest names the
/// denomination in any case.
pub open spec fn contract_bid_from_text(t: Seq<char>) -> Result<ContractBid, ParseError> {
    if t.len() == 0 {
        Err(ParseError::TooShort)
    } else {
        match digit_of(t[0]) {
            None => Err(ParseError::BidLevelNotAnInteger),
            Some(v) => if !(1 <= v <= 7) {
                Err(ParseError::BidLevelOutOfBounds)
            } else {
                match bidding_suit_from_lower(lower_of(t.drop_first())) {
                    Ok(s) => Ok(ContractBid::make(v, s)),
                    Err(e) => Err(e),
                }
            },
        }
    }
}

impl ContractBid {
    #[verifier::type_invariant]
    spec fn level_in_range(self) -> bool {
        1 <= self.level <= 7
    }

    /// The level of the bid, from 1 to 7.
    pub closed spec fn level_spec(self) -> int {
        self.level as int
    }

    /// The denomination of the bid.
    pub closed spec fn suit_spec(self) -> BiddingSuit {
        self.suit
    }

    /// The bid with the given level (from 1 to 7) and denomination.
    pub closed spec fn make(level: int, suit: BiddingSuit) -> ContractBid {
        ContractBid { level: level as u8, suit }
    }

    /// The level and denomination determine the bid.
    pub proof fn lemma_make(self, level: int, suit: BiddingSuit)
        ensures
            1 <= level <= 7 ==> ContractBid::make(level, suit).level_spec() == level,
            ContractBid::make(level, suit).suit_spec() == suit,
            1 <= level <= 7 ==> ((self == ContractBid::make(level, suit)) <==> (
            self.level_spec() == level && self.suit_spec() == suit)),
    {
    }

    /// The place of two bids on the bidding ladder: by level, then by denomination.
    pub open spec fn ladder_cmp(self, other: ContractBid) -> Ordering {
        if self.level_spec() != other.level_spec() {
            compare(self.level_spec(), other.level_spec())
        } else {
            compare(self.suit_spec().order() as int, other.suit_spec().order() as int)
        }
    }

    /// The displayed form: level digit then denomination (`1♦`, `3NT`).
    pub open spec fn text_spec(self) -> Seq<char> {
        seq![level_char(self.level_spec())] + self.suit_spec().text_spec()
    }

    /// Makes a bid; fails when the level is not from 1 to 7.
    pub fn new(level: u8, suit: BiddingSuit) -> (r: Result<ContractBid, String>)
        ensures
            r is Ok <==> 1 <= level <= 7,
            r matches Ok(b) ==> b.level_spec() == level && b.suit_spec() == suit,
            r matches Err(m) ==> m@ == "bid level must be between 1 and 7, inclusive"@,
    {
        match ranged_level(level) {
            Some(l) => Ok(ContractBid { level: l, suit }),
            None => Err(String::from_str("bid level must be between 1 and 7, inclusive")),
        }
    }

    pub fn level(&self) -> (r: u8)
        ensures
            r == self.level_spec(),
            1 <= r <= 7,
    {
        proof {
            use_type_invariant(self);
        }
        self.level
    }

    pub fn suit(&self) -> (r: BiddingSuit)
        ensures
            r == self.suit_spec(),
    {
        self.suit
    }

    pub fn to_string(&self) -> (r: String)
        ensures
            r@ == self.text_spec(),
    {
        proof {
            use_type_invariant(self);
        }
        let c = match self.level {
            1 => '1',
            2 => '2',
            3 => '3',
            4 => '4',
            5 => '5',
            6 => '6',
            _ => '7',
        };
        let mut r = char_string(c);
        let s = self.suit.to_string();
        r.append(s.as_str());
        r
    }

    /// Reads a bid such as `4NT`, `1s` or `2 hearts`: the first character is the
    /// level, the rest the denomination.
    pub fn from_str(s: &str) -> (r: Result<ContractBid, ParseError>)
        ensures
            r == contract_bid_from_text(s@),
    {
        let n = s.unicode_len();
        if n == 0 {
            return Err(ParseError::TooShort);
        }
        let first = s.get_char(0);
        let digit = match digit_value(first) {
            Some(d) => d,
            None => return Err(ParseError::BidLevelNotAnInteger),
        };
        let level = match ranged_level(digit) {
            Some(l) => l,
            None => return Err(ParseError::BidLevelOutOfBounds),
        };
        let rest = s.substring_char(1, n);
        proof {
            assert(rest@ == s@.drop_first());
        }
        match BiddingSuit::from_str(rest) {
            Ok(suit) => Ok(ContractBid { level, suit }),
            Err(e) => Err(e),
        }
    }
}

impl PartialOrd for ContractBid {
    fn partial_cmp(&self, other: &ContractBid) -> (r: Option<Ordering>) {
        if self.level < other.level {
            Some(Ordering::Less)
        } else if self.level > other.level {
            Some(Ordering::Greater)
        } else {
            self.suit.partial_cmp(&other.suit)
        }
    }
}

impl vstd::std_specs::cmp::PartialOrdSpecImpl for ContractBid {
    open spec fn obeys_partial_cmp_spec() -> bool {
        true
    }

    open spec fn partial_cmp_spec(&self, other: &ContractBid) -> Option<Ordering> {
        Some(self.ladder_cmp(*other))
    }
}

impl core::str::FromStr for ContractBid {
    type Err = ParseError;

    fn from_str(s: &str) -> Result<ContractBid, ParseError> {
        ContractBid::from_str(s)
    }
}

/// One call of the auction: a bid, a pass, a double or a redouble.
#[derive(Debug, Clone, Copy, PartialEq, Eq, Structural, Hash)]
pub enum AuctionBid {
    Bid(ContractBid),
    Pass,
    Double,
    Redouble,
}

/// A call read from text that is already lowercased and free of white space.
pub open spec fn auction_bid_from_compact(m: Seq<char>) -> Result<AuctionBid, ParseError> {
    if m == "pass"@ || m == "p"@ || m == "nobid"@ {
        Ok(AuctionBid::Pass)
    } else if m == "double"@ || m == "x"@ || m == "dbl"@ {
        Ok(AuctionBid::Double)
    } else if m == "redouble"@ || m == "xx"@ || m == "redbl"@ {
        Ok(AuctionBid::Redouble)
    } else {
        match contract_bid_from_text(m) {
            Ok(b) => Ok(AuctionBid::Bid(b)),
            Err(e) => Err(e),
        }
    }
}

/// A call read from text, ignoring case and white space.
pub open spec fn auction_bid_from_text(t: Seq<char>) -> Result<AuctionBid, ParseError> {
    auction_bid_from_compact(without_spaces(lower_of(t)))
}

impl AuctionBid {
    /// The displayed form: the bid, or `Pass`, `Dbl`, `Redbl`.
    pub open spec fn text_spec(self) -> Seq<char> {
        match self {
            AuctionBid::Bid(b) => b.text_spec(),
            AuctionBid::Pass => "Pass"@,
            AuctionBid::Double => "Dbl"@,
            AuctionBid::Redouble => "Redbl"@,
        }
    }

    /// A bid call with the given level and denomination; fails when the level is
    /// not from 1 to 7.
    pub fn suit_bid(level: u8, suit: BiddingSuit) -> (r: Result<AuctionBid, String>)
        ensures
            r is Ok <==> 1 <= level <= 7,
            r matches Ok(c) ==> c matches AuctionBid::Bid(b) && b.level_spec() == level
                && b.suit_spec() == suit,
            r matches Err(m) ==> m@ == "bid level must be between 1 and 7, inclusive"@,
    {
        match ContractBid::new(level, suit) {
            Ok(b) => Ok(AuctionBid::Bid(b)),
            Err(m) => Err(m),
        }
    }

    pub fn to_string(&self) -> (r: String)
        ensures
            r@ == self.text_spec(),
    {
        match self {
            AuctionBid::Bid(b) => b.to_string(),
            AuctionBid::Pass => String::from_str("Pass"),
            AuctionBid::Double => String::from_str("Dbl"),
            AuctionBid::Redouble => String::from_str("Redbl"),
        }
    }

    /// Reads a call from text that is already lowercased and free of white space.
    pub fn from_compact(m: &String) -> (r: Result<AuctionBid, ParseError>)
        ensures
            r == auction_bid_from_compact(m@),
    {
        if text_is(m, "pass") || text_is(m, "p") || text_is(m, "nobid") {
            Ok(AuctionBid::Pass)
        } else if text_is(m, "double") || text_is(m, "x") || text_is(m, "dbl") {
            Ok(AuctionBid::Double)
        } else if text_is(m, "redouble") || text_is(m, "xx") || text_is(m, "redbl") {
            Ok(AuctionBid::Redouble)
        } else {
            match ContractBid::from_str(m.as_str()) {
                Ok(b) => Ok(AuctionBid::Bid(b)),
                Err(e) => Err(e),
            }
        }
    }

    /// Reads a call such as `pass`, `no bid`, `X`, `redouble` or `7 no trumps`,
    /// ignoring case and white space.
    pub fn from_str(s: &str) -> (r: Result<AuctionBid, ParseError>)
        ensures
            r == auction_bid_from_text(s@),
    {
        let lower = lowercase(s);
        let m = strip_spaces(lower.as_str());
        AuctionBid::from_compact(&m)
    }
}

impl PartialOrd for AuctionBid {
    fn partial_cmp(&self, other: &AuctionBid) -> (r: Option<Ordering>) {
        match (self, other) {
            (AuctionBid::Bid(a), AuctionBid::Bid(b)) => a.partial_cmp(b),
            _ => None,
        }
    }
}

impl vstd::std_specs::cmp::PartialOrdSpecImpl for AuctionBid {
    open spec fn obeys_partial_cmp_spec() -> bool {
        true
    }

    open spec fn partial_cmp_spec(&self, other: &AuctionBid) -> Option<Ordering> {
        match (*self, *other) {
            (AuctionBid::Bid(a), AuctionBid::Bid(b)) => Some(a.ladder_cmp(b)),
            _ => None,
        }
    }
}

impl core::str::FromStr for AuctionBid {
    type Err = ParseError;

    fn from_str(s: &str) -> Result<AuctionBid, ParseError> {
        AuctionBid::from_str(s)
    }
}

/// The four seats, in clockwise order.
#[derive(Debug, Clone, Copy, PartialEq, Eq, Structural, Hash)]
pub enum Seat {
    North,
    East,
    South,
    West,
}

/// The seat at position `i` modulo 4, counting clockwise from North.
pub open spec fn seat_at(i: int) -> Seat {
    let k = i % 4;
    if k == 0 {
        Seat::North
    } else if k == 1 {
        Seat::East
    } else if k == 2 {
        Seat::South
    } else {
        Seat::West
    }
}

impl Seat {
    /// Position clockwise from North: North 0, East 1, South 2, West 3.
    pub open spec fn pos(self) -> nat {
        match self {
            Seat::North => 0,
            Seat::East => 1,
            Seat::South => 2,
            Seat::West => 3,
        }
    }

    pub fn index(&self) -> (r: usize)
        ensures
            r == self.pos(),
    {
        match self {
            Seat::North => 0,
            Seat::East => 1,
            Seat::South => 2,
            Seat::West => 3,
        }
    }

    /// The seat at a position from 0 to 3, or `None` past West.
    pub fn from_repr(i: usize) -> (r: Option<Seat>)
        ensures
            r == (if i < 4 {
                Some(seat_at(i as int))
            } else {
                None
            }),
    {
        match i {
            0 => Some(Seat::North),
            1 => Some(Seat::East),
            2 => Some(Seat::South),
            3 => Some(Seat::West),
            _ => None,
        }
    }

    /// The seat `n` places clockwise.
    pub fn plus(self, n: usize) -> (r: Seat)
        ensures
            r == seat_at(self.pos() + n),
    {
        let i = (self.index() + n % 4) % 4;
        proof {
            assert((self.pos() + n % 4) % 4 == (self.pos() + n) % 4) by (nonlinear_arith);
        }
        seat_at_index(i)
    }

    /// The seat `n` places counter-clockwise.
    pub fn minus(self, n: usize) -> (r: Seat)
        ensures
            r == seat_at(self.pos() - n),
    {
        let i = (self.index() + 4 - n % 4) % 4;
        proof {
            assert((self.pos() + 4 - n % 4) % 4 == (self.pos() - n) % 4) by (nonlinear_arith);
        }
        seat_at_index(i)
    }

    /// How many places clockwise `self` sits from `other`, from 0 to 3.
    pub fn steps_from(self, other: Seat) -> (r: usize)
        ensures
            r == (self.pos() - other.pos()) % 4,
            r < 4,
    {
        (self.index() + 4 - other.index()) % 4
    }
}

fn seat_at_index(i: usize) -> (r: Seat)
    requires
        i < 4,
    ensures
        r == seat_at(i as int),
{
    match i {
        0 => Seat::North,
        1 => Seat::East,
        2 => Seat::South,
        _ => Seat::West,
    }
}

impl core::ops::Add<usize> for Seat {
    type Output = Seat;

    fn add(self, n: usize) -> (r: Seat) {
        self.plus(n)
    }
}

impl vstd::std_specs::ops::AddSpecImpl<usize> for Seat {
    open spec fn obeys_add_spec() -> bool {
        true
    }

    open spec fn add_req(self, n: usize) -> bool {
        true
    }

    open spec fn add_spec(self, n: usize) -> Seat {
        seat_at(self.pos() + n)
    }
}

impl core::ops::Sub<usize> for Seat {
    type Output = Seat;

    fn sub(self, n: usize) -> (r: Seat) {
        self.minus(n)
    }
}

impl vstd::std_specs::ops::SubSpecImpl<usize> for Seat {
    open spec fn obeys_sub_spec() -> bool {
        true
    }

    open spec fn sub_req(self, n: usize) -> bool {
        true
    }

    open spec fn sub_spec(self, n: usize) -> Seat {
        seat_at(self.pos() - n)
    }
}

impl core::ops::Sub<Seat> for Seat {
    type Output = usize;

    fn sub(self, other: Seat) -> (r: usize) {
        self.steps_from(other)
    }
}

impl vstd::std_specs::ops::SubSpecImpl<Seat> for Seat {
    open spec fn obeys_sub_spec() -> bool {
        true
    }

    open spec fn sub_req(self, other: Seat) -> bool {
        true
    }

    open spec fn sub_spec(self, other: Seat) -> usize {
        ((self.pos() - other.pos()) % 4) as usize
    }
}

/// How far a contract has been doubled, from least to most.
#[derive(Debug, Clone, Copy, PartialEq, Eq, Structural, PartialOrd, Ord, Hash)]
pub enum Status {
    Undoubled,
    Doubled,
    Redoubled,
}

impl Status {
    /// Undoubled 0, doubled 1, redoubled 2.
    pub open spec fn degree(self) -> nat {
        match self {
            Status::Undoubled => 0,
            Status::Doubled => 1,
            Status::Redoubled => 2,
        }
    }

    /// The higher of two statuses.
    pub open spec fn max_spec(self, other: Status) -> Status {
        if self.degree() >= other.degree() {
            self
        } else {
            other
        }
    }

    /// The higher of two statuses.
    pub fn raise(self, other: Status) -> (r: Status)
        ensures
            r == self.max_spec(other),
    {
        match (self, other) {
            (Status::Redoubled, _) | (_, Status::Redoubled) => Status::Redoubled,
            (Status::Doubled, _) | (_, Status::Doubled) => Status::Doubled,
            _ => Status::Undoubled,
        }
    }
}

/// A final contract: the last bid of the auction and how far it was doubled.
#[derive(Debug, Clone, Copy, PartialEq, Eq, Structural, Hash)]
pub struct Contract {
    pub bid: ContractBid,
    pub status: Status,
}

/// The contract on a parsed bid with the given status, or the parse error.
pub open spec fn with_status(r: Result<ContractBid, ParseError>, status: Status) -> Result<
    Contract,
    ParseError,
> {
    match r {
        Ok(bid) => Ok(Contract { bid, status }),
        Err(e) => Err(e),
    }
}

/// A contract read from text that is already lowercased and free of white
/// space: a bid followed by up to two `x`, one for doubled, two for redoubled.
pub open spec fn contract_from_compact(m: Seq<char>) -> Result<Contract, ParseError> {
    if m.len() == 0 {
        Err(ParseError::TooShort)
    } else if m.last() != 'x' {
        with_status(contract_bid_from_text(m), Status::Undoubled)
    } else if m.len() == 1 {
        Err(ParseError::TooShort)
    } else if m[m.len() - 2] != 'x' {
        with_status(contract_bid_from_text(m.drop_last()), Status::Doubled)
    } else {
        with_status(contract_bid_from_text(m.drop_last().drop_last()), Status::Redoubled)
    }
}

/// A contract read from text, ignoring case and white space.
pub open spec fn contract_from_text(t: Seq<char>) -> Result<Contract, ParseError> {
    contract_from_compact(without_spaces(lower_of(t)))
}

impl Contract {
    /// Reads a contract from text that is already lowercased and free of white space.
    pub fn from_compact(m: &String) -> (r: Result<Contract, ParseError>)
        ensures
            r == contract_from_compact(m@),
    {
        let t = m.as_str();
        let n = t.unicode_len();
        if n == 0 {
            return Err(ParseError::TooShort);
        }
        let (bid_text, status) = if t.get_char(n - 1) != 'x' {
            (t, Status::Undoubled)
        } else if n == 1 {
            return Err(ParseError::TooShort);
        } else if t.get_char(n - 2) != 'x' {
            (t.substring_char(0, n - 1), Status::Doubled)
        } else {
            (t.substring_char(0, n - 2), Status::Redoubled)
        };
        proof {
            if n >= 2 {
                assert(m@.drop_last() == m@.subrange(0, n - 1));
                assert(m@.drop_last().drop_last() == m@.subrange(0, n - 2));
            }
        }
        match ContractBid::from_str(bid_text) {
            Ok(bid) => Ok(Contract { bid, status }),
            Err(e) => Err(e),
        }
    }

    /// Reads a contract such as `3Hxx` or `4 diamond x x`, ignoring case and
    /// white space.
    pub fn from_str(s: &str) -> (r: Result<Contract, ParseError>)
        ensures
            r == contract_from_text(s@),
    {
        let lower = lowercase(s);
        let m = strip_spaces(lower.as_str());
        Contract::from_compact(&m)
    }
}

impl core::convert::From<ContractBid> for Contract {
    fn from(bid: ContractBid) -> (r: Contract) {
        Contract { bid, status: Status::Undoubled }
    }
}

impl vstd::std_specs::convert::FromSpecImpl<ContractBid> for Contract {
    open spec fn obeys_from_spec() -> bool {
        true
    }

    open spec fn from_spec(bid: ContractBid) -> Contract {
        Contract { bid, status: Status::Undoubled }
    }
}

impl core::str::FromStr for Contract {
    type Err = ParseError;

    fn from_str(s: &str) -> Result<Contract, ParseError> {
        Contract::from_str(s)
    }
}

/// The calls that one seat made, in order: every fourth call, starting at
/// offset `k` of the sequence.
pub open spec fn calls_from(s: Seq<AuctionBid>, k: nat) -> Seq<AuctionBid> {
    let n = if k < s.len() {
        (s.len() - k + 3) / 4
    } else {
        0
    };
    Seq::new(n as nat, |j: int| s[k + 4 * j])
}

/// The last bid of a sequence of calls, if any.
pub open spec fn last_bid(s: Seq<AuctionBid>) -> Option<ContractBid>
    decreases s.len(),
{
    if s.len() == 0 {
        None
    } else {
        match s.last() {
            AuctionBid::Bid(b) => Some(b),
            _ => last_bid(s.drop_last()),
        }
    }
}

/// The highest double or redouble made after the last bid.
pub open spec fn escalation(s: Seq<AuctionBid>) -> Status
    decreases s.len(),
{
    if s.len() == 0 {
        Status::Undoubled
    } else {
        match s.last() {
            AuctionBid::Bid(_) => Status::Undoubled,
            AuctionBid::Pass => escalation(s.drop_last()),
            AuctionBid::Double => Status::Doubled.max_spec(escalation(s.drop_last())),
            AuctionBid::Redouble => Status::Redoubled.max_spec(escalation(s.drop_last())),
        }
    }
}

/// The contract that a sequence of calls ends in: its last bid, with the
/// highest double or redouble made after it; none when no bid was made.
pub open spec fn contract_of(s: Seq<AuctionBid>) -> Option<Contract> {
    match last_bid(s) {
        Some(bid) => Some(Contract { bid, status: escalation(s) }),
        None => None,
    }
}

/// Whether a sequence of calls has ended: at least four calls, the last three passes.
pub open spec fn is_closed(s: Seq<AuctionBid>) -> bool {
    &&& s.len() >= 4
    &&& s[s.len() - 1] == AuctionBid::Pass
    &&& s[s.len() - 2] == AuctionBid::Pass
    &&& s[s.len() - 3] == AuctionBid::Pass
}

/// The auction: the dealer and the calls made so far, the dealer's first.
/// Call `i` of the sequence was made by the seat `i` places clockwise from the
/// dealer. Appending to the sequence is not checked against the rules of
/// bidding.
#[derive(Debug, Clone, PartialEq, Eq)]
pub struct Auction {
    dealer: Seat,
    pub sequence: Vec<AuctionBid>,
}

impl Auction {
    /// The seat that made the first call.
    pub closed spec fn dealer_spec(self) -> Seat {
        self.dealer
    }

    /// The calls made so far, the dealer's first.
    pub closed spec fn calls(self) -> Seq<AuctionBid> {
        self.sequence@
    }

    pub fn new(dealer: Seat) -> (r: Auction)
        ensures
            r.dealer_spec() == dealer,
            r.calls() == Seq::<AuctionBid>::empty(),
    {
        Auction { dealer, sequence: Vec::new() }
    }

    pub fn dealer(&self) -> (r: Seat)
        ensures
            r == self.dealer_spec(),
    {
        self.dealer
    }

    /// Adds a call at the end of the sequence. Whether the call is legal at this
    /// point of the auction is not checked.
    pub fn append(&mut self, bid: AuctionBid)
        ensures
            final(self).dealer_spec() == old(self).dealer_spec(),
            final(self).calls() == old(self).calls().push(bid),
    {
        self.sequence.push(bid);
    }

    /// The seat whose turn it is to call.
    pub fn turn(&self) -> (r: Seat)
        ensures
            r == seat_at(self.dealer_spec().pos() + self.calls().len() as int),
    {
        self.dealer.plus(self.sequence.len())
    }

    /// The calls that `seat` has made, in order.
    pub fn bids_for(&self, seat: Seat) -> (r: Vec<&AuctionBid>)
        ensures
            r@.len() == calls_from(
                self.calls(),
                ((seat.pos() - self.dealer_spec().pos()) % 4) as nat,
            ).len(),
            forall|j: int|
                0 <= j < r@.len() ==> *r@[j] == calls_from(
                    self.calls(),
                    ((seat.pos() - self.dealer_spec().pos()) % 4) as nat,
                )[j],
    {
        let k = seat.steps_from(self.dealer);
        let n = self.sequence.len();
        let ghost s = self.calls();
        let ghost want = calls_from(s, k as nat);
        let count: usize = if k < n {
            let d = n - k;
            d / 4 + if d % 4 == 0 {
                0
            } else {
                1
            }
        } else {
            0
        };
        let mut r: Vec<&AuctionBid> = Vec::new();
        let mut j: usize = 0;
        while j < count
            invariant
                n == s.len(),
                s == self.calls(),
                k < 4,
                want == calls_from(s, k as nat),
                count == want.len(),
                j <= count,
                r@.len() == j,
                forall|t: int| 0 <= t < j ==> *r@[t] == s[k + 4 * t],
            decreases count - j,
        {
            let i = k + 4 * j;
            r.push(&self.sequence[i]);
            j = j + 1;
        }
        r
    }

    /// Whether the auction has ended: at least four calls, the last three passes.
    pub fn closed(&self) -> (r: bool)
        ensures
            r == is_closed(self.calls()),
    {
        let n = self.sequence.len();
        n >= 4 && self.sequence[n - 1] == AuctionBid::Pass && self.sequence[n - 2]
            == AuctionBid::Pass && self.sequence[n - 3] == AuctionBid::Pass
    }

    /// The contract the calls so far end in: the last bid, doubled or redoubled
    /// by the calls after it; `None` when nobody has bid.
    pub fn contract(&self) -> (r: Option<Contract>)
        ensures
            r == contract_of(self.calls()),
    {
        let ghost s = self.calls();
        let mut status = Status::Undoubled;
        let mut i: usize = self.sequence.len();
        proof {
            assert(s.subrange(0, i as int) == s);
        }
        while i > 0
            invariant
                s == self.calls(),
                i <= s.len(),
                resolve(s.subrange(0, i as int), status) == contract_of(s),
            decreases i,
        {
            let ghost p = s.subrange(0, i as int);
            proof {
                assert(p.drop_last() == s.subrange(0, i - 1));
                lemma_resolve_step(p, status);
            }
            match self.sequence[i - 1] {
                AuctionBid::Pass => {},
                AuctionBid::Double => {
                    status = status.raise(Status::Doubled);
                },
                AuctionBid::Redouble => {
                    status = status.raise(Status::Redoubled);
                },
                AuctionBid::Bid(bid) => {
                    return Some(Contract { bid, status });
                },
            }
            i = i - 1;
        }
        None
    }
}

/// The contract of the calls `p`, when the calls that follow them raise the
/// status to `status`.
pub open spec fn resolve(p: Seq<AuctionBid>, status: Status) -> Option<Contract> {
    match last_bid(p) {
        Some(bid) => Some(Contract { bid, status: status.max_spec(escalation(p)) }),
        None => None,
    }
}

proof fn lemma_resolve_step(p: Seq<AuctionBid>, status: Status)
    requires
        p.len() > 0,
    ensures
        p.last() == AuctionBid::Pass ==> resolve(p, status) == resolve(p.drop_last(), status),
        p.last() == AuctionBid::Double ==> resolve(p, status) == resolve(
            p.drop_last(),
            status.max_spec(Status::Doubled),
        ),
        p.last() == AuctionBid::Redouble ==> resolve(p, status) == resolve(
            p.drop_last(),
            status.max_spec(Status::Redoubled),
        ),
        p.last() matches AuctionBid::Bid(b) ==> resolve(p, status) == Some(
            Contract { bid: b, status },
        ),
{
}

impl Default for Auction {
    fn default() -> (r: Auction)
        ensures
            r.dealer_spec() == Seat::North,
            r.calls() == Seq::<AuctionBid>::empty(),
    {
        Auction::new(Seat::North)
    }
}

/// A table cell: the text padded on the right with spaces to five characters.
pub open spec fn padded(t: Seq<char>) -> Seq<char> {
    if t.len() < 5 {
        t + Seq::new((5 - t.len()) as nat, |i: int| ' ')
    } else {
        t
    }
}

/// The text of cell `q` of the table, empty past the last call.
pub open spec fn cell(cs: Seq<Seq<char>>, q: int) -> Seq<char> {
    if 0 <= q < cs.len() {
        cs[q]
    } else {
        Seq::empty()
    }
}

/// The row of the table that starts at cell `q`, with the divider below it.
pub open spec fn table_row(cs: Seq<Seq<char>>, q: int) -> Seq<char> {
    "\n| "@ + padded(cell(cs, q)) + " | "@ + padded(cell(cs, q + 1)) + " | "@ + padded(
        cell(cs, q + 2),
    ) + " | "@ + padded(cell(cs, q + 3)) + " |\n"@ + "+-------+-------+-------+-------+"@
}

/// The rows of the table from cell `q` on, four cells to a row.
pub open spec fn table_rows(cs: Seq<Seq<char>>, q: nat) -> Seq<char>
    decreases cs.len() + 4 - q,
{
    if q >= cs.len() {
        Seq::empty()
    } else {
        table_row(cs, q as int) + table_rows(cs, q + 4)
    }
}

/// The cells of the table: one blank cell for each seat from North up to the
/// dealer, then the text of each call.
pub open spec fn table_cells(dealer: Seat, s: Seq<AuctionBid>) -> Seq<Seq<char>> {
    Seq::new(dealer.pos(), |i: int| Seq::<char>::empty()) + s.map_values(
        |b: AuctionBid| b.text_spec(),
    )
}

/// The auction as a table with one column per seat, North first.
pub open spec fn auction_table(dealer: Seat, s: Seq<AuctionBid>) -> Seq<char> {
    "+-- N --+-- E --+-- S --+-- W --+"@ + table_rows(table_cells(dealer, s), 0)
}

/// Appends cell `q + off` of the table, padded.
fn push_cell(
    buf: &mut String,
    cells: &Vec<String>,
    q: usize,
    off: usize,
    Ghost(cs): Ghost<Seq<Seq<char>>>,
)
    requires
        q < cells@.len(),
        cells@.len() == cs.len(),
        forall|t: int| 0 <= t < cells@.len() ==> #[trigger] cells@[t]@ == cs[t],
    ensures
        final(buf)@ == old(buf)@ + padded(cell(cs, q + off)),
{
    let ghost start = buf@;
    let mut w: usize = 0;
    if off < cells.len() - q {
        let t = cells[q + off].as_str();
        buf.append(t);
        w = t.unicode_len();
    }
    let ghost text = cell(cs, q + off);
    let ghost base = buf@;
    proof {
        assert(base == start + text);
    }
    let ghost w0 = w;
    while w < 5
        invariant
            w0 == text.len(),
            w0 <= w,
            w0 < 5 ==> w <= 5,
            w0 >= 5 ==> w == w0,
            buf@ == base + Seq::new((w - w0) as nat, |i: int| ' '),
        decreases 5 - w,
    {
        push_char(buf, ' ');
        w = w + 1;
        proof {
            assert(buf@ == base + Seq::new((w - w0) as nat, |i: int| ' '));
        }
    }
    proof {
        if w0 >= 5 {
            assert(Seq::new(0nat, |i: int| ' ') =~= Seq::<char>::empty());
            assert(buf@ =~= base);
        }
    }
}

/// The row of the table that starts at cell `q`, with the divider below it.
fn table_row_text(cells: &Vec<String>, q: usize, Ghost(cs): Ghost<Seq<Seq<char>>>) -> (r: String)
    requires
        q < cells@.len(),
        cells@.len() == cs.len(),
        forall|t: int| 0 <= t < cells@.len() ==> #[trigger] cells@[t]@ == cs[t],
    ensures
        r@ == table_row(cs, q as int),
{
    let mut row = String::from_str("\n| ");
    push_cell(&mut row, cells, q, 0, Ghost(cs));
    row.append(" | ");
    push_cell(&mut row, cells, q, 1, Ghost(cs));
    row.append(" | ");
    push_cell(&mut row, cells, q, 2, Ghost(cs));
    row.append(" | ");
    push_cell(&mut row, cells, q, 3, Ghost(cs));
    row.append(" |\n");
    row.append("+-------+-------+-------+-------+");
    row
}

impl Auction {
    /// The auction as a table: a header naming the seats, then rows of four
    /// calls, the dealer's call under the dealer's seat and blank cells before it.
    pub fn to_string(&self) -> (r: String)
        ensures
            r@ == auction_table(self.dealer_spec(), self.calls()),
    {
        let ghost cs = table_cells(self.dealer, self.calls());
        let d = self.dealer.index();
        let n = self.sequence.len();
        let mut cells: Vec<String> = Vec::new();
        let mut i: usize = 0;
        while i < d
            invariant
                d == self.dealer_spec().pos(),
                cs == table_cells(self.dealer_spec(), self.calls()),
                i <= d,
                cells@.len() == i,
                forall|t: int| 0 <= t < cells@.len() ==> #[trigger] cells@[t]@ == cs[t],
            decreases d - i,
        {
            cells.push(String::new());
            i = i + 1;
        }
        let mut j: usize = 0;
        while j < n
            invariant
                d == self.dealer_spec().pos(),
                n == self.calls().len(),
                cs == table_cells(self.dealer_spec(), self.calls()),
                j <= n,
                cells@.len() == d + j,
                forall|t: int| 0 <= t < cells@.len() ==> #[trigger] cells@[t]@ == cs[t],
            decreases n - j,
        {
            let c = self.sequence[j].to_string();
            cells.push(c);
            j = j + 1;
        }
        let total = cells.len();
        let mut buf = String::from_str("+-- N --+-- E --+-- S --+-- W --+");
        let mut q: usize = 0;
        while q < total
            invariant
                total == cells@.len(),
                total == cs.len(),
                cs == table_cells(self.dealer_spec(), self.calls()),
                forall|t: int| 0 <= t < cells@.len() ==> #[trigger] cells@[t]@ == cs[t],
                q <= total,
                buf@ + table_rows(cs, q as nat) == auction_table(
                    self.dealer_spec(),
                    self.calls(),
                ),
            decreases total - q,
        {
            let ghost before = buf@;
            let row = table_row_text(&cells, q, Ghost(cs));
            buf.append(row.as_str());
            let ghost old_q = q;
            if total - q <= 4 {
                q = total;
            } else {
                q = q + 4;
            }
            proof {
                assert(table_rows(cs, old_q as nat) == table_row(cs, old_q as int) + table_rows(
                    cs,
                    (old_q + 4) as nat,
                ));
                assert(table_rows(cs, (old_q + 4) as nat) == table_rows(cs, q as nat));
                assert(buf@ + table_rows(cs, q as nat) =~= before + table_rows(cs, old_q as nat));
            }
        }
        buf
    }
}

/// Bids are ordered as on the bidding ladder: a higher level is always the
/// higher bid; at equal levels clubs < diamonds < hearts < spades < no trumps.
/// Every two bids are comparable, and compare equal only when they are the same bid.
pub proof fn lemma_bid_ladder(a: ContractBid, b: ContractBid)
    ensures
        a.partial_cmp_spec(&b) == Some(a.ladder_cmp(b)),
        a.level_spec() < b.level_spec() ==> a.ladder_cmp(b) == Ordering::Less,
        a.level_spec() > b.level_spec() ==> a.ladder_cmp(b) == Ordering::Greater,
        a.level_spec() == b.level_spec() ==> a.ladder_cmp(b) == compare(
            a.suit_spec().order() as int,
            b.suit_spec().order() as int,
        ),
        (a.ladder_cmp(b) == Ordering::Equal) <==> a == b,
        b.ladder_cmp(a) == Ordering::Less <==> a.ladder_cmp(b) == Ordering::Greater,
{
    if a.ladder_cmp(b) == Ordering::Equal {
        assert(a.level == b.level);
        assert(a.suit.order() == b.suit.order());
        match (a.suit, b.suit) {
            (BiddingSuit::Suit(x), BiddingSuit::Suit(y)) => {
                assert(x == y);
            },
            _ => {},
        }
    }
}

/// Only two bids are ordered: a comparison that involves a pass, a double or a
/// redouble finds no order, so `<`, `<=`, `>` and `>=` are all false there, while
/// `==` still tells calls apart.
pub proof fn lemma_calls_partially_ordered(x: AuctionBid, y: AuctionBid)
    ensures
        !(x is Bid && y is Bid) ==> x.partial_cmp_spec(&y) is None,
        x is Bid && y is Bid ==> x.partial_cmp_spec(&y) is Some,
        (x is Bid) != (y is Bid) ==> x != y,
{
}

/// Adding `n` seats and then taking `n` away comes back to the same seat.
pub proof fn lemma_seat_add_sub(s: Seat, n: usize)
    ensures
        seat_at(seat_at(s.pos() + n).pos() - n) == s,
        seat_at(s.pos() + n) == seat_at(s.pos() + n % 4),
{
    let k = (s.pos() + n) % 4;
    assert(seat_at(s.pos() + n).pos() == k);
    assert((k - n) % 4 == s.pos() as int) by (nonlinear_arith)
        requires
            k == (s.pos() + n) % 4,
            0 <= s.pos() < 4,
    ;
    assert((s.pos() + n) % 4 == (s.pos() + n % 4) % 4) by (nonlinear_arith);
}

/// The clockwise distances from `a` to `b` and from `b` to `a` add up to 4, and
/// are both 0 when the seats are the same.
pub proof fn lemma_seat_distance(a: Seat, b: Seat)
    ensures
        a != b ==> (a.pos() - b.pos()) % 4 + (b.pos() - a.pos()) % 4 == 4,
        a == b ==> (a.pos() - b.pos()) % 4 == 0 && (b.pos() - a.pos()) % 4 == 0,
        0 <= (a.pos() - b.pos()) % 4 < 4,
{
}

/// The text of a no-trump bid reads back as that bid.
proof fn lemma_no_trump_text(x: ContractBid)
    requires
        1 <= x.level_spec() <= 7,
        x.suit_spec() == BiddingSuit::NoTrumps,
    ensures
        auction_bid_from_text(AuctionBid::Bid(x).text_spec()) == Ok::<AuctionBid, ParseError>(AuctionBid::Bid(x)),
{
    let v = x.level_spec();
    let c = level_char(v);
    reveal_strlit("NT");
    reveal_strlit("nt");
    let t = AuctionBid::Bid(x).text_spec();
    assert(t =~= seq![c, 'N', 'T']);
    assert(all_ascii(t));
    let m = seq![c, 'n', 't'];
    assert(lower_of(t) =~= m);
    lemma_without_spaces_keeps(m);
    reveal_strlit("pass");
    reveal_strlit("p");
    reveal_strlit("nobid");
    reveal_strlit("double");
    reveal_strlit("x");
    reveal_strlit("dbl");
    reveal_strlit("redouble");
    reveal_strlit("xx");
    reveal_strlit("redbl");
    assert(m != "dbl"@ && m != "pass"@ && m != "p"@ && m != "nobid"@ && m != "double"@ && m
        != "x"@ && m != "redouble"@ && m != "xx"@ && m != "redbl"@) by {
        assert(m.len() == 3);
        assert("dbl"@[0] == 'd');
    }
    assert(digit_of(c) == Some(v));
    let rest = m.drop_first();
    assert(rest =~= "nt"@);
    assert(all_ascii(rest));
    assert(lower_of(rest) =~= "nt"@);
    x.lemma_make(v, BiddingSuit::NoTrumps);
}

/// The words of a pass, a double and a redouble read back as the same call.
proof fn lemma_word_call_text(b: AuctionBid)
    requires
        !(b is Bid),
    ensures
        auction_bid_from_text(b.text_spec()) == Ok::<AuctionBid, ParseError>(b),
{
    reveal_strlit("Pass");
    reveal_strlit("Dbl");
    reveal_strlit("Redbl");
    reveal_strlit("pass");
    reveal_strlit("dbl");
    reveal_strlit("redbl");
    reveal_strlit("p");
    reveal_strlit("nobid");
    reveal_strlit("double");
    reveal_strlit("x");
    let t = b.text_spec();
    assert(all_ascii(t));
    let m = lower_of(t);
    match b {
        AuctionBid::Pass => {
            assert(m =~= "pass"@);
        },
        AuctionBid::Double => {
            assert(m =~= "dbl"@);
        },
        _ => {
            assert(m =~= "redbl"@);
            assert(m != "pass"@ && m != "p"@ && m != "nobid"@);
            assert(m != "double"@ && m != "x"@ && m != "dbl"@);
        },
    }
    assert forall|i: int| 0 <= i < m.len() implies !is_white_space(
        #[trigger] m[i],
    ) by {}
    lemma_without_spaces_keeps(m);
}

/// Reading a call, displaying it and reading the display again gives the same
/// call, for every call but a bid in a suit (whose display shows the suit
/// symbol, which is not part of what is read).
pub proof fn lemma_call_round_trip(t: Seq<char>, b: AuctionBid)
    requires
        auction_bid_from_text(t) == Ok::<AuctionBid, ParseError>(b),
        !(b matches AuctionBid::Bid(x) && x.suit_spec() is Suit),
    ensures
        auction_bid_from_text(b.text_spec()) == Ok::<AuctionBid, ParseError>(b),
{
    if let AuctionBid::Bid(x) = b {
        let m = without_spaces(lower_of(t));
        if !(m == "pass"@ || m == "p"@ || m == "nobid"@ || m == "double"@ || m == "x"@ || m
            == "dbl"@ || m == "redouble"@ || m == "xx"@ || m == "redbl"@) {
            let v = digit_of(m[0]).unwrap();
            let s = bidding_suit_from_lower(lower_of(m.drop_first())).unwrap();
            x.lemma_make(v, s);
        }
        lemma_no_trump_text(x);
    } else {
        lemma_word_call_text(b);
    }
}

/// A bid under its older interface: the same level, denomination and ladder
/// order as a `ContractBid`, with its own error text.
#[derive(Debug, Clone, Copy, PartialEq, Eq, Structural, Ord, Hash)]
pub struct Bid {
    bid: ContractBid,
}

impl Bid {
    /// The bid this value stands for.
    pub closed spec fn contract_bid_spec(self) -> ContractBid {
        self.bid
    }

    /// Makes a bid; fails when the level is not from 1 to 7.
    pub fn new(level: u8, suit: BiddingSuit) -> (r: Result<Bid, String>)
        ensures
            r is Ok <==> 1 <= level <= 7,
            r matches Ok(b) ==> b.contract_bid_spec().level_spec() == level
                && b.contract_bid_spec().suit_spec() == suit,
            r matches Err(m) ==> m@ == "Bid level must be between 1 and 7, inclusive"@,
    {
        match ContractBid::new(level, suit) {
            Ok(bid) => Ok(Bid { bid }),
            Err(_) => Err(String::from_str("Bid level must be between 1 and 7, inclusive")),
        }
    }

    pub fn contract_bid(&self) -> (r: ContractBid)
        ensures
            r == self.contract_bid_spec(),
    {
        self.bid
    }
}

impl PartialOrd for Bid {
    fn partial_cmp(&self, other: &Bid) -> (r: Option<Ordering>) {
        self.bid.partial_cmp(&other.bid)
    }
}

impl vstd::std_specs::cmp::PartialOrdSpecImpl for Bid {
    open spec fn obeys_partial_cmp_spec() -> bool {
        true
    }

    open spec fn partial_cmp_spec(&self, other: &Bid) -> Option<Ordering> {
        Some(self.contract_bid_spec().ladder_cmp(other.contract_bid_spec()))
    }
}

/// Reading a no-trump bid, displaying it and reading the display again gives
/// the same bid.
pub proof fn lemma_no_trump_bid_round_trip(t: Seq<char>, c: ContractBid)
    requires
        contract_bid_from_text(t) == Ok::<ContractBid, ParseError>(c),
        c.suit_spec() == BiddingSuit::NoTrumps,
    ensures
        contract_bid_from_text(c.text_spec()) == Ok::<ContractBid, ParseError>(c),
{
    let v = digit_of(t[0]).unwrap();
    let s = bidding_suit_from_lower(lower_of(t.drop_first())).unwrap();
    c.lemma_make(v, s);
    lemma_no_trump_bid_text(c);
}

/// The text of a no-trump bid reads back as that bid.
proof fn lemma_no_trump_bid_text(x: ContractBid)
    requires
        1 <= x.level_spec() <= 7,
        x.suit_spec() == BiddingSuit::NoTrumps,
    ensures
        contract_bid_from_text(x.text_spec()) == Ok::<ContractBid, ParseError>(x),
{
    let v = x.level_spec();
    let c = level_char(v);
    reveal_strlit("NT");
    reveal_strlit("nt");
    let t = x.text_spec();
    assert(t =~= seq![c, 'N', 'T']);
    assert(digit_of(c) == Some(v));
    let rest = t.drop_first();
    assert(rest =~= "NT"@);
    assert(all_ascii(rest));
    assert(lower_of(rest) =~= "nt"@);
    x.lemma_make(v, BiddingSuit::NoTrumps);
}

} // verus!
