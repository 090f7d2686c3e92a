//! The state of a bidding table and how it reacts to what the player types.
use vstd::prelude::*;

use crate::auction::{auction_bid_from_text, Auction, AuctionBid, Seat};
use crate::deck::Deck;
use crate::error::ParseError;
use crate::hand::Hand;
use crate::text::{pop_char, push_char};

verus! {

/// Relies on `rand::random_range`: a number drawn from `0..n`. It panics on an
/// empty range, which `n > 0` rules out.
#[verifier::external_body]
fn random_below(n: usize) -> (r: usize)
    requires
        n > 0,
    ensures
        r < n,
{
    rand::random_range(0..n)
}

/// The table: the auction, the four hands, the call being typed, the outcome
/// of reading the last call entered, and whether the player asked to leave.
#[derive(Debug)]
pub struct Model {
    pub auction: Auction,
    pub hands: [Hand; 4],
    pub typed: String,
    pub parsed_bid: Option<Result<AuctionBid, ParseError>>,
    pub exit: bool,
}

/// What the player did, or what the table does next.
#[derive(Debug, Clone, Copy, PartialEq, Eq)]
pub enum Message {
    Exit,
    Typed(char),
    Clear,
    Backspace,
    Enter,
    Bid(AuctionBid),
}

/// The text being typed after a message.
pub open spec fn typed_after(typed: Seq<char>, message: Message) -> Seq<char> {
    match message {
        Message::Typed(c) => typed.push(c),
        Message::Clear | Message::Enter => Seq::empty(),
        Message::Backspace => if typed.len() > 0 {
            typed.drop_last()
        } else {
            typed
        },
        _ => typed,
    }
}

impl Model {
    /// A new table: a shuffled deck dealt into four hands of thirteen cards, and
    /// an empty auction whose dealer is drawn from North, East and South.
    pub fn new() -> (r: Model)
        ensures
            r.auction.calls() == Seq::<AuctionBid>::empty(),
            r.auction.dealer_spec().pos() < 3,
            forall|i: int| 0 <= i < 4 ==> #[trigger] r.hands[i].cards().len() == 13,
            r.typed@ == Seq::<char>::empty(),
            r.parsed_bid is None,
            !r.exit,
    {
        let mut deck = Deck::default();
        deck.shuffle();
        let dealer = match Seat::from_repr(random_below(3)) {
            Some(s) => s,
            None => Seat::North,
        };
        Model {
            auction: Auction::new(dealer),
            hands: deck.deal(),
            typed: String::new(),
            parsed_bid: None,
            exit: false,
        }
    }
}

impl Default for Model {
    /// A new table, shuffled and with a dealer drawn at random.
    fn default() -> (r: Model)
        ensures
            r.auction.calls() == Seq::<AuctionBid>::empty(),
            r.auction.dealer_spec().pos() < 3,
            r.typed@ == Seq::<char>::empty(),
            r.parsed_bid is None,
            !r.exit,
    {
        Model::new()
    }
}

/// Applies one message to the table and returns the message that follows from
/// it, if any: entering a call that reads well is followed by making that call.
pub fn update(model: &mut Model, message: Message) -> (r: Option<Message>)
    ensures
        final(model).hands == old(model).hands,
        final(model).auction.dealer_spec() == old(model).auction.dealer_spec(),
        final(model).exit == (old(model).exit || message is Exit),
        final(model).typed@ == typed_after(old(model).typed@, message),
        final(model).parsed_bid == (if message is Enter {
            Some(auction_bid_from_text(old(model).typed@))
        } else {
            old(model).parsed_bid
        }),
        final(model).auction.calls() == (match message {
            Message::Bid(b) => old(model).auction.calls().push(b),
            _ => old(model).auction.calls(),
        }),
        r == (match (message, auction_bid_from_text(old(model).typed@)) {
            (Message::Enter, Ok(b)) => Some(Message::Bid(b)),
            _ => None,
        }),
{
    match message {
        Message::Exit => {
            model.exit = true;
        },
        Message::Typed(c) => {
            push_char(&mut model.typed, c);
        },
        Message::Clear => {
            model.typed = String::new();
        },
        Message::Backspace => {
            pop_char(&mut model.typed);
        },
        Message::Enter => {
            let parsed = AuctionBid::from_str(model.typed.as_str());
            model.parsed_bid = Some(parsed);
            model.typed = String::new();
            if let Ok(b) = parsed {
                return Some(Message::Bid(b));
            }
        },
        Message::Bid(b) => {
            model.auction.append(b);
        },
    }
    None
}

} // verus!
