use parker::auction::{Auction, AuctionBid, Seat};
use parker::card::{Card, Rank, Suit};
use parker::deck::Deck;
use parker::hand::Hand;
use parker::model::{update, Message, Model};

fn card(text: &str) -> Card {
    text.parse().unwrap()
}

#[test]
fn hand_sorts_each_suit_from_ace_down() {
    let hand = Hand::from(vec![card("2S"), card("AH"), card("KS"), card("TS"), card("3C")]);
    assert_eq!(5, hand.len());
    assert!(!hand.is_empty());
    assert_eq!([3, 1, 0, 1], hand.distribution());
    assert_eq!(
        vec![card("KS"), card("TS"), card("2S"), card("AH"), card("3C")],
        hand.iter()
    );
    assert_eq!(7, hand.hcp());
    assert_eq!("♠ K 10 2  ♥ A  ♦ \u{e2}\u{20ac}\u{201d}  ♣ 3", hand.to_string());
    let copy = hand.clone();
    assert_eq!(hand.iter(), copy.iter());
}

#[test]
fn empty_hand() {
    let hand = Hand::from(Vec::new());
    assert_eq!(0, hand.len());
    assert!(hand.is_empty());
    assert_eq!(0, hand.hcp());
    assert_eq!([0, 0, 0, 0], hand.distribution());
}

#[test]
fn new_deck_is_in_order() {
    let hands = Deck::default().deal();
    assert_eq!(
        vec![
            card("2C"), card("3C"), card("4C"), card("5C"), card("6C"), card("7C"), card("8C"),
            card("9C"), card("TC"), card("JC"), card("QC"), card("KC"), card("AC"),
        ]
        .into_iter()
        .rev()
        .collect::<Vec<Card>>(),
        hands[0].iter()
    );
    assert_eq!([13, 0, 0, 0], hands[3].distribution());
    assert_eq!([0, 13, 0, 0], hands[2].distribution());
    assert_eq!(10, hands[1].hcp());
}

#[test]
fn shuffled_deck_deals_every_card_once() {
    let mut deck = Deck::default();
    deck.shuffle();
    let hands = deck.deal();
    let mut all: Vec<Card> = hands.iter().flat_map(|h| h.iter()).collect();
    assert_eq!(52, all.len());
    all.sort_by_key(|c| (c.suit, c.rank));
    all.dedup();
    assert_eq!(52, all.len());
    for hand in &hands {
        assert_eq!(13, hand.len());
    }
    let total: u32 = hands.iter().map(|h| h.hcp() as u32).sum();
    assert_eq!(40, total);
    assert_eq!(Rank::Ace, all[12].rank);
    assert_eq!(Suit::Clubs, all[0].suit);
}

#[test]
fn new_table_is_empty_and_dealt() {
    for _ in 0..20 {
        let model = Model::new();
        assert!(model.auction.sequence.is_empty());
        assert_ne!(Seat::West, model.auction.dealer());
        assert!(model.typed.is_empty());
        assert!(model.parsed_bid.is_none());
        assert!(!model.exit);
        for hand in &model.hands {
            assert_eq!(13, hand.len());
        }
    }
}

#[test]
fn typing_and_entering_a_call() {
    let mut model = Model::new();
    assert_eq!(None, update(&mut model, Message::Typed('1')));
    assert_eq!(None, update(&mut model, Message::Typed('n')));
    assert_eq!(None, update(&mut model, Message::Typed('q')));
    assert_eq!("1nq", model.typed);
    assert_eq!(None, update(&mut model, Message::Backspace));
    assert_eq!("1n", model.typed);
    assert_eq!(None, update(&mut model, Message::Typed('T')));
    let next = update(&mut model, Message::Enter);
    let one_nt: AuctionBid = "1NT".parse().unwrap();
    assert_eq!(Some(Message::Bid(one_nt)), next);
    assert_eq!(Some(Ok(one_nt)), model.parsed_bid);
    assert_eq!("", model.typed);
    assert_eq!(None, update(&mut model, Message::Bid(one_nt)));
    assert_eq!(vec![one_nt], model.auction.sequence);

    assert_eq!(None, update(&mut model, Message::Typed('z')));
    assert_eq!(None, update(&mut model, Message::Enter));
    assert!(matches!(model.parsed_bid, Some(Err(_))));
    assert_eq!(None, update(&mut model, Message::Backspace));
    assert_eq!("", model.typed);
    assert_eq!(None, update(&mut model, Message::Typed('x')));
    assert_eq!(None, update(&mut model, Message::Clear));
    assert_eq!("", model.typed);
    assert_eq!(None, update(&mut model, Message::Exit));
    assert!(model.exit);
}

#[test]
fn appended_calls_advance_the_turn() {
    let mut auction = Auction::new(Seat::East);
    assert_eq!(Seat::East, auction.turn());
    auction.append(AuctionBid::Pass);
    assert_eq!(Seat::South, auction.turn());
    auction.append(AuctionBid::Double);
    auction.append(AuctionBid::Redouble);
    assert_eq!(Seat::North, auction.turn());
    assert_eq!(vec![&AuctionBid::Double], auction.bids_for(Seat::South));
    assert_eq!(
        "+-- N --+-- E --+-- S --+-- W --+\n\
         |       | Pass  | Dbl   | Redbl |\n\
         +-------+-------+-------+-------+",
        auction.to_string()
    );
    assert_eq!("+-- N --+-- E --+-- S --+-- W --+", Auction::default().to_string());
}
