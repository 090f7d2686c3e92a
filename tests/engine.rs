use std::cmp::Ordering;

use parker::auction::{
    Auction, AuctionBid, Bid, BiddingSuit, Contract, ContractBid, Seat, Status,
};
use parker::card::{Card, Rank, Suit};
use parker::error::ParseError;

const DENOMINATIONS: [BiddingSuit; 5] = [
    BiddingSuit::Suit(Suit::Clubs),
    BiddingSuit::Suit(Suit::Diamonds),
    BiddingSuit::Suit(Suit::Hearts),
    BiddingSuit::Suit(Suit::Spades),
    BiddingSuit::NoTrumps,
];

fn bid(text: &str) -> AuctionBid {
    text.parse().unwrap()
}

fn auction_of(dealer: Seat, calls: &[&str]) -> Auction {
    let mut auction = Auction::new(dealer);
    for call in calls {
        auction.append(bid(call));
    }
    auction
}

#[test]
fn ladder_order_over_all_bids() {
    for l1 in 1..=7u8 {
        for (i1, s1) in DENOMINATIONS.iter().enumerate() {
            for l2 in 1..=7u8 {
                for (i2, s2) in DENOMINATIONS.iter().enumerate() {
                    let a = ContractBid::new(l1, *s1).unwrap();
                    let b = ContractBid::new(l2, *s2).unwrap();
                    let expected = (l1, i1).cmp(&(l2, i2));
                    assert_eq!(Some(expected), a.partial_cmp(&b));
                    assert_eq!(expected == Ordering::Equal, a == b);
                }
            }
        }
    }
    assert!(
        ContractBid::new(6, BiddingSuit::Suit(Suit::Clubs)).unwrap()
            > ContractBid::new(5, BiddingSuit::NoTrumps).unwrap()
    );
}

#[test]
fn level_out_of_range_is_refused() {
    for level in [0u8, 8, 9, 200, 255] {
        assert!(ContractBid::new(level, BiddingSuit::NoTrumps).is_err());
        assert!(AuctionBid::suit_bid(level, BiddingSuit::Suit(Suit::Hearts)).is_err());
    }
    assert_eq!(
        Err("bid level must be between 1 and 7, inclusive".to_string()),
        ContractBid::new(0, BiddingSuit::NoTrumps)
    );
    for level in 1..=7u8 {
        let b = ContractBid::new(level, BiddingSuit::Suit(Suit::Spades)).unwrap();
        assert_eq!(level, b.level());
        assert_eq!(BiddingSuit::Suit(Suit::Spades), b.suit());
    }
    assert_eq!(Err(ParseError::BidLevelOutOfBounds), "0c".parse::<ContractBid>());
    assert_eq!(Err(ParseError::BidLevelOutOfBounds), "9 spades".parse::<AuctionBid>());
}

#[test]
fn seat_rotation_values() {
    assert_eq!(Seat::South, Seat::North + 2);
    assert_eq!(Seat::South, Seat::North + 6);
    assert_eq!(Seat::South, Seat::North - 2);
    assert_eq!(Seat::East, Seat::North - 3);
    assert_eq!(Seat::North, Seat::West + 1);
    assert_eq!(Seat::West, Seat::North - 1);
    assert_eq!(Seat::East, Seat::East - 400);
    assert_eq!(Seat::West, Seat::North + usize::MAX);
    assert_eq!(Seat::East, Seat::North - usize::MAX);
    for seat in [Seat::North, Seat::East, Seat::South, Seat::West] {
        for n in [0usize, 1, 5, 13, 1000] {
            assert_eq!(seat, (seat + n) - n);
        }
    }
}

#[test]
fn seat_distances_sum_to_four() {
    let seats = [Seat::North, Seat::East, Seat::South, Seat::West];
    for a in seats {
        for b in seats {
            if a == b {
                assert_eq!(0, a - b);
            } else {
                assert_eq!(4, (a - b) + (b - a));
            }
        }
    }
    assert_eq!(2, Seat::East - Seat::West);
    assert_eq!(1, Seat::East - Seat::North);
    assert_eq!(3, Seat::North - Seat::East);
}

#[test]
fn calls_read_back_from_their_display() {
    for text in ["pass", "P", "no bid", "x", "DBL", "double", "xx", "redbl", "Redouble"] {
        let call: AuctionBid = text.parse().unwrap();
        assert_eq!(Ok(call), call.to_string().parse::<AuctionBid>());
    }
    for level in 1..=7 {
        let call = AuctionBid::suit_bid(level, BiddingSuit::NoTrumps).unwrap();
        assert_eq!(Ok(call), call.to_string().parse::<AuctionBid>());
    }
    assert_eq!("Pass", "no bid".parse::<AuctionBid>().unwrap().to_string());
}

#[test]
fn suit_bid_display_shows_the_symbol() {
    assert_eq!("6♥", bid("6H").to_string());
    assert_eq!("1♣", bid("1 club").to_string());
    assert_eq!("2♠", bid("2 SPADES").to_string());
    assert_eq!("3♦", bid("3d").to_string());
    assert_eq!(Err(ParseError::SuitNotValid), "6♥".parse::<AuctionBid>());
}

#[test]
fn pass_is_not_ordered_against_anything() {
    let calls = [AuctionBid::Pass, AuctionBid::Double, AuctionBid::Redouble];
    let seven_nt = bid("7nt");
    for call in calls {
        assert_eq!(None, call.partial_cmp(&seven_nt));
        assert_eq!(None, seven_nt.partial_cmp(&call));
        assert!(!(call < seven_nt) && !(call > seven_nt));
        assert!(!(call <= seven_nt) && !(call >= seven_nt));
        assert_eq!(None, call.partial_cmp(&call));
        assert!(call != seven_nt);
        assert!(call == call);
    }
}

#[test]
fn game_auction_end_to_end() {
    let auction = auction_of(
        Seat::South,
        &["Pass", "Pass", "1D", "1H", "1NT", "Pass", "2NT", "Pass", "3NT", "Pass", "Pass", "Pass"],
    );
    assert!(auction.closed());
    assert_eq!(
        Some(Contract {
            bid: ContractBid::new(3, BiddingSuit::NoTrumps).unwrap(),
            status: Status::Undoubled,
        }),
        auction.contract()
    );
    assert_eq!(vec![&AuctionBid::Pass, &bid("1NT"), &bid("3NT")], auction.bids_for(Seat::South));
    assert_eq!(vec![&AuctionBid::Pass; 3], auction.bids_for(Seat::West));
    assert_eq!(Seat::South, auction.turn());
    assert_eq!(Seat::South, auction.dealer());
}

#[test]
fn three_passes_are_not_closed() {
    let auction = auction_of(Seat::West, &["Pass", "Pass", "Pass"]);
    assert!(!auction.closed());
    assert_eq!(Seat::South, auction.turn());
    assert_eq!(None, auction.contract());

    let passed_out = auction_of(Seat::West, &["Pass", "Pass", "Pass", "Pass"]);
    assert!(passed_out.closed());
    assert_eq!(None, passed_out.contract());
}

#[test]
fn closure_looks_at_the_last_three_calls() {
    assert!(auction_of(Seat::North, &["1S", "Pass", "Pass", "Pass"]).closed());
    assert!(!auction_of(Seat::North, &["Pass", "1S", "Pass", "Pass"]).closed());
    assert!(!auction_of(Seat::North, &["1S", "Pass", "Pass"]).closed());
    assert!(!auction_of(Seat::North, &["1S", "X", "Pass", "Pass"]).closed());
    assert!(!Auction::default().closed());
}

#[test]
fn doubles_after_the_last_bid_set_the_status() {
    let doubled = auction_of(Seat::East, &["1S", "X", "Pass", "Pass", "Pass"]);
    assert_eq!(Some("1sx".parse::<Contract>().unwrap()), doubled.contract());

    let redoubled = auction_of(Seat::East, &["1S", "X", "XX", "Pass", "Pass", "Pass"]);
    assert_eq!(Some("1sxx".parse::<Contract>().unwrap()), redoubled.contract());

    let overcalled = auction_of(Seat::East, &["1S", "X", "XX", "2H", "Pass", "Pass", "Pass"]);
    assert_eq!(Some("2h".parse::<Contract>().unwrap()), overcalled.contract());

    let redouble_then_double = auction_of(Seat::East, &["3C", "XX", "X"]);
    assert_eq!(
        Some(Contract {
            bid: "3c".parse().unwrap(),
            status: Status::Redoubled,
        }),
        redouble_then_double.contract()
    );

    assert_eq!(None, auction_of(Seat::East, &["X", "XX"]).contract());
    assert_eq!(None, Auction::new(Seat::North).contract());
}

#[test]
fn contract_text_forms() {
    assert_eq!(
        Ok(Contract {
            bid: "1s".parse().unwrap(),
            status: Status::Redoubled,
        }),
        "1sxx".parse()
    );
    assert_eq!(
        Ok(Contract {
            bid: "3h".parse().unwrap(),
            status: Status::Doubled,
        }),
        "3h x".parse()
    );
    assert_eq!(Err(ParseError::TooShort), "".parse::<Contract>());
    assert_eq!(Err(ParseError::TooShort), "   ".parse::<Contract>());
    assert_eq!(Err(ParseError::TooShort), "x".parse::<Contract>());
    assert_eq!(Err(ParseError::TooShort), "xx".parse::<Contract>());
    assert_eq!(
        Ok(Contract::from("7NT".parse::<ContractBid>().unwrap())),
        "7 NO TRUMPS".parse::<Contract>()
    );
}

#[test]
fn every_parse_error_of_a_bid() {
    assert_eq!(Err(ParseError::TooShort), "".parse::<ContractBid>());
    assert_eq!(Err(ParseError::BidLevelNotAnInteger), "ant".parse::<ContractBid>());
    assert_eq!(Err(ParseError::BidLevelNotAnInteger), "♠1".parse::<ContractBid>());
    assert_eq!(Err(ParseError::BidLevelOutOfBounds), "8s".parse::<ContractBid>());
    assert_eq!(Err(ParseError::SuitNotValid), "5a".parse::<ContractBid>());
    assert_eq!(Err(ParseError::SuitNotValid), "5".parse::<ContractBid>());
    assert_eq!(Err(ParseError::SuitNotValid), "bogus".parse::<Suit>());
    assert_eq!(Err(ParseError::SuitNotValid), "4 no trump".parse::<AuctionBid>());
    assert_eq!(Err(ParseError::TooLong), "3C7H".parse::<Card>());
    assert_eq!(Err(ParseError::RankNotValid), "1S".parse::<Card>());
    assert_eq!(Err(ParseError::SuitNotValid), "Kx".parse::<Card>());
    assert_eq!(Err(ParseError::TooShort), "6".parse::<Card>());
}

#[test]
fn denominations_read_in_any_case() {
    assert_eq!(Ok(BiddingSuit::NoTrumps), "NT".parse::<BiddingSuit>());
    assert_eq!(Ok(BiddingSuit::NoTrumps), "No Trumps".parse::<BiddingSuit>());
    assert_eq!(Ok(BiddingSuit::NoTrumps), "notrumps".parse::<BiddingSuit>());
    assert_eq!(Ok(BiddingSuit::Suit(Suit::Hearts)), "HEART".parse::<BiddingSuit>());
    assert_eq!(Ok(Suit::Diamonds), "Diamonds".parse::<Suit>());
    assert_eq!(Ok(Suit::Clubs), "c".parse::<Suit>());
    assert_eq!(Ok(AuctionBid::Pass), "PASS".parse::<AuctionBid>());
    assert_eq!(Ok(AuctionBid::Pass), " No  Bid ".parse::<AuctionBid>());
    assert_eq!("NT", BiddingSuit::NoTrumps.to_string());
    assert_eq!("♠", BiddingSuit::Suit(Suit::Spades).to_string());
}

#[test]
fn seats_by_position() {
    assert_eq!(Some(Seat::North), Seat::from_repr(0));
    assert_eq!(Some(Seat::West), Seat::from_repr(3));
    assert_eq!(None, Seat::from_repr(4));
    assert_eq!(2, Seat::South.index());
}

#[test]
fn suit_and_rank_letters() {
    assert_eq!('S', char::from(Suit::Spades));
    assert_eq!('T', char::from(Rank::Ten));
    assert_eq!(Ok(Suit::Hearts), Suit::try_from('H'));
    assert_eq!(Err(ParseError::SuitNotValid), Suit::try_from('h'));
    assert_eq!(Ok(Rank::Queen), Rank::try_from('Q'));
    assert_eq!(Ok(Rank::Jack), Rank::try_from(11u8));
    assert_eq!(Err(ParseError::RankNotValid), Rank::try_from(15u8));
    assert_eq!(Err(ParseError::RankNotValid), Rank::try_from(1u8));
    assert_eq!(4, Rank::Ace.high_card_points());
    assert_eq!(0, Rank::Ten.high_card_points());
    assert_eq!("10", Rank::Ten.to_string());
    assert_eq!("♥10", Card { suit: Suit::Hearts, rank: Rank::Ten }.to_string());
    assert_eq!("♣A", Card { suit: Suit::Clubs, rank: Rank::Ace }.to_string());
}

#[test]
fn older_bid_keeps_its_error_text() {
    assert_eq!(
        Err("Bid level must be between 1 and 7, inclusive".to_string()),
        Bid::new(0, BiddingSuit::NoTrumps)
    );
    assert!(Bid::new(8, BiddingSuit::Suit(Suit::Clubs)).is_err());
    let b = Bid::new(3, BiddingSuit::Suit(Suit::Hearts)).unwrap();
    assert_eq!(3, b.contract_bid().level());
    assert_eq!(BiddingSuit::Suit(Suit::Hearts), b.contract_bid().suit());
    assert!(Bid::new(3, BiddingSuit::NoTrumps).unwrap() > b);
    assert!(Bid::new(2, BiddingSuit::NoTrumps).unwrap() < b);
}

#[test]
fn no_trump_bids_read_back_from_their_display() {
    for text in ["1nt", "2No Trumps", "7NOTRUMPS", "4nt"] {
        let b: ContractBid = text.parse().unwrap();
        assert_eq!(Ok(b), b.to_string().parse::<ContractBid>());
    }
    assert_eq!("5NT", "5nt".parse::<ContractBid>().unwrap().to_string());
}
