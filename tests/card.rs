use parker::card::{Card, Rank, Suit};

#[test]
fn card_rank_ordering() {
    assert!(Rank::Two < Rank::Five);
    assert!(Rank::Ace > Rank::King);
    assert!(Rank::Four <= Rank::Ten);
    assert!(Rank::Jack >= Rank::Jack);
    assert!(Rank::Three != Rank::Queen);
    assert!(Rank::Seven == Rank::Seven);
}

#[test]
fn card_rank_casting() {
    assert_eq!(2, Rank::Two.value() as isize);
    assert_eq!(14, Rank::Ace.value() as usize);
    assert_eq!(10, Rank::Ten.value() as u64);
}

#[test]
fn card_card_parse() {
    assert_eq!(
        Ok(Card {
            suit: Suit::Hearts,
            rank: Rank::Ten,
        }),
        "TH".parse()
    );
    assert_eq!(
        Ok(Card {
            suit: Suit::Clubs,
            rank: Rank::Two,
        }),
        "2C".parse()
    );
    assert_eq!(
        Ok(Card {
            suit: Suit::Diamonds,
            rank: Rank::Queen,
        }),
        "QD".parse()
    );
    assert!("Kx".parse::<Card>().is_err());
    assert!("#H".parse::<Card>().is_err());
    assert!("1S".parse::<Card>().is_err());
    assert!("".parse::<Card>().is_err());
    assert!("3C7H".parse::<Card>().is_err());
    assert!("6".parse::<Card>().is_err());
}
