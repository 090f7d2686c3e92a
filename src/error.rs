use vstd::prelude::*;

verus! {

/// Why a piece of text could not be read as a card, a suit, a bid or a contract.
#[derive(Debug, Clone, Copy, PartialEq, Eq, Structural)]
pub enum ParseError {
    BidLevelOutOfBounds,
    TooShort,
    TooLong,
    BidLevelNotAnInteger,
    SuitNotValid,
    RankNotValid,
    SeatNotValid,
}

} // verus!
