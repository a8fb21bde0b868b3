use vstd::prelude::*;

verus! {

/// Typed rejection reasons for auction operations.
///
/// Every failure is synchronous: a rejected operation performs no transfer,
/// emits no event, and leaves the auction record exactly as it was.
#[derive(Clone, Copy, Debug, PartialEq, Eq, Structural)]
pub enum AuctionError {
    /// The auction duration must be greater than 0.
    InvalidDuration,
    /// The starting bid must be greater than 0.
    InvalidStartingBid,
    /// The minimum bid increment must be greater than 0.
    InvalidBidIncrement,
    /// The auction has already ended.
    AuctionEnded,
    /// The auction is not active.
    AuctionNotActive,
    /// The bid amount is too low.
    BidTooLow,
    /// The bid increment is too low.
    BidIncrementTooLow,
    /// The auction has not ended yet.
    AuctionNotEnded,
    /// The auction already has bids.
    AuctionHasBids,
    /// Unauthorized to cancel this auction.
    UnauthorizedCancellation,
    /// Unauthorized to update this auction.
    UnauthorizedUpdate,
    /// Invalid auction state transition.
    InvalidStateTransition,
}

impl AuctionError {
    /// The human-readable description of this rejection.
    pub open spec fn message_spec(self) -> Seq<char> {
        match self {
            AuctionError::InvalidDuration => "The auction duration must be greater than 0"@,
            AuctionError::InvalidStartingBid => "The starting bid must be greater than 0"@,
            AuctionError::InvalidBidIncrement => "The minimum bid increment must be greater than 0"@,
            AuctionError::AuctionEnded => "The auction has already ended"@,
            AuctionError::AuctionNotActive => "The auction is not active"@,
            AuctionError::BidTooLow => "The bid amount is too low"@,
            AuctionError::BidIncrementTooLow => "The bid increment is too low"@,
            AuctionError::AuctionNotEnded => "The auction has not ended yet"@,
            AuctionError::AuctionHasBids => "The auction already has bids"@,
            AuctionError::UnauthorizedCancellation => "Unauthorized to cancel this auction"@,
            AuctionError::UnauthorizedUpdate => "Unauthorized to update this auction"@,
            AuctionError::InvalidStateTransition => "Invalid auction state transition"@,
        }
    }

    /// Human-readable description, surfaced verbatim to the caller.
    pub fn message(&self) -> (s: &'static str)
        ensures
            s@ == self.message_spec(),
    {
        match self {
            AuctionError::InvalidDuration => "The auction duration must be greater than 0",
            AuctionError::InvalidStartingBid => "The starting bid must be greater than 0",
            AuctionError::InvalidBidIncrement => "The minimum bid increment must be greater than 0",
            AuctionError::AuctionEnded => "The auction has already ended",
            AuctionError::AuctionNotActive => "The auction is not active",
            AuctionError::BidTooLow => "The bid amount is too low",
            AuctionError::BidIncrementTooLow => "The bid increment is too low",
            AuctionError::AuctionNotEnded => "The auction has not ended yet",
            AuctionError::AuctionHasBids => "The auction already has bids",
            AuctionError::UnauthorizedCancellation => "Unauthorized to cancel this auction",
            AuctionError::UnauthorizedUpdate => "Unauthorized to update this auction",
            AuctionError::InvalidStateTransition => "Invalid auction state transition",
        }
    }
}

} // verus!
