use vstd::prelude::*;

use crate::custody::AccountId;

verus! {

/// Why an auction was cancelled.
#[derive(Clone, Copy, Debug, PartialEq, Eq, Structural)]
pub enum CancelReason {
    /// The auction ran to its deadline without a single bid.
    NoBidsPlaced,
    /// The creator withdrew the auction before any bid arrived.
    CancelledByCreator,
}

impl CancelReason {
    /// The wording carried on the cancellation event.
    pub open spec fn text_spec(self) -> Seq<char> {
        match self {
            CancelReason::NoBidsPlaced => "No bids placed"@,
            CancelReason::CancelledByCreator => "Cancelled by creator"@,
        }
    }

    /// The wording carried on the cancellation event.
    pub fn text(&self) -> (s: &'static str)
        ensures
            s@ == self.text_spec(),
    {
        match self {
            CancelReason::NoBidsPlaced => "No bids placed",
            CancelReason::CancelledByCreator => "Cancelled by creator",
        }
    }
}

/// Emitted once when an auction is created and its asset enters custody.
#[derive(Clone, Copy, Debug, PartialEq, Eq, Structural)]
pub struct AuctionCreated {
    pub auction_id: u64,
    pub creator: AccountId,
    pub nft_mint: AccountId,
    pub starting_bid: u64,
    pub end_time: i64,
}

/// Emitted once per accepted bid.
#[derive(Clone, Copy, Debug, PartialEq, Eq, Structural)]
pub struct BidPlaced {
    pub auction_id: u64,
    pub bidder: AccountId,
    pub bid_amount: u64,
}

/// Emitted once when an auction is finalized; `winner` is `None` and
/// `winning_bid` is 0 when the auction closed without bids.
#[derive(Clone, Copy, Debug, PartialEq, Eq, Structural)]
pub struct AuctionFinalized {
    pub auction_id: u64,
    pub winner: Option<AccountId>,
    pub winning_bid: u64,
}

/// Emitted once when an auction is cancelled and its asset returns to the
/// creator.
#[derive(Clone, Copy, Debug, PartialEq, Eq, Structural)]
pub struct AuctionCancelled {
    pub auction_id: u64,
    pub reason: CancelReason,
}

/// Emitted once per settings update, carrying exactly the fields that were
/// supplied (each is independently optional).
#[derive(Clone, Copy, Debug, PartialEq, Eq, Structural)]
pub struct AuctionUpdated {
    pub auction_id: u64,
    pub new_duration: Option<i64>,
    pub new_min_increment: Option<u64>,
}

} // verus!
