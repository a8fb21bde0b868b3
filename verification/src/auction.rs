use vstd::prelude::*;

use crate::custody::AccountId;
use crate::custody::AccountRef;
use crate::custody::AssetTransfer;
use crate::custody::FundsTransfer;
use crate::errors::AuctionError;
use crate::events::AuctionCancelled;
use crate::events::AuctionCreated;
use crate::events::AuctionFinalized;
use crate::events::AuctionUpdated;
use crate::events::BidPlaced;
use crate::events::CancelReason;

verus! {

/// Lifecycle state of an auction. Transitions are one-directional:
/// `Active` may move to `Completed` or `Cancelled`; both of those are
/// terminal, and no operation mutates a terminal record.
#[derive(Clone, Copy, Debug, PartialEq, Eq, Structural)]
pub enum AuctionStatus {
    Active,
    Completed,
    Cancelled,
}

/// The persistent record of one auction. One record exists per auctioned
/// item, keyed by `auction_id`; identities are opaque numeric keys resolved
/// by the host ledger.
#[derive(Clone, Copy, Debug, PartialEq, Eq, Structural)]
pub struct Auction {
    /// Globally unique identity of this auction record.
    pub auction_id: u64,
    /// Party entitled to creator-only operations and to the sale proceeds.
    pub creator: AccountId,
    /// The unique, non-fungible asset being sold.
    pub nft_mint: AccountId,
    /// Minimum acceptable first bid.
    pub starting_bid: u64,
    /// Minimum delta required of each bid over the current highest.
    pub min_bid_increment: u64,
    /// Absolute deadline: bidding is disallowed and finalize becomes legal
    /// from this instant on.
    pub end_time: i64,
    /// Current leading bid amount; 0 means no bid yet.
    pub highest_bid: u64,
    /// Current leading bidder; `None` exactly while `highest_bid` is 0.
    pub highest_bidder: Option<AccountId>,
    /// Lifecycle state.
    pub status: AuctionStatus,
}

/// Everything the host must apply for a successful creation: the new
/// record, the asset's move into custody, and the audit event.
#[derive(Clone, Copy, Debug, PartialEq, Eq, Structural)]
pub struct CreateOutcome {
    /// The freshly created record, status `Active`.
    pub auction: Auction,
    /// Moves the asset from the creator into the auction's vault.
    pub escrow_deposit: AssetTransfer,
    pub event: AuctionCreated,
}

/// Everything the host must apply for an accepted bid. The refund, when
/// present, comes first; refund and deposit must both land or neither.
#[derive(Clone, Copy, Debug, PartialEq, Eq, Structural)]
pub struct BidOutcome {
    /// Returns the displaced bidder's full escrowed amount; `None` on the
    /// first bid.
    pub refund: Option<FundsTransfer>,
    /// Moves the new bid amount from the bidder into escrow.
    pub deposit: FundsTransfer,
    pub event: BidPlaced,
}

/// The fund and asset movements of a settlement with a winner, to be
/// applied in field order within one atomic unit.
#[derive(Clone, Copy, Debug, PartialEq, Eq, Structural)]
pub struct Settlement {
    /// Pays the winning bid minus the platform fee from escrow to the
    /// creator.
    pub seller_payout: FundsTransfer,
    /// Releases the asset from the vault to the winning bidder.
    pub asset_release: AssetTransfer,
    /// Pays the 2.5% floor-rounded fee from escrow to the platform.
    pub fee_payout: FundsTransfer,
}

/// Everything the host must apply for a successful finalize. `settlement`
/// is `None` when the auction closed without bids: the record turns
/// `Completed` and nothing moves.
#[derive(Clone, Copy, Debug, PartialEq, Eq, Structural)]
pub struct FinalizeOutcome {
    pub settlement: Option<Settlement>,
    pub event: AuctionFinalized,
}

/// Everything the host must apply for a successful cancellation or
/// withdraw-unsold: the asset's way back to the creator and the audit
/// event.
#[derive(Clone, Copy, Debug, PartialEq, Eq, Structural)]
pub struct CancelOutcome {
    /// Returns the asset from the vault to the creator.
    pub asset_return: AssetTransfer,
    pub event: AuctionCancelled,
}

/// The platform's cut of a winning bid `v`: 2.5%, floor-rounded.
pub open spec fn platform_fee(v: u64) -> int {
    v * 25 / 1000
}

/// What the seller receives of a winning bid `v`: the remainder after the
/// platform fee, so that fee and proceeds recombine to exactly `v`.
pub open spec fn seller_amount(v: u64) -> int {
    v - platform_fee(v)
}

/// The platform fee never exceeds the winning bid, so the seller's share
/// is a valid unsigned amount.
pub proof fn lemma_platform_fee_bounds(v: u64)
    ensures
        0 <= platform_fee(v) <= v,
{
    assert(0 <= v * 25 / 1000 <= v) by (nonlinear_arith);
}

/// Split a winning bid into the platform's 2.5% floor-rounded cut and the
/// seller's remainder; the two parts recombine to exactly `v`.
pub fn fee_split(v: u64) -> (r: (u64, u64))
    ensures
        r.0 == platform_fee(v),
        r.1 == seller_amount(v),
        r.0 + r.1 == v,
{
    proof {
        lemma_platform_fee_bounds(v);
    }
    let fee: u64 = ((v as u128) * 25 / 1000) as u64;
    (fee, v - fee)
}

/// Whether creation parameters are acceptable.
pub open spec fn create_valid(starting_bid: u64, min_bid_increment: u64, duration: i64) -> bool {
    duration > 0 && starting_bid > 0 && min_bid_increment > 0
}

/// The rejection reported for invalid creation parameters, checking the
/// duration first, then the starting bid, then the increment.
pub open spec fn create_rejection(
    starting_bid: u64,
    min_bid_increment: u64,
    duration: i64,
) -> AuctionError {
    if duration <= 0 {
        AuctionError::InvalidDuration
    } else if starting_bid == 0 {
        AuctionError::InvalidStartingBid
    } else {
        AuctionError::InvalidBidIncrement
    }
}

/// The record a successful creation produces: deadline `now + duration`,
/// no bid yet, status `Active`.
pub open spec fn created_auction(
    auction_id: u64,
    creator: AccountId,
    nft_mint: AccountId,
    starting_bid: u64,
    min_bid_increment: u64,
    duration: i64,
    now: i64,
) -> Auction {
    Auction {
        auction_id,
        creator,
        nft_mint,
        starting_bid,
        min_bid_increment,
        end_time: (now + duration) as i64,
        highest_bid: 0,
        highest_bidder: None,
        status: AuctionStatus::Active,
    }
}

/// The full outcome of a successful creation: the new record, the asset's
/// move from the creator into the vault, and the creation event.
pub open spec fn create_outcome(
    auction_id: u64,
    creator: AccountId,
    nft_mint: AccountId,
    starting_bid: u64,
    min_bid_increment: u64,
    duration: i64,
    now: i64,
) -> CreateOutcome {
    CreateOutcome {
        auction: created_auction(
            auction_id,
            creator,
            nft_mint,
            starting_bid,
            min_bid_increment,
            duration,
            now,
        ),
        escrow_deposit: AssetTransfer {
            from: AccountRef::User(creator),
            to: AccountRef::Vault(auction_id),
            nft_mint,
        },
        event: AuctionCreated {
            auction_id,
            creator,
            nft_mint,
            starting_bid,
            end_time: (now + duration) as i64,
        },
    }
}

impl Auction {
    /// Well-formedness of an auction record. Creation establishes it and
    /// every operation preserves it.
    pub open spec fn wf(self) -> bool {
        &&& self.starting_bid > 0
        &&& self.min_bid_increment > 0
        &&& (self.highest_bid == 0 <==> self.highest_bidder is None)
        &&& (self.highest_bid > 0 ==> self.highest_bid >= self.starting_bid)
    }

    /// Whether a bid of `bid_amount` at time `now` must be accepted: the
    /// deadline has not passed, the auction is active, the amount reaches
    /// the starting bid, and it clears the current highest bid by at least
    /// the minimum increment.
    pub open spec fn bid_allowed(self, bid_amount: u64, now: i64) -> bool {
        &&& now < self.end_time
        &&& self.status is Active
        &&& bid_amount >= self.starting_bid
        &&& (self.highest_bid > 0 ==> bid_amount >= self.highest_bid + self.min_bid_increment)
    }

    /// The rejection reported for a refused bid, checking the deadline
    /// first, then the status, then the amount against the starting bid,
    /// then the increment.
    pub open spec fn bid_rejection(self, bid_amount: u64, now: i64) -> AuctionError {
        if now >= self.end_time {
            AuctionError::AuctionEnded
        } else if !(self.status is Active) {
            AuctionError::AuctionNotActive
        } else if bid_amount < self.starting_bid {
            AuctionError::BidTooLow
        } else {
            AuctionError::BidIncrementTooLow
        }
    }

    /// The record after an accepted bid: only the leading bid and bidder
    /// change.
    pub open spec fn after_bid(self, bidder: AccountId, bid_amount: u64) -> Auction {
        Auction { highest_bid: bid_amount, highest_bidder: Some(bidder), ..self }
    }

    /// The refund owed when a bid displaces a prior one: the full previous
    /// amount, from escrow back to the displaced bidder. `None` on the
    /// first bid.
    pub open spec fn bid_refund(self) -> Option<FundsTransfer> {
        if self.highest_bid > 0 {
            Some(
                FundsTransfer {
                    from: AccountRef::Escrow(self.auction_id),
                    to: AccountRef::User(self.highest_bidder.unwrap()),
                    amount: self.highest_bid,
                },
            )
        } else {
            None
        }
    }

    /// The full outcome of an accepted bid: the refund of the displaced
    /// bidder (if any), the new amount's move into escrow, and the bid
    /// event.
    pub open spec fn bid_outcome(self, bidder: AccountId, bid_amount: u64) -> BidOutcome {
        BidOutcome {
            refund: self.bid_refund(),
            deposit: FundsTransfer {
                from: AccountRef::User(bidder),
                to: AccountRef::Escrow(self.auction_id),
                amount: bid_amount,
            },
            event: BidPlaced { auction_id: self.auction_id, bidder, bid_amount },
        }
    }

    /// Validate and apply one bid.
    ///
    /// On acceptance the record's leading bid and bidder are updated and
    /// the returned outcome carries the transfers the host must apply in
    /// order — refund of the displaced bidder first, then the new escrow
    /// deposit, both within one atomic unit. On rejection nothing changes.
    pub fn place_bid(&mut self, bidder: AccountId, bid_amount: u64, now: i64) -> (r: Result<
        BidOutcome,
        AuctionError,
    >)
        requires
            old(self).wf(),
        ensures
            final(self).wf(),
            r is Ok <==> old(self).bid_allowed(bid_amount, now),
            (r matches Err(e) ==> *final(self) == *old(self) && e == old(self).bid_rejection(
                bid_amount,
                now,
            )),
            (r matches Ok(out) ==> *final(self) == old(self).after_bid(bidder, bid_amount)
                && out == old(self).bid_outcome(bidder, bid_amount)),
    {
        if now >= self.end_time {
            return Err(AuctionError::AuctionEnded);
        }
        if self.status != AuctionStatus::Active {
            return Err(AuctionError::AuctionNotActive);
        }
        if bid_amount < self.starting_bid {
            return Err(AuctionError::BidTooLow);
        }
        let refund: Option<FundsTransfer> = match self.highest_bidder {
            Some(previous_bidder) => {
                // `bid_amount - highest_bid` avoids overflowing
                // `highest_bid + min_bid_increment` on huge amounts.
                if !(bid_amount >= self.highest_bid && bid_amount - self.highest_bid
                    >= self.min_bid_increment) {
                    return Err(AuctionError::BidIncrementTooLow);
                }
                Some(
                    FundsTransfer {
                        from: AccountRef::Escrow(self.auction_id),
                        to: AccountRef::User(previous_bidder),
                        amount: self.highest_bid,
                    },
                )
            },
            None => None,
        };
        let deposit = FundsTransfer {
            from: AccountRef::User(bidder),
            to: AccountRef::Escrow(self.auction_id),
            amount: bid_amount,
        };
        let event = BidPlaced { auction_id: self.auction_id, bidder, bid_amount };
        self.highest_bid = bid_amount;
        self.highest_bidder = Some(bidder);
        Ok(BidOutcome { refund, deposit, event })
    }

    /// Create a new auction record and move the asset into custody.
    ///
    /// `now` is the host clock's current timestamp; the deadline is
    /// `now + duration`. On success the returned outcome carries the new
    /// record (status `Active`, no bid), the asset's move from the creator
    /// into the auction's vault, and the creation event.
    pub fn initialize_auction(
        auction_id: u64,
        creator: AccountId,
        nft_mint: AccountId,
        starting_bid: u64,
        min_bid_increment: u64,
        duration: i64,
        now: i64,
    ) -> (r: Result<CreateOutcome, AuctionError>)
        requires
            duration > 0 ==> now + duration <= i64::MAX,
        ensures
            r is Ok <==> create_valid(starting_bid, min_bid_increment, duration),
            (r matches Err(e) ==> e == create_rejection(starting_bid, min_bid_increment, duration)),
            (r matches Ok(out) ==> out == create_outcome(
                auction_id,
                creator,
                nft_mint,
                starting_bid,
                min_bid_increment,
                duration,
                now,
            )),
            (r matches Ok(out) ==> out.auction.wf() && out.auction.status is Active
                && out.auction.highest_bid == 0),
    {
        if duration <= 0 {
            return Err(AuctionError::InvalidDuration);
        }
        if starting_bid == 0 {
            return Err(AuctionError::InvalidStartingBid);
        }
        if min_bid_increment == 0 {
            return Err(AuctionError::InvalidBidIncrement);
        }
        let end_time: i64 = now + duration;
        let auction = Auction {
            auction_id,
            creator,
            nft_mint,
            starting_bid,
            min_bid_increment,
            end_time,
            highest_bid: 0,
            highest_bidder: None,
            status: AuctionStatus::Active,
        };
        let escrow_deposit = AssetTransfer {
            from: AccountRef::User(creator),
            to: AccountRef::Vault(auction_id),
            nft_mint,
        };
        let event = AuctionCreated { auction_id, creator, nft_mint, starting_bid, end_time };
        Ok(CreateOutcome { auction, escrow_deposit, event })
    }

    /// Whether finalize at time `now` must succeed: the deadline has
    /// passed and the auction is still active.
    pub open spec fn finalize_allowed(self, now: i64) -> bool {
        now >= self.end_time && self.status is Active
    }

    /// The rejection reported for a refused finalize, checking the
    /// deadline first, then the status.
    pub open spec fn finalize_rejection(self, now: i64) -> AuctionError {
        if now < self.end_time {
            AuctionError::AuctionNotEnded
        } else {
            AuctionError::AuctionNotActive
        }
    }

    /// The record after finalize: only the status changes, to `Completed`.
    /// With no bids the asset stays in the vault — reclaiming it while
    /// still `Active` is what withdraw-unsold is for.
    pub open spec fn after_finalize(self) -> Auction {
        Auction { status: AuctionStatus::Completed, ..self }
    }

    /// The settlement owed at finalize: with a winning bid, the seller's
    /// share and the platform fee leave escrow and the asset leaves the
    /// vault for the winner; with no bids, nothing moves.
    pub open spec fn settlement(self) -> Option<Settlement> {
        if self.highest_bid > 0 {
            Some(
                Settlement {
                    seller_payout: FundsTransfer {
                        from: AccountRef::Escrow(self.auction_id),
                        to: AccountRef::User(self.creator),
                        amount: seller_amount(self.highest_bid) as u64,
                    },
                    asset_release: AssetTransfer {
                        from: AccountRef::Vault(self.auction_id),
                        to: AccountRef::User(self.highest_bidder.unwrap()),
                        nft_mint: self.nft_mint,
                    },
                    fee_payout: FundsTransfer {
                        from: AccountRef::Escrow(self.auction_id),
                        to: AccountRef::Platform,
                        amount: platform_fee(self.highest_bid) as u64,
                    },
                },
            )
        } else {
            None
        }
    }

    /// The full outcome of a successful finalize: the settlement (if a bid
    /// was placed) and the finalization event, whose winner is `None` and
    /// whose winning bid is 0 on a bidless close.
    pub open spec fn finalize_outcome(self) -> FinalizeOutcome {
        FinalizeOutcome {
            settlement: self.settlement(),
            event: AuctionFinalized {
                auction_id: self.auction_id,
                winner: self.highest_bidder,
                winning_bid: self.highest_bid,
            },
        }
    }

    /// Settle the auction after its deadline.
    ///
    /// On success the record turns `Completed` — terminal — and, if a bid
    /// was placed, the returned outcome carries the seller payout, the
    /// asset release to the winner, and the platform fee payout, all to be
    /// applied within one atomic unit. On rejection nothing changes.
    pub fn finalize_auction(&mut self, now: i64) -> (r: Result<FinalizeOutcome, AuctionError>)
        requires
            old(self).wf(),
        ensures
            final(self).wf(),
            r is Ok <==> old(self).finalize_allowed(now),
            (r matches Err(e) ==> *final(self) == *old(self) && e == old(self).finalize_rejection(
                now,
            )),
            (r matches Ok(out) ==> *final(self) == old(self).after_finalize() && out == old(
                self,
            ).finalize_outcome()),
    {
        if now < self.end_time {
            return Err(AuctionError::AuctionNotEnded);
        }
        if self.status != AuctionStatus::Active {
            return Err(AuctionError::AuctionNotActive);
        }
        self.status = AuctionStatus::Completed;
        let settlement: Option<Settlement> = match self.highest_bidder {
            Some(winner) => {
                let (fee, proceeds) = fee_split(self.highest_bid);
                Some(
                    Settlement {
                        seller_payout: FundsTransfer {
                            from: AccountRef::Escrow(self.auction_id),
                            to: AccountRef::User(self.creator),
                            amount: proceeds,
                        },
                        asset_release: AssetTransfer {
                            from: AccountRef::Vault(self.auction_id),
                            to: AccountRef::User(winner),
                            nft_mint: self.nft_mint,
                        },
                        fee_payout: FundsTransfer {
                            from: AccountRef::Escrow(self.auction_id),
                            to: AccountRef::Platform,
                            amount: fee,
                        },
                    },
                )
            },
            None => None,
        };
        let event = AuctionFinalized {
            auction_id: self.auction_id,
            winner: self.highest_bidder,
            winning_bid: self.highest_bid,
        };
        Ok(FinalizeOutcome { settlement, event })
    }

    /// Whether withdraw-unsold at time `now` must succeed: the deadline
    /// has passed, no bid was ever accepted, and the auction is still
    /// active.
    pub open spec fn withdraw_allowed(self, now: i64) -> bool {
        now >= self.end_time && self.highest_bid == 0 && self.status is Active
    }

    /// The rejection reported for a refused withdraw-unsold, checking the
    /// deadline first, then the presence of bids, then the status.
    pub open spec fn withdraw_rejection(self, now: i64) -> AuctionError {
        if now < self.end_time {
            AuctionError::AuctionNotEnded
        } else if self.highest_bid > 0 {
            AuctionError::AuctionHasBids
        } else {
            AuctionError::AuctionNotActive
        }
    }

    /// The record after a cancellation (by the creator or as
    /// withdraw-unsold): only the status changes, to `Cancelled`.
    pub open spec fn after_cancelled(self) -> Auction {
        Auction { status: AuctionStatus::Cancelled, ..self }
    }

    /// The outcome shared by both unwinding paths: the asset's return from
    /// the vault to the creator — the destination is the stored creator
    /// identity, never a caller-supplied account — and the cancellation
    /// event with the given reason.
    pub open spec fn cancel_outcome(self, reason: CancelReason) -> CancelOutcome {
        CancelOutcome {
            asset_return: AssetTransfer {
                from: AccountRef::Vault(self.auction_id),
                to: AccountRef::User(self.creator),
                nft_mint: self.nft_mint,
            },
            event: AuctionCancelled { auction_id: self.auction_id, reason },
        }
    }

    /// Reclaim the asset of an auction that ran to its deadline without a
    /// single bid.
    ///
    /// On success the record turns `Cancelled` — terminal — and the asset
    /// goes back to the stored creator, whatever account invoked the
    /// operation. On rejection nothing changes.
    pub fn withdraw_unsold_nft(&mut self, now: i64) -> (r: Result<CancelOutcome, AuctionError>)
        requires
            old(self).wf(),
        ensures
            final(self).wf(),
            r is Ok <==> old(self).withdraw_allowed(now),
            (r matches Err(e) ==> *final(self) == *old(self) && e == old(self).withdraw_rejection(
                now,
            )),
            (r matches Ok(out) ==> *final(self) == old(self).after_cancelled() && out == old(
                self,
            ).cancel_outcome(CancelReason::NoBidsPlaced)),
    {
        if now < self.end_time {
            return Err(AuctionError::AuctionNotEnded);
        }
        if self.highest_bid > 0 {
            return Err(AuctionError::AuctionHasBids);
        }
        if self.status != AuctionStatus::Active {
            return Err(AuctionError::AuctionNotActive);
        }
        let asset_return = AssetTransfer {
            from: AccountRef::Vault(self.auction_id),
            to: AccountRef::User(self.creator),
            nft_mint: self.nft_mint,
        };
        self.status = AuctionStatus::Cancelled;
        let event = AuctionCancelled {
            auction_id: self.auction_id,
            reason: CancelReason::NoBidsPlaced,
        };
        Ok(CancelOutcome { asset_return, event })
    }

    /// Whether a cancellation by `caller` must succeed: the auction is
    /// active, no bid was ever accepted, and the caller is the creator.
    /// There is no deadline check — a bidless auction may be cancelled
    /// before or after its end time.
    pub open spec fn cancel_allowed(self, caller: AccountId) -> bool {
        self.status is Active && self.highest_bid == 0 && caller == self.creator
    }

    /// The rejection reported for a refused cancellation, checking the
    /// status first, then the presence of bids, then the caller.
    pub open spec fn cancel_rejection(self, caller: AccountId) -> AuctionError {
        if !(self.status is Active) {
            AuctionError::AuctionNotActive
        } else if self.highest_bid > 0 {
            AuctionError::AuctionHasBids
        } else {
            AuctionError::UnauthorizedCancellation
        }
    }

    /// Cancel a bidless auction on the creator's behalf.
    ///
    /// On success the record turns `Cancelled` — terminal — and the asset
    /// goes back to the creator. On rejection nothing changes.
    pub fn cancel_auction(&mut self, caller: AccountId) -> (r: Result<CancelOutcome, AuctionError>)
        requires
            old(self).wf(),
        ensures
            final(self).wf(),
            r is Ok <==> old(self).cancel_allowed(caller),
            (r matches Err(e) ==> *final(self) == *old(self) && e == old(self).cancel_rejection(
                caller,
            )),
            (r matches Ok(out) ==> *final(self) == old(self).after_cancelled() && out == old(
                self,
            ).cancel_outcome(CancelReason::CancelledByCreator)),
    {
        if self.status != AuctionStatus::Active {
            return Err(AuctionError::AuctionNotActive);
        }
        if self.highest_bid > 0 {
            return Err(AuctionError::AuctionHasBids);
        }
        if caller != self.creator {
            return Err(AuctionError::UnauthorizedCancellation);
        }
        let asset_return = AssetTransfer {
            from: AccountRef::Vault(self.auction_id),
            to: AccountRef::User(self.creator),
            nft_mint: self.nft_mint,
        };
        self.status = AuctionStatus::Cancelled;
        let event = AuctionCancelled {
            auction_id: self.auction_id,
            reason: CancelReason::CancelledByCreator,
        };
        Ok(CancelOutcome { asset_return, event })
    }

    /// Whether a settings update by `caller` must succeed: the auction is
    /// active and bidless, the caller is the creator, and each supplied
    /// value is positive. Both fields are independently optional.
    pub open spec fn update_allowed(
        self,
        caller: AccountId,
        new_duration: Option<i64>,
        new_min_increment: Option<u64>,
    ) -> bool {
        &&& self.status is Active
        &&& self.highest_bid == 0
        &&& caller == self.creator
        &&& (new_duration matches Some(d) ==> d > 0)
        &&& (new_min_increment matches Some(m) ==> m > 0)
    }

    /// The rejection reported for a refused settings update, checking the
    /// status first, then the presence of bids, then the caller, then the
    /// duration, then the increment.
    pub open spec fn update_rejection(
        self,
        caller: AccountId,
        new_duration: Option<i64>,
        new_min_increment: Option<u64>,
    ) -> AuctionError {
        if !(self.status is Active) {
            AuctionError::AuctionNotActive
        } else if self.highest_bid > 0 {
            AuctionError::AuctionHasBids
        } else if caller != self.creator {
            AuctionError::UnauthorizedUpdate
        } else if new_duration matches Some(d) && d <= 0 {
            AuctionError::InvalidDuration
        } else {
            AuctionError::InvalidBidIncrement
        }
    }

    /// The record after a settings update: a supplied duration recomputes
    /// the deadline from the current time, a supplied increment replaces
    /// the old one, and an omitted field stays as it was.
    pub open spec fn after_update(
        self,
        new_duration: Option<i64>,
        new_min_increment: Option<u64>,
        now: i64,
    ) -> Auction {
        Auction {
            end_time: match new_duration {
                Some(d) => (now + d) as i64,
                None => self.end_time,
            },
            min_bid_increment: match new_min_increment {
                Some(m) => m,
                None => self.min_bid_increment,
            },
            ..self
        }
    }

    /// Update the deadline and/or the minimum bid increment of a bidless,
    /// active auction.
    ///
    /// Validation is atomic: if either supplied value is invalid, neither
    /// is applied. On success the event carries exactly the fields that
    /// were supplied. On rejection nothing changes.
    pub fn update_auction_settings(
        &mut self,
        caller: AccountId,
        new_duration: Option<i64>,
        new_min_increment: Option<u64>,
        now: i64,
    ) -> (r: Result<AuctionUpdated, AuctionError>)
        requires
            old(self).wf(),
            (new_duration matches Some(d) ==> (d > 0 ==> now + d <= i64::MAX)),
        ensures
            final(self).wf(),
            r is Ok <==> old(self).update_allowed(caller, new_duration, new_min_increment),
            (r matches Err(e) ==> *final(self) == *old(self) && e == old(self).update_rejection(
                caller,
                new_duration,
                new_min_increment,
            )),
            (r matches Ok(ev) ==> *final(self) == old(self).after_update(
                new_duration,
                new_min_increment,
                now,
            ) && ev == (AuctionUpdated {
                auction_id: old(self).auction_id,
                new_duration,
                new_min_increment,
            })),
    {
        if self.status != AuctionStatus::Active {
            return Err(AuctionError::AuctionNotActive);
        }
        if self.highest_bid > 0 {
            return Err(AuctionError::AuctionHasBids);
        }
        if caller != self.creator {
            return Err(AuctionError::UnauthorizedUpdate);
        }
        if let Some(duration) = new_duration {
            if duration <= 0 {
                return Err(AuctionError::InvalidDuration);
            }
        }
        if let Some(min_increment) = new_min_increment {
            if min_increment == 0 {
                return Err(AuctionError::InvalidBidIncrement);
            }
        }
        if let Some(duration) = new_duration {
            self.end_time = now + duration;
        }
        if let Some(min_increment) = new_min_increment {
            self.min_bid_increment = min_increment;
        }
        let event = AuctionUpdated {
            auction_id: self.auction_id,
            new_duration,
            new_min_increment,
        };
        Ok(event)
    }
}

} // verus!
