use vstd::prelude::*;

use crate::auction::create_outcome;
use crate::auction::create_valid;
use crate::auction::lemma_platform_fee_bounds;
use crate::auction::platform_fee;
use crate::auction::seller_amount;
use crate::auction::Auction;
use crate::custody::balance_of;
use crate::custody::holder_after;
use crate::custody::ledger_after;
use crate::custody::AccountId;
use crate::custody::AccountRef;
use crate::errors::AuctionError;

verus! {

/// For all valid creation parameters, the new record is well-formed,
/// `Active`, with no bid and no bidder — and applying the creation
/// transfer moves the asset out of the creator's hands into the auction's
/// vault, so custody, not the creator, holds it.
pub proof fn lemma_create_establishes_custody(
    auction_id: u64,
    creator: AccountId,
    nft_mint: AccountId,
    starting_bid: u64,
    min_bid_increment: u64,
    duration: i64,
    now: i64,
)
    requires
        create_valid(starting_bid, min_bid_increment, duration),
    ensures
        ({
            let out = create_outcome(
                auction_id,
                creator,
                nft_mint,
                starting_bid,
                min_bid_increment,
                duration,
                now,
            );
            &&& out.auction.wf()
            &&& out.auction.status is Active
            &&& out.auction.highest_bid == 0
            &&& out.auction.highest_bidder is None
            &&& holder_after(AccountRef::User(creator), out.escrow_deposit) == AccountRef::Vault(
                auction_id,
            )
        }),
{
}

/// Accepted bids are strictly increasing: a bid accepted against a record
/// strictly exceeds the bid it displaces, and any bid accepted after it
/// must clear it by at least the minimum increment.
pub proof fn lemma_accepted_bids_monotonic(
    a: Auction,
    bidder1: AccountId,
    b1: u64,
    now1: i64,
    bidder2: AccountId,
    b2: u64,
    now2: i64,
)
    requires
        a.wf(),
        a.bid_allowed(b1, now1),
        a.after_bid(bidder1, b1).bid_allowed(b2, now2),
    ensures
        b1 > a.highest_bid,
        b2 >= b1 + a.min_bid_increment,
        b2 > b1,
{
}

/// A displaced bidder is made whole: after an accepted bid that displaces
/// a prior one, applying the refund and then the new deposit to any
/// ledger leaves the displaced bidder's balance exactly their prior bid
/// amount higher — a full refund, no loss.
pub proof fn lemma_displaced_bidder_refunded(
    a: Auction,
    bidder: AccountId,
    bid_amount: u64,
    now: i64,
    ledger: Map<AccountRef, int>,
)
    requires
        a.wf(),
        a.bid_allowed(bid_amount, now),
        a.highest_bid > 0,
        a.highest_bidder != Some(bidder),
    ensures
        ({
            let out = a.bid_outcome(bidder, bid_amount);
            let displaced = AccountRef::User(a.highest_bidder.unwrap());
            let settled = ledger_after(ledger_after(ledger, out.refund.unwrap()), out.deposit);
            balance_of(settled, displaced) == balance_of(ledger, displaced) + a.highest_bid
        }),
{
}

/// Escrow tracks the leading bid: if escrow holds exactly the old highest
/// bid before an accepted bid, then after the refund (when owed) and the
/// new deposit it holds exactly the new one.
pub proof fn lemma_escrow_tracks_highest_bid(
    a: Auction,
    bidder: AccountId,
    bid_amount: u64,
    now: i64,
    ledger: Map<AccountRef, int>,
)
    requires
        a.wf(),
        a.bid_allowed(bid_amount, now),
        balance_of(ledger, AccountRef::Escrow(a.auction_id)) == a.highest_bid,
    ensures
        ({
            let out = a.bid_outcome(bidder, bid_amount);
            let refunded = match out.refund {
                Some(t) => ledger_after(ledger, t),
                None => ledger,
            };
            let settled = ledger_after(refunded, out.deposit);
            balance_of(settled, AccountRef::Escrow(a.auction_id)) == a.after_bid(
                bidder,
                bid_amount,
            ).highest_bid
        }),
{
}

/// A bid below the starting bid, or below the current highest bid plus
/// the minimum increment, is never accepted — and `place_bid`'s contract
/// then leaves the record unchanged. Where the auction is otherwise open
/// for bidding, the rejection names the check that failed.
pub proof fn lemma_low_bid_rejected(a: Auction, bid_amount: u64, now: i64)
    requires
        a.wf(),
        bid_amount < a.starting_bid || (a.highest_bid > 0 && bid_amount < a.highest_bid
            + a.min_bid_increment),
    ensures
        !a.bid_allowed(bid_amount, now),
        (now < a.end_time && a.status is Active && bid_amount < a.starting_bid)
            ==> a.bid_rejection(bid_amount, now) == AuctionError::BidTooLow,
        (now < a.end_time && a.status is Active && bid_amount >= a.starting_bid)
            ==> a.bid_rejection(bid_amount, now) == AuctionError::BidIncrementTooLow,
{
}

/// Finalize before the deadline always fails, with `AuctionNotEnded`.
pub proof fn lemma_finalize_before_deadline_rejected(a: Auction, now: i64)
    requires
        now < a.end_time,
    ensures
        !a.finalize_allowed(now),
        a.finalize_rejection(now) == AuctionError::AuctionNotEnded,
{
}

/// Finalize is not repeatable: once an auction has been finalized, a
/// second finalize at any later time fails with `AuctionNotActive`.
pub proof fn lemma_finalize_twice_rejected(a: Auction, now1: i64, now2: i64)
    requires
        a.finalize_allowed(now1),
        now1 <= now2,
    ensures
        !a.after_finalize().finalize_allowed(now2),
        a.after_finalize().finalize_rejection(now2) == AuctionError::AuctionNotActive,
{
}

/// The settlement split is exact for every winning bid `v`, including
/// those where `v * 25` is not divisible by 1000: the fee is
/// `floor(v * 25 / 1000)`, the seller gets the rest, and the two parts
/// recombine to exactly `v` — no rounding leak.
pub proof fn lemma_fee_split_exact(v: u64)
    ensures
        platform_fee(v) == v * 25 / 1000,
        seller_amount(v) == v - platform_fee(v),
        platform_fee(v) + seller_amount(v) == v,
        0 <= platform_fee(v) <= v,
{
    lemma_platform_fee_bounds(v);
}

/// A settlement with a winner drains escrow exactly: its two payouts both
/// draw on the auction's escrow account and together amount to precisely
/// the winning bid.
pub proof fn lemma_settlement_drains_escrow(a: Auction)
    requires
        a.wf(),
        a.highest_bid > 0,
    ensures
        ({
            let s = a.settlement().unwrap();
            &&& s.seller_payout.amount + s.fee_payout.amount == a.highest_bid
            &&& s.seller_payout.from == AccountRef::Escrow(a.auction_id)
            &&& s.fee_payout.from == AccountRef::Escrow(a.auction_id)
            &&& s.seller_payout.to == AccountRef::User(a.creator)
            &&& s.fee_payout.to == AccountRef::Platform
        }),
{
    lemma_platform_fee_bounds(a.highest_bid);
}

/// Once any bid has been accepted, neither cancel nor withdraw-unsold can
/// ever succeed, whoever calls and whenever; against an active record the
/// rejection is `AuctionHasBids`.
pub proof fn lemma_no_unwind_once_bid(a: Auction, caller: AccountId, now: i64)
    requires
        a.highest_bid > 0,
    ensures
        !a.cancel_allowed(caller),
        !a.withdraw_allowed(now),
        a.status is Active ==> a.cancel_rejection(caller) == AuctionError::AuctionHasBids,
        (a.status is Active && now >= a.end_time) ==> a.withdraw_rejection(now)
            == AuctionError::AuctionHasBids,
{
}

/// `Completed` and `Cancelled` are terminal: no operation is permitted
/// against a record whose status is no longer `Active`, so by the
/// operations' contracts a terminal record is never mutated again.
pub proof fn lemma_terminal_states_are_final(
    a: Auction,
    caller: AccountId,
    bid_amount: u64,
    now: i64,
    new_duration: Option<i64>,
    new_min_increment: Option<u64>,
)
    requires
        !(a.status is Active),
    ensures
        !a.bid_allowed(bid_amount, now),
        !a.finalize_allowed(now),
        !a.withdraw_allowed(now),
        !a.cancel_allowed(caller),
        !a.update_allowed(caller, new_duration, new_min_increment),
{
}

} // verus!
