use enhanced_auction::auction::fee_split;
use enhanced_auction::auction::Auction;
use enhanced_auction::auction::AuctionStatus;
use enhanced_auction::custody::AccountRef;
use enhanced_auction::errors::AuctionError;
use enhanced_auction::events::AuctionCancelled;
use enhanced_auction::events::AuctionFinalized;
use enhanced_auction::events::CancelReason;

const AUCTION: u64 = 5;
const CREATOR: u64 = 70;
const NFT: u64 = 71;
const ALICE: u64 = 81;
const BOB: u64 = 82;

fn fresh_auction() -> Auction {
    Auction::initialize_auction(AUCTION, CREATOR, NFT, 100, 10, 3600, 1000)
        .expect("valid parameters must be accepted")
        .auction
}

#[test]
fn fee_split_is_exact_for_divisible_and_indivisible_amounts() {
    // 110 * 25 = 2750, not divisible by 1000: floor to 2.
    assert_eq!(fee_split(110), (2, 108));
    // 1000 * 25 = 25000: exactly 25.
    assert_eq!(fee_split(1000), (25, 975));
    // Below the 2.5% granularity the fee floors to zero.
    assert_eq!(fee_split(39), (0, 39));
    assert_eq!(fee_split(40), (1, 39));
    assert_eq!(fee_split(0), (0, 0));
    // 1234567 * 25 = 30864175: floor to 30864.
    assert_eq!(fee_split(1234567), (30864, 1203703));
}

#[test]
fn fee_split_never_leaks_even_at_the_largest_bid() {
    let (fee, seller) = fee_split(u64::MAX);
    assert_eq!(fee, 461_168_601_842_738_790);
    assert_eq!(seller, 17_985_575_471_866_812_825);
    assert_eq!(fee + seller, u64::MAX);
}

#[test]
fn finalize_before_deadline_is_rejected() {
    let mut a = fresh_auction();
    let before = a;
    let r = a.finalize_auction(4599);
    assert_eq!(r.unwrap_err(), AuctionError::AuctionNotEnded);
    assert_eq!(a, before);
}

#[test]
fn finalize_with_winner_splits_funds_and_releases_asset() {
    let mut a = fresh_auction();
    a.place_bid(ALICE, 100, 1500).expect("opening bid is accepted");
    a.place_bid(BOB, 110, 1600).expect("bid meeting the increment is accepted");
    let out = a.finalize_auction(4600).expect("finalize after the deadline succeeds");
    assert_eq!(a.status, AuctionStatus::Completed);
    let s = out.settlement.expect("a won auction settles");
    assert_eq!(s.seller_payout.from, AccountRef::Escrow(AUCTION));
    assert_eq!(s.seller_payout.to, AccountRef::User(CREATOR));
    assert_eq!(s.seller_payout.amount, 108);
    assert_eq!(s.fee_payout.from, AccountRef::Escrow(AUCTION));
    assert_eq!(s.fee_payout.to, AccountRef::Platform);
    assert_eq!(s.fee_payout.amount, 2);
    assert_eq!(s.asset_release.from, AccountRef::Vault(AUCTION));
    assert_eq!(s.asset_release.to, AccountRef::User(BOB));
    assert_eq!(s.asset_release.nft_mint, NFT);
    assert_eq!(
        out.event,
        AuctionFinalized { auction_id: AUCTION, winner: Some(BOB), winning_bid: 110 }
    );
}

#[test]
fn finalize_twice_fails_the_second_time() {
    let mut a = fresh_auction();
    a.place_bid(ALICE, 100, 1500).expect("opening bid is accepted");
    a.finalize_auction(4600).expect("first finalize succeeds");
    let before = a;
    let r = a.finalize_auction(4700);
    assert_eq!(r.unwrap_err(), AuctionError::AuctionNotActive);
    assert_eq!(a, before);
}

#[test]
fn finalize_without_bids_completes_but_moves_nothing() {
    let mut a = fresh_auction();
    let out = a.finalize_auction(4600).expect("finalize after the deadline succeeds");
    assert_eq!(a.status, AuctionStatus::Completed);
    assert_eq!(out.settlement, None);
    assert_eq!(
        out.event,
        AuctionFinalized { auction_id: AUCTION, winner: None, winning_bid: 0 }
    );
}

#[test]
fn withdraw_unsold_returns_asset_to_creator() {
    let mut a = fresh_auction();
    let out = a.withdraw_unsold_nft(4600).expect("a bidless auction past its deadline unwinds");
    assert_eq!(a.status, AuctionStatus::Cancelled);
    assert_eq!(out.asset_return.from, AccountRef::Vault(AUCTION));
    assert_eq!(out.asset_return.to, AccountRef::User(CREATOR));
    assert_eq!(out.asset_return.nft_mint, NFT);
    assert_eq!(
        out.event,
        AuctionCancelled { auction_id: AUCTION, reason: CancelReason::NoBidsPlaced }
    );
    // The record is terminal: a later finalize is refused.
    let r = a.finalize_auction(5000);
    assert_eq!(r.unwrap_err(), AuctionError::AuctionNotActive);
}

#[test]
fn withdraw_unsold_before_deadline_is_rejected() {
    let mut a = fresh_auction();
    let before = a;
    let r = a.withdraw_unsold_nft(4599);
    assert_eq!(r.unwrap_err(), AuctionError::AuctionNotEnded);
    assert_eq!(a, before);
}

#[test]
fn withdraw_unsold_with_bids_is_rejected() {
    let mut a = fresh_auction();
    a.place_bid(ALICE, 100, 1500).expect("opening bid is accepted");
    let before = a;
    let r = a.withdraw_unsold_nft(4600);
    assert_eq!(r.unwrap_err(), AuctionError::AuctionHasBids);
    assert_eq!(a, before);
}

#[test]
fn cancel_by_creator_returns_asset_before_deadline() {
    let mut a = fresh_auction();
    let out = a.cancel_auction(CREATOR).expect("creator cancels a bidless auction");
    assert_eq!(a.status, AuctionStatus::Cancelled);
    assert_eq!(out.asset_return.to, AccountRef::User(CREATOR));
    assert_eq!(
        out.event,
        AuctionCancelled { auction_id: AUCTION, reason: CancelReason::CancelledByCreator }
    );
}

#[test]
fn cancel_by_stranger_is_rejected() {
    let mut a = fresh_auction();
    let before = a;
    let r = a.cancel_auction(CREATOR + 1);
    assert_eq!(r.unwrap_err(), AuctionError::UnauthorizedCancellation);
    assert_eq!(a, before);
}

#[test]
fn cancel_with_bids_is_rejected() {
    let mut a = fresh_auction();
    a.place_bid(ALICE, 100, 1500).expect("opening bid is accepted");
    let before = a;
    let r = a.cancel_auction(CREATOR);
    assert_eq!(r.unwrap_err(), AuctionError::AuctionHasBids);
    assert_eq!(a, before);
}

#[test]
fn cancel_of_terminal_auction_is_rejected() {
    let mut a = fresh_auction();
    a.cancel_auction(CREATOR).expect("first cancel succeeds");
    let r = a.cancel_auction(CREATOR);
    assert_eq!(r.unwrap_err(), AuctionError::AuctionNotActive);
}

#[test]
fn cancellation_reasons_carry_their_wording() {
    assert_eq!(CancelReason::NoBidsPlaced.text(), "No bids placed");
    assert_eq!(CancelReason::CancelledByCreator.text(), "Cancelled by creator");
}
