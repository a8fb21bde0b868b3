use enhanced_auction::auction::Auction;
use enhanced_auction::custody::AccountRef;
use enhanced_auction::custody::FundsTransfer;
use enhanced_auction::errors::AuctionError;
use enhanced_auction::events::BidPlaced;

const AUCTION: u64 = 3;
const CREATOR: u64 = 40;
const NFT: u64 = 41;
const ALICE: u64 = 51;
const BOB: u64 = 52;

fn fresh_auction() -> Auction {
    Auction::initialize_auction(AUCTION, CREATOR, NFT, 100, 10, 3600, 1000)
        .expect("valid parameters must be accepted")
        .auction
}

#[test]
fn opening_bid_at_starting_bid_is_accepted_without_refund() {
    let mut a = fresh_auction();
    let out = a.place_bid(ALICE, 100, 1500).expect("bid at the starting bid is accepted");
    assert_eq!(a.highest_bid, 100);
    assert_eq!(a.highest_bidder, Some(ALICE));
    assert_eq!(out.refund, None);
    assert_eq!(
        out.deposit,
        FundsTransfer { from: AccountRef::User(ALICE), to: AccountRef::Escrow(AUCTION), amount: 100 }
    );
    assert_eq!(out.event, BidPlaced { auction_id: AUCTION, bidder: ALICE, bid_amount: 100 });
}

#[test]
fn bid_below_starting_bid_is_rejected_unchanged() {
    let mut a = fresh_auction();
    let before = a;
    let r = a.place_bid(ALICE, 80, 1500);
    assert_eq!(r.unwrap_err(), AuctionError::BidTooLow);
    assert_eq!(a, before);
}

#[test]
fn bid_below_increment_is_rejected_unchanged() {
    let mut a = fresh_auction();
    a.place_bid(ALICE, 100, 1500).expect("opening bid is accepted");
    let before = a;
    // Needs at least 100 + 10 = 110.
    let r = a.place_bid(BOB, 105, 1600);
    assert_eq!(r.unwrap_err(), AuctionError::BidIncrementTooLow);
    assert_eq!(a, before);
    assert_eq!(a.highest_bid, 100);
    assert_eq!(a.highest_bidder, Some(ALICE));
}

#[test]
fn outbid_refunds_displaced_bidder_in_full() {
    let mut a = fresh_auction();
    a.place_bid(ALICE, 100, 1500).expect("opening bid is accepted");
    let out = a.place_bid(BOB, 110, 1600).expect("bid meeting the increment is accepted");
    assert_eq!(
        out.refund,
        Some(FundsTransfer {
            from: AccountRef::Escrow(AUCTION),
            to: AccountRef::User(ALICE),
            amount: 100,
        })
    );
    assert_eq!(
        out.deposit,
        FundsTransfer { from: AccountRef::User(BOB), to: AccountRef::Escrow(AUCTION), amount: 110 }
    );
    assert_eq!(a.highest_bid, 110);
    assert_eq!(a.highest_bidder, Some(BOB));
}

#[test]
fn accepted_bids_form_a_strictly_increasing_sequence() {
    let mut a = fresh_auction();
    let bids: [u64; 4] = [100, 110, 125, 200];
    let mut previous: u64 = 0;
    for (i, &amount) in bids.iter().enumerate() {
        let bidder = 60 + i as u64;
        let out = a.place_bid(bidder, amount, 1500).expect("each listed bid clears the floor");
        if previous > 0 {
            assert!(amount >= previous + a.min_bid_increment);
            assert_eq!(out.refund.unwrap().amount, previous);
        } else {
            assert_eq!(out.refund, None);
        }
        assert_eq!(a.highest_bid, amount);
        previous = amount;
    }
}

#[test]
fn bid_after_deadline_is_rejected() {
    let mut a = fresh_auction();
    let before = a;
    let r = a.place_bid(ALICE, 100, 4600);
    assert_eq!(r.unwrap_err(), AuctionError::AuctionEnded);
    assert_eq!(a, before);
}

#[test]
fn bid_against_terminal_auction_is_rejected() {
    let mut a = fresh_auction();
    a.cancel_auction(CREATOR).expect("creator cancels a bidless auction");
    // The deadline check comes first, so probe before the deadline.
    let r = a.place_bid(ALICE, 100, 1500);
    assert_eq!(r.unwrap_err(), AuctionError::AuctionNotActive);
}

#[test]
fn huge_bid_cannot_overflow_the_increment_check() {
    let mut a = fresh_auction();
    a.place_bid(ALICE, u64::MAX - 5, 1500).expect("any amount above the floor is accepted");
    let before = a;
    // u64::MAX is above the old bid but below old bid + increment.
    let r = a.place_bid(BOB, u64::MAX, 1600);
    assert_eq!(r.unwrap_err(), AuctionError::BidIncrementTooLow);
    assert_eq!(a, before);
}
