use auction::auction::{bid, end_auction, initialize, refund, Auction};
use auction::errors::{AuctionError, ErrorKind};
use auction::identity::Identity;
use auction::ledger::{deposit_to_treasury, transfer_from_treasury};
use auction::state::{accept_bid, open_auction, refund_deposit, settle_prize, State};

fn seller() -> Identity {
    Identity::new(1, 1)
}

fn alice() -> Identity {
    Identity::new(2, 2)
}

fn bob() -> Identity {
    Identity::new(3, 3)
}

fn opened(duration: i64) -> Auction {
    let mut slot: Option<Auction> = None;
    assert_eq!(initialize(&mut slot, seller(), 0, duration), Ok(()));
    slot.unwrap()
}

#[test]
fn end_to_end_scenario() {
    let mut a = opened(100);
    assert_eq!(a.state().deadline, 100);
    assert_eq!(a.state().highest_bidder_account, None);
    let mut alice_funds: u64 = 50;
    let mut bob_funds: u64 = 50;
    let mut seller_funds: u64 = 0;

    assert_eq!(bid(&mut a, 10, alice(), 5, &mut alice_funds), Ok(()));
    assert_eq!(a.state().highest_bid_amount, 5);
    assert_eq!(a.state().highest_bidder_account, Some(alice()));

    assert_eq!(bid(&mut a, 20, bob(), 3, &mut bob_funds), Ok(()));
    assert_eq!(a.state().highest_bid_amount, 5);
    assert_eq!(a.state().highest_bidder_account, Some(alice()));

    assert_eq!(bid(&mut a, 30, bob(), 7, &mut bob_funds), Ok(()));
    assert_eq!(a.state().highest_bid_amount, 7);
    assert_eq!(a.state().highest_bidder_account, Some(bob()));
    assert_eq!(bob_funds, 43);
    assert_eq!(a.deposit_of(bob()), Some(7));
    assert_eq!(a.treasury(), 12);

    let mut carol_funds: u64 = 50;
    let carol = Identity::new(4, 4);
    assert_eq!(bid(&mut a, 101, carol, 9, &mut carol_funds), Err(AuctionError::Finished));
    assert_eq!(carol_funds, 50);
    assert_eq!(a.treasury(), 12);

    assert_eq!(end_auction(&mut a, 101, seller(), &mut seller_funds), Ok(()));
    assert_eq!(seller_funds, 7);
    assert!(a.state().seller_payed);
    assert_eq!(a.state().highest_bid_amount, 0);
    assert_eq!(a.treasury(), 5);

    assert_eq!(refund(&mut a, 102, alice(), &mut alice_funds), Ok(()));
    assert_eq!(alice_funds, 50);
    assert_eq!(a.deposit_of(alice()), None);

    assert_eq!(refund(&mut a, 103, bob(), &mut bob_funds), Ok(()));
    assert_eq!(bob_funds, 43);
    assert_eq!(a.bid_count(), 0);
    assert_eq!(a.treasury(), 0);

    assert_eq!(refund(&mut a, 104, alice(), &mut alice_funds), Err(AuctionError::NoSuchBid));
    assert_eq!(alice_funds, 50);
}

#[test]
fn equal_bid_does_not_take_the_lead() {
    let mut a = opened(100);
    let mut fa: u64 = 10;
    let mut fb: u64 = 10;
    assert_eq!(bid(&mut a, 1, alice(), 4, &mut fa), Ok(()));
    assert_eq!(bid(&mut a, 2, bob(), 4, &mut fb), Ok(()));
    assert_eq!(a.state().highest_bidder_account, Some(alice()));
    assert_eq!(a.state().highest_bid_amount, 4);
    assert_eq!(a.treasury(), 8);
}

#[test]
fn leader_is_maximum_over_many_bids() {
    let mut a = opened(1000);
    let amounts: [u64; 6] = [3, 9, 2, 9, 11, 5];
    for (k, amt) in amounts.iter().enumerate() {
        let who = Identity::new(10 + k as u128, 0);
        let mut funds: u64 = 100;
        assert_eq!(bid(&mut a, k as i64, who, *amt, &mut funds), Ok(()));
    }
    assert_eq!(a.state().highest_bid_amount, 11);
    assert_eq!(a.state().highest_bidder_account, Some(Identity::new(14, 0)));
    assert_eq!(a.treasury(), 39);
}

#[test]
fn first_to_reach_maximum_leads() {
    let mut a = opened(1000);
    let mut f: u64 = 100;
    assert_eq!(bid(&mut a, 1, Identity::new(20, 0), 9, &mut f), Ok(()));
    assert_eq!(bid(&mut a, 2, Identity::new(21, 0), 9, &mut f), Ok(()));
    assert_eq!(bid(&mut a, 3, Identity::new(22, 0), 8, &mut f), Ok(()));
    assert_eq!(a.state().highest_bidder_account, Some(Identity::new(20, 0)));
}

#[test]
fn bid_at_deadline_fails_and_changes_nothing() {
    let mut a = opened(100);
    let mut f: u64 = 10;
    let before = a.state();
    assert_eq!(bid(&mut a, 100, alice(), 5, &mut f), Err(AuctionError::Finished));
    assert_eq!(a.state(), before);
    assert_eq!(a.treasury(), 0);
    assert_eq!(a.bid_count(), 0);
    assert_eq!(f, 10);
}

#[test]
fn bid_without_funds_fails() {
    let mut a = opened(100);
    let mut f: u64 = 4;
    assert_eq!(bid(&mut a, 1, alice(), 5, &mut f), Err(AuctionError::TransferFailed));
    assert_eq!(f, 4);
    assert_eq!(a.treasury(), 0);
    assert_eq!(a.state().highest_bidder_account, None);
}

#[test]
fn lower_or_equal_rebid_is_rejected() {
    let mut a = opened(100);
    let mut f: u64 = 20;
    assert_eq!(bid(&mut a, 1, alice(), 5, &mut f), Ok(()));
    assert_eq!(bid(&mut a, 2, alice(), 5, &mut f), Err(AuctionError::BidNotRaised));
    assert_eq!(bid(&mut a, 3, alice(), 2, &mut f), Err(AuctionError::BidNotRaised));
    assert_eq!(f, 15);
    assert_eq!(a.deposit_of(alice()), Some(5));
}

#[test]
fn settle_twice_fails() {
    let mut a = opened(10);
    let mut f: u64 = 20;
    let mut s: u64 = 0;
    assert_eq!(bid(&mut a, 1, alice(), 6, &mut f), Ok(()));
    assert_eq!(end_auction(&mut a, 10, seller(), &mut s), Ok(()));
    assert_eq!(end_auction(&mut a, 11, seller(), &mut s), Err(AuctionError::AlreadyClaimedPrize));
    assert_eq!(s, 6);
}

#[test]
fn settle_before_deadline_fails() {
    let mut a = opened(10);
    let mut s: u64 = 0;
    assert_eq!(end_auction(&mut a, 9, seller(), &mut s), Err(AuctionError::StillActive));
}

#[test]
fn settle_by_other_fails() {
    let mut a = opened(10);
    let mut s: u64 = 0;
    assert_eq!(end_auction(&mut a, 20, alice(), &mut s), Err(AuctionError::Unauthorized));
    assert!(!a.state().seller_payed);
}

#[test]
fn settle_with_no_bids_pays_nothing() {
    let mut a = opened(10);
    let mut s: u64 = 3;
    assert_eq!(end_auction(&mut a, 10, seller(), &mut s), Ok(()));
    assert_eq!(s, 3);
    assert!(a.state().seller_payed);
}

#[test]
fn settle_overflowing_seller_balance_fails() {
    let mut a = opened(10);
    let mut f: u64 = 20;
    let mut s: u64 = u64::MAX;
    assert_eq!(bid(&mut a, 1, alice(), 6, &mut f), Ok(()));
    assert_eq!(end_auction(&mut a, 10, seller(), &mut s), Err(AuctionError::TransferFailed));
    assert!(!a.state().seller_payed);
    assert_eq!(a.treasury(), 6);
}

#[test]
fn refund_before_settle_fails() {
    let mut a = opened(10);
    let mut f: u64 = 20;
    assert_eq!(bid(&mut a, 1, alice(), 6, &mut f), Ok(()));
    assert_eq!(refund(&mut a, 10, alice(), &mut f), Err(AuctionError::UnclaimedPrize));
    assert_eq!(refund(&mut a, 50, bob(), &mut f), Err(AuctionError::UnclaimedPrize));
    assert_eq!(refund(&mut a, 5, alice(), &mut f), Err(AuctionError::StillActive));
    assert_eq!(a.deposit_of(alice()), Some(6));
}

#[test]
fn refund_without_bid_fails() {
    let mut a = opened(10);
    let mut s: u64 = 0;
    let mut f: u64 = 0;
    assert_eq!(end_auction(&mut a, 10, seller(), &mut s), Ok(()));
    assert_eq!(refund(&mut a, 10, bob(), &mut f), Err(AuctionError::NoSuchBid));
}

#[test]
fn initialize_twice_fails() {
    let mut slot: Option<Auction> = None;
    assert_eq!(initialize(&mut slot, seller(), 5, 10), Ok(()));
    assert_eq!(initialize(&mut slot, seller(), 6, 99), Err(AuctionError::AlreadyExists));
    assert_eq!(slot.unwrap().state().deadline, 15);
}

#[test]
fn initialize_with_overflowing_duration_fails() {
    let mut slot: Option<Auction> = None;
    assert_eq!(initialize(&mut slot, seller(), 10, i64::MAX), Err(AuctionError::InvalidDuration));
    assert!(slot.is_none());
    assert_eq!(initialize(&mut slot, seller(), 0, i64::MAX), Ok(()));
}

#[test]
fn open_auction_record() {
    let s = open_auction(seller(), 7, 3).unwrap();
    assert_eq!(
        s,
        State {
            deadline: 10,
            initializer: seller(),
            seller_payed: false,
            highest_bid_amount: 0,
            highest_bidder_account: None,
        }
    );
    assert_eq!(open_auction(seller(), i64::MIN, -1), Err(AuctionError::InvalidDuration));
}

#[test]
fn accept_bid_reports_what_is_owed() {
    let mut s = open_auction(seller(), 0, 10).unwrap();
    assert_eq!(accept_bid(&mut s, 1, alice(), 8, None), Ok(8));
    assert_eq!(accept_bid(&mut s, 2, alice(), 12, Some(8)), Ok(4));
    assert_eq!(s.highest_bid_amount, 12);
    assert_eq!(accept_bid(&mut s, 3, bob(), 12, None), Ok(12));
    assert_eq!(s.highest_bidder_account, Some(alice()));
    assert_eq!(accept_bid(&mut s, 10, bob(), 20, None), Err(AuctionError::Finished));
}

#[test]
fn settle_prize_and_refund_deposit_move_funds() {
    let mut s = open_auction(seller(), 0, 10).unwrap();
    assert_eq!(accept_bid(&mut s, 1, alice(), 8, None), Ok(8));
    let mut treasury: u64 = 11;
    let mut seller_funds: u64 = 1;
    assert_eq!(settle_prize(&mut s, 10, seller(), 8, &mut treasury, &mut seller_funds), Ok(()));
    assert_eq!((treasury, seller_funds), (3, 9));
    let mut alice_funds: u64 = 0;
    assert_eq!(refund_deposit(&s, 10, alice(), 8, &mut treasury, &mut alice_funds), Ok(()));
    assert_eq!((treasury, alice_funds), (3, 0));
    let mut bob_funds: u64 = 0;
    assert_eq!(refund_deposit(&s, 10, bob(), 3, &mut treasury, &mut bob_funds), Ok(()));
    assert_eq!((treasury, bob_funds), (0, 3));
    assert_eq!(
        refund_deposit(&s, 10, bob(), 3, &mut treasury, &mut bob_funds),
        Err(AuctionError::TreasuryInsufficientFunds)
    );
}

#[test]
fn transfers_are_all_or_nothing() {
    let mut t: u64 = 5;
    let mut d: u64 = 1;
    assert_eq!(transfer_from_treasury(&mut t, &mut d, 6), Err(AuctionError::TreasuryInsufficientFunds));
    assert_eq!((t, d), (5, 1));
    assert_eq!(transfer_from_treasury(&mut t, &mut d, 5), Ok(()));
    assert_eq!((t, d), (0, 6));
    let mut src: u64 = 2;
    assert_eq!(deposit_to_treasury(&mut src, &mut t, 3), Err(AuctionError::TransferFailed));
    assert_eq!(deposit_to_treasury(&mut src, &mut t, 2), Ok(()));
    assert_eq!((src, t), (0, 2));
    let mut full: u64 = u64::MAX;
    let mut one: u64 = 1;
    assert_eq!(deposit_to_treasury(&mut one, &mut full, 1), Err(AuctionError::TransferFailed));
}

#[test]
fn error_kinds() {
    assert_eq!(AuctionError::StillActive.kind(), ErrorKind::TemporalViolation);
    assert_eq!(AuctionError::Finished.kind(), ErrorKind::TemporalViolation);
    assert_eq!(AuctionError::AlreadyClaimedPrize.kind(), ErrorKind::StateConflict);
    assert_eq!(AuctionError::NoSuchBid.kind(), ErrorKind::StateConflict);
    assert_eq!(AuctionError::TransferFailed.kind(), ErrorKind::FundsViolation);
    assert_eq!(AuctionError::Unauthorized.kind(), ErrorKind::AuthorizationViolation);
    assert!(AuctionError::TreasuryInsufficientFunds.is_fatal());
    assert!(!AuctionError::TransferFailed.is_fatal());
}
