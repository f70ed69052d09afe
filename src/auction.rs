//! One auction with its bids and escrow, and its four operations.
use vstd::prelude::*;
use crate::errors::AuctionError;
use crate::escrow::{held, position, unique_bidders};
use crate::identity::Identity;
use crate::ledger::{deposit_to_treasury, transfer_from_treasury, transfer_outcome};
use crate::laws::{lemma_bid_keeps_invariant, lemma_refund_keeps_invariant, lemma_settle_keeps_invariant};
use crate::state::{accept_bid, fits_i64, open_auction, refund_deposit, settle_prize, State, UserBid};

verus! {

/// An auction as a value: its record, the outstanding bids and the escrow.
pub struct AuctionView {
    pub state: State,
    pub bids: Seq<UserBid>,
    pub treasury: u64,
}

impl AuctionView {
    /// The bidder whose deposit has already gone to the seller, if any.
    pub open spec fn paid_out(self) -> Option<Identity> {
        if self.state.seller_payed {
            self.state.highest_bidder_account
        } else {
            None
        }
    }

    /// The escrow holds exactly what the outstanding bids deposited, less the
    /// winning deposit once the seller has collected it.
    pub open spec fn escrow_conserved(self) -> bool {
        self.treasury as int == held(self.bids, self.paid_out())
    }

    /// The leader is the holder of the largest outstanding bid until the
    /// seller is paid; after that the leading amount is zero.
    pub open spec fn leader_consistent(self) -> bool {
        if self.state.seller_payed {
            self.state.highest_bid_amount == 0
        } else {
            &&& forall|i: int|
                0 <= i < self.bids.len() ==> #[trigger] self.bids[i].amount
                    <= self.state.highest_bid_amount
            &&& match self.state.highest_bidder_account {
                None => self.state.highest_bid_amount == 0,
                Some(w) => {
                    &&& position(self.bids, w) >= 0
                    &&& self.bids[position(self.bids, w)].amount == self.state.highest_bid_amount
                    &&& self.state.highest_bid_amount > 0
                },
            }
        }
    }

    pub open spec fn inv(self) -> bool {
        &&& unique_bidders(self.bids)
        &&& self.escrow_conserved()
        &&& self.leader_consistent()
    }

    /// The current deposit of `who`, if it holds a bid.
    pub open spec fn deposit_of(self, who: Identity) -> Option<u64> {
        if position(self.bids, who) >= 0 {
            Some(self.bids[position(self.bids, who)].amount)
        } else {
            None
        }
    }

    /// What a bid of `amount` by `bidder` adds to the escrow.
    pub open spec fn owed(self, bidder: Identity, amount: u64) -> u64 {
        match self.deposit_of(bidder) {
            Some(p) => (amount - p) as u64,
            None => amount,
        }
    }

    pub open spec fn bid_result(self, now: i64, bidder: Identity, amount: u64, funds: u64) -> Result<
        (),
        AuctionError,
    > {
        match self.state.bid_outcome(now, amount, self.deposit_of(bidder)) {
            Err(e) => Err(e),
            Ok(owed) => transfer_outcome(funds, self.treasury, owed, AuctionError::TransferFailed),
        }
    }

    /// The auction after an accepted bid of `amount` by `bidder`.
    pub open spec fn with_bid(self, bidder: Identity, amount: u64) -> AuctionView {
        let b = UserBid { bidder, amount };
        AuctionView {
            state: self.state.after_bid(bidder, amount),
            bids: if position(self.bids, bidder) >= 0 {
                self.bids.update(position(self.bids, bidder), b)
            } else {
                self.bids.push(b)
            },
            treasury: (self.treasury + self.owed(bidder, amount)) as u64,
        }
    }

    /// The winning deposit: zero when nobody leads.
    pub open spec fn prize(self) -> u64 {
        match self.state.highest_bidder_account {
            Some(w) => match self.deposit_of(w) {
                Some(a) => a,
                None => 0,
            },
            None => 0,
        }
    }

    pub open spec fn settle_result(self, now: i64, caller: Identity, funds: u64) -> Result<
        (),
        AuctionError,
    > {
        match self.state.settle_outcome(now, caller) {
            Err(e) => Err(e),
            Ok(_) => transfer_outcome(
                self.treasury,
                funds,
                self.prize(),
                AuctionError::TreasuryInsufficientFunds,
            ),
        }
    }

    /// The auction once the seller has collected the prize.
    pub open spec fn with_settlement(self) -> AuctionView {
        AuctionView {
            state: self.state.settled(),
            bids: self.bids,
            treasury: (self.treasury - self.prize()) as u64,
        }
    }

    /// What a refund pays back to `bidder`.
    pub open spec fn refund_due(self, bidder: Identity) -> u64 {
        match self.deposit_of(bidder) {
            Some(a) => self.state.refund_owed(bidder, a),
            None => 0,
        }
    }

    pub open spec fn refund_result(self, now: i64, bidder: Identity, funds: u64) -> Result<
        (),
        AuctionError,
    > {
        match self.state.refund_outcome(now) {
            Err(e) => Err(e),
            Ok(_) => if position(self.bids, bidder) < 0 {
                Err(AuctionError::NoSuchBid)
            } else {
                transfer_outcome(
                    self.treasury,
                    funds,
                    self.refund_due(bidder),
                    AuctionError::TreasuryInsufficientFunds,
                )
            },
        }
    }

    /// The auction once `bidder` has been refunded and its bid closed.
    pub open spec fn with_refund(self, bidder: Identity) -> AuctionView {
        AuctionView {
            state: self.state,
            bids: self.bids.remove(position(self.bids, bidder)),
            treasury: (self.treasury - self.refund_due(bidder)) as u64,
        }
    }
}

/// An open auction: its record, the outstanding bids (at most one per
/// bidder) and the escrow balance.
pub struct Auction {
    state: State,
    bids: Vec<UserBid>,
    treasury: u64,
}

impl View for Auction {
    type V = AuctionView;

    closed spec fn view(&self) -> AuctionView {
        AuctionView { state: self.state, bids: self.bids@, treasury: self.treasury }
    }
}

impl Auction {
    /// The auction's record.
    pub fn state(&self) -> (r: State)
        ensures
            r == self@.state,
    {
        self.state
    }

    /// The escrow balance.
    pub fn treasury(&self) -> (r: u64)
        ensures
            r == self@.treasury,
    {
        self.treasury
    }

    /// The number of outstanding bids.
    pub fn bid_count(&self) -> (r: usize)
        ensures
            r == self@.bids.len(),
    {
        self.bids.len()
    }

    /// Where `who`'s bid stands, if it holds one.
    fn find(&self, who: Identity) -> (r: Option<usize>)
        requires
            unique_bidders(self@.bids),
        ensures
            match r {
                Some(i) => i as int == position(self@.bids, who) && i < self@.bids.len(),
                None => position(self@.bids, who) < 0,
            },
    {
        proof {
            crate::escrow::lemma_position(self@.bids, who);
        }
        let mut i: usize = 0;
        while i < self.bids.len()
            invariant
                i <= self.bids@.len(),
                forall|k: int| 0 <= k < i ==> #[trigger] self.bids@[k].bidder != who,
                unique_bidders(self.bids@),
            decreases self.bids.len() - i,
        {
            if self.bids[i].bidder.same_as(&who) {
                proof {
                    crate::escrow::lemma_position_at(self.bids@, who, i as int);
                }
                return Some(i);
            }
            i = i + 1;
        }
        None
    }

    /// The current deposit of `who`, if it holds a bid.
    pub fn deposit_of(&self, who: Identity) -> (r: Option<u64>)
        requires
            self@.inv(),
        ensures
            r == self@.deposit_of(who),
    {
        match self.find(who) {
            Some(i) => Some(self.bids[i].amount),
            None => None,
        }
    }
}

/// Opens an auction for `seller` in the record slot `slot`, with bidding open
/// until `auction_duration` seconds after `now`, no bids and an empty escrow.
/// An occupied slot gives `AlreadyExists`; a deadline that does not fit in a
/// timestamp gives `InvalidDuration`.
pub fn initialize(slot: &mut Option<Auction>, seller: Identity, now: i64, auction_duration: i64) -> (r:
    Result<(), AuctionError>)
    ensures
        (*old(slot)).is_some() ==> r == Err::<(), AuctionError>(AuctionError::AlreadyExists),
        (*old(slot)).is_none() && !fits_i64(now + auction_duration) ==> r == Err::<(), AuctionError>(
            AuctionError::InvalidDuration,
        ),
        (*old(slot)).is_none() && fits_i64(now + auction_duration) ==> r is Ok,
        r is Ok ==> (*final(slot) matches Some(a) && a@ == (AuctionView {
            state: State::opened(seller, now, auction_duration),
            bids: Seq::empty(),
            treasury: 0,
        }) && a@.inv()),
        r is Err ==> *final(slot) == *old(slot),
{
    if slot.is_some() {
        return Err(AuctionError::AlreadyExists);
    }
    let state = open_auction(seller, now, auction_duration)?;
    let a = Auction { state, bids: Vec::new(), treasury: 0 };
    assert(a@.bids =~= Seq::<UserBid>::empty());
    *slot = Some(a);
    Ok(())
}

/// Places a bid of `amount` by `bidder` at `now`, paid from `bidder_funds`.
/// Bidding is closed from the deadline on and once the prize is collected
/// (`Finished`). A bidder who already holds a bid may only raise it
/// (`BidNotRaised` otherwise), and then pays in only the difference. A bidder
/// who cannot pay gives `TransferFailed`. On success the deposit enters the
/// escrow, the bidder's bid records the amount, and the bidder takes the lead
/// only with an amount strictly greater than the leading one.
pub fn bid(auction: &mut Auction, now: i64, bidder: Identity, amount: u64, bidder_funds: &mut u64) -> (r:
    Result<(), AuctionError>)
    requires
        old(auction)@.inv(),
    ensures
        final(auction)@.inv(),
        r == old(auction)@.bid_result(now, bidder, amount, *old(bidder_funds)),
        r is Ok ==> final(auction)@ == old(auction)@.with_bid(bidder, amount) && *final(bidder_funds) == *old(bidder_funds) - old(auction)@.owed(bidder, amount),
        r is Err ==> final(auction)@ == old(auction)@ && *final(bidder_funds) == *old(bidder_funds),
{
    let ghost v = auction@;
    let found = auction.find(bidder);
    let previous: Option<u64> = match found {
        Some(i) => Some(auction.bids[i].amount),
        None => None,
    };
    let mut next = auction.state;
    let owed = accept_bid(&mut next, now, bidder, amount, previous)?;
    deposit_to_treasury(bidder_funds, &mut auction.treasury, owed)?;
    proof {
        lemma_bid_keeps_invariant(v, now, bidder, amount, *old(bidder_funds));
    }
    auction.state = next;
    let b = UserBid { bidder, amount };
    match found {
        Some(i) => {
            auction.bids[i] = b;
        },
        None => {
            auction.bids.push(b);
        },
    }
    assert(auction@.bids =~= v.with_bid(bidder, amount).bids);
    Ok(())
}

/// Pays the seller the winning deposit once the deadline has passed. Only the
/// seller may call it (`Unauthorized`), not before the deadline
/// (`StillActive`) and only once (`AlreadyClaimedPrize`). With no bids the
/// payout is zero. On success the prize is marked collected and the leading
/// amount reset; the winning bid stays on record.
pub fn end_auction(auction: &mut Auction, now: i64, caller: Identity, seller_funds: &mut u64) -> (r:
    Result<(), AuctionError>)
    requires
        old(auction)@.inv(),
    ensures
        final(auction)@.inv(),
        r == old(auction)@.settle_result(now, caller, *old(seller_funds)),
        r is Ok ==> final(auction)@ == old(auction)@.with_settlement() && *final(seller_funds)
            == *old(seller_funds) + old(auction)@.prize(),
        r is Err ==> final(auction)@ == old(auction)@ && *final(seller_funds) == *old(seller_funds),
{
    let ghost v = auction@;
    let prize: u64 = match auction.state.highest_bidder_account {
        Some(w) => match auction.find(w) {
            Some(i) => auction.bids[i].amount,
            None => 0,
        },
        None => 0,
    };
    settle_prize(&mut auction.state, now, caller, prize, &mut auction.treasury, seller_funds)?;
    proof {
        lemma_settle_keeps_invariant(v, now, caller, *old(seller_funds));
    }
    Ok(())
}

/// Returns `bidder`'s deposit once the seller has been paid and closes its
/// bid: not before the deadline (`StillActive`) nor before the seller is paid
/// (`UnclaimedPrize`), and only for a bidder that holds a bid (`NoSuchBid`).
/// A losing bidder gets its whole deposit back; the winner, whose deposit
/// went to the seller, gets nothing, and its bid is closed all the same.
pub fn refund(auction: &mut Auction, now: i64, bidder: Identity, bidder_funds: &mut u64) -> (r:
    Result<(), AuctionError>)
    requires
        old(auction)@.inv(),
    ensures
        final(auction)@.inv(),
        r == old(auction)@.refund_result(now, bidder, *old(bidder_funds)),
        r is Ok ==> final(auction)@ == old(auction)@.with_refund(bidder) && *final(bidder_funds)
            == *old(bidder_funds) + old(auction)@.refund_due(bidder),
        r is Err ==> final(auction)@ == old(auction)@ && *final(bidder_funds) == *old(bidder_funds),
{
    let ghost v = auction@;
    if now < auction.state.deadline {
        return Err(AuctionError::StillActive);
    }
    if !auction.state.seller_payed {
        return Err(AuctionError::UnclaimedPrize);
    }
    let i = match auction.find(bidder) {
        Some(i) => i,
        None => {
            return Err(AuctionError::NoSuchBid);
        },
    };
    let deposit = auction.bids[i].amount;
    refund_deposit(&auction.state, now, bidder, deposit, &mut auction.treasury, bidder_funds)?;
    proof {
        lemma_refund_keeps_invariant(v, now, bidder, *old(bidder_funds));
    }
    auction.bids.remove(i);
    Ok(())
}

} // verus!
