//! The auction record and the rules of each operation on it.
use vstd::prelude::*;
use crate::errors::AuctionError;
use crate::identity::Identity;
use crate::ledger::{transfer_from_treasury, transfer_outcome};

verus! {

/// The record of one auction.
#[derive(Clone, Copy, Debug, PartialEq, Eq, Structural)]
pub struct State {
    /// Bidding is open strictly before this timestamp.
    pub deadline: i64,
    /// The seller.
    pub initializer: Identity,
    /// Whether the seller has collected the winning amount.
    pub seller_payed: bool,
    /// The leading amount; reset to zero once the seller is paid.
    pub highest_bid_amount: u64,
    /// The leading bidder, unset until the first bid that beats zero.
    pub highest_bidder_account: Option<Identity>,
}

/// One bidder's deposit in an auction.
#[derive(Clone, Copy, Debug, PartialEq, Eq, Structural)]
pub struct UserBid {
    pub bidder: Identity,
    pub amount: u64,
}

/// Whether `x` fits in an `i64`.
pub open spec fn fits_i64(x: int) -> bool {
    i64::MIN as int <= x && x <= i64::MAX as int
}

impl State {
    /// The record of an auction that `initializer` opens at `now` for
    /// `auction_duration` seconds.
    pub open spec fn opened(initializer: Identity, now: i64, auction_duration: i64) -> State {
        State {
            deadline: (now + auction_duration) as i64,
            initializer,
            seller_payed: false,
            highest_bid_amount: 0,
            highest_bidder_account: None,
        }
    }

    /// The leadership rule: only a strictly greater amount takes the lead.
    pub open spec fn after_bid(self, bidder: Identity, amount: u64) -> State {
        if amount > self.highest_bid_amount {
            State { highest_bid_amount: amount, highest_bidder_account: Some(bidder), ..self }
        } else {
            self
        }
    }

    /// Whether a bid of `amount` at `now` by a bidder whose current deposit is
    /// `previous` is accepted, and if so what it adds to the escrow.
    pub open spec fn bid_outcome(self, now: i64, amount: u64, previous: Option<u64>) -> Result<
        u64,
        AuctionError,
    > {
        if now >= self.deadline || self.seller_payed {
            Err(AuctionError::Finished)
        } else {
            match previous {
                Some(p) => if amount <= p {
                    Err(AuctionError::BidNotRaised)
                } else {
                    Ok((amount - p) as u64)
                },
                None => Ok(amount),
            }
        }
    }

    /// Whether `caller` may collect the prize at `now`.
    pub open spec fn settle_outcome(self, now: i64, caller: Identity) -> Result<(), AuctionError> {
        if caller != self.initializer {
            Err(AuctionError::Unauthorized)
        } else if now < self.deadline {
            Err(AuctionError::StillActive)
        } else if self.seller_payed {
            Err(AuctionError::AlreadyClaimedPrize)
        } else {
            Ok(())
        }
    }

    /// The record once the seller has been paid.
    pub open spec fn settled(self) -> State {
        State { seller_payed: true, highest_bid_amount: 0, ..self }
    }

    /// Whether deposits may be reclaimed at `now`.
    pub open spec fn refund_outcome(self, now: i64) -> Result<(), AuctionError> {
        if now < self.deadline {
            Err(AuctionError::StillActive)
        } else if !self.seller_payed {
            Err(AuctionError::UnclaimedPrize)
        } else {
            Ok(())
        }
    }

    /// What a refund pays back to `bidder` whose deposit is `deposit`: nothing
    /// to the winner, whose deposit went to the seller.
    pub open spec fn refund_owed(self, bidder: Identity, deposit: u64) -> u64 {
        if self.highest_bidder_account == Some(bidder) {
            0
        } else {
            deposit
        }
    }
}

/// Whether `leader` is set and names `who`.
fn is_leader(leader: Option<Identity>, who: Identity) -> (r: bool)
    ensures
        r == (leader == Some(who)),
{
    match leader {
        Some(l) => l.same_as(&who),
        None => false,
    }
}

/// Opens an auction: the record of a sale by `initializer` whose bidding ends
/// `auction_duration` seconds after `now`. A deadline that does not fit in a
/// timestamp gives `InvalidDuration`.
pub fn open_auction(initializer: Identity, now: i64, auction_duration: i64) -> (r: Result<
    State,
    AuctionError,
>)
    ensures
        fits_i64(now + auction_duration) ==> r == Ok::<State, AuctionError>(
            State::opened(initializer, now, auction_duration),
        ),
        !fits_i64(now + auction_duration) ==> r == Err::<State, AuctionError>(
            AuctionError::InvalidDuration,
        ),
{
    let sum: i128 = now as i128 + auction_duration as i128;
    if sum < i64::MIN as i128 || sum > i64::MAX as i128 {
        return Err(AuctionError::InvalidDuration);
    }
    Ok(
        State {
            deadline: sum as i64,
            initializer,
            seller_payed: false,
            highest_bid_amount: 0,
            highest_bidder_account: None,
        },
    )
}

/// Decides a bid of `amount` by `bidder` at `now`, whose current deposit is
/// `previous`, and records a new leader when the amount is strictly greater
/// than the leading one. On success returns what the bidder must add to the
/// escrow: the whole amount for a first bid, the raise for a repeated one.
pub fn accept_bid(
    state: &mut State,
    now: i64,
    bidder: Identity,
    amount: u64,
    previous: Option<u64>,
) -> (r: Result<u64, AuctionError>)
    ensures
        r == old(state).bid_outcome(now, amount, previous),
        r is Ok ==> *final(state) == old(state).after_bid(bidder, amount),
        r is Err ==> *final(state) == *old(state),
{
    if now >= state.deadline || state.seller_payed {
        return Err(AuctionError::Finished);
    }
    let owed: u64 = match previous {
        Some(p) => {
            if amount <= p {
                return Err(AuctionError::BidNotRaised);
            }
            amount - p
        },
        None => amount,
    };
    if amount > state.highest_bid_amount {
        state.highest_bid_amount = amount;
        state.highest_bidder_account = Some(bidder);
    }
    Ok(owed)
}

/// Pays the seller: `caller` must be the seller, the deadline must have
/// passed and the prize must not have been collected. Moves `prize` (the
/// winning deposit, zero when nobody bid) from the escrow to the seller's
/// balance, then marks the prize collected and resets the leading amount.
pub fn settle_prize(
    state: &mut State,
    now: i64,
    caller: Identity,
    prize: u64,
    treasury: &mut u64,
    seller_funds: &mut u64,
) -> (r: Result<(), AuctionError>)
    ensures
        r == (match old(state).settle_outcome(now, caller) {
            Err(e) => Err(e),
            Ok(_) => transfer_outcome(
                *old(treasury),
                *old(seller_funds),
                prize,
                AuctionError::TreasuryInsufficientFunds,
            ),
        }),
        r is Ok ==> *final(state) == old(state).settled() && *final(treasury) == *old(treasury)
            - prize && *final(seller_funds) == *old(seller_funds) + prize,
        r is Err ==> *final(state) == *old(state) && *final(treasury) == *old(treasury)
            && *final(seller_funds) == *old(seller_funds),
{
    if !caller.same_as(&state.initializer) {
        return Err(AuctionError::Unauthorized);
    }
    if now < state.deadline {
        return Err(AuctionError::StillActive);
    }
    if state.seller_payed {
        return Err(AuctionError::AlreadyClaimedPrize);
    }
    if prize > 0 {
        transfer_from_treasury(treasury, seller_funds, prize)?;
    }
    state.seller_payed = true;
    state.highest_bid_amount = 0;
    Ok(())
}

/// Pays `bidder`'s deposit back once the seller has been paid: the whole
/// `deposit` to a losing bidder, nothing to the winner.
pub fn refund_deposit(
    state: &State,
    now: i64,
    bidder: Identity,
    deposit: u64,
    treasury: &mut u64,
    bidder_funds: &mut u64,
) -> (r: Result<(), AuctionError>)
    ensures
        r == (match state.refund_outcome(now) {
            Err(e) => Err(e),
            Ok(_) => transfer_outcome(
                *old(treasury),
                *old(bidder_funds),
                state.refund_owed(bidder, deposit),
                AuctionError::TreasuryInsufficientFunds,
            ),
        }),
        r is Ok ==> *final(treasury) == *old(treasury) - state.refund_owed(bidder, deposit)
            && *final(bidder_funds) == *old(bidder_funds) + state.refund_owed(bidder, deposit),
        r is Err ==> *final(treasury) == *old(treasury) && *final(bidder_funds) == *old(bidder_funds),
{
    if now < state.deadline {
        return Err(AuctionError::StillActive);
    }
    if !state.seller_payed {
        return Err(AuctionError::UnclaimedPrize);
    }
    if !is_leader(state.highest_bidder_account, bidder) && deposit > 0 {
        transfer_from_treasury(treasury, bidder_funds, deposit)?;
    }
    Ok(())
}

} // verus!
