//! The errors of auction operations and their classes.
use vstd::prelude::*;

verus! {

/// Why an auction operation was rejected. A rejected operation changes nothing.
#[derive(Clone, Copy, Debug, PartialEq, Eq, Structural)]
pub enum AuctionError {
    /// The deadline has not been reached yet.
    StillActive,
    /// The deadline has passed, or the prize was already claimed: bidding is closed.
    Finished,
    /// The seller has not claimed the winning bid yet.
    UnclaimedPrize,
    /// The seller already claimed the winning bid.
    AlreadyClaimedPrize,
    /// The escrow cannot cover a payout: the ledger is inconsistent.
    TreasuryInsufficientFunds,
    /// A transfer cannot be made: the payer lacks the funds, or the payee's
    /// balance would overflow.
    TransferFailed,
    /// An auction already exists for this seller.
    AlreadyExists,
    /// The bidder has no outstanding bid in this auction.
    NoSuchBid,
    /// The caller is not the seller of the auction.
    Unauthorized,
    /// The deadline `now + duration` does not fit in a timestamp.
    InvalidDuration,
    /// A repeated bid must be larger than the bidder's current bid.
    BidNotRaised,
}

/// The broad class of an error.
#[derive(Clone, Copy, Debug, PartialEq, Eq, Structural)]
pub enum ErrorKind {
    /// The operation is not allowed in the auction's current phase.
    TemporalViolation,
    /// The operation was already performed, or a record is absent or present
    /// when it should not be.
    StateConflict,
    /// The ledger cannot make a movement of funds.
    FundsViolation,
    /// The caller does not hold the required role.
    AuthorizationViolation,
    /// The input is outside what the auction accepts.
    InvalidInput,
}

impl AuctionError {
    pub open spec fn kind_spec(self) -> ErrorKind {
        match self {
            AuctionError::StillActive => ErrorKind::TemporalViolation,
            AuctionError::Finished => ErrorKind::TemporalViolation,
            AuctionError::UnclaimedPrize => ErrorKind::TemporalViolation,
            AuctionError::AlreadyClaimedPrize => ErrorKind::StateConflict,
            AuctionError::AlreadyExists => ErrorKind::StateConflict,
            AuctionError::NoSuchBid => ErrorKind::StateConflict,
            AuctionError::TreasuryInsufficientFunds => ErrorKind::FundsViolation,
            AuctionError::TransferFailed => ErrorKind::FundsViolation,
            AuctionError::Unauthorized => ErrorKind::AuthorizationViolation,
            AuctionError::InvalidDuration => ErrorKind::InvalidInput,
            AuctionError::BidNotRaised => ErrorKind::InvalidInput,
        }
    }

    /// The class this error belongs to.
    pub fn kind(&self) -> (r: ErrorKind)
        ensures
            r == self.kind_spec(),
    {
        match self {
            AuctionError::StillActive => ErrorKind::TemporalViolation,
            AuctionError::Finished => ErrorKind::TemporalViolation,
            AuctionError::UnclaimedPrize => ErrorKind::TemporalViolation,
            AuctionError::AlreadyClaimedPrize => ErrorKind::StateConflict,
            AuctionError::AlreadyExists => ErrorKind::StateConflict,
            AuctionError::NoSuchBid => ErrorKind::StateConflict,
            AuctionError::TreasuryInsufficientFunds => ErrorKind::FundsViolation,
            AuctionError::TransferFailed => ErrorKind::FundsViolation,
            AuctionError::Unauthorized => ErrorKind::AuthorizationViolation,
            AuctionError::InvalidDuration => ErrorKind::InvalidInput,
            AuctionError::BidNotRaised => ErrorKind::InvalidInput,
        }
    }

    /// Whether this error signals a corrupted ledger rather than an ordinary
    /// rejection: the escrow could not cover a payout that the records owe.
    pub fn is_fatal(&self) -> (r: bool)
        ensures
            r == (*self == AuctionError::TreasuryInsufficientFunds),
    {
        match self {
            AuctionError::TreasuryInsufficientFunds => true,
            _ => false,
        }
    }
}

} // verus!
