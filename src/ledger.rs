//! Movements of funds into and out of the escrow, all or nothing.
use vstd::prelude::*;
use crate::errors::AuctionError;

verus! {

/// What a transfer of `amount` from a balance `from` into a balance `to`
/// gives: `short` when the payer cannot cover it, `TransferFailed` when the
/// payee's balance would overflow, success otherwise.
pub open spec fn transfer_outcome(from: u64, to: u64, amount: u64, short: AuctionError) -> Result<
    (),
    AuctionError,
> {
    if (from as int) < (amount as int) {
        Err(short)
    } else if (to as int) + (amount as int) > u64::MAX as int {
        Err(AuctionError::TransferFailed)
    } else {
        Ok(())
    }
}

/// Moves `amount` from `from` to `to`, all or nothing; the failure when the
/// payer cannot cover it is `short`.
fn move_funds(from: &mut u64, to: &mut u64, amount: u64, short: AuctionError) -> (r: Result<
    (),
    AuctionError,
>)
    ensures
        r == transfer_outcome(*old(from), *old(to), amount, short),
        r is Ok ==> *final(from) == *old(from) - amount && *final(to) == *old(to) + amount,
        r is Err ==> *final(from) == *old(from) && *final(to) == *old(to),
{
    if *from < amount {
        return Err(short);
    }
    if *to > u64::MAX - amount {
        return Err(AuctionError::TransferFailed);
    }
    *from = *from - amount;
    *to = *to + amount;
    Ok(())
}

/// Pays `amount` out of the escrow `treasury` into `destination`. An escrow
/// that cannot cover the payout gives `TreasuryInsufficientFunds`; nothing is
/// paid in part.
pub fn transfer_from_treasury(treasury: &mut u64, destination: &mut u64, amount: u64) -> (r: Result<
    (),
    AuctionError,
>)
    ensures
        r == transfer_outcome(
            *old(treasury),
            *old(destination),
            amount,
            AuctionError::TreasuryInsufficientFunds,
        ),
        r is Ok ==> *final(treasury) == *old(treasury) - amount && *final(destination) == *old(destination) + amount,
        r is Err ==> *final(treasury) == *old(treasury) && *final(destination) == *old(destination),
{
    move_funds(treasury, destination, amount, AuctionError::TreasuryInsufficientFunds)
}

/// Takes `amount` from a depositor's balance `source` into the escrow
/// `treasury`. A depositor who cannot cover it gives `TransferFailed`; nothing
/// is moved in part.
pub fn deposit_to_treasury(source: &mut u64, treasury: &mut u64, amount: u64) -> (r: Result<
    (),
    AuctionError,
>)
    ensures
        r == transfer_outcome(*old(source), *old(treasury), amount, AuctionError::TransferFailed),
        r is Ok ==> *final(source) == *old(source) - amount && *final(treasury) == *old(treasury)
            + amount,
        r is Err ==> *final(source) == *old(source) && *final(treasury) == *old(treasury),
{
    move_funds(source, treasury, amount, AuctionError::TransferFailed)
}

} // verus!
