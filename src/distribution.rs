use vstd::prelude::*;

use crate::error::CustomError;
use crate::identity::Identity;

verus! {

/// How much leaves the source: the requested amount, plus the ledger's minimum
/// balance when the destination is empty, so that the credited account can exist.
pub open spec fn transfer_amount(amount: u64, destination: u64, minimum_balance: u64) -> int {
    if destination == 0 {
        amount + minimum_balance
    } else {
        amount as int
    }
}

/// The balances after a native transfer of `amount` (with the top-up rule), or
/// why it cannot take place: the source is debited and the destination credited
/// by the same transfer amount, and neither moves unless both can.
pub open spec fn native_transfer(
    source: u64,
    destination: u64,
    amount: u64,
    minimum_balance: u64,
) -> Result<(u64, u64), CustomError> {
    let moved = transfer_amount(amount, destination, minimum_balance);
    if source < moved {
        Err(CustomError::InsufficientFunds)
    } else if destination + moved > u64::MAX {
        Err(CustomError::Overflow)
    } else {
        Ok(((source - moved) as u64, (destination + moved) as u64))
    }
}

/// Whether `r` and the balances after a call (`source`, `destination`) are those
/// that `outcome` prescribes for the balances before it: on success the new
/// balances are written, on failure nothing changes.
pub open spec fn settled_as(
    outcome: Result<(u64, u64), CustomError>,
    r: Result<(), CustomError>,
    old_source: u64,
    old_destination: u64,
    source: u64,
    destination: u64,
) -> bool {
    match outcome {
        Ok((s, d)) => r == Ok::<(), CustomError>(()) && source == s && destination == d,
        Err(e) => r == Err::<(), CustomError>(e) && source == old_source && destination
            == old_destination,
    }
}

/// Moves native currency from `source` to `destination`, topping up an empty
/// destination by `minimum_balance`. Both new balances are computed before
/// either is written, so a failure leaves both untouched.
pub fn transfer_lamports(
    source: &mut u64,
    destination: &mut u64,
    amount: u64,
    minimum_balance: u64,
) -> (r: Result<(), CustomError>)
    ensures
        settled_as(
            native_transfer(*old(source), *old(destination), amount, minimum_balance),
            r,
            *old(source),
            *old(destination),
            *final(source),
            *final(destination),
        ),
{
    let moved: u64 = if *destination == 0 {
        match amount.checked_add(minimum_balance) {
            Some(m) => m,
            None => {
                // More than any balance can hold, so more than the source has.
                return Err(CustomError::InsufficientFunds);
            },
        }
    } else {
        amount
    };
    let new_source: u64 = match source.checked_sub(moved) {
        Some(s) => s,
        None => {
            return Err(CustomError::InsufficientFunds);
        },
    };
    let new_destination: u64 = match destination.checked_add(moved) {
        Some(d) => d,
        None => {
            return Err(CustomError::Overflow);
        },
    };
    *source = new_source;
    *destination = new_destination;
    Ok(())
}

/// A token transfer that the ledger is asked to carry out: `amount` tokens from
/// the token account `from` to the token account `to`, signed by `authority`.
#[derive(Clone, Copy, Debug, PartialEq, Eq)]
pub struct TokenTransfer {
    pub from: Identity,
    pub to: Identity,
    pub authority: Identity,
    pub amount: u64,
}

/// A change of owner that the ledger is asked to make on `account`: the owner
/// authority passes from `current_authority`, which signs, to `new_authority`.
#[derive(Clone, Copy, Debug, PartialEq, Eq)]
pub struct AuthorityChange {
    pub account: Identity,
    pub current_authority: Identity,
    pub new_authority: Identity,
}

/// What a token distribution returns once the ledger answered: its error, if
/// any, is reported as `TokenTransferFailed` with the same code.
pub open spec fn token_settlement(outcome: Result<(), u64>) -> Result<(), CustomError> {
    match outcome {
        Ok(()) => Ok(()),
        Err(code) => Err(CustomError::TokenTransferFailed(code)),
    }
}

/// What an authority delegation returns once the ledger answered: its error, if
/// any, is reported as `AuthorityTransferFailed` with the same code.
pub open spec fn authority_settlement(outcome: Result<(), u64>) -> Result<(), CustomError> {
    match outcome {
        Ok(()) => Ok(()),
        Err(code) => Err(CustomError::AuthorityTransferFailed(code)),
    }
}

/// Turns the ledger's answer to a `TokenTransfer` into the operation's result.
pub fn settle_token_transfer(outcome: Result<(), u64>) -> (r: Result<(), CustomError>)
    ensures
        r == token_settlement(outcome),
{
    match outcome {
        Ok(()) => Ok(()),
        Err(code) => Err(CustomError::TokenTransferFailed(code)),
    }
}

/// Turns the ledger's answer to an `AuthorityChange` into the operation's result.
pub fn settle_authority_change(outcome: Result<(), u64>) -> (r: Result<(), CustomError>)
    ensures
        r == authority_settlement(outcome),
{
    match outcome {
        Ok(()) => Ok(()),
        Err(code) => Err(CustomError::AuthorityTransferFailed(code)),
    }
}

} // verus!
