//! The unscoped escrow program: a record names its operator and nothing else.

use vstd::prelude::*;

use crate::distribution::{
    native_transfer, settled_as, token_settlement, transfer_amount, transfer_lamports, AuthorityChange,
    TokenTransfer,
};
use crate::error::CustomError;
use crate::guard::{operator_check, require_operator};
use crate::identity::Identity;

verus! {

/// The escrow record. Its operator is written once, by `initialize`, and has no setter.
#[derive(Clone, Copy, Debug)]
pub struct EscrowAccount {
    operator: Identity,
}

impl EscrowAccount {
    pub closed spec fn spec_operator(&self) -> Identity {
        self.operator
    }

    /// The one identity allowed to move funds out of this escrow.
    #[verifier::when_used_as_spec(spec_operator)]
    pub fn operator(&self) -> (r: Identity)
        ensures
            r == self.operator(),
    {
        self.operator
    }
}

/// A new escrow record bound to `operator`.
pub fn initialize(operator: Identity) -> (r: EscrowAccount)
    ensures
        r.operator() == operator,
{
    EscrowAccount { operator }
}

/// The new (source, destination) balances of a native distribution, or its error:
/// a zero amount is refused first, then any signer but the operator, then the
/// transfer itself may fail.
pub open spec fn sol_distribution(
    escrow_account: EscrowAccount,
    operator: Identity,
    source: u64,
    destination: u64,
    amount: u64,
    minimum_balance: u64,
) -> Result<(u64, u64), CustomError> {
    if amount == 0 {
        Err(CustomError::InvalidAmount)
    } else if operator_check(escrow_account.operator(), operator) is Err {
        Err(CustomError::UnauthorizedOperator)
    } else {
        native_transfer(source, destination, amount, minimum_balance)
    }
}

/// Moves `amount` of native currency from the escrow's balance `source` to
/// `destination`, signed by `operator`. An empty destination also receives
/// `minimum_balance`, the ledger's floor for an account of its size.
pub fn distribute_sol(
    escrow_account: &EscrowAccount,
    operator: &Identity,
    source: &mut u64,
    destination: &mut u64,
    amount: u64,
    minimum_balance: u64,
) -> (r: Result<(), CustomError>)
    ensures
        settled_as(
            sol_distribution(
                *escrow_account,
                *operator,
                *old(source),
                *old(destination),
                amount,
                minimum_balance,
            ),
            r,
            *old(source),
            *old(destination),
            *final(source),
            *final(destination),
        ),
{
    if amount == 0 {
        return Err(CustomError::InvalidAmount);
    }
    let registered = escrow_account.operator();
    match require_operator(&registered, operator) {
        Ok(()) => {},
        Err(e) => {
            return Err(e);
        },
    }
    transfer_lamports(source, destination, amount, minimum_balance)
}

/// The token transfer a distribution asks of the ledger, or why it is refused:
/// only the operator may ask, and the transfer is signed by the operator.
pub open spec fn token_distribution(
    escrow_account: EscrowAccount,
    operator: Identity,
    sender: Identity,
    recipient: Identity,
    amount: u64,
) -> Result<TokenTransfer, CustomError> {
    if operator_check(escrow_account.operator(), operator) is Err {
        Err(CustomError::UnauthorizedOperator)
    } else {
        Ok(TokenTransfer { from: sender, to: recipient, authority: escrow_account.operator(), amount })
    }
}

/// Checks that `operator` signs for the escrow and returns the one transfer of
/// `amount` tokens from `sender` to `recipient` that the ledger must carry out
/// under the operator's authority. Its answer goes to `settle_token_transfer`.
pub fn distribute_token(
    escrow_account: &EscrowAccount,
    operator: &Identity,
    sender: &Identity,
    recipient: &Identity,
    amount: u64,
) -> (r: Result<TokenTransfer, CustomError>)
    ensures
        r == token_distribution(*escrow_account, *operator, *sender, *recipient, amount),
{
    let registered = escrow_account.operator();
    match require_operator(&registered, operator) {
        Ok(()) => {},
        Err(e) => {
            return Err(e);
        },
    }
    Ok(TokenTransfer { from: *sender, to: *recipient, authority: registered, amount })
}

/// The change of owner that hands the token account `sender` from
/// `sender_authority` to `operator`. This program trusts the operator it is
/// given: nothing ties it to an escrow record, and nothing stops a later call
/// from handing the account on again.
pub fn authorize_operator_once(
    sender: &Identity,
    sender_authority: &Identity,
    operator: &Identity,
) -> (r: AuthorityChange)
    ensures
        r == (AuthorityChange {
            account: *sender,
            current_authority: *sender_authority,
            new_authority: *operator,
        }),
{
    AuthorityChange { account: *sender, current_authority: *sender_authority, new_authority: *operator }
}

/// A distribution of a zero amount is refused with `InvalidAmount` and leaves
/// both balances as they were.
pub proof fn zero_amount_moves_nothing(
    escrow_account: EscrowAccount,
    operator: Identity,
    source: u64,
    destination: u64,
    minimum_balance: u64,
    r: Result<(), CustomError>,
    new_source: u64,
    new_destination: u64,
)
    requires
        settled_as(
            sol_distribution(escrow_account, operator, source, destination, 0, minimum_balance),
            r,
            source,
            destination,
            new_source,
            new_destination,
        ),
    ensures
        r == Err::<(), CustomError>(CustomError::InvalidAmount),
        new_source == source,
        new_destination == destination,
{
}

/// A distribution of a non-zero amount signed by anyone but the operator is
/// refused with `UnauthorizedOperator` and leaves both balances as they were.
pub proof fn stranger_moves_nothing(
    escrow_account: EscrowAccount,
    operator: Identity,
    source: u64,
    destination: u64,
    amount: u64,
    minimum_balance: u64,
    r: Result<(), CustomError>,
    new_source: u64,
    new_destination: u64,
)
    requires
        amount > 0,
        operator@ != escrow_account.operator()@,
        settled_as(
            sol_distribution(escrow_account, operator, source, destination, amount, minimum_balance),
            r,
            source,
            destination,
            new_source,
            new_destination,
        ),
    ensures
        r == Err::<(), CustomError>(CustomError::UnauthorizedOperator),
        new_source == source,
        new_destination == destination,
{
}

/// When the source holds less than the requested amount, the operator's
/// distribution is refused with `InsufficientFunds` and moves nothing.
pub proof fn short_source_moves_nothing(
    escrow_account: EscrowAccount,
    source: u64,
    destination: u64,
    amount: u64,
    minimum_balance: u64,
    r: Result<(), CustomError>,
    new_source: u64,
    new_destination: u64,
)
    requires
        source < amount,
        settled_as(
            sol_distribution(
                escrow_account,
                escrow_account.operator(),
                source,
                destination,
                amount,
                minimum_balance,
            ),
            r,
            source,
            destination,
            new_source,
            new_destination,
        ),
    ensures
        r == Err::<(), CustomError>(CustomError::InsufficientFunds),
        new_source == source,
        new_destination == destination,
{
}

/// When crediting the transfer amount would push the destination past the
/// largest balance, the distribution fails and the source is not debited; if
/// the source could cover the transfer, the failure is `Overflow`.
pub proof fn overflow_keeps_source(
    escrow_account: EscrowAccount,
    operator: Identity,
    source: u64,
    destination: u64,
    amount: u64,
    minimum_balance: u64,
    r: Result<(), CustomError>,
    new_source: u64,
    new_destination: u64,
)
    requires
        destination + transfer_amount(amount, destination, minimum_balance) > u64::MAX,
        settled_as(
            sol_distribution(escrow_account, operator, source, destination, amount, minimum_balance),
            r,
            source,
            destination,
            new_source,
            new_destination,
        ),
    ensures
        r is Err,
        new_source == source,
        new_destination == destination,
        amount > 0 && operator@ == escrow_account.operator()@ && source >= transfer_amount(
            amount,
            destination,
            minimum_balance,
        ) ==> r == Err::<(), CustomError>(CustomError::Overflow),
{
}

/// A token distribution hands the ledger exactly one transfer, of the requested
/// tokens between the requested accounts under the operator's authority, and
/// only when the operator signs; whatever error the ledger answers comes back
/// as `TokenTransferFailed` with the ledger's code.
pub proof fn token_distribution_delegates_once(
    escrow_account: EscrowAccount,
    operator: Identity,
    sender: Identity,
    recipient: Identity,
    amount: u64,
    code: u64,
)
    ensures
        token_distribution(escrow_account, operator, sender, recipient, amount) is Ok <==> operator@
            == escrow_account.operator()@,
        token_distribution(escrow_account, operator, sender, recipient, amount) matches Ok(t) ==> t
            == (TokenTransfer { from: sender, to: recipient, authority: escrow_account.operator(), amount }),
        token_settlement(Err(code)) == Err::<(), CustomError>(CustomError::TokenTransferFailed(code)),
        token_settlement(Ok(())) == Ok::<(), CustomError>(()),
{
}

} // verus!
