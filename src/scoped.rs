//! The scoped escrow program: a record names its operator and the program it
//! is bound to, and every distribution must come from that program.

use vstd::prelude::*;

use crate::distribution::{
    native_transfer, settled_as, token_settlement, transfer_amount, transfer_lamports, AuthorityChange,
    TokenTransfer,
};
use crate::error::CustomError;
use crate::guard::{operator_check, program_check, require_operator, require_program};
use crate::identity::Identity;

verus! {

/// The escrow record. Its operator and its program are written once, by
/// `initialize`, and have no setter.
#[derive(Clone, Copy, Debug)]
pub struct EscrowAccount {
    operator: Identity,
    allowed_program_id: Identity,
}

impl EscrowAccount {
    pub closed spec fn spec_operator(&self) -> Identity {
        self.operator
    }

    /// The one identity allowed to move funds out of this escrow.
    #[verifier::when_used_as_spec(spec_operator)]
    pub fn operator(&self) -> (r: Identity)
        ensures
            r == self.operator(),
    {
        self.operator
    }

    pub closed spec fn spec_allowed_program_id(&self) -> Identity {
        self.allowed_program_id
    }

    /// The one program allowed to act on this escrow.
    #[verifier::when_used_as_spec(spec_allowed_program_id)]
    pub fn allowed_program_id(&self) -> (r: Identity)
        ensures
            r == self.allowed_program_id(),
    {
        self.allowed_program_id
    }
}

/// A new escrow record bound to `operator` and to `program_id`, the program
/// that creates it.
pub fn initialize(operator: Identity, program_id: Identity) -> (r: EscrowAccount)
    ensures
        r.operator() == operator,
        r.allowed_program_id() == program_id,
{
    EscrowAccount { operator, allowed_program_id: program_id }
}

/// The new (source, destination) balances of a native distribution, or its error:
/// a zero amount is refused first, then any signer but the operator, then any
/// invoking program but the bound one, then the transfer itself may fail.
pub open spec fn sol_distribution(
    escrow_account: EscrowAccount,
    operator: Identity,
    program_id: Identity,
    source: u64,
    destination: u64,
    amount: u64,
    minimum_balance: u64,
) -> Result<(u64, u64), CustomError> {
    if amount == 0 {
        Err(CustomError::InvalidAmount)
    } else if operator_check(escrow_account.operator(), operator) is Err {
        Err(CustomError::UnauthorizedOperator)
    } else if program_check(escrow_account.allowed_program_id(), program_id) is Err {
        Err(CustomError::UnauthorizedProgram)
    } else {
        native_transfer(source, destination, amount, minimum_balance)
    }
}

/// Moves `amount` of native currency from the escrow's balance `source` to
/// `destination`, signed by `operator` and invoked by the program `program_id`.
/// An empty destination also receives `minimum_balance`, the ledger's floor for
/// an account of its size.
pub fn distribute_sol(
    escrow_account: &EscrowAccount,
    operator: &Identity,
    program_id: &Identity,
    source: &mut u64,
    destination: &mut u64,
    amount: u64,
    minimum_balance: u64,
) -> (r: Result<(), CustomError>)
    ensures
        settled_as(
            sol_distribution(
                *escrow_account,
                *operator,
                *program_id,
                *old(source),
                *old(destination),
                amount,
                minimum_balance,
            ),
            r,
            *old(source),
            *old(destination),
            *final(source),
            *final(destination),
        ),
{
    if amount == 0 {
        return Err(CustomError::InvalidAmount);
    }
    let registered = escrow_account.operator();
    match require_operator(&registered, operator) {
        Ok(()) => {},
        Err(e) => {
            return Err(e);
        },
    }
    let allowed = escrow_account.allowed_program_id();
    match require_program(&allowed, program_id) {
        Ok(()) => {},
        Err(e) => {
            return Err(e);
        },
    }
    transfer_lamports(source, destination, amount, minimum_balance)
}

/// The token transfer a distribution asks of the ledger, or why it is refused:
/// only the bound program may ask, then only the operator, and the transfer is
/// signed by the operator.
pub open spec fn token_distribution(
    escrow_account: EscrowAccount,
    operator: Identity,
    program_id: Identity,
    sender: Identity,
    recipient: Identity,
    amount: u64,
) -> Result<TokenTransfer, CustomError> {
    if program_check(escrow_account.allowed_program_id(), program_id) is Err {
        Err(CustomError::UnauthorizedProgram)
    } else if operator_check(escrow_account.operator(), operator) is Err {
        Err(CustomError::UnauthorizedOperator)
    } else {
        Ok(TokenTransfer { from: sender, to: recipient, authority: escrow_account.operator(), amount })
    }
}

/// Checks that the escrow's program `program_id` invokes it and that `operator`
/// signs for the escrow, and returns the one transfer of `amount` tokens from
/// `sender` to `recipient` that the ledger must carry out under the operator's
/// authority. Its answer goes to `settle_token_transfer`.
pub fn distribute_token(
    escrow_account: &EscrowAccount,
    operator: &Identity,
    program_id: &Identity,
    sender: &Identity,
    recipient: &Identity,
    amount: u64,
) -> (r: Result<TokenTransfer, CustomError>)
    ensures
        r == token_distribution(*escrow_account, *operator, *program_id, *sender, *recipient, amount),
{
    let allowed = escrow_account.allowed_program_id();
    match require_program(&allowed, program_id) {
        Ok(()) => {},
        Err(e) => {
            return Err(e);
        },
    }
    let registered = escrow_account.operator();
    match require_operator(&registered, operator) {
        Ok(()) => {},
        Err(e) => {
            return Err(e);
        },
    }
    Ok(TokenTransfer { from: *sender, to: *recipient, authority: registered, amount })
}

/// The change of owner that hands the token account `sender` from
/// `sender_authority` to `operator`, or why it is refused: the new owner must be
/// the escrow's own operator. Nothing stops a later call from handing the
/// account to the operator again.
pub open spec fn authority_delegation(
    escrow_account: EscrowAccount,
    sender: Identity,
    sender_authority: Identity,
    operator: Identity,
) -> Result<AuthorityChange, CustomError> {
    if operator_check(escrow_account.operator(), operator) is Err {
        Err(CustomError::UnauthorizedOperator)
    } else {
        Ok(AuthorityChange { account: sender, current_authority: sender_authority, new_authority: operator })
    }
}

/// Checks that `operator` is the escrow's operator and returns the change of
/// owner of the token account `sender` that the ledger must make, signed by
/// `sender_authority`. Its answer goes to `settle_authority_change`.
pub fn authorize_operator_once(
    escrow_account: &EscrowAccount,
    sender: &Identity,
    sender_authority: &Identity,
    operator: &Identity,
) -> (r: Result<AuthorityChange, CustomError>)
    ensures
        r == authority_delegation(*escrow_account, *sender, *sender_authority, *operator),
{
    let registered = escrow_account.operator();
    match require_operator(&registered, operator) {
        Ok(()) => {},
        Err(e) => {
            return Err(e);
        },
    }
    Ok(AuthorityChange { account: *sender, current_authority: *sender_authority, new_authority: *operator })
}

/// A distribution of a zero amount is refused with `InvalidAmount` and leaves
/// both balances as they were.
pub proof fn zero_amount_moves_nothing(
    escrow_account: EscrowAccount,
    operator: Identity,
    program_id: Identity,
    source: u64,
    destination: u64,
    minimum_balance: u64,
    r: Result<(), CustomError>,
    new_source: u64,
    new_destination: u64,
)
    requires
        settled_as(
            sol_distribution(escrow_account, operator, program_id, source, destination, 0, minimum_balance),
            r,
            source,
            destination,
            new_source,
            new_destination,
        ),
    ensures
        r == Err::<(), CustomError>(CustomError::InvalidAmount),
        new_source == source,
        new_destination == destination,
{
}

/// A distribution of a non-zero amount signed by anyone but the operator is
/// refused with `UnauthorizedOperator` and leaves both balances as they were.
pub proof fn stranger_moves_nothing(
    escrow_account: EscrowAccount,
    operator: Identity,
    program_id: Identity,
    source: u64,
    destination: u64,
    amount: u64,
    minimum_balance: u64,
    r: Result<(), CustomError>,
    new_source: u64,
    new_destination: u64,
)
    requires
        amount > 0,
        operator@ != escrow_account.operator()@,
        settled_as(
            sol_distribution(escrow_account, operator, program_id, source, destination, amount, minimum_balance),
            r,
            source,
            destination,
            new_source,
            new_destination,
        ),
    ensures
        r == Err::<(), CustomError>(CustomError::UnauthorizedOperator),
        new_source == source,
        new_destination == destination,
{
}

/// When the source holds less than the requested amount, the operator's
/// distribution through the bound program is refused with `InsufficientFunds`
/// and moves nothing.
pub proof fn short_source_moves_nothing(
    escrow_account: EscrowAccount,
    source: u64,
    destination: u64,
    amount: u64,
    minimum_balance: u64,
    r: Result<(), CustomError>,
    new_source: u64,
    new_destination: u64,
)
    requires
        source < amount,
        settled_as(
            sol_distribution(
                escrow_account,
                escrow_account.operator(),
                escrow_account.allowed_program_id(),
                source,
                destination,
                amount,
                minimum_balance,
            ),
            r,
            source,
            destination,
            new_source,
            new_destination,
        ),
    ensures
        r == Err::<(), CustomError>(CustomError::InsufficientFunds),
        new_source == source,
        new_destination == destination,
{
}

/// When crediting the transfer amount would push the destination past the
/// largest balance, the distribution fails and the source is not debited; if
/// the source could cover the transfer, the failure is `Overflow`.
pub proof fn overflow_keeps_source(
    escrow_account: EscrowAccount,
    operator: Identity,
    program_id: Identity,
    source: u64,
    destination: u64,
    amount: u64,
    minimum_balance: u64,
    r: Result<(), CustomError>,
    new_source: u64,
    new_destination: u64,
)
    requires
        destination + transfer_amount(amount, destination, minimum_balance) > u64::MAX,
        settled_as(
            sol_distribution(escrow_account, operator, program_id, source, destination, amount, minimum_balance),
            r,
            source,
            destination,
            new_source,
            new_destination,
        ),
    ensures
        r is Err,
        new_source == source,
        new_destination == destination,
        amount > 0 && operator@ == escrow_account.operator()@ && program_id@
            == escrow_account.allowed_program_id()@ && source >= transfer_amount(
            amount,
            destination,
            minimum_balance,
        ) ==> r == Err::<(), CustomError>(CustomError::Overflow),
{
}

/// A token distribution hands the ledger exactly one transfer, of the requested
/// tokens between the requested accounts under the operator's authority, and
/// only when the bound program invokes it and the operator signs; whatever error the ledger answers comes back
/// as `TokenTransferFailed` with the ledger's code.
pub proof fn token_distribution_delegates_once(
    escrow_account: EscrowAccount,
    operator: Identity,
    program_id: Identity,
    sender: Identity,
    recipient: Identity,
    amount: u64,
    code: u64,
)
    ensures
        token_distribution(escrow_account, operator, program_id, sender, recipient, amount) is Ok <==> (
            program_id@ == escrow_account.allowed_program_id()@ && operator@
            == escrow_account.operator()@),
        token_distribution(escrow_account, operator, program_id, sender, recipient, amount) matches Ok(t) ==> t
            == (TokenTransfer { from: sender, to: recipient, authority: escrow_account.operator(), amount }),
        token_settlement(Err(code)) == Err::<(), CustomError>(CustomError::TokenTransferFailed(code)),
        token_settlement(Ok(())) == Ok::<(), CustomError>(()),
{
}

} // verus!
