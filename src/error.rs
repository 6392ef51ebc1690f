use vstd::prelude::*;

verus! {

/// Why an escrow operation was refused.
///
/// The two ledger failures carry the numeric code of the ledger's own error, so
/// that the cause can still be reported.
#[derive(Clone, Copy, Debug, PartialEq, Eq, Structural)]
pub enum CustomError {
    /// The signer is not the operator registered in the escrow record.
    UnauthorizedOperator,
    /// The requested amount is zero.
    InvalidAmount,
    /// The invoking program is not the one the escrow record is bound to.
    UnauthorizedProgram,
    /// The token program handed in is not the ledger's token program.
    InvalidTokenProgram,
    /// The source balance cannot cover the transfer.
    InsufficientFunds,
    /// The destination balance would exceed the largest representable amount.
    Overflow,
    /// The ledger refused the token transfer; the field is its error code.
    TokenTransferFailed(u64),
    /// The ledger refused to reassign the token account's authority; the field is its error code.
    AuthorityTransferFailed(u64),
}

} // verus!
