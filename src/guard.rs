use vstd::prelude::*;

use crate::error::CustomError;
use crate::identity::Identity;

verus! {

/// What `require_operator` returns: success exactly when the caller is the operator.
pub open spec fn operator_check(operator: Identity, caller: Identity) -> Result<(), CustomError> {
    if caller@ == operator@ {
        Ok(())
    } else {
        Err(CustomError::UnauthorizedOperator)
    }
}

/// What `require_program` returns: success exactly when the invoking program is the bound one.
pub open spec fn program_check(allowed: Identity, invoking: Identity) -> Result<(), CustomError> {
    if invoking@ == allowed@ {
        Ok(())
    } else {
        Err(CustomError::UnauthorizedProgram)
    }
}

/// Fails with `UnauthorizedOperator` unless `caller` is the registered `operator`.
pub fn require_operator(operator: &Identity, caller: &Identity) -> (r: Result<(), CustomError>)
    ensures
        r == operator_check(*operator, *caller),
{
    if caller.same_as(operator) {
        Ok(())
    } else {
        Err(CustomError::UnauthorizedOperator)
    }
}

/// Fails with `UnauthorizedProgram` unless `invoking` is the program the record is bound to.
pub fn require_program(allowed: &Identity, invoking: &Identity) -> (r: Result<(), CustomError>)
    ensures
        r == program_check(*allowed, *invoking),
{
    if invoking.same_as(allowed) {
        Ok(())
    } else {
        Err(CustomError::UnauthorizedProgram)
    }
}

} // verus!
