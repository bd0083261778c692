//! Checks on handles that a caller supplied and the program cannot trust.

use vstd::prelude::*;
use crate::account::AccountHandle;
use crate::address::Address;
use crate::error::ProtocolError;

verus! {

/// Accepts the handle exactly when it sits at `expected`.
pub fn expect_address(handle: &AccountHandle, expected: &Address) -> (res: Result<
    (),
    ProtocolError,
>)
    ensures
        handle.address == *expected ==> res == Ok::<(), ProtocolError>(()),
        handle.address != *expected ==> res == Err::<(), ProtocolError>(
            ProtocolError::AddressMismatch,
        ),
{
    if handle.address.same(expected) {
        Ok(())
    } else {
        Err(ProtocolError::AddressMismatch)
    }
}

/// Accepts the handle exactly when it stores no bytes and is owned by the
/// unassigned program.
pub fn expect_empty(handle: &AccountHandle) -> (res: Result<(), ProtocolError>)
    ensures
        handle@.is_empty() ==> res == Ok::<(), ProtocolError>(()),
        !handle@.is_empty() ==> res == Err::<(), ProtocolError>(ProtocolError::NotEmpty),
{
    let unassigned = Address::unassigned();
    if handle.data.len() == 0 && handle.owner_program_id.same(&unassigned) {
        proof {
            crate::address::address_ext(handle.owner_program_id, unassigned);
        }
        Ok(())
    } else {
        Err(ProtocolError::NotEmpty)
    }
}

/// Accepts the handle exactly when `expected_owner` owns it.
pub fn expect_owner(handle: &AccountHandle, expected_owner: &Address) -> (res: Result<
    (),
    ProtocolError,
>)
    ensures
        handle.owner_program_id == *expected_owner ==> res == Ok::<(), ProtocolError>(()),
        handle.owner_program_id != *expected_owner ==> res == Err::<(), ProtocolError>(
            ProtocolError::OwnerMismatch,
        ),
{
    if handle.owner_program_id.same(expected_owner) {
        Ok(())
    } else {
        Err(ProtocolError::OwnerMismatch)
    }
}

/// Accepts the handle exactly when the account signed the transaction.
pub fn expect_signer(handle: &AccountHandle) -> (res: Result<(), ProtocolError>)
    ensures
        handle.is_signer ==> res == Ok::<(), ProtocolError>(()),
        !handle.is_signer ==> res == Err::<(), ProtocolError>(ProtocolError::MissingSignature),
{
    if handle.is_signer {
        Ok(())
    } else {
        Err(ProtocolError::MissingSignature)
    }
}

} // verus!
