//! What holds of every invocation.
//!
//! The theorems here are stated over the same spec functions as the
//! contracts of the handler, for every program, every list of accounts and
//! every answer of the address deriver and the rent model.

use vstd::prelude::*;
use crate::account::AccountModel;
use crate::address::Address;
use crate::codec::{decodes_to, spec_encode, Wallet, WALLET_LEN};
use crate::error::ProtocolError;
use crate::handler::{
    provisioned, spec_initialize, spec_initialize_unchecked_with, spec_initialize_with,
    spec_lookups, spec_prepare, Lookups,
};
use crate::provision::{provision_failure, Authorization};

verus! {

/// The record that an invocation binds: the authority's address and the
/// address of the vault handle.
pub open spec fn bound_record(accounts: Seq<AccountModel>) -> Wallet {
    Wallet { authority: accounts[2].address, vault: accounts[1].address }
}

/// What provisioning leaves behind: the wallet holds exactly `lamports`,
/// belongs to the program and stores the encoded record, which decodes to
/// the record again; the authority has paid `lamports`; the vault, the
/// rent sysvar and every further account are untouched.
pub proof fn provisioned_accounts(program_id: Address, accounts: Seq<AccountModel>, lamports: u64)
    requires
        accounts.len() >= 4,
    ensures
        provisioned(program_id, accounts, lamports).len() == accounts.len(),
        provisioned(program_id, accounts, lamports)[0].address == accounts[0].address,
        provisioned(program_id, accounts, lamports)[0].owner_program_id == program_id,
        provisioned(program_id, accounts, lamports)[0].lamport_balance == lamports,
        provisioned(program_id, accounts, lamports)[0].data == spec_encode(bound_record(accounts)),
        provisioned(program_id, accounts, lamports)[0].data.len() == WALLET_LEN,
        decodes_to(
            provisioned(program_id, accounts, lamports)[0].data,
            Ok(bound_record(accounts)),
        ),
        provisioned(program_id, accounts, lamports)[2].lamport_balance
            == (accounts[2].lamport_balance - lamports) as u64,
        provisioned(program_id, accounts, lamports)[2].address == accounts[2].address,
        forall|i: int|
            0 <= i < accounts.len() && i != 0 && i != 2 ==> provisioned(
                program_id,
                accounts,
                lamports,
            )[i] == accounts[i],
{
    let record = bound_record(accounts);
    crate::address::address_ext(record.authority, record.vault);
    let data = provisioned(program_id, accounts, lamports)[0].data;
    assert(data =~= spec_encode(record));
    assert(data.subrange(0, 32) =~= record.authority@);
    assert(data.subrange(32, 64) =~= record.vault@);
}

/// A rejected invocation changes nothing, whatever the answers were.
pub proof fn rejection_changes_nothing(
    program_id: Address,
    accounts: Seq<AccountModel>,
    vault_owner: Option<Address>,
    lookups: Lookups,
)
    ensures
        spec_initialize_with(program_id, accounts, vault_owner, lookups).0 is Err
            ==> spec_initialize_with(program_id, accounts, vault_owner, lookups).1 == accounts,
        spec_initialize(program_id, accounts, vault_owner).0 is Err ==> spec_initialize(
            program_id,
            accounts,
            vault_owner,
        ).1 == accounts,
{
}

/// What acceptance means. Whenever the validated instruction succeeds,
/// there were four accounts, the authority had signed, the wallet and the
/// vault sat at the addresses derived from the authority, the vault was
/// owned as required, and the record now stored in the wallet binds the
/// authority's address to the derived vault address: no caller can have a
/// vault of its own choosing recorded.
pub proof fn accepted_record_is_bound(
    program_id: Address,
    accounts: Seq<AccountModel>,
    vault_owner: Option<Address>,
    lookups: Lookups,
)
    requires
        spec_initialize_with(program_id, accounts, vault_owner, lookups).0 is Ok,
    ensures
        accounts.len() >= 4,
        accounts[2].is_signer,
        lookups.wallet matches Ok(w) && accounts[0].address == w.address,
        lookups.vault matches Ok(v) && accounts[1].address == v.address,
        vault_owner matches Some(owner) ==> accounts[1].owner_program_id == owner,
        spec_initialize_with(program_id, accounts, vault_owner, lookups).1[0].owner_program_id
            == program_id,
        spec_initialize_with(program_id, accounts, vault_owner, lookups).1[0].data == spec_encode(
            Wallet { authority: accounts[2].address, vault: lookups.vault->Ok_0.address },
        ),
{
    let request = spec_prepare(program_id, accounts, vault_owner, lookups)->Ok_0;
    provisioned_accounts(program_id, accounts, request.lamports);
}

/// A vault handle at any address but the one derived from the authority is
/// rejected with `AddressMismatch`, and nothing is changed. This holds
/// once four accounts are there, the authority has signed and both
/// derivations exist: the checks that come first.
pub proof fn forged_vault_is_rejected(
    program_id: Address,
    accounts: Seq<AccountModel>,
    vault_owner: Option<Address>,
    lookups: Lookups,
)
    requires
        accounts.len() >= 4,
        accounts[2].is_signer,
        lookups.wallet is Ok,
        lookups.vault matches Ok(v) && accounts[1].address != v.address,
    ensures
        spec_prepare(program_id, accounts, vault_owner, lookups) == Err::<
            crate::provision::RequestModel,
            ProtocolError,
        >(ProtocolError::AddressMismatch),
        spec_initialize_with(program_id, accounts, vault_owner, lookups) == (
            Err::<(), ProtocolError>(ProtocolError::AddressMismatch),
            accounts,
        ),
{
}

/// The same with the answers of the address deriver itself: a vault handle
/// that is not at the address derived from the authority's address and
/// the vault tag is rejected with `AddressMismatch`.
pub proof fn forged_vault_is_rejected_by_derivation(
    program_id: Address,
    accounts: Seq<AccountModel>,
    vault_owner: Option<Address>,
)
    requires
        accounts.len() >= 4,
        accounts[2].is_signer,
        spec_lookups(program_id, accounts).wallet is Ok,
        spec_lookups(program_id, accounts).vault matches Ok(v) && accounts[1].address != v.address,
    ensures
        spec_initialize(program_id, accounts, vault_owner) == (
            Err::<(), ProtocolError>(ProtocolError::AddressMismatch),
            accounts,
        ),
{
    forged_vault_is_rejected(program_id, accounts, vault_owner, spec_lookups(program_id, accounts));
}

/// Without validation the outcome does not depend on the vault handle at
/// all: put any handle in its place, and the instruction succeeds or fails
/// as before. Where it succeeds, the record binds the authority to the
/// address of whatever handle was supplied.
pub proof fn unchecked_accepts_any_vault(
    program_id: Address,
    accounts: Seq<AccountModel>,
    rent_minimum: Result<u64, ProtocolError>,
    forged: AccountModel,
)
    requires
        accounts.len() >= 4,
    ensures
        spec_initialize_unchecked_with(program_id, accounts.update(1, forged), rent_minimum).0
            == spec_initialize_unchecked_with(program_id, accounts, rent_minimum).0,
        spec_initialize_unchecked_with(program_id, accounts.update(1, forged), rent_minimum).0 is Ok
            ==> spec_initialize_unchecked_with(
            program_id,
            accounts.update(1, forged),
            rent_minimum,
        ).1[0].data == spec_encode(Wallet { authority: accounts[2].address, vault: forged.address }),
{
    let swapped = accounts.update(1, forged);
    if rent_minimum is Ok {
        provisioned_accounts(program_id, swapped, rent_minimum->Ok_0);
    }
}

/// One invocation, two outcomes. The vault handle is not at the derived
/// address; everything else is in order, and the wallet has signed for
/// itself. The validated instruction rejects it with `AddressMismatch`;
/// without validation it is accepted, and the forged vault is recorded.
pub proof fn forgery_succeeds_only_unchecked(
    program_id: Address,
    accounts: Seq<AccountModel>,
    vault_owner: Option<Address>,
    lookups: Lookups,
    lamports: u64,
)
    requires
        accounts.len() >= 4,
        accounts[2].is_signer,
        lookups.wallet is Ok,
        lookups.vault matches Ok(v) && accounts[1].address != v.address,
        lookups.rent_minimum == Ok::<u64, ProtocolError>(lamports),
        accounts[0].is_signer,
        accounts[0].is_empty(),
        accounts[2].lamport_balance >= lamports,
    ensures
        spec_initialize_with(program_id, accounts, vault_owner, lookups).0 == Err::<
            (),
            ProtocolError,
        >(ProtocolError::AddressMismatch),
        spec_initialize_unchecked_with(program_id, accounts, lookups.rent_minimum).0 is Ok,
        spec_initialize_unchecked_with(program_id, accounts, lookups.rent_minimum).1[0].data
            == spec_encode(bound_record(accounts)),
{
    provisioned_accounts(program_id, accounts, lamports);
}

/// A wallet handle that already stores bytes is rejected with `NotEmpty`:
/// no request is made, and nothing is changed. This holds once the checks
/// that come first have passed: four accounts, a signing authority, and
/// both handles at their derived addresses with the vault owned as
/// required.
pub proof fn occupied_wallet_is_rejected(
    program_id: Address,
    accounts: Seq<AccountModel>,
    vault_owner: Option<Address>,
    lookups: Lookups,
)
    requires
        accounts.len() >= 4,
        accounts[2].is_signer,
        lookups.wallet matches Ok(w) && accounts[0].address == w.address,
        lookups.vault matches Ok(v) && accounts[1].address == v.address,
        vault_owner matches Some(owner) ==> accounts[1].owner_program_id == owner,
        accounts[0].data.len() > 0,
    ensures
        spec_prepare(program_id, accounts, vault_owner, lookups) == Err::<
            crate::provision::RequestModel,
            ProtocolError,
        >(ProtocolError::NotEmpty),
        spec_initialize_with(program_id, accounts, vault_owner, lookups) == (
            Err::<(), ProtocolError>(ProtocolError::NotEmpty),
            accounts,
        ),
{
}

/// A payer that holds less than the request transfers is refused with
/// `InsufficientFunds`, whatever the target and the authorization.
pub proof fn poor_payer_is_refused(
    payer: AccountModel,
    new_account: AccountModel,
    lamports: u64,
    space: u64,
    authorization: Authorization,
)
    requires
        payer.lamport_balance < lamports,
    ensures
        provision_failure(payer, new_account, lamports, space, authorization) == Some(
            ProtocolError::InsufficientFunds,
        ),
{
}

/// An authority that holds less than the rent-exempt minimum makes the
/// validated instruction fail with `InsufficientFunds` once validation has
/// passed, and no account is created.
pub proof fn poor_authority_is_rejected(
    program_id: Address,
    accounts: Seq<AccountModel>,
    vault_owner: Option<Address>,
    lookups: Lookups,
)
    requires
        spec_prepare(program_id, accounts, vault_owner, lookups) matches Ok(request)
            && accounts[2].lamport_balance < request.lamports,
    ensures
        spec_initialize_with(program_id, accounts, vault_owner, lookups) == (
            Err::<(), ProtocolError>(ProtocolError::InsufficientFunds),
            accounts,
        ),
{
}

/// End to end: an empty wallet handle at the derived wallet address, a
/// vault handle at the derived vault address, a signing authority that can
/// pay, a rent model that reports `lamports`, and seeds that authorize the
/// wallet's address. Then the instruction succeeds; the wallet belongs to
/// the program, holds `lamports`, and stores the encoded record of the
/// authority's address and the derived vault address; the authority has
/// paid `lamports`; the vault and the rent sysvar are untouched.
pub proof fn accepted_invocation_provisions_wallet(
    program_id: Address,
    accounts: Seq<AccountModel>,
    vault_owner: Option<Address>,
    lookups: Lookups,
    lamports: u64,
)
    requires
        accounts.len() >= 4,
        accounts[2].is_signer,
        lookups.wallet matches Ok(w) && accounts[0].address == w.address,
        lookups.vault matches Ok(v) && accounts[1].address == v.address,
        vault_owner matches Some(owner) ==> accounts[1].owner_program_id == owner,
        accounts[0].is_empty(),
        lookups.rent_minimum == Ok::<u64, ProtocolError>(lamports),
        accounts[2].lamport_balance >= lamports,
        lookups.authorization == Authorization::Seeds(Some(accounts[0].address)),
    ensures
        spec_initialize_with(program_id, accounts, vault_owner, lookups) == (
            Ok::<(), ProtocolError>(()),
            provisioned(program_id, accounts, lamports),
        ),
        provisioned(program_id, accounts, lamports)[0].owner_program_id == program_id,
        provisioned(program_id, accounts, lamports)[0].lamport_balance == lamports,
        provisioned(program_id, accounts, lamports)[0].data == spec_encode(
            Wallet { authority: accounts[2].address, vault: lookups.vault->Ok_0.address },
        ),
        provisioned(program_id, accounts, lamports)[2].lamport_balance
            == accounts[2].lamport_balance - lamports,
        provisioned(program_id, accounts, lamports)[1] == accounts[1],
        provisioned(program_id, accounts, lamports)[3] == accounts[3],
{
    provisioned_accounts(program_id, accounts, lamports);
}

} // verus!
