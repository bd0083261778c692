//! The instruction: validate the handles, derive the addresses, create the
//! wallet account, write the record.
//!
//! The instruction takes its accounts by position: the wallet to create,
//! the vault it is bound to, the authority that signs and pays, and the
//! rent sysvar. Every step that can fail comes before the first change, so
//! a rejected invocation leaves every handle as it was.

use vstd::prelude::*;
use crate::account::{models, AccountHandle, AccountModel};
use crate::address::Address;
use crate::codec::{recorded, write_record, Wallet, WALLET_LEN};
use crate::derivation::{
    spec_derive, spec_rederive, spec_vault_seeds, spec_wallet_seeds, vault_seeds, wallet_seeds,
    with_bump, Derivation,
};
use crate::error::ProtocolError;
use crate::provision::{
    apply_create_account, authorize, created, debited, provision_failure,
    Authorization, ProvisioningRequest, RequestModel,
};
use crate::rent::{compute_rent_exempt_minimum, spec_rent_exempt_minimum};
use crate::validator::{expect_address, expect_empty, expect_owner, expect_signer};

verus! {

/// What the address deriver and the rent model answer for one invocation.
#[derive(Clone, Copy, Debug)]
pub struct Lookups {
    /// The address derived for the authority's wallet.
    pub wallet: Result<Derivation, ProtocolError>,
    /// The address derived for the authority's vault.
    pub vault: Result<Derivation, ProtocolError>,
    /// The rent-exempt minimum for an encoded record.
    pub rent_minimum: Result<u64, ProtocolError>,
    /// What the wallet's seeds and bump authorize.
    pub authorization: Authorization,
}

/// The answers for a program and a list of at least four accounts.
pub open spec fn spec_lookups(program_id: Address, accounts: Seq<AccountModel>) -> Lookups {
    let authority = accounts[2].address;
    let wallet = spec_derive(program_id, spec_wallet_seeds(authority));
    Lookups {
        wallet,
        vault: spec_derive(program_id, spec_vault_seeds(authority)),
        rent_minimum: spec_rent_exempt_minimum(accounts[3], WALLET_LEN),
        authorization: match wallet {
            Ok(d) => Authorization::Seeds(
                spec_rederive(program_id, spec_wallet_seeds(authority).push(seq![d.bump])),
            ),
            Err(_) => Authorization::Signature,
        },
    }
}

/// The request that the validated instruction sends to the ledger, or the
/// error of the first check that fails. The checks come in this order:
/// the number of accounts; the authority's signature; the two derivations;
/// the wallet's and the vault's address; the vault's owner, where one is
/// required; the emptiness of the wallet; the rent model.
pub open spec fn spec_prepare(
    program_id: Address,
    accounts: Seq<AccountModel>,
    vault_owner: Option<Address>,
    lookups: Lookups,
) -> Result<RequestModel, ProtocolError> {
    if accounts.len() < 4 {
        Err(ProtocolError::MissingAccount)
    } else if !accounts[2].is_signer {
        Err(ProtocolError::MissingSignature)
    } else if lookups.wallet is Err {
        Err(lookups.wallet->Err_0)
    } else if lookups.vault is Err {
        Err(lookups.vault->Err_0)
    } else if accounts[0].address != lookups.wallet->Ok_0.address {
        Err(ProtocolError::AddressMismatch)
    } else if accounts[1].address != lookups.vault->Ok_0.address {
        Err(ProtocolError::AddressMismatch)
    } else if vault_owner is Some && accounts[1].owner_program_id != vault_owner->Some_0 {
        Err(ProtocolError::OwnerMismatch)
    } else if !accounts[0].is_empty() {
        Err(ProtocolError::NotEmpty)
    } else if lookups.rent_minimum is Err {
        Err(lookups.rent_minimum->Err_0)
    } else {
        Ok(
            RequestModel {
                payer: accounts[2].address,
                new_account_address: accounts[0].address,
                lamports: lookups.rent_minimum->Ok_0,
                space: WALLET_LEN,
                owner_program_id: program_id,
                signer_seeds: Some(
                    spec_wallet_seeds(accounts[2].address).push(seq![lookups.wallet->Ok_0.bump]),
                ),
            },
        )
    }
}

/// The accounts after the wallet has been created with `lamports` and the
/// record written: the wallet belongs to the program and stores the
/// record that binds the authority's address to the vault's, and the
/// authority has paid. The other accounts are as they were.
pub open spec fn provisioned(
    program_id: Address,
    accounts: Seq<AccountModel>,
    lamports: u64,
) -> Seq<AccountModel> {
    let record = Wallet { authority: accounts[2].address, vault: accounts[1].address };
    accounts.update(
        0,
        recorded(created(accounts[0], lamports, WALLET_LEN, program_id), record),
    ).update(2, debited(accounts[2], lamports))
}

/// The outcome of the validated instruction and the accounts it leaves.
pub open spec fn spec_initialize_with(
    program_id: Address,
    accounts: Seq<AccountModel>,
    vault_owner: Option<Address>,
    lookups: Lookups,
) -> (Result<(), ProtocolError>, Seq<AccountModel>) {
    match spec_prepare(program_id, accounts, vault_owner, lookups) {
        Err(e) => (Err(e), accounts),
        Ok(request) => match provision_failure(
            accounts[2],
            accounts[0],
            request.lamports,
            request.space,
            lookups.authorization,
        ) {
            Some(e) => (Err(e), accounts),
            None => (Ok(()), provisioned(program_id, accounts, request.lamports)),
        },
    }
}

/// The outcome of the validated instruction with the answers that the
/// address deriver and the rent model give.
pub open spec fn spec_initialize(
    program_id: Address,
    accounts: Seq<AccountModel>,
    vault_owner: Option<Address>,
) -> (Result<(), ProtocolError>, Seq<AccountModel>) {
    spec_initialize_with(program_id, accounts, vault_owner, spec_lookups(program_id, accounts))
}

/// The outcome of the instruction without validation: neither signature
/// nor address nor emptiness is looked at before the ledger is asked, and
/// the wallet has to sign for itself.
pub open spec fn spec_initialize_unchecked_with(
    program_id: Address,
    accounts: Seq<AccountModel>,
    rent_minimum: Result<u64, ProtocolError>,
) -> (Result<(), ProtocolError>, Seq<AccountModel>) {
    if accounts.len() < 4 {
        (Err(ProtocolError::MissingAccount), accounts)
    } else {
        match rent_minimum {
            Err(e) => (Err(e), accounts),
            Ok(lamports) => match provision_failure(
                accounts[2],
                accounts[0],
                lamports,
                WALLET_LEN,
                Authorization::Signature,
            ) {
                Some(e) => (Err(e), accounts),
                None => (Ok(()), provisioned(program_id, accounts, lamports)),
            },
        }
    }
}

/// The accounts of the instruction, by the role that each plays.
pub struct Roles<'a> {
    /// The wallet to create.
    pub wallet: &'a AccountHandle,
    /// The vault that the wallet is bound to.
    pub vault: &'a AccountHandle,
    /// The authority that signs and pays.
    pub authority: &'a AccountHandle,
    /// The rent sysvar.
    pub rent_sysvar: &'a AccountHandle,
}

/// Takes the accounts apart by position: wallet, vault, authority, rent
/// sysvar. Fails with `MissingAccount` exactly when there are fewer than
/// four; what follows the fourth is ignored.
pub fn destructure<'a>(accounts: &'a Vec<AccountHandle>) -> (res: Result<Roles<'a>, ProtocolError>)
    ensures
        accounts@.len() < 4 ==> (res matches Err(e) && e == ProtocolError::MissingAccount),
        accounts@.len() >= 4 ==> (res matches Ok(roles) && *roles.wallet == accounts@[0]
            && *roles.vault == accounts@[1] && *roles.authority == accounts@[2]
            && *roles.rent_sysvar == accounts@[3]),
{
    if accounts.len() < 4 {
        return Err(ProtocolError::MissingAccount);
    }
    Ok(
        Roles {
            wallet: &accounts[0],
            vault: &accounts[1],
            authority: &accounts[2],
            rent_sysvar: &accounts[3],
        },
    )
}

/// Asks the address deriver and the rent model what the instruction needs
/// to know. Fails with `MissingAccount` exactly when there are fewer than
/// four accounts. Where the wallet's address is found, the authorization
/// is the one for that very address.
pub fn look_up(program_id: &Address, accounts: &Vec<AccountHandle>) -> (res: Result<
    Lookups,
    ProtocolError,
>)
    ensures
        accounts@.len() < 4 ==> res == Err::<Lookups, ProtocolError>(
            ProtocolError::MissingAccount,
        ),
        accounts@.len() >= 4 ==> res == Ok::<Lookups, ProtocolError>(
            spec_lookups(*program_id, models(accounts@)),
        ),
        res matches Ok(l) ==> (l.wallet matches Ok(d) ==> l.authorization == Authorization::Seeds(
            Some(d.address),
        )),
{
    let roles = destructure(accounts)?;
    let authority = roles.authority.address;
    let wallet = crate::derivation::derive(program_id, &wallet_seeds(&authority));
    let vault = crate::derivation::derive(program_id, &vault_seeds(&authority));
    let rent_minimum = compute_rent_exempt_minimum(roles.rent_sysvar, WALLET_LEN);
    let authorization = match wallet {
        Ok(d) => {
            let seeds = with_bump(wallet_seeds(&authority), d.bump);
            authorize(program_id, Some(&seeds))
        },
        Err(_) => Authorization::Signature,
    };
    Ok(Lookups { wallet, vault, rent_minimum, authorization })
}

/// Validates the accounts against the given answers and builds the request
/// for the ledger. Nothing is changed.
pub fn prepare_with(
    program_id: &Address,
    accounts: &Vec<AccountHandle>,
    vault_owner: Option<Address>,
    lookups: &Lookups,
) -> (res: Result<ProvisioningRequest, ProtocolError>)
    ensures
        match spec_prepare(*program_id, models(accounts@), vault_owner, *lookups) {
            Ok(request) => res matches Ok(r) && r@ == request,
            Err(e) => res == Err::<ProvisioningRequest, ProtocolError>(e),
        },
{
    let roles = destructure(accounts)?;
    let (wallet, vault, authority) = (roles.wallet, roles.vault, roles.authority);
    expect_signer(authority)?;
    let wallet_pda = lookups.wallet?;
    let vault_pda = lookups.vault?;
    expect_address(wallet, &wallet_pda.address)?;
    expect_address(vault, &vault_pda.address)?;
    if let Some(owner) = vault_owner {
        expect_owner(vault, &owner)?;
    }
    expect_empty(wallet)?;
    let lamports = lookups.rent_minimum?;
    let seeds = with_bump(wallet_seeds(&authority.address), wallet_pda.bump);
    Ok(
        ProvisioningRequest {
            payer: authority.address,
            new_account_address: wallet.address,
            lamports,
            space: WALLET_LEN,
            owner_program_id: *program_id,
            signer_seeds: Some(seeds),
        },
    )
}

/// Validates the accounts and builds the request for the ledger, with the
/// answers that the address deriver and the rent model give.
pub fn prepare(program_id: &Address, accounts: &Vec<AccountHandle>, vault_owner: Option<Address>) -> (res:
    Result<ProvisioningRequest, ProtocolError>)
    ensures
        match spec_prepare(
            *program_id,
            models(accounts@),
            vault_owner,
            spec_lookups(*program_id, models(accounts@)),
        ) {
            Ok(request) => res matches Ok(r) && r@ == request,
            Err(e) => res == Err::<ProvisioningRequest, ProtocolError>(e),
        },
{
    let lookups = look_up(program_id, accounts)?;
    prepare_with(program_id, accounts, vault_owner, &lookups)
}

/// Puts the created wallet and the debited authority back among the
/// accounts.
fn commit(accounts: &mut Vec<AccountHandle>, wallet: AccountHandle, authority: AccountHandle)
    requires
        old(accounts)@.len() >= 4,
    ensures
        models(final(accounts)@) == models(old(accounts)@).update(0, wallet@).update(
            2,
            authority@,
        ),
        final(accounts)@.len() == old(accounts)@.len(),
{
    accounts.set(0, wallet);
    accounts.set(2, authority);
    assert(models(accounts@) =~= models(old(accounts)@).update(0, wallet@).update(2, authority@));
}

/// Creates the wallet with `lamports` on the given authorization and
/// writes the record. On failure nothing is changed.
fn provision(
    program_id: &Address,
    accounts: &mut Vec<AccountHandle>,
    lamports: u64,
    authorization: &Authorization,
) -> (res: Result<(), ProtocolError>)
    requires
        old(accounts)@.len() >= 4,
    ensures
        final(accounts)@.len() == old(accounts)@.len(),
        match provision_failure(
            models(old(accounts)@)[2],
            models(old(accounts)@)[0],
            lamports,
            WALLET_LEN,
            *authorization,
        ) {
            Some(e) => res == Err::<(), ProtocolError>(e) && models(final(accounts)@) == models(
                old(accounts)@,
            ),
            None => res == Ok::<(), ProtocolError>(()) && models(final(accounts)@) == provisioned(
                *program_id,
                models(old(accounts)@),
                lamports,
            ),
        },
{
    let mut wallet = accounts[0].duplicate();
    let mut authority = accounts[2].duplicate();
    let record = Wallet { authority: accounts[2].address, vault: accounts[1].address };
    match apply_create_account(
        &mut authority,
        &mut wallet,
        lamports,
        WALLET_LEN,
        program_id,
        authorization,
    ) {
        Err(e) => {
            assert(models(accounts@) =~= models(old(accounts)@));
            return Err(e);
        },
        Ok(()) => {},
    }
    let written = write_record(&mut wallet, &record);
    assert(written is Ok);
    commit(accounts, wallet, authority);
    Ok(())
}

/// Runs the validated instruction on the given answers.
///
/// The result and the accounts afterwards are those of
/// `spec_initialize_with`: the first check that fails decides the error
/// and nothing is changed; where every check passes, the wallet is created
/// with the rent-exempt minimum, owned by the program, and holds the
/// record of the authority's and the vault's address.
pub fn initialize_with(
    program_id: &Address,
    accounts: &mut Vec<AccountHandle>,
    vault_owner: Option<Address>,
    lookups: &Lookups,
) -> (res: Result<(), ProtocolError>)
    ensures
        (res, models(final(accounts)@)) == spec_initialize_with(
            *program_id,
            models(old(accounts)@),
            vault_owner,
            *lookups,
        ),
        final(accounts)@.len() == old(accounts)@.len(),
{
    let request = prepare_with(program_id, accounts, vault_owner, lookups)?;
    provision(program_id, accounts, request.lamports, &lookups.authorization)
}

/// Whether an invocation meets everything the validated instruction asks
/// for: four accounts, a signing authority, a wallet and a vault at the
/// addresses derived from the authority, the vault owned as required, an
/// empty wallet, and a rent sysvar that reports a minimum which the
/// authority can pay.
pub open spec fn acceptable(
    program_id: Address,
    accounts: Seq<AccountModel>,
    vault_owner: Option<Address>,
) -> bool {
    let authority = accounts[2].address;
    &&& accounts.len() >= 4
    &&& accounts[2].is_signer
    &&& spec_derive(program_id, spec_wallet_seeds(authority)) matches Ok(w) && accounts[0].address
        == w.address
    &&& spec_derive(program_id, spec_vault_seeds(authority)) matches Ok(v) && accounts[1].address
        == v.address
    &&& vault_owner matches Some(owner) ==> accounts[1].owner_program_id == owner
    &&& accounts[0].is_empty()
    &&& spec_rent_exempt_minimum(accounts[3], WALLET_LEN) matches Ok(lamports)
        && accounts[2].lamport_balance >= lamports
}

/// The minimum that the rent sysvar among the accounts reports for an
/// encoded record, where it reports one.
pub open spec fn reported_minimum(accounts: Seq<AccountModel>) -> u64 {
    spec_rent_exempt_minimum(accounts[3], WALLET_LEN)->Ok_0
}

/// Runs the validated instruction: checks the accounts against the
/// addresses derived from the authority, creates the wallet, and writes
/// the record.
///
/// The result and the accounts afterwards are those of `spec_initialize`.
/// An invocation that is `acceptable` succeeds, and a rejected one changes
/// nothing.
pub fn initialize(
    program_id: &Address,
    accounts: &mut Vec<AccountHandle>,
    vault_owner: Option<Address>,
) -> (res: Result<(), ProtocolError>)
    ensures
        (res, models(final(accounts)@)) == spec_initialize(
            *program_id,
            models(old(accounts)@),
            vault_owner,
        ),
        final(accounts)@.len() == old(accounts)@.len(),
        res is Err ==> models(final(accounts)@) == models(old(accounts)@),
        acceptable(*program_id, models(old(accounts)@), vault_owner) ==> res is Ok && models(
            final(accounts)@,
        ) == provisioned(
            *program_id,
            models(old(accounts)@),
            reported_minimum(models(old(accounts)@)),
        ),
{
    let lookups = look_up(program_id, accounts)?;
    initialize_with(program_id, accounts, vault_owner, &lookups)
}

/// Runs the instruction on the given rent minimum without validating
/// anything: the wallet is created wherever the ledger allows it, and the
/// record takes the vault's address as the caller supplied it.
pub fn initialize_unchecked_with(
    program_id: &Address,
    accounts: &mut Vec<AccountHandle>,
    rent_minimum: Result<u64, ProtocolError>,
) -> (res: Result<(), ProtocolError>)
    ensures
        (res, models(final(accounts)@)) == spec_initialize_unchecked_with(
            *program_id,
            models(old(accounts)@),
            rent_minimum,
        ),
        final(accounts)@.len() == old(accounts)@.len(),
{
    destructure(accounts)?;
    let lamports = rent_minimum?;
    provision(program_id, accounts, lamports, &Authorization::Signature)
}

/// Runs the instruction without validating anything, with the minimum
/// that the rent sysvar reports.
pub fn initialize_unchecked(program_id: &Address, accounts: &mut Vec<AccountHandle>) -> (res: Result<
    (),
    ProtocolError,
>)
    ensures
        (res, models(final(accounts)@)) == spec_initialize_unchecked_with(
            *program_id,
            models(old(accounts)@),
            spec_rent_exempt_minimum(models(old(accounts)@)[3], WALLET_LEN),
        ),
        final(accounts)@.len() == old(accounts)@.len(),
{
    let rent_minimum = compute_rent_exempt_minimum(destructure(accounts)?.rent_sysvar, WALLET_LEN);
    initialize_unchecked_with(program_id, accounts, rent_minimum)
}

/// The program's one instruction. It has no selector and ignores its
/// data: every invocation is the validated initialization, with no owner
/// required of the vault.
pub fn process_instruction(
    program_id: &Address,
    accounts: &mut Vec<AccountHandle>,
    instruction_data: &[u8],
) -> (res: Result<(), ProtocolError>)
    ensures
        (res, models(final(accounts)@)) == spec_initialize(
            *program_id,
            models(old(accounts)@),
            None,
        ),
        final(accounts)@.len() == old(accounts)@.len(),
        res is Err ==> models(final(accounts)@) == models(old(accounts)@),
        acceptable(*program_id, models(old(accounts)@), None) ==> res is Ok && models(
            final(accounts)@,
        ) == provisioned(
            *program_id,
            models(old(accounts)@),
            reported_minimum(models(old(accounts)@)),
        ),
{
    initialize(program_id, accounts, None)
}

} // verus!
