//! Creating accounts: the request, its authorization, and what the ledger
//! does with both.

use vstd::prelude::*;
use crate::account::{AccountHandle, AccountModel};
use crate::address::Address;
use crate::derivation::{rederive, seed_list, spec_rederive};
use crate::error::ProtocolError;
use solana_program::pubkey::Pubkey;
use solana_program::system_instruction;

verus! {

/// The largest data buffer that the ledger gives an account.
pub const MAX_PERMITTED_DATA_LENGTH: u64 = 10_485_760;

/// A request to create one account.
#[derive(Clone, Debug)]
pub struct ProvisioningRequest {
    /// The account that pays for the new one.
    pub payer: Address,
    /// Where the new account is to live.
    pub new_account_address: Address,
    /// The balance that the new account starts with.
    pub lamports: u64,
    /// The length of the new account's data buffer.
    pub space: u64,
    /// The program that is to own the new account.
    pub owner_program_id: Address,
    /// The seeds, ending in their bump, from which the new account's
    /// address derives; absent where the new account signs for itself.
    pub signer_seeds: Option<Vec<Vec<u8>>>,
}

/// The mathematical content of a request.
pub struct RequestModel {
    pub payer: Address,
    pub new_account_address: Address,
    pub lamports: u64,
    pub space: u64,
    pub owner_program_id: Address,
    pub signer_seeds: Option<Seq<Seq<u8>>>,
}

impl View for ProvisioningRequest {
    type V = RequestModel;

    open spec fn view(&self) -> RequestModel {
        RequestModel {
            payer: self.payer,
            new_account_address: self.new_account_address,
            lamports: self.lamports,
            space: self.space,
            owner_program_id: self.owner_program_id,
            signer_seeds: match self.signer_seeds {
                Some(seeds) => Some(seed_list(seeds@)),
                None => None,
            },
        }
    }
}

/// One account that an instruction for the ledger refers to.
#[derive(Clone, Copy, Debug)]
pub struct AccountReference {
    /// Where the account lives.
    pub address: Address,
    /// Whether the instruction needs the account's signature.
    pub is_signer: bool,
    /// Whether the instruction may change the account.
    pub is_writable: bool,
}

/// An instruction for a program of the ledger: the program, the accounts
/// it is handed, and the bytes it interprets.
#[derive(Clone, Debug)]
pub struct LedgerInstruction {
    pub program_id: Address,
    pub accounts: Vec<AccountReference>,
    pub data: Vec<u8>,
}

/// The bytes by which `system_instruction::create_account` tells the
/// system program how many lamports to transfer, how many bytes to
/// allocate, and which program is to own the account.
pub uninterp spec fn create_account_data(lamports: u64, space: u64, owner: Seq<u8>) -> Seq<u8>;

/// Calls `system_instruction::create_account` and hands its three fields
/// out as plain values. The contract claims what the function's source
/// shows: the instruction is for the system program, whose address is all
/// zero; it refers to the payer and to the new account, in this order,
/// both as signers and writable; and its data is a function of the
/// lamports, the space and the owner alone.
#[verifier::external_body]
fn system_create_account(
    payer: &Address,
    new_account: &Address,
    lamports: u64,
    space: u64,
    owner: &Address,
) -> (res: LedgerInstruction)
    ensures
        res.program_id.is_unassigned(),
        res.accounts@.len() == 2,
        res.accounts@[0] == (AccountReference {
            address: *payer,
            is_signer: true,
            is_writable: true,
        }),
        res.accounts@[1] == (AccountReference {
            address: *new_account,
            is_signer: true,
            is_writable: true,
        }),
        res.data@ == create_account_data(lamports, space, owner@),
{
    let from = Pubkey::new_from_array(payer.bytes);
    let to = Pubkey::new_from_array(new_account.bytes);
    let program = Pubkey::new_from_array(owner.bytes);
    let made = system_instruction::create_account(&from, &to, lamports, space, &program);
    LedgerInstruction {
        program_id: Address { bytes: made.program_id.to_bytes() },
        accounts: made.accounts.iter().map(|meta| AccountReference {
            address: Address { bytes: meta.pubkey.to_bytes() },
            is_signer: meta.is_signer,
            is_writable: meta.is_writable,
        }).collect(),
        data: made.data,
    }
}

impl ProvisioningRequest {
    /// The instruction that asks the system program for what the request
    /// describes: addressed to the system program, referring to the payer
    /// and then to the new account, both as writable signers.
    pub fn to_instruction(&self) -> (res: LedgerInstruction)
        ensures
            res.program_id.is_unassigned(),
            res.accounts@.len() == 2,
            res.accounts@[0] == (AccountReference {
                address: self.payer,
                is_signer: true,
                is_writable: true,
            }),
            res.accounts@[1] == (AccountReference {
                address: self.new_account_address,
                is_signer: true,
                is_writable: true,
            }),
            res.data@ == create_account_data(self.lamports, self.space, self.owner_program_id@),
    {
        system_create_account(
            &self.payer,
            &self.new_account_address,
            self.lamports,
            self.space,
            &self.owner_program_id,
        )
    }
}

/// On whose word an account is created.
#[derive(Clone, Copy, Debug)]
pub enum Authorization {
    /// No seeds were supplied: the new account has to have signed the
    /// transaction itself.
    Signature,
    /// Seeds were supplied. They re-derive to the address held here, or
    /// to none.
    Seeds(Option<Address>),
}

/// Why an authorization does not cover the creation of `new_account`, if it
/// does not: seeds that re-derive to another address or to none are
/// `InvalidSeeds`; without seeds, an account that did not sign is a
/// `MissingSignature`.
pub open spec fn authorization_failure(
    authorization: Authorization,
    new_account: AccountModel,
) -> Option<ProtocolError> {
    match authorization {
        Authorization::Seeds(derived) => if derived == Some(new_account.address) {
            None
        } else {
            Some(ProtocolError::InvalidSeeds)
        },
        Authorization::Signature => if new_account.is_signer {
            None
        } else {
            Some(ProtocolError::MissingSignature)
        },
    }
}

/// The authorization that signer seeds amount to under `program_id`.
pub open spec fn spec_authorize(program_id: Address, signer_seeds: Option<Seq<Seq<u8>>>) -> Authorization {
    match signer_seeds {
        Some(seeds) => Authorization::Seeds(spec_rederive(program_id, seeds)),
        None => Authorization::Signature,
    }
}

/// Why a creation is refused, if it is. The checks come in this order: the
/// payer's balance, the emptiness of the target, the authorization, the
/// size of the buffer.
pub open spec fn provision_failure(
    payer: AccountModel,
    new_account: AccountModel,
    lamports: u64,
    space: u64,
    authorization: Authorization,
) -> Option<ProtocolError> {
    if payer.lamport_balance < lamports {
        Some(ProtocolError::InsufficientFunds)
    } else if !new_account.is_empty() {
        Some(ProtocolError::AccountAlreadyInUse)
    } else if authorization_failure(authorization, new_account) is Some {
        authorization_failure(authorization, new_account)
    } else if space > MAX_PERMITTED_DATA_LENGTH {
        Some(ProtocolError::ResourceExhausted)
    } else {
        None
    }
}

/// The payer after it has paid `lamports`.
pub open spec fn debited(payer: AccountModel, lamports: u64) -> AccountModel {
    AccountModel { lamport_balance: (payer.lamport_balance - lamports) as u64, ..payer }
}

/// The new account after its creation: it holds `lamports`, belongs to
/// `owner`, and stores `space` zero bytes.
pub open spec fn created(
    new_account: AccountModel,
    lamports: u64,
    space: u64,
    owner: Address,
) -> AccountModel {
    AccountModel {
        lamport_balance: lamports,
        owner_program_id: owner,
        data: Seq::new(space as nat, |i: int| 0u8),
        ..new_account
    }
}

/// A buffer of `len` zero bytes.
fn zeroed(len: usize) -> (res: Vec<u8>)
    ensures
        res@ == Seq::new(len as nat, |i: int| 0u8),
{
    let mut out: Vec<u8> = Vec::new();
    let mut i: usize = 0;
    while i < len
        invariant
            i <= len,
            out@.len() == i,
            forall|j: int| 0 <= j < i ==> out@[j] == 0u8,
        decreases len - i,
    {
        out.push(0u8);
        i += 1;
    }
    assert(out@ =~= Seq::new(len as nat, |i: int| 0u8));
    out
}

/// The authorization that signer seeds amount to under `program_id`:
/// where seeds are given, they are re-derived.
pub fn authorize(program_id: &Address, signer_seeds: Option<&Vec<Vec<u8>>>) -> (res: Authorization)
    ensures
        res == spec_authorize(
            *program_id,
            match signer_seeds {
                Some(seeds) => Some(seed_list(seeds@)),
                None => None,
            },
        ),
{
    match signer_seeds {
        Some(seeds) => Authorization::Seeds(rederive(program_id, seeds)),
        None => Authorization::Signature,
    }
}

/// Whether an authorization covers the creation of `new_account`.
pub fn check_authorization(authorization: &Authorization, new_account: &AccountHandle) -> (res:
    Result<(), ProtocolError>)
    ensures
        match authorization_failure(*authorization, new_account@) {
            Some(e) => res == Err::<(), ProtocolError>(e),
            None => res == Ok::<(), ProtocolError>(()),
        },
{
    match authorization {
        Authorization::Seeds(Some(address)) => {
            if address.same(&new_account.address) {
                Ok(())
            } else {
                Err(ProtocolError::InvalidSeeds)
            }
        },
        Authorization::Seeds(None) => Err(ProtocolError::InvalidSeeds),
        Authorization::Signature => {
            if new_account.is_signer {
                Ok(())
            } else {
                Err(ProtocolError::MissingSignature)
            }
        },
    }
}

/// Creates `new_account` under an authorization that has been worked out
/// already.
///
/// On success the payer has paid `lamports`, and the new account holds
/// them, belongs to `owner_program_id` and stores `space` zero bytes. On
/// any failure both handles are as they were.
pub fn apply_create_account(
    payer: &mut AccountHandle,
    new_account: &mut AccountHandle,
    lamports: u64,
    space: u64,
    owner_program_id: &Address,
    authorization: &Authorization,
) -> (res: Result<(), ProtocolError>)
    ensures
        match provision_failure(old(payer)@, old(new_account)@, lamports, space, *authorization) {
            Some(e) => {
                &&& res == Err::<(), ProtocolError>(e)
                &&& final(payer)@ == old(payer)@
                &&& final(new_account)@ == old(new_account)@
            },
            None => {
                &&& res == Ok::<(), ProtocolError>(())
                &&& final(payer)@ == debited(old(payer)@, lamports)
                &&& final(new_account)@ == created(
                    old(new_account)@,
                    lamports,
                    space,
                    *owner_program_id,
                )
            },
        },
{
    if payer.lamport_balance < lamports {
        return Err(ProtocolError::InsufficientFunds);
    }
    if crate::validator::expect_empty(new_account).is_err() {
        return Err(ProtocolError::AccountAlreadyInUse);
    }
    check_authorization(authorization, new_account)?;
    if space > MAX_PERMITTED_DATA_LENGTH {
        return Err(ProtocolError::ResourceExhausted);
    }
    payer.lamport_balance = payer.lamport_balance - lamports;
    new_account.lamport_balance = lamports;
    new_account.owner_program_id = *owner_program_id;
    new_account.data = zeroed(space as usize);
    Ok(())
}

/// Creates `new_account`: it is paid for by `payer`, owned by
/// `owner_program_id`, and given `space` zero bytes and `lamports`.
///
/// With signer seeds, the seeds are re-derived under `owner_program_id`
/// and have to yield the new account's address; without them the new
/// account has to have signed. Fails with `InsufficientFunds` where the
/// payer holds less than `lamports`, else with `AccountAlreadyInUse` where
/// the target is not empty, else with `InvalidSeeds` or `MissingSignature`
/// where the authorization does not hold, else with `ResourceExhausted`
/// where `space` is more than the ledger gives. On any failure both
/// handles are as they were.
pub fn create_account(
    payer: &mut AccountHandle,
    new_account: &mut AccountHandle,
    lamports: u64,
    space: u64,
    owner_program_id: &Address,
    signer_seeds: Option<&Vec<Vec<u8>>>,
) -> (res: Result<(), ProtocolError>)
    ensures
        match provision_failure(
            old(payer)@,
            old(new_account)@,
            lamports,
            space,
            spec_authorize(
                *owner_program_id,
                match signer_seeds {
                    Some(seeds) => Some(seed_list(seeds@)),
                    None => None,
                },
            ),
        ) {
            Some(e) => {
                &&& res == Err::<(), ProtocolError>(e)
                &&& final(payer)@ == old(payer)@
                &&& final(new_account)@ == old(new_account)@
            },
            None => {
                &&& res == Ok::<(), ProtocolError>(())
                &&& final(payer)@ == debited(old(payer)@, lamports)
                &&& final(new_account)@ == created(
                    old(new_account)@,
                    lamports,
                    space,
                    *owner_program_id,
                )
            },
        },
        old(payer)@.lamport_balance < lamports ==> res == Err::<(), ProtocolError>(
            ProtocolError::InsufficientFunds,
        ),
{
    let authorization = authorize(owner_program_id, signer_seeds);
    apply_create_account(payer, new_account, lamports, space, owner_program_id, &authorization)
}

} // verus!
