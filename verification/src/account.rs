//! Account handles: what the ledger lends a program for one invocation.

use vstd::prelude::*;
use crate::address::Address;

verus! {

/// A slot of the ledger, borrowed for the duration of one instruction.
#[derive(Clone, Debug)]
pub struct AccountHandle {
    /// Where the account lives.
    pub address: Address,
    /// The program that may change the account's data.
    pub owner_program_id: Address,
    /// The balance of the account.
    pub lamport_balance: u64,
    /// The raw bytes the account stores.
    pub data: Vec<u8>,
    /// Whether the account signed the transaction.
    pub is_signer: bool,
    /// Whether the invocation may change the account.
    pub is_writable: bool,
}

/// The mathematical content of an account handle.
pub struct AccountModel {
    pub address: Address,
    pub owner_program_id: Address,
    pub lamport_balance: u64,
    pub data: Seq<u8>,
    pub is_signer: bool,
    pub is_writable: bool,
}

impl View for AccountHandle {
    type V = AccountModel;

    open spec fn view(&self) -> AccountModel {
        AccountModel {
            address: self.address,
            owner_program_id: self.owner_program_id,
            lamport_balance: self.lamport_balance,
            data: self.data@,
            is_signer: self.is_signer,
            is_writable: self.is_writable,
        }
    }
}

impl AccountModel {
    /// An account is empty when it stores no bytes and no program has been
    /// assigned to it.
    pub open spec fn is_empty(self) -> bool {
        self.data.len() == 0 && self.owner_program_id.is_unassigned()
    }
}

/// The models of a list of handles, position by position.
pub open spec fn models(handles: Seq<AccountHandle>) -> Seq<AccountModel> {
    Seq::new(handles.len(), |i: int| handles[i]@)
}

impl AccountHandle {
    /// A handle with the given content.
    pub fn new(
        address: Address,
        owner_program_id: Address,
        lamport_balance: u64,
        data: Vec<u8>,
        is_signer: bool,
        is_writable: bool,
    ) -> (res: AccountHandle)
        ensures
            res@ == (AccountModel {
                address,
                owner_program_id,
                lamport_balance,
                data: data@,
                is_signer,
                is_writable,
            }),
    {
        AccountHandle { address, owner_program_id, lamport_balance, data, is_signer, is_writable }
    }

    /// A second handle with the same content.
    pub fn duplicate(&self) -> (res: AccountHandle)
        ensures
            res@ == self@,
    {
        let data = self.data.clone();
        assert(data@ =~= self.data@);
        AccountHandle {
            address: self.address,
            owner_program_id: self.owner_program_id,
            lamport_balance: self.lamport_balance,
            data,
            is_signer: self.is_signer,
            is_writable: self.is_writable,
        }
    }
}

} // verus!
