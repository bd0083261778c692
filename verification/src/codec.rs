//! The fixed-layout record that a wallet account stores.

use vstd::prelude::*;
use crate::account::{AccountHandle, AccountModel};
use crate::address::Address;
use crate::error::ProtocolError;

verus! {

/// Length of an encoded record: two addresses of 32 bytes each.
pub const WALLET_LEN: u64 = 64;

/// Who may move funds (`authority`) and where they are kept (`vault`).
#[derive(Clone, Copy, Debug, Eq)]
pub struct Wallet {
    pub authority: Address,
    pub vault: Address,
}

impl PartialEq for Wallet {
    fn eq(&self, other: &Wallet) -> (res: bool) {
        self.authority.same(&other.authority) && self.vault.same(&other.vault)
    }
}

impl vstd::std_specs::cmp::PartialEqSpecImpl for Wallet {
    open spec fn obeys_eq_spec() -> bool {
        true
    }

    open spec fn eq_spec(&self, other: &Wallet) -> bool {
        *self == *other
    }
}

impl Default for Wallet {
    fn default() -> (res: Wallet)
        ensures
            res.authority.is_unassigned(),
            res.vault.is_unassigned(),
    {
        Wallet { authority: Address::unassigned(), vault: Address::unassigned() }
    }
}

/// The bytes of a record: the authority's 32 bytes, then the vault's, with
/// no length prefix and no padding.
pub open spec fn spec_encode(record: Wallet) -> Seq<u8> {
    record.authority@ + record.vault@
}

/// What decoding `bytes` yields: a buffer of any length but 64 is an error;
/// one of 64 bytes is the record whose authority is the first half and
/// whose vault is the second.
pub open spec fn decodes_to(bytes: Seq<u8>, res: Result<Wallet, ProtocolError>) -> bool {
    if bytes.len() == 64 {
        res matches Ok(record) && record.authority@ == bytes.subrange(0, 32) && record.vault@
            == bytes.subrange(32, 64)
    } else {
        res == Err::<Wallet, ProtocolError>(ProtocolError::DecodeError)
    }
}

/// Serialises a record into its 64 bytes.
pub fn encode(record: &Wallet) -> (res: Vec<u8>)
    ensures
        res@ == spec_encode(*record),
        res@.len() == WALLET_LEN,
{
    let mut out: Vec<u8> = Vec::new();
    let mut i: usize = 0;
    while i < 32
        invariant
            i <= 32,
            out@.len() == i,
            forall|j: int| 0 <= j < i ==> out@[j] == record.authority@[j],
        decreases 32 - i,
    {
        out.push(record.authority.bytes[i]);
        i += 1;
    }
    let mut k: usize = 0;
    while k < 32
        invariant
            k <= 32,
            out@.len() == 32 + k,
            forall|j: int| 0 <= j < 32 ==> out@[j] == record.authority@[j],
            forall|j: int| 0 <= j < k ==> out@[32 + j] == record.vault@[j],
        decreases 32 - k,
    {
        out.push(record.vault.bytes[k]);
        k += 1;
    }
    assert(out@ =~= spec_encode(*record));
    out
}

/// Reads a record back from its bytes.
pub fn decode(bytes: &[u8]) -> (res: Result<Wallet, ProtocolError>)
    ensures
        decodes_to(bytes@, res),
{
    if bytes.len() != 64 {
        return Err(ProtocolError::DecodeError);
    }
    match (Address::from_slice(bytes, 0), Address::from_slice(bytes, 32)) {
        (Some(authority), Some(vault)) => Ok(Wallet { authority, vault }),
        _ => Err(ProtocolError::DecodeError),
    }
}

/// An account after a record has been written over the first 64 bytes of
/// its buffer; what lies behind them stays.
pub open spec fn recorded(account: AccountModel, record: Wallet) -> AccountModel {
    AccountModel {
        data: spec_encode(record) + account.data.subrange(64, account.data.len() as int),
        ..account
    }
}

/// Writes the encoded record over the first 64 bytes of the handle's
/// buffer. Fails with `BufferTooSmall`, and changes nothing, exactly when
/// the buffer is shorter than that.
pub fn write_record(handle: &mut AccountHandle, record: &Wallet) -> (res: Result<(), ProtocolError>)
    ensures
        old(handle)@.data.len() < WALLET_LEN ==> res == Err::<(), ProtocolError>(
            ProtocolError::BufferTooSmall,
        ) && final(handle)@ == old(handle)@,
        old(handle)@.data.len() >= WALLET_LEN ==> res == Ok::<(), ProtocolError>(())
            && final(handle)@ == recorded(old(handle)@, *record),
{
    if handle.data.len() < 64 {
        return Err(ProtocolError::BufferTooSmall);
    }
    let encoded = encode(record);
    let mut i: usize = 0;
    while i < 64
        invariant
            i <= 64,
            encoded@ == spec_encode(*record),
            encoded@.len() == 64,
            handle.data@.len() == old(handle).data@.len(),
            handle.data@.len() >= 64,
            handle.address == old(handle).address,
            handle.owner_program_id == old(handle).owner_program_id,
            handle.lamport_balance == old(handle).lamport_balance,
            handle.is_signer == old(handle).is_signer,
            handle.is_writable == old(handle).is_writable,
            forall|j: int| 0 <= j < i ==> handle.data@[j] == encoded@[j],
            forall|j: int| i <= j < handle.data@.len() ==> handle.data@[j] == old(handle).data@[j],
        decreases 64 - i,
    {
        let byte = encoded[i];
        handle.data.set(i, byte);
        i += 1;
    }
    assert(handle.data@ =~= recorded(old(handle)@, *record).data);
    Ok(())
}

/// Decoding what was encoded gives the record back, whatever the record.
pub proof fn decode_inverts_encode(record: Wallet, res: Result<Wallet, ProtocolError>)
    requires
        decodes_to(spec_encode(record), res),
    ensures
        res == Ok::<Wallet, ProtocolError>(record),
{
    let bytes = spec_encode(record);
    crate::address::address_ext(record.authority, record.vault);
    assert(bytes.len() == 64);
    let decoded = res->Ok_0;
    assert(bytes.subrange(0, 32) =~= record.authority@);
    assert(bytes.subrange(32, 64) =~= record.vault@);
    crate::address::address_ext(decoded.authority, record.authority);
    crate::address::address_ext(decoded.vault, record.vault);
}

/// A buffer whose length is not 64 never decodes.
pub proof fn decode_rejects_other_lengths(bytes: Seq<u8>, res: Result<Wallet, ProtocolError>)
    requires
        bytes.len() != 64,
        decodes_to(bytes, res),
    ensures
        res == Err::<Wallet, ProtocolError>(ProtocolError::DecodeError),
{
}

/// Encoding what was decoded gives the bytes back.
pub proof fn encode_inverts_decode(bytes: Seq<u8>, record: Wallet)
    requires
        decodes_to(bytes, Ok(record)),
    ensures
        spec_encode(record) == bytes,
{
    assert(spec_encode(record) =~= bytes);
}

} // verus!
