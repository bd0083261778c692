//! The rent model: how many lamports keep an account of a given size alive
//! for good.
//!
//! The model is read from the rent sysvar, a read-only account that the
//! ledger provides at a well-known address. Decoding that account and the
//! arithmetic of the minimum balance are the work of `solana_program`.

use vstd::prelude::*;
use crate::account::{AccountHandle, AccountModel};
use crate::address::{address_ext, Address};
use crate::error::ProtocolError;
use solana_program::account_info::AccountInfo;
use solana_program::pubkey::Pubkey;
use solana_program::rent::Rent;
use solana_program::sysvar::Sysvar;

verus! {

/// The address of the rent sysvar.
pub const RENT_SYSVAR_ID: [u8; 32] = [
    6, 167, 213, 23, 25, 44, 92, 81, 33, 140, 201, 76, 61, 74, 241, 127,
    88, 218, 238, 8, 155, 161, 253, 68, 227, 219, 217, 138, 0, 0, 0, 0,
];

/// Bytes that the ledger charges for on top of an account's data.
pub const ACCOUNT_STORAGE_OVERHEAD: u64 = 128;

/// The rental rate, in lamports per byte and year, of the rent model that
/// `Rent::from_account_info` reads from an account with this address and
/// these bytes; nothing where it reads none.
pub uninterp spec fn rent_sysvar_rate(address: Seq<u8>, data: Seq<u8>) -> Option<u64>;

/// What `Rent::minimum_balance` returns for `data_len` bytes on the rent
/// model that `Rent::from_account_info` reads from an account with this
/// address and these bytes; nothing where it reads none.
pub uninterp spec fn rent_sysvar_minimum(address: Seq<u8>, data: Seq<u8>, data_len: nat) -> Option<
    u64,
>;

/// Calls `Rent::from_account_info` on an account with the handle's address
/// and bytes, and reads the field `lamports_per_byte_year` of what it
/// returns. The contract claims that the result is a function of the
/// address and the bytes alone.
#[verifier::external_body]
fn sysvar_rate(address: &Address, data: &Vec<u8>) -> (res: Option<u64>)
    ensures
        res == rent_sysvar_rate(address@, data@),
{
    let key = Pubkey::new_from_array(address.bytes);
    let mut lamports: u64 = 0;
    let mut bytes = data.clone();
    let info = AccountInfo::new(&key, false, false, &mut lamports, &mut bytes, &key, false, 0);
    match Rent::from_account_info(&info) {
        Ok(rent) => Some(rent.lamports_per_byte_year),
        Err(_) => None,
    }
}

/// Calls `Rent::from_account_info` on an account with the handle's address
/// and bytes, and `Rent::minimum_balance` on what it returns. The contract
/// claims that the result is a function of the address, the bytes and the
/// length alone, and that there is a result exactly when there is a rate:
/// both come from the same decoded model. `minimum_balance` multiplies the
/// length plus the storage overhead by the rate in 64 bits, so the
/// `requires` keeps that product in range.
#[verifier::external_body]
fn sysvar_minimum_balance(address: &Address, data: &Vec<u8>, data_len: usize) -> (res: Option<u64>)
    requires
        ACCOUNT_STORAGE_OVERHEAD + data_len <= u64::MAX,
        rent_sysvar_rate(address@, data@) matches Some(rate) ==> (ACCOUNT_STORAGE_OVERHEAD
            + data_len) * rate <= u64::MAX,
    ensures
        res == rent_sysvar_minimum(address@, data@, data_len as nat),
        (res is Some) == (rent_sysvar_rate(address@, data@) is Some),
{
    let key = Pubkey::new_from_array(address.bytes);
    let mut lamports: u64 = 0;
    let mut bytes = data.clone();
    let info = AccountInfo::new(&key, false, false, &mut lamports, &mut bytes, &key, false, 0);
    match Rent::from_account_info(&info) {
        Ok(rent) => Some(rent.minimum_balance(data_len)),
        Err(_) => None,
    }
}

/// Whether the minimum balance for `data_len` bytes can be computed at
/// `rate` without leaving the range of the machine's integers.
pub open spec fn rate_in_range(rate: u64, data_len: u64) -> bool {
    &&& data_len <= usize::MAX
    &&& ACCOUNT_STORAGE_OVERHEAD + data_len <= u64::MAX
    &&& (ACCOUNT_STORAGE_OVERHEAD + data_len) * rate <= u64::MAX
}

/// Decides from the rate that a rent account decodes to whether the
/// minimum balance for `data_len` bytes can be asked for: `DecodeError`
/// without a rate, `ResourceExhausted` where the computation would leave
/// the range of the machine's integers, and the length otherwise.
pub fn admit_rate(rate: Option<u64>, data_len: u64) -> (res: Result<usize, ProtocolError>)
    ensures
        match rate {
            None => res == Err::<usize, ProtocolError>(ProtocolError::DecodeError),
            Some(r) => if rate_in_range(r, data_len) {
                res matches Ok(len) && len == data_len
            } else {
                res == Err::<usize, ProtocolError>(ProtocolError::ResourceExhausted)
            },
        },
{
    match rate {
        None => Err(ProtocolError::DecodeError),
        Some(r) => {
            if data_len > u64::MAX - ACCOUNT_STORAGE_OVERHEAD || data_len > usize::MAX as u64 {
                return Err(ProtocolError::ResourceExhausted);
            }
            let charged: u64 = ACCOUNT_STORAGE_OVERHEAD + data_len;
            if r != 0 && charged > u64::MAX / r {
                assert(charged * r > u64::MAX) by (nonlinear_arith)
                    requires
                        r > 0,
                        charged > u64::MAX / r,
                {
                }
                return Err(ProtocolError::ResourceExhausted);
            }
            assert(charged * r <= u64::MAX) by (nonlinear_arith)
                requires
                    r == 0 || (r > 0 && charged <= u64::MAX / r),
                    charged >= 0,
            {
            }
            Ok(data_len as usize)
        },
    }
}

/// The rent-exempt minimum that a rent account reports for `data_len`
/// bytes, with each reason for which it reports none.
pub open spec fn spec_rent_exempt_minimum(rent_sysvar: AccountModel, data_len: u64) -> Result<
    u64,
    ProtocolError,
> {
    if rent_sysvar.address@ != RENT_SYSVAR_ID@ {
        Err(ProtocolError::AddressMismatch)
    } else {
        match rent_sysvar_rate(rent_sysvar.address@, rent_sysvar.data) {
            None => Err(ProtocolError::DecodeError),
            Some(rate) => if rate_in_range(rate, data_len) {
                match rent_sysvar_minimum(rent_sysvar.address@, rent_sysvar.data, data_len as nat) {
                    Some(minimum) => Ok(minimum),
                    None => Err(ProtocolError::DecodeError),
                }
            } else {
                Err(ProtocolError::ResourceExhausted)
            },
        }
    }
}

/// The balance that keeps an account of `data_len` bytes alive for good,
/// as the rent account reports it.
///
/// Fails with `AddressMismatch` where the handle is not the rent sysvar,
/// with `DecodeError` where its bytes hold no rent model, and with
/// `ResourceExhausted` where the balance cannot be computed within the
/// machine's integers.
pub fn compute_rent_exempt_minimum(rent_sysvar: &AccountHandle, data_len: u64) -> (res: Result<
    u64,
    ProtocolError,
>)
    ensures
        res == spec_rent_exempt_minimum(rent_sysvar@, data_len),
{
    let expected = Address::new(RENT_SYSVAR_ID);
    proof {
        address_ext(rent_sysvar.address, expected);
    }
    if !rent_sysvar.address.same(&expected) {
        return Err(ProtocolError::AddressMismatch);
    }
    let rate = sysvar_rate(&rent_sysvar.address, &rent_sysvar.data);
    let len = admit_rate(rate, data_len)?;
    match sysvar_minimum_balance(&rent_sysvar.address, &rent_sysvar.data, len) {
        Some(minimum) => Ok(minimum),
        None => Err(ProtocolError::DecodeError),
    }
}

} // verus!
