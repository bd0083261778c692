//! Program-derived addresses.
//!
//! A derived address is computed from a program's identity and a list of
//! seed byte-strings. No key can sign for it, so only the program that the
//! address was derived for can act on its behalf. The search and the hash
//! behind it are the work of `solana_program`; this module gives their
//! results names and builds the protocol's seed lists.

use vstd::prelude::*;
use crate::address::{address_of, address_of_view, Address};
use crate::error::ProtocolError;
use solana_program::pubkey::Pubkey;

verus! {

/// What `Pubkey::try_find_program_address` returns for a program and a seed
/// list: the derived address with the bump value that produced it, or
/// nothing where no bump value yields a valid address.
pub uninterp spec fn program_address_search(program_id: Seq<u8>, seeds: Seq<Seq<u8>>) -> Option<
    (Seq<u8>, u8),
>;

/// What `Pubkey::create_program_address` returns for a program and a seed
/// list that already ends in its bump seed: the address, or nothing where
/// the seeds are not acceptable or hash to a signable key.
pub uninterp spec fn program_address(program_id: Seq<u8>, seeds: Seq<Seq<u8>>) -> Option<Seq<u8>>;

/// The byte-strings that a list of seed vectors holds.
pub open spec fn seed_list(seeds: Seq<Vec<u8>>) -> Seq<Seq<u8>> {
    Seq::new(seeds.len(), |i: int| seeds[i]@)
}

/// A derived address together with the bump value that produced it.
#[derive(Clone, Copy, Debug)]
pub struct Derivation {
    pub address: Address,
    pub bump: u8,
}

/// Calls `Pubkey::try_find_program_address`. The contract claims that the
/// result is a function of the program's bytes and the seeds' bytes alone,
/// and that an address it reports is the one `create_program_address`
/// yields once the reported bump is appended as a last, one-byte seed:
/// the search returns only what that function accepted.
#[verifier::external_body]
fn find_program_address(program_id: &Address, seeds: &Vec<Vec<u8>>) -> (res: Option<(Address, u8)>)
    ensures
        match res {
            Some((address, bump)) => program_address_search(program_id@, seed_list(seeds@))
                == Some((address@, bump)),
            None => program_address_search(program_id@, seed_list(seeds@)) is None,
        },
        res matches Some((address, bump)) ==> program_address(
            program_id@,
            seed_list(seeds@).push(seq![bump]),
        ) == Some(address@),
{
    let slices: Vec<&[u8]> = seeds.iter().map(|seed| seed.as_slice()).collect();
    let program = Pubkey::new_from_array(program_id.bytes);
    match Pubkey::try_find_program_address(&slices, &program) {
        Some((key, bump)) => Some((Address { bytes: key.to_bytes() }, bump)),
        None => None,
    }
}

/// Calls `Pubkey::create_program_address`, with every error mapped to
/// `None`. The contract claims that the result is a function of the
/// program's bytes and the seeds' bytes alone.
#[verifier::external_body]
fn create_program_address(program_id: &Address, seeds: &Vec<Vec<u8>>) -> (res: Option<Address>)
    ensures
        match res {
            Some(address) => program_address(program_id@, seed_list(seeds@)) == Some(address@),
            None => program_address(program_id@, seed_list(seeds@)) is None,
        },
{
    let slices: Vec<&[u8]> = seeds.iter().map(|seed| seed.as_slice()).collect();
    let program = Pubkey::new_from_array(program_id.bytes);
    match Pubkey::create_program_address(&slices, &program) {
        Ok(key) => Some(Address { bytes: key.to_bytes() }),
        Err(_) => None,
    }
}

/// What `derive` returns for a program and a seed list: the address that
/// the search finds with its bump, or `NoValidDerivation` where it finds
/// none.
pub open spec fn spec_derive(program_id: Address, seeds: Seq<Seq<u8>>) -> Result<
    Derivation,
    ProtocolError,
> {
    match program_address_search(program_id@, seeds) {
        Some((address, bump)) => Ok(Derivation { address: address_of(address), bump }),
        None => Err(ProtocolError::NoValidDerivation),
    }
}

/// What `rederive` returns for a program and seeds that end in their bump.
pub open spec fn spec_rederive(program_id: Address, seeds: Seq<Seq<u8>>) -> Option<Address> {
    match program_address(program_id@, seeds) {
        Some(address) => Some(address_of(address)),
        None => None,
    }
}

impl Derivation {
    /// Turns the outcome of a bump search into a derivation or an error.
    pub fn from_search(found: Option<(Address, u8)>) -> (res: Result<Derivation, ProtocolError>)
        ensures
            match found {
                Some((address, bump)) => res matches Ok(d) && d.address == address && d.bump
                    == bump,
                None => res == Err::<Derivation, ProtocolError>(ProtocolError::NoValidDerivation),
            },
    {
        match found {
            Some((address, bump)) => Ok(Derivation { address, bump }),
            None => Err(ProtocolError::NoValidDerivation),
        }
    }
}

/// Derives the address that `program_id` controls under `seeds`, with the
/// bump value that made it valid. Fails with `NoValidDerivation` exactly
/// when the search finds no address. An address that is found is the one
/// that the seeds re-derive to once the bump is appended to them.
pub fn derive(program_id: &Address, seeds: &Vec<Vec<u8>>) -> (res: Result<Derivation, ProtocolError>)
    ensures
        res == spec_derive(*program_id, seed_list(seeds@)),
        res matches Ok(d) ==> spec_rederive(*program_id, seed_list(seeds@).push(seq![d.bump]))
            == Some(d.address),
{
    let found = find_program_address(program_id, seeds);
    proof {
        if let Some((address, bump)) = found {
            address_of_view(address);
        }
    }
    Derivation::from_search(found)
}

/// Re-derives the address that seeds ending in their bump stand for, or
/// `None` where they stand for none.
pub fn rederive(program_id: &Address, seeds: &Vec<Vec<u8>>) -> (res: Option<Address>)
    ensures
        res == spec_rederive(*program_id, seed_list(seeds@)),
{
    let found = create_program_address(program_id, seeds);
    proof {
        if let Some(address) = found {
            address_of_view(address);
        }
    }
    found
}

/// Derivation is a function of its inputs: equal programs and equal seeds
/// give the same address and the same bump, or fail alike.
pub proof fn derive_is_deterministic(
    first_program: Address,
    first_seeds: Seq<Seq<u8>>,
    second_program: Address,
    second_seeds: Seq<Seq<u8>>,
)
    requires
        first_program@ == second_program@,
        first_seeds.len() == second_seeds.len(),
        forall|i: int| 0 <= i < first_seeds.len() ==> first_seeds[i] == second_seeds[i],
    ensures
        spec_derive(first_program, first_seeds) == spec_derive(second_program, second_seeds),
{
    assert(first_seeds =~= second_seeds);
}

/// The tag that sets a vault's seeds apart from its wallet's: the ASCII
/// bytes of "VAULT".
pub open spec fn vault_tag() -> Seq<u8> {
    seq![86u8, 65u8, 85u8, 76u8, 84u8]
}

/// The seeds of the wallet of `authority`: the authority's address.
pub open spec fn spec_wallet_seeds(authority: Address) -> Seq<Seq<u8>> {
    seq![authority@]
}

/// The seeds of the vault of `authority`: the authority's address, then
/// the vault tag.
pub open spec fn spec_vault_seeds(authority: Address) -> Seq<Seq<u8>> {
    seq![authority@, vault_tag()]
}

/// The seeds of the wallet of `authority`.
pub fn wallet_seeds(authority: &Address) -> (res: Vec<Vec<u8>>)
    ensures
        seed_list(res@) == spec_wallet_seeds(*authority),
{
    let mut seeds: Vec<Vec<u8>> = Vec::new();
    seeds.push(authority.to_vec());
    assert(seed_list(seeds@) =~= spec_wallet_seeds(*authority));
    seeds
}

/// The seeds of the vault of `authority`.
pub fn vault_seeds(authority: &Address) -> (res: Vec<Vec<u8>>)
    ensures
        seed_list(res@) == spec_vault_seeds(*authority),
{
    let mut tag: Vec<u8> = Vec::new();
    tag.push(86u8);
    tag.push(65u8);
    tag.push(85u8);
    tag.push(76u8);
    tag.push(84u8);
    assert(tag@ =~= vault_tag());
    let mut seeds: Vec<Vec<u8>> = Vec::new();
    seeds.push(authority.to_vec());
    seeds.push(tag);
    assert(seed_list(seeds@) =~= spec_vault_seeds(*authority));
    seeds
}

/// The seeds with their bump appended as a last seed of one byte: the
/// form in which seeds authorize an action of the derived address.
pub fn with_bump(seeds: Vec<Vec<u8>>, bump: u8) -> (res: Vec<Vec<u8>>)
    ensures
        seed_list(res@) == seed_list(seeds@).push(seq![bump]),
{
    let ghost before = seeds@;
    let mut seeds = seeds;
    let mut last: Vec<u8> = Vec::new();
    last.push(bump);
    assert(last@ =~= seq![bump]);
    seeds.push(last);
    assert(seed_list(seeds@) =~= seed_list(before).push(seq![bump]));
    seeds
}

} // verus!
