//! Account provisioning for a ledger of addressable, ownership-tagged accounts.
//!
//! A program receives account handles from a caller it cannot trust. Before it
//! creates the wallet account and records who controls which vault, it checks
//! that every handle sits at the address derived from the signing authority.
//! The contracts in this crate state exactly which inputs are accepted, which
//! error each rejected input reports, and what an accepted invocation leaves
//! behind.

pub mod account;
pub mod address;
pub mod codec;
pub mod derivation;
pub mod error;
pub mod guarantees;
pub mod handler;
pub mod provision;
pub mod rent;
pub mod validator;

pub use account::{AccountHandle, AccountModel};
pub use address::Address;
pub use codec::{decode, encode, Wallet, WALLET_LEN};
pub use derivation::{rederive, Derivation};
pub use error::ProtocolError;
pub use handler::{
    destructure, initialize, initialize_unchecked, initialize_unchecked_with, initialize_with,
    look_up, prepare, prepare_with, process_instruction, Lookups, Roles,
};
pub use provision::{
    apply_create_account, create_account, AccountReference, Authorization, LedgerInstruction,
    ProvisioningRequest, RequestModel,
};
pub use rent::compute_rent_exempt_minimum;
pub use validator::{expect_address, expect_empty, expect_owner, expect_signer};
