//! The ways an invocation can fail.

use vstd::prelude::*;

verus! {

/// Why an invocation was aborted. Every error is terminal: the first check
/// that fails decides the variant, and nothing is retried.
#[derive(Clone, Copy, Debug, PartialEq, Eq, Structural)]
pub enum ProtocolError {
    /// Fewer account handles were supplied than the instruction consumes.
    MissingAccount,
    /// An account that had to sign the transaction did not.
    MissingSignature,
    /// A handle does not sit at the address the protocol expects.
    AddressMismatch,
    /// A handle is not owned by the expected program.
    OwnerMismatch,
    /// A handle that had to be empty holds data or is already assigned.
    NotEmpty,
    /// The payer holds fewer lamports than the request transfers.
    InsufficientFunds,
    /// The account to create is not empty.
    AccountAlreadyInUse,
    /// The signer seeds do not derive the address of the account to create.
    InvalidSeeds,
    /// The target buffer is shorter than the encoded record.
    BufferTooSmall,
    /// A byte buffer does not decode to the value it should hold.
    DecodeError,
    /// No bump value yields a valid derived address for the seeds.
    NoValidDerivation,
    /// A quantity needed to continue does not fit the machine's limits.
    ResourceExhausted,
}

impl ProtocolError {
    /// The name of the error kind, as shown to users.
    pub fn name(&self) -> (res: &'static str)
        ensures
            res@ == self.spec_name()@,
    {
        match self {
            ProtocolError::MissingAccount => "MissingAccount",
            ProtocolError::MissingSignature => "MissingSignature",
            ProtocolError::AddressMismatch => "AddressMismatch",
            ProtocolError::OwnerMismatch => "OwnerMismatch",
            ProtocolError::NotEmpty => "NotEmpty",
            ProtocolError::InsufficientFunds => "InsufficientFunds",
            ProtocolError::AccountAlreadyInUse => "AccountAlreadyInUse",
            ProtocolError::InvalidSeeds => "InvalidSeeds",
            ProtocolError::BufferTooSmall => "BufferTooSmall",
            ProtocolError::DecodeError => "DecodeError",
            ProtocolError::NoValidDerivation => "NoValidDerivation",
            ProtocolError::ResourceExhausted => "ResourceExhausted",
        }
    }

    /// The name of each error kind.
    pub open spec fn spec_name(&self) -> &'static str {
        match self {
            ProtocolError::MissingAccount => "MissingAccount",
            ProtocolError::MissingSignature => "MissingSignature",
            ProtocolError::AddressMismatch => "AddressMismatch",
            ProtocolError::OwnerMismatch => "OwnerMismatch",
            ProtocolError::NotEmpty => "NotEmpty",
            ProtocolError::InsufficientFunds => "InsufficientFunds",
            ProtocolError::AccountAlreadyInUse => "AccountAlreadyInUse",
            ProtocolError::InvalidSeeds => "InvalidSeeds",
            ProtocolError::BufferTooSmall => "BufferTooSmall",
            ProtocolError::DecodeError => "DecodeError",
            ProtocolError::NoValidDerivation => "NoValidDerivation",
            ProtocolError::ResourceExhausted => "ResourceExhausted",
        }
    }
}

} // verus!
