use wallet_provisioning::account::AccountHandle;
use wallet_provisioning::address::Address;
use wallet_provisioning::error::ProtocolError;
use wallet_provisioning::validator::{expect_address, expect_empty, expect_owner, expect_signer};

fn handle(address: u8, owner: u8, data: Vec<u8>, is_signer: bool) -> AccountHandle {
    AccountHandle::new(Address::new([address; 32]), Address::new([owner; 32]), 10, data, is_signer, true)
}

#[test]
fn expect_address_accepts_the_expected_address() {
    assert_eq!(expect_address(&handle(3, 0, vec![], false), &Address::new([3; 32])), Ok(()));
}

#[test]
fn expect_address_rejects_any_other_address() {
    assert_eq!(
        expect_address(&handle(3, 0, vec![], false), &Address::new([4; 32])),
        Err(ProtocolError::AddressMismatch)
    );
    let mut nearly = [3u8; 32];
    nearly[31] = 2;
    assert_eq!(
        expect_address(&handle(3, 0, vec![], false), &Address::new(nearly)),
        Err(ProtocolError::AddressMismatch)
    );
    let mut first = [3u8; 32];
    first[0] = 4;
    assert_eq!(
        expect_address(&handle(3, 0, vec![], false), &Address::new(first)),
        Err(ProtocolError::AddressMismatch)
    );
}

#[test]
fn expect_empty_accepts_no_data_and_no_owner() {
    assert_eq!(expect_empty(&handle(3, 0, vec![], false)), Ok(()));
}

#[test]
fn expect_empty_rejects_data() {
    assert_eq!(expect_empty(&handle(3, 0, vec![0], false)), Err(ProtocolError::NotEmpty));
}

#[test]
fn expect_empty_rejects_an_assigned_owner() {
    assert_eq!(expect_empty(&handle(3, 1, vec![], false)), Err(ProtocolError::NotEmpty));
    let mut owner = [0u8; 32];
    owner[31] = 1;
    let assigned = AccountHandle::new(Address::new([3; 32]), Address::new(owner), 0, vec![], false, true);
    assert_eq!(expect_empty(&assigned), Err(ProtocolError::NotEmpty));
}

#[test]
fn expect_empty_ignores_the_balance() {
    let funded = AccountHandle::new(Address::new([3; 32]), Address::unassigned(), 77, vec![], false, true);
    assert_eq!(expect_empty(&funded), Ok(()));
}

#[test]
fn expect_owner_accepts_the_expected_owner() {
    assert_eq!(expect_owner(&handle(3, 8, vec![1, 2], false), &Address::new([8; 32])), Ok(()));
}

#[test]
fn expect_owner_rejects_any_other_owner() {
    assert_eq!(
        expect_owner(&handle(3, 8, vec![], false), &Address::new([9; 32])),
        Err(ProtocolError::OwnerMismatch)
    );
}

#[test]
fn expect_signer_accepts_a_signer() {
    assert_eq!(expect_signer(&handle(3, 0, vec![], true)), Ok(()));
}

#[test]
fn expect_signer_rejects_a_non_signer() {
    assert_eq!(expect_signer(&handle(3, 0, vec![], false)), Err(ProtocolError::MissingSignature));
}

#[test]
fn addresses_compare_by_bytes() {
    let a = Address::new([5; 32]);
    let b = Address::new([5; 32]);
    let c = Address::new([6; 32]);
    assert!(a.same(&b));
    assert!(!a.same(&c));
    assert_eq!(a, b);
    assert_ne!(a, c);
    assert_eq!(a.to_vec(), vec![5u8; 32]);
    assert_eq!(a.to_bytes(), [5u8; 32]);
}

#[test]
fn address_from_slice_reads_at_the_offset() {
    let bytes: Vec<u8> = (0u8..40).collect();
    let address = Address::from_slice(&bytes, 8).unwrap();
    let expected: Vec<u8> = (8u8..40).collect();
    assert_eq!(address.to_vec(), expected);
    assert_eq!(Address::from_slice(&bytes, 0).unwrap().to_vec(), bytes[..32].to_vec());
    assert_eq!(Address::from_slice(&bytes, 9), None);
    assert_eq!(Address::from_slice(&bytes[..31], 0), None);
    assert_eq!(Address::from_slice(&bytes, usize::MAX), None);
}

#[test]
fn unassigned_is_the_system_program() {
    assert_eq!(Address::unassigned().to_bytes(), solana_program::system_program::id().to_bytes());
}

#[test]
fn duplicate_copies_every_field() {
    let first = AccountHandle::new(
        Address::new([1; 32]),
        Address::new([2; 32]),
        99,
        vec![4, 5, 6],
        true,
        false,
    );
    let copy = first.duplicate();
    assert_eq!(copy.address, first.address);
    assert_eq!(copy.owner_program_id, first.owner_program_id);
    assert_eq!(copy.lamport_balance, 99);
    assert_eq!(copy.data, vec![4, 5, 6]);
    assert!(copy.is_signer);
    assert!(!copy.is_writable);
}

#[test]
fn error_names_are_the_variant_names() {
    let all = [
        (ProtocolError::MissingAccount, "MissingAccount"),
        (ProtocolError::MissingSignature, "MissingSignature"),
        (ProtocolError::AddressMismatch, "AddressMismatch"),
        (ProtocolError::OwnerMismatch, "OwnerMismatch"),
        (ProtocolError::NotEmpty, "NotEmpty"),
        (ProtocolError::InsufficientFunds, "InsufficientFunds"),
        (ProtocolError::AccountAlreadyInUse, "AccountAlreadyInUse"),
        (ProtocolError::InvalidSeeds, "InvalidSeeds"),
        (ProtocolError::BufferTooSmall, "BufferTooSmall"),
        (ProtocolError::DecodeError, "DecodeError"),
        (ProtocolError::NoValidDerivation, "NoValidDerivation"),
        (ProtocolError::ResourceExhausted, "ResourceExhausted"),
    ];
    for (error, name) in all.iter() {
        assert_eq!(error.name(), *name);
    }
}
