use wallet_provisioning::account::AccountHandle;
use wallet_provisioning::address::Address;
use wallet_provisioning::error::ProtocolError;
use wallet_provisioning::rent::{
    admit_rate, compute_rent_exempt_minimum, ACCOUNT_STORAGE_OVERHEAD, RENT_SYSVAR_ID,
};

fn rent_data(rate: u64, threshold: f64, burn: u8) -> Vec<u8> {
    let mut data = Vec::new();
    data.extend_from_slice(&rate.to_le_bytes());
    data.extend_from_slice(&threshold.to_le_bytes());
    data.push(burn);
    data
}

fn sysvar(data: Vec<u8>) -> AccountHandle {
    AccountHandle::new(Address::new(RENT_SYSVAR_ID), Address::new([3; 32]), 1, data, false, false)
}

#[test]
fn rent_sysvar_id_is_the_ledgers() {
    assert_eq!(RENT_SYSVAR_ID, solana_program::sysvar::rent::id().to_bytes());
}

#[test]
fn storage_overhead_is_the_ledgers() {
    assert_eq!(ACCOUNT_STORAGE_OVERHEAD, solana_program::rent::ACCOUNT_STORAGE_OVERHEAD);
    assert_eq!(ACCOUNT_STORAGE_OVERHEAD, 128);
}

#[test]
fn minimum_for_a_record_at_the_default_rate() {
    let handle = sysvar(rent_data(3480, 2.0, 50));
    assert_eq!(compute_rent_exempt_minimum(&handle, 64), Ok(1_336_320));
}

#[test]
fn minimum_agrees_with_the_ledgers_default_rent() {
    let rent = solana_program::rent::Rent::default();
    let handle = sysvar(rent_data(rent.lamports_per_byte_year, rent.exemption_threshold, rent.burn_percent));
    for len in [0u64, 1, 64, 165, 10_000] {
        assert_eq!(
            compute_rent_exempt_minimum(&handle, len),
            Ok(rent.minimum_balance(len as usize))
        );
    }
}

#[test]
fn minimum_for_no_data_charges_the_overhead() {
    let handle = sysvar(rent_data(3480, 2.0, 50));
    assert_eq!(compute_rent_exempt_minimum(&handle, 0), Ok(890_880));
}

#[test]
fn minimum_scales_with_the_threshold() {
    let handle = sysvar(rent_data(3480, 1.5, 50));
    assert_eq!(compute_rent_exempt_minimum(&handle, 64), Ok(1_002_240));
    let free = sysvar(rent_data(0, 2.0, 50));
    assert_eq!(compute_rent_exempt_minimum(&free, 64), Ok(0));
}

#[test]
fn minimum_depends_on_the_sysvar_data() {
    let first = sysvar(rent_data(10, 1.0, 0));
    let second = sysvar(rent_data(20, 1.0, 0));
    assert_eq!(compute_rent_exempt_minimum(&first, 64), Ok(1_920));
    assert_eq!(compute_rent_exempt_minimum(&second, 64), Ok(3_840));
}

#[test]
fn minimum_rejects_another_address() {
    let handle = AccountHandle::new(
        Address::new([6; 32]),
        Address::new([3; 32]),
        1,
        rent_data(3480, 2.0, 50),
        false,
        false,
    );
    assert_eq!(compute_rent_exempt_minimum(&handle, 64), Err(ProtocolError::AddressMismatch));
}

#[test]
fn minimum_rejects_truncated_data() {
    let mut data = rent_data(3480, 2.0, 50);
    data.pop();
    assert_eq!(compute_rent_exempt_minimum(&sysvar(data), 64), Err(ProtocolError::DecodeError));
    assert_eq!(compute_rent_exempt_minimum(&sysvar(Vec::new()), 64), Err(ProtocolError::DecodeError));
}

#[test]
fn minimum_rejects_a_rate_that_overflows() {
    let handle = sysvar(rent_data(u64::MAX / 100, 2.0, 50));
    assert_eq!(compute_rent_exempt_minimum(&handle, 64), Err(ProtocolError::ResourceExhausted));
}

#[test]
fn minimum_rejects_a_length_that_overflows() {
    let handle = sysvar(rent_data(0, 2.0, 50));
    assert_eq!(
        compute_rent_exempt_minimum(&handle, u64::MAX - 100),
        Err(ProtocolError::ResourceExhausted)
    );
}

#[test]
fn minimum_at_the_edge_of_the_range() {
    let rate = u64::MAX / 192;
    let handle = sysvar(rent_data(rate, 0.0, 0));
    assert_eq!(compute_rent_exempt_minimum(&handle, 64), Ok(0));
    let above = sysvar(rent_data(rate + 1, 0.0, 0));
    assert_eq!(compute_rent_exempt_minimum(&above, 64), Err(ProtocolError::ResourceExhausted));
}

#[test]
fn admit_rate_without_a_rate_is_a_decode_error() {
    assert_eq!(admit_rate(None, 64), Err(ProtocolError::DecodeError));
}

#[test]
fn admit_rate_accepts_what_fits() {
    assert_eq!(admit_rate(Some(3480), 64), Ok(64));
    assert_eq!(admit_rate(Some(0), 0), Ok(0));
    assert_eq!(admit_rate(Some(u64::MAX / 192), 64), Ok(64));
    assert_eq!(admit_rate(Some(u64::MAX), 0).is_err(), true);
    assert_eq!(admit_rate(Some(u64::MAX / 128), 0), Ok(0));
}

#[test]
fn admit_rate_rejects_what_overflows() {
    assert_eq!(admit_rate(Some(u64::MAX / 192 + 1), 64), Err(ProtocolError::ResourceExhausted));
    assert_eq!(admit_rate(Some(1), u64::MAX - 127), Err(ProtocolError::ResourceExhausted));
    assert_eq!(admit_rate(Some(0), u64::MAX), Err(ProtocolError::ResourceExhausted));
}
