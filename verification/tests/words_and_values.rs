use userop_encoder::account::{account_id, is_contract, AccountType, ACCOUNT_ID_SELECTOR};
use userop_encoder::error::AppError;
use userop_encoder::primitives::{bytes_equal, Address, U256};
use userop_encoder::words::{
    extend_bytes, u64_from_be_bytes, u64_to_be_bytes, u64_to_word, with_selector,
};

#[test]
fn word_of_a_number_is_big_endian() {
    let mut expected = [0u8; 32];
    expected[24..].copy_from_slice(&0x0102030405060708u64.to_be_bytes());
    assert_eq!(u64_to_word(0x0102030405060708), expected);
    assert_eq!(u64_to_word(0), [0u8; 32]);
}

#[test]
fn word_of_the_largest_number_ends_in_eight_ff_bytes() {
    let word = u64_to_word(u64::MAX);
    assert_eq!(&word[..24], &[0u8; 24]);
    assert_eq!(&word[24..], &[0xffu8; 8]);
}

#[test]
fn eight_bytes_of_a_number_are_big_endian() {
    assert_eq!(u64_to_be_bytes(0x0102030405060708), [1, 2, 3, 4, 5, 6, 7, 8]);
    assert_eq!(u64_to_be_bytes(255), [0, 0, 0, 0, 0, 0, 0, 255]);
    assert_eq!(u64_to_be_bytes(256), [0, 0, 0, 0, 0, 0, 1, 0]);
}

#[test]
fn eight_bytes_read_back_as_the_number() {
    assert_eq!(u64_from_be_bytes(&[1, 2, 3, 4, 5, 6, 7, 8]), 0x0102030405060708);
    assert_eq!(u64_from_be_bytes(&[0; 8]), 0);
    assert_eq!(u64_from_be_bytes(&[0xff; 8]), u64::MAX);
    for n in [1u64, 255, 256, 65_535, 1 << 63] {
        assert_eq!(u64_from_be_bytes(&u64_to_be_bytes(n)), n);
    }
}

#[test]
fn extending_appends() {
    let mut bytes = vec![1u8, 2];
    extend_bytes(&mut bytes, &[3, 4, 5]);
    extend_bytes(&mut bytes, &[]);
    assert_eq!(bytes, vec![1, 2, 3, 4, 5]);
}

#[test]
fn call_is_selector_then_parameters() {
    assert_eq!(with_selector(&[1, 2, 3, 4], &vec![5, 6]), vec![1, 2, 3, 4, 5, 6]);
    assert_eq!(with_selector(&[1, 2, 3, 4], &Vec::new()), vec![1, 2, 3, 4]);
}

#[test]
fn byte_strings_compare_by_length_and_content() {
    assert!(bytes_equal(&[], &[]));
    assert!(bytes_equal(&[1, 2, 3], &[1, 2, 3]));
    assert!(!bytes_equal(&[1, 2, 3], &[1, 2]));
    assert!(!bytes_equal(&[1, 2, 3], &[1, 2, 4]));
}

#[test]
fn address_word_is_left_padded() {
    let word = Address::new([0xab; 20]).to_word();
    assert_eq!(&word[..12], &[0u8; 12]);
    assert_eq!(&word[12..], &[0xabu8; 20]);
    assert_eq!(Address::zero().to_word(), [0u8; 32]);
}

#[test]
fn numbers_are_held_big_endian() {
    assert_eq!(U256::from_u64(0x2710).bytes[30..], [0x27, 0x10]);
    assert_eq!(U256::from_u64(1), U256::from_be_bytes(u64_to_word(1)));
    assert_eq!(U256::zero().bytes, [0u8; 32]);
    assert!(U256::from_u64(5).same_as(&U256::from_u64(5)));
    assert!(!U256::from_u64(5).same_as(&U256::from_u64(6)));
}

#[test]
fn account_with_code_is_a_contract() {
    assert!(is_contract(&[0x60, 0x80]));
    assert!(is_contract(&[0]));
    assert!(!is_contract(&[]));
}

#[test]
fn account_id_query_is_the_selector() {
    assert_eq!(account_id(), ACCOUNT_ID_SELECTOR.to_vec());
    assert_eq!(ACCOUNT_ID_SELECTOR[..], alloy::primitives::keccak256("accountId()")[..4]);
}

#[test]
fn account_types_are_distinct() {
    assert_ne!(AccountType::Safe7579, AccountType::Kernel);
    assert_ne!(AccountType::Safe7579, AccountType::Nexus);
}

#[test]
fn every_error_has_its_own_message() {
    let errors = [
        AppError::EmptyBatch,
        AppError::UnsupportedModuleTypeCount,
        AppError::OracleUnavailable,
        AppError::AddressMismatch,
        AppError::ValidatorNotFound,
    ];
    for (i, a) in errors.iter().enumerate() {
        assert!(!a.message().is_empty());
        for b in &errors[i + 1..] {
            assert_ne!(a.message(), b.message());
        }
    }
    assert_eq!(AppError::ValidatorNotFound.message(), "No validator address provided");
}
