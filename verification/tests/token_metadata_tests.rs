use system_program_events::token_metadata::{
    is_correct_account_type, pad_length, Key, TokenMetadataError, TokenStandard,
};

#[test]
fn key_from_u8_maps_declared_order() {
    assert_eq!(Key::from_u8(0), Some(Key::Uninitialized));
    assert_eq!(Key::from_u8(4), Some(Key::MetadataV1));
    assert_eq!(Key::from_u8(12), Some(Key::MetadataDelegate));
    assert_eq!(Key::from_u8(14), Some(Key::HolderDelegate));
    assert_eq!(Key::from_u8(15), None);
    assert_eq!(Key::from_u8(255), None);
}

#[test]
fn account_type_check_accepts_matching_key_and_size() {
    let mut data = vec![12u8];
    data.extend(vec![0u8; 97]);
    assert!(is_correct_account_type(&data, Key::MetadataDelegate, 98));
    assert!(is_correct_account_type(&data, Key::MetadataDelegate, 0));
}

#[test]
fn account_type_check_accepts_uninitialized_key() {
    let data = vec![0u8; 98];
    assert!(is_correct_account_type(&data, Key::MetadataDelegate, 98));
}

#[test]
fn account_type_check_rejects_wrong_key_size_or_empty() {
    let mut data = vec![11u8];
    data.extend(vec![0u8; 97]);
    assert!(!is_correct_account_type(&data, Key::MetadataDelegate, 98));
    let mut short = vec![12u8];
    short.extend(vec![0u8; 10]);
    assert!(!is_correct_account_type(&short, Key::MetadataDelegate, 98));
    assert!(!is_correct_account_type(&Vec::new(), Key::MetadataDelegate, 98));
    let bad = vec![200u8, 0, 0];
    assert!(!is_correct_account_type(&bad, Key::MetadataDelegate, 3));
}

#[test]
fn pad_length_extends_with_zeros() {
    let mut buf = vec![1u8, 2, 3];
    assert_eq!(pad_length(&mut buf, 6), Ok(()));
    assert_eq!(buf, vec![1, 2, 3, 0, 0, 0]);
}

#[test]
fn pad_length_overflows_on_long_buffer() {
    let mut buf = vec![1u8; 10];
    assert_eq!(
        pad_length(&mut buf, 6),
        Err(TokenMetadataError::NumericalOverflowError)
    );
    assert_eq!(buf, vec![1u8; 10]);
}

#[test]
fn token_standard_variants_are_distinct() {
    assert_ne!(TokenStandard::NonFungible, TokenStandard::Fungible);
    assert_eq!(
        TokenStandard::ProgrammableNonFungible,
        TokenStandard::ProgrammableNonFungible
    );
}
