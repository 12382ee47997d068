use vault_types::{
    SecretKeyType, SecretPersistenceType, SecretPurposeType, VaultFailError, VaultFailErrorKind,
};

fn refused<T: std::fmt::Debug + PartialEq>(r: Result<T, VaultFailError>) -> bool {
    r == Err(VaultFailError::from(VaultFailErrorKind::InvalidParam(0)))
}

#[test]
fn key_type_code_in_every_width() {
    assert_eq!(i8::from(SecretKeyType::P256), 4);
    assert_eq!(i16::from(SecretKeyType::Curve25519), 3);
    assert_eq!(i32::from(SecretKeyType::Aes256), 2);
    assert_eq!(i64::from(SecretKeyType::Aes128), 1);
    assert_eq!(i128::from(SecretKeyType::Buffer(7)), 0);
    assert_eq!(u8::from(SecretKeyType::P256), 4);
    assert_eq!(u16::from(SecretKeyType::Curve25519), 3);
    assert_eq!(u32::from(SecretKeyType::Aes256), 2);
    assert_eq!(u64::from(SecretKeyType::Aes128), 1);
    assert_eq!(u128::from(SecretKeyType::Buffer(7)), 0);
}

#[test]
fn key_type_from_every_width() {
    assert_eq!(SecretKeyType::try_from(4i8), Ok(SecretKeyType::P256));
    assert_eq!(SecretKeyType::try_from(3i16), Ok(SecretKeyType::Curve25519));
    assert_eq!(SecretKeyType::try_from(2i32), Ok(SecretKeyType::Aes256));
    assert_eq!(SecretKeyType::try_from(1i64), Ok(SecretKeyType::Aes128));
    assert_eq!(SecretKeyType::try_from(0i128), Ok(SecretKeyType::Buffer(0)));
    assert_eq!(SecretKeyType::try_from(4u8), Ok(SecretKeyType::P256));
    assert_eq!(SecretKeyType::try_from(3u16), Ok(SecretKeyType::Curve25519));
    assert_eq!(SecretKeyType::try_from(2u32), Ok(SecretKeyType::Aes256));
    assert_eq!(SecretKeyType::try_from(1u64), Ok(SecretKeyType::Aes128));
    assert_eq!(SecretKeyType::try_from(0u128), Ok(SecretKeyType::Buffer(0)));
}

#[test]
fn key_type_refuses_codes_past_the_last() {
    assert!(refused(SecretKeyType::try_from(5i8)));
    assert!(refused(SecretKeyType::try_from(5i16)));
    assert!(refused(SecretKeyType::try_from(5i32)));
    assert!(refused(SecretKeyType::try_from(5i64)));
    assert!(refused(SecretKeyType::try_from(5i128)));
    assert!(refused(SecretKeyType::try_from(5u8)));
    assert!(refused(SecretKeyType::try_from(5u16)));
    assert!(refused(SecretKeyType::try_from(5u32)));
    assert!(refused(SecretKeyType::try_from(5u64)));
    assert!(refused(SecretKeyType::try_from(5u128)));
}

#[test]
fn negative_codes_are_refused() {
    assert!(refused(SecretKeyType::try_from(-1i8)));
    assert!(refused(SecretKeyType::try_from(-1i16)));
    assert!(refused(SecretKeyType::try_from(-1i32)));
    assert!(refused(SecretKeyType::try_from(-1i64)));
    assert!(refused(SecretKeyType::try_from(-1i128)));
    assert!(refused(SecretKeyType::try_from(i8::MIN)));
    assert!(refused(SecretKeyType::try_from(i128::MIN)));
    assert!(refused(SecretPersistenceType::try_from(-1i32)));
    assert!(refused(SecretPurposeType::try_from(-1i64)));
}

#[test]
fn codes_wider_than_a_word_are_not_cut_down() {
    let past_64_bits: u128 = 1u128 << 64;
    assert!(refused(SecretKeyType::try_from(past_64_bits)));
    assert!(refused(SecretKeyType::try_from(past_64_bits + 3)));
    assert!(refused(SecretKeyType::try_from(u128::MAX)));
    assert!(refused(SecretKeyType::try_from(i128::MAX)));
    assert!(refused(SecretKeyType::try_from((1i128 << 64) + 1)));
    assert!(refused(SecretPersistenceType::try_from(past_64_bits + 1)));
    assert!(refused(SecretPurposeType::try_from(past_64_bits)));
    assert!(refused(SecretKeyType::try_from(u64::MAX)));
}

#[test]
fn key_type_round_trips_in_every_width() {
    let kinds = [
        SecretKeyType::Buffer(0),
        SecretKeyType::Aes128,
        SecretKeyType::Aes256,
        SecretKeyType::Curve25519,
        SecretKeyType::P256,
    ];
    for kind in kinds {
        assert_eq!(SecretKeyType::try_from(i8::from(kind)), Ok(kind));
        assert_eq!(SecretKeyType::try_from(i16::from(kind)), Ok(kind));
        assert_eq!(SecretKeyType::try_from(i32::from(kind)), Ok(kind));
        assert_eq!(SecretKeyType::try_from(i64::from(kind)), Ok(kind));
        assert_eq!(SecretKeyType::try_from(i128::from(kind)), Ok(kind));
        assert_eq!(SecretKeyType::try_from(u8::from(kind)), Ok(kind));
        assert_eq!(SecretKeyType::try_from(u16::from(kind)), Ok(kind));
        assert_eq!(SecretKeyType::try_from(u32::from(kind)), Ok(kind));
        assert_eq!(SecretKeyType::try_from(u64::from(kind)), Ok(kind));
        assert_eq!(SecretKeyType::try_from(u128::from(kind)), Ok(kind));
    }
}

#[test]
fn buffer_comes_back_without_its_length() {
    assert_eq!(SecretKeyType::try_from(u32::from(SecretKeyType::Buffer(99))), Ok(SecretKeyType::Buffer(0)));
    let code: i64 = SecretKeyType::Buffer(12).into();
    assert_eq!(code, 0);
}

#[test]
fn persistence_in_every_width() {
    for class in [SecretPersistenceType::Ephemeral, SecretPersistenceType::Persistent] {
        assert_eq!(SecretPersistenceType::try_from(i8::from(class)), Ok(class));
        assert_eq!(SecretPersistenceType::try_from(i16::from(class)), Ok(class));
        assert_eq!(SecretPersistenceType::try_from(i32::from(class)), Ok(class));
        assert_eq!(SecretPersistenceType::try_from(i64::from(class)), Ok(class));
        assert_eq!(SecretPersistenceType::try_from(i128::from(class)), Ok(class));
        assert_eq!(SecretPersistenceType::try_from(u8::from(class)), Ok(class));
        assert_eq!(SecretPersistenceType::try_from(u16::from(class)), Ok(class));
        assert_eq!(SecretPersistenceType::try_from(u32::from(class)), Ok(class));
        assert_eq!(SecretPersistenceType::try_from(u64::from(class)), Ok(class));
        assert_eq!(SecretPersistenceType::try_from(u128::from(class)), Ok(class));
    }
    assert_eq!(u8::from(SecretPersistenceType::Persistent), 1);
    assert_eq!(i128::from(SecretPersistenceType::Ephemeral), 0);
    assert!(refused(SecretPersistenceType::try_from(2u8)));
    assert!(refused(SecretPersistenceType::try_from(2i128)));
}

#[test]
fn purpose_in_every_width() {
    let purpose = SecretPurposeType::KeyAgreement;
    assert_eq!(SecretPurposeType::try_from(i8::from(purpose)), Ok(purpose));
    assert_eq!(SecretPurposeType::try_from(i16::from(purpose)), Ok(purpose));
    assert_eq!(SecretPurposeType::try_from(i32::from(purpose)), Ok(purpose));
    assert_eq!(SecretPurposeType::try_from(i64::from(purpose)), Ok(purpose));
    assert_eq!(SecretPurposeType::try_from(i128::from(purpose)), Ok(purpose));
    assert_eq!(SecretPurposeType::try_from(u8::from(purpose)), Ok(purpose));
    assert_eq!(SecretPurposeType::try_from(u16::from(purpose)), Ok(purpose));
    assert_eq!(SecretPurposeType::try_from(u32::from(purpose)), Ok(purpose));
    assert_eq!(SecretPurposeType::try_from(u64::from(purpose)), Ok(purpose));
    assert_eq!(SecretPurposeType::try_from(u128::from(purpose)), Ok(purpose));
    assert_eq!(u64::from(purpose), 0);
    assert!(refused(SecretPurposeType::try_from(1u8)));
    assert!(refused(SecretPurposeType::try_from(1u128)));
}
