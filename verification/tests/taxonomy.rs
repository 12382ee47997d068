use vault_types::{
    SecretKeyAttributes, SecretKeyType, SecretPersistenceType, SecretPurposeType, VaultFailError,
    VaultFailErrorKind,
};

fn invalid() -> VaultFailError {
    VaultFailError::from(VaultFailErrorKind::InvalidParam(0))
}

#[test]
fn key_type_codes_are_stable() {
    assert_eq!(SecretKeyType::Buffer(0).to_usize(), 0);
    assert_eq!(SecretKeyType::Aes128.to_usize(), 1);
    assert_eq!(SecretKeyType::Aes256.to_usize(), 2);
    assert_eq!(SecretKeyType::Curve25519.to_usize(), 3);
    assert_eq!(SecretKeyType::P256.to_usize(), 4);
}

#[test]
fn key_type_decodes_each_code() {
    assert_eq!(SecretKeyType::from_usize(0), Ok(SecretKeyType::Buffer(0)));
    assert_eq!(SecretKeyType::from_usize(1), Ok(SecretKeyType::Aes128));
    assert_eq!(SecretKeyType::from_usize(2), Ok(SecretKeyType::Aes256));
    assert_eq!(SecretKeyType::from_usize(3), Ok(SecretKeyType::Curve25519));
    assert_eq!(SecretKeyType::from_usize(4), Ok(SecretKeyType::P256));
}

#[test]
fn key_type_refuses_unknown_codes() {
    assert_eq!(SecretKeyType::from_usize(5), Err(invalid()));
    assert_eq!(SecretKeyType::from_usize(255), Err(invalid()));
    assert_eq!(SecretKeyType::from_usize(usize::MAX), Err(invalid()));
}

#[test]
fn key_type_round_trips_through_its_code() {
    let kinds = [
        SecretKeyType::Buffer(0),
        SecretKeyType::Aes128,
        SecretKeyType::Aes256,
        SecretKeyType::Curve25519,
        SecretKeyType::P256,
    ];
    for kind in kinds {
        assert_eq!(SecretKeyType::from_usize(kind.to_usize()), Ok(kind));
    }
}

#[test]
fn buffer_length_is_no_part_of_the_code() {
    assert_eq!(SecretKeyType::Buffer(48).to_usize(), 0);
    assert_eq!(SecretKeyType::Buffer(usize::MAX).to_usize(), 0);
    assert_eq!(
        SecretKeyType::from_usize(SecretKeyType::Buffer(48).to_usize()),
        Ok(SecretKeyType::Buffer(0))
    );
}

#[test]
fn persistence_codes_are_stable() {
    assert_eq!(SecretPersistenceType::Ephemeral.to_usize(), 0);
    assert_eq!(SecretPersistenceType::Persistent.to_usize(), 1);
    assert_eq!(SecretPersistenceType::from_usize(0), Ok(SecretPersistenceType::Ephemeral));
    assert_eq!(SecretPersistenceType::from_usize(1), Ok(SecretPersistenceType::Persistent));
}

#[test]
fn persistence_refuses_unknown_codes() {
    assert_eq!(SecretPersistenceType::from_usize(2), Err(invalid()));
    assert_eq!(SecretPersistenceType::from_usize(usize::MAX), Err(invalid()));
}

#[test]
fn purpose_codes_are_stable() {
    assert_eq!(SecretPurposeType::KeyAgreement.to_usize(), 0);
    assert_eq!(SecretPurposeType::from_usize(0), Ok(SecretPurposeType::KeyAgreement));
}

#[test]
fn purpose_refuses_unknown_codes() {
    assert_eq!(SecretPurposeType::from_usize(1), Err(invalid()));
    assert_eq!(SecretPurposeType::from_usize(usize::MAX), Err(invalid()));
}

#[test]
fn invalid_code_names_the_first_parameter() {
    let e = SecretKeyType::from_usize(9).unwrap_err();
    assert_eq!(e.kind, VaultFailErrorKind::InvalidParam(0));
    assert_ne!(e.kind, VaultFailErrorKind::LengthMismatch);
}

#[test]
fn attributes_are_plain_values() {
    let a = SecretKeyAttributes {
        xtype: SecretKeyType::Buffer(24),
        persistence: SecretPersistenceType::Ephemeral,
        purpose: SecretPurposeType::KeyAgreement,
    };
    let b = a;
    assert_eq!(a, b);
    let c = SecretKeyAttributes { persistence: SecretPersistenceType::Persistent, ..a };
    assert_ne!(a, c);
    assert!(a < c);
}

#[test]
fn attributes_serve_as_keys() {
    let mut seen = std::collections::BTreeSet::new();
    let mut hashed = std::collections::HashSet::new();
    for xtype in [SecretKeyType::P256, SecretKeyType::Aes128, SecretKeyType::P256] {
        let a = SecretKeyAttributes {
            xtype,
            persistence: SecretPersistenceType::Ephemeral,
            purpose: SecretPurposeType::KeyAgreement,
        };
        seen.insert(a);
        hashed.insert(a);
    }
    assert_eq!(seen.len(), 2);
    assert_eq!(hashed.len(), 2);
    assert_eq!(seen.iter().next().unwrap().xtype, SecretKeyType::Aes128);
}
