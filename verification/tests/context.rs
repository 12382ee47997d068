use vault_types::{OsKeyRing, OsxContext, SecretKeyContext};

#[test]
fn memory_slot_projects_to_its_id() {
    assert_eq!(SecretKeyContext::Memory(42).into_ffi_value(), 42);
    assert_eq!(SecretKeyContext::Memory(1).into_ffi_value(), 1);
    assert_eq!(SecretKeyContext::Memory(usize::MAX).into_ffi_value(), usize::MAX as u64);
}

#[test]
fn every_other_context_projects_to_zero() {
    assert_eq!(SecretKeyContext::File.into_ffi_value(), 0);
    assert_eq!(SecretKeyContext::AzureKeyVault.into_ffi_value(), 0);
    let rings = [
        OsKeyRing::Linux,
        OsKeyRing::Windows,
        OsKeyRing::Osx(OsxContext::Memory),
        OsKeyRing::Osx(OsxContext::Keychain),
        OsKeyRing::Osx(OsxContext::Enclave),
    ];
    for os_type in rings {
        assert_eq!(SecretKeyContext::KeyRing { id: 42, os_type }.into_ffi_value(), 0);
    }
}

#[test]
fn projection_cannot_tell_slot_zero_from_no_slot() {
    assert_eq!(SecretKeyContext::ffi_default(), 0);
    assert_eq!(SecretKeyContext::Memory(0).into_ffi_value(), SecretKeyContext::ffi_default());
    assert_eq!(SecretKeyContext::File.into_ffi_value(), SecretKeyContext::ffi_default());
}

#[test]
fn contexts_compare_by_their_whole_structure() {
    let linux = SecretKeyContext::KeyRing { id: 3, os_type: OsKeyRing::Linux };
    let windows = SecretKeyContext::KeyRing { id: 3, os_type: OsKeyRing::Windows };
    let keychain = SecretKeyContext::KeyRing { id: 3, os_type: OsKeyRing::Osx(OsxContext::Keychain) };
    let enclave = SecretKeyContext::KeyRing { id: 3, os_type: OsKeyRing::Osx(OsxContext::Enclave) };
    assert_ne!(linux, windows);
    assert_ne!(keychain, enclave);
    assert_eq!(linux, SecretKeyContext::KeyRing { id: 3, os_type: OsKeyRing::Linux });
    assert_ne!(linux, SecretKeyContext::KeyRing { id: 4, os_type: OsKeyRing::Linux });
    assert_ne!(SecretKeyContext::Memory(3), SecretKeyContext::Memory(4));
    assert!(SecretKeyContext::Memory(9) < SecretKeyContext::File);
    assert!(SecretKeyContext::File < SecretKeyContext::AzureKeyVault);
    assert!(SecretKeyContext::AzureKeyVault < linux);
    assert!(linux < keychain);
    assert!(keychain < enclave);
    assert!(enclave < windows);
    let copy = linux;
    assert_eq!(copy, linux);
}
