use vault_types::PublicKey;

fn counting65() -> [u8; 65] {
    let mut a = [0u8; 65];
    for (i, b) in a.iter_mut().enumerate() {
        *b = (i * 4) as u8;
    }
    a
}

#[test]
fn predicates_tell_the_variants_apart() {
    let c = PublicKey::Curve25519([7; 32]);
    let p = PublicKey::P256([7; 65]);
    assert!(c.is_curve25519());
    assert!(!c.is_p256());
    assert!(p.is_p256());
    assert!(!p.is_curve25519());
}

#[test]
fn bytes_come_back_as_given() {
    let c = PublicKey::Curve25519([0x5a; 32]);
    assert_eq!(c.as_ref(), &[0x5a; 32]);
    let p = PublicKey::P256(counting65());
    assert_eq!(p.as_ref(), counting65().as_slice());
    assert_eq!(p.as_ref().len(), 65);
}

#[test]
fn curve25519_renders_as_lowercase_hex() {
    let text = PublicKey::Curve25519([0xAB; 32]).to_string();
    assert_eq!(text, format!("PublicKey::Curve25519 {{ {} }}", "ab".repeat(32)));
    assert_eq!(text.len(), 90);
}

#[test]
fn p256_renders_as_lowercase_hex() {
    let text = PublicKey::P256([0xAB; 65]).to_string();
    assert_eq!(text, format!("PublicKey::P256 {{ {} }}", "ab".repeat(65)));
    assert_eq!(text.len(), 150);
}

#[test]
fn each_byte_renders_high_half_first() {
    let mut bytes = [0u8; 32];
    bytes[0] = 0x01;
    bytes[1] = 0x10;
    bytes[2] = 0x9f;
    bytes[3] = 0xf9;
    bytes[31] = 0xe0;
    let text = PublicKey::Curve25519(bytes).to_string();
    assert_eq!(
        text,
        "PublicKey::Curve25519 { 01109ff9000000000000000000000000000000000000000000000000000000e0 }"
    );
}

#[test]
fn every_digit_is_rendered() {
    let mut bytes = [0u8; 65];
    let values = [0x01u8, 0x23, 0x45, 0x67, 0x89, 0xab, 0xcd, 0xef];
    bytes[..8].copy_from_slice(&values);
    let text = PublicKey::P256(bytes).to_string();
    assert_eq!(text, format!("PublicKey::P256 {{ 0123456789abcdef{} }}", "00".repeat(57)));
}

#[test]
fn public_keys_compare_by_variant_and_bytes() {
    let a = PublicKey::Curve25519([1; 32]);
    let b = PublicKey::Curve25519([1; 32]);
    let mut last = [1u8; 32];
    last[31] = 2;
    assert!(a == b);
    assert!(a != PublicKey::Curve25519(last));
    assert!(a != PublicKey::P256([1; 65]));
    assert!(PublicKey::P256(counting65()) == PublicKey::P256(counting65()));
    let mut other = counting65();
    other[64] ^= 1;
    assert!(PublicKey::P256(counting65()) != PublicKey::P256(other));
}

#[test]
fn public_keys_are_copied_freely() {
    let a = PublicKey::P256(counting65());
    let b = a;
    assert!(a == b);
    assert_eq!(a.to_string(), b.to_string());
}
