use vault_types::{PublicKey, SecretKey, SecretKeyType};

#[test]
fn secrets_and_public_keys_end_to_end() {
    let first = SecretKey::new(&[0x01; 32], SecretKeyType::Curve25519).unwrap();
    let second = SecretKey::new(&[0x01; 32], SecretKeyType::Curve25519).unwrap();
    let aes = SecretKey::new(&[0x02; 16], SecretKeyType::Aes128).unwrap();
    assert!(first == second);
    assert!(first != aes);

    let text = PublicKey::Curve25519([0xAB; 32]).to_string();
    let mut expected = String::from("PublicKey::Curve25519 { ");
    for _ in 0..32 {
        expected.push_str("ab");
    }
    expected.push_str(" }");
    assert_eq!(text, expected);
}
