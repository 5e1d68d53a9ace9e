use olm_core::sas::EstablishedSas;
use olm_core::sas::Sas;
use olm_core::sas::SasBytes;
use olm_core::CryptoError;

fn established_pair() -> (EstablishedSas, EstablishedSas) {
    let alice = Sas::new();
    let bob = Sas::new();
    let alice_public = alice.public_key();
    let bob_public = bob.public_key();
    assert_eq!(alice_public.len(), 43);
    let alice = alice.diffie_hellman(&bob_public).unwrap();
    let bob = bob.diffie_hellman(&alice_public).unwrap();
    (alice, bob)
}

#[test]
fn mutual_handshake_yields_identical_output() {
    let (alice, bob) = established_pair();

    let info = "VERIFICATION|device-one|device-two";
    let alice_bytes = alice.bytes(info);
    let bob_bytes = bob.bytes(info);
    assert_eq!(alice_bytes.as_bytes(), bob_bytes.as_bytes());
    assert_eq!(alice_bytes.emoji_indices(), bob_bytes.emoji_indices());
    assert_eq!(alice_bytes.decimals(), bob_bytes.decimals());
}

#[test]
fn different_info_yields_different_output() {
    let (alice, bob) = established_pair();
    let alice_bytes = alice.bytes("VERIFICATION|room-one");
    let bob_bytes = bob.bytes("VERIFICATION|room-two");
    assert_ne!(alice_bytes.as_bytes(), bob_bytes.as_bytes());
}

#[test]
fn output_shapes_are_fixed() {
    let (alice, _bob) = established_pair();
    let bytes = alice.bytes("SHAPES");
    let emoji = bytes.emoji_indices();
    assert_eq!(emoji.len(), 7);
    assert!(emoji.iter().all(|i| *i < 64));
    let decimals = bytes.decimals();
    assert_eq!(decimals.len(), 3);
    assert!(decimals.iter().all(|d| (1000..=9191).contains(d)));
}

#[test]
fn emoji_indices_exact_values() {
    let bytes = SasBytes::from_bytes(&[1, 2, 3, 4, 5, 6]).unwrap();
    assert_eq!(bytes.emoji_indices(), vec![0, 16, 8, 3, 1, 0, 20]);
    let zeros = SasBytes::from_bytes(&[0, 0, 0, 0, 0, 0]).unwrap();
    assert_eq!(zeros.emoji_indices(), vec![0, 0, 0, 0, 0, 0, 0]);
    let ones = SasBytes::from_bytes(&[255, 255, 255, 255, 255, 255]).unwrap();
    assert_eq!(ones.emoji_indices(), vec![63, 63, 63, 63, 63, 63, 63]);
}

#[test]
fn decimals_exact_values() {
    let bytes = SasBytes::from_bytes(&[1, 2, 3, 4, 5, 6]).unwrap();
    assert_eq!(bytes.decimals(), vec![1032, 3060, 1514]);
    let zeros = SasBytes::from_bytes(&[0, 0, 0, 0, 0, 0]).unwrap();
    assert_eq!(zeros.decimals(), vec![1000, 1000, 1000]);
    let ones = SasBytes::from_bytes(&[255, 255, 255, 255, 255, 255]).unwrap();
    assert_eq!(ones.decimals(), vec![9191, 9191, 9191]);
    assert!(SasBytes::from_bytes(&[1, 2, 3]).is_none());
    assert_eq!(bytes.as_bytes(), vec![1, 2, 3, 4, 5, 6]);
}

#[test]
fn macs_verify_mutually_and_fail_closed() {
    let (alice, bob) = established_pair();
    let info = "MAC|device-one|device-two";
    let tag = alice.calculate_mac("ed25519:key-material", info);
    assert_eq!(tag.len(), 43);

    assert!(bob.verify_mac("ed25519:key-material", info, &tag).is_ok());

    let r = bob.verify_mac("ed25519:other-material", info, &tag);
    assert!(matches!(r, Err(CryptoError::AuthenticationFailure)));
    let r = bob.verify_mac("ed25519:key-material", "MAC|other", &tag);
    assert!(matches!(r, Err(CryptoError::AuthenticationFailure)));
    let r = bob.verify_mac("ed25519:key-material", info, "!!not base64!!");
    assert!(matches!(r, Err(CryptoError::MalformedInput)));
}

#[test]
fn legacy_mac_encoding_is_stable_between_parties() {
    let (alice, bob) = established_pair();
    let info = "MAC|legacy";
    let a = alice.calculate_mac_invalid_base64("ed25519:key-material", info);
    let b = bob.calculate_mac_invalid_base64("ed25519:key-material", info);
    assert_eq!(a, b);
    assert_ne!(a, alice.calculate_mac("ed25519:key-material", info));
}

#[test]
fn handshake_rejects_bad_keys() {
    let sas = Sas::new();
    let r = sas.diffie_hellman("definitely not a key");
    assert!(matches!(r, Err(CryptoError::MalformedInput)));

    // The base64 form of 32 zero bytes is a degenerate public key whose
    // shared secret would be non-contributory.
    let sas = Sas::new();
    let r = sas.diffie_hellman("AAAAAAAAAAAAAAAAAAAAAAAAAAAAAAAAAAAAAAAAAAA");
    assert!(matches!(r, Err(CryptoError::KeyMismatch)));
}
