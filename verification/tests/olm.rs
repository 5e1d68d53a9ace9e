use olm_core::account::Account;
use olm_core::session::Session;
use olm_core::CryptoError;
use olm_core::OlmMessage;
use olm_core::SessionConfig;

const PICKLE_KEY: &str = "abcdefghijklmnopqrstuvwxyz012345";
const OTHER_PICKLE_KEY: &str = "543210zyxwvutsrqponmlkjihgfedcba";

/// Set up a pair of communicating parties: `a` has consumed a pre-key
/// message from `b`, so both hold a live session.
fn session_pair(plaintext: &str) -> (Account, Session, Account, Session, String) {
    let mut a = Account::new();
    a.generate_one_time_keys(1);
    let otks = a.one_time_keys();
    assert_eq!(otks.len(), 1);
    let otk = otks[0].1.clone();
    a.mark_keys_as_published();

    let b = Account::new();
    let mut b_session = b
        .create_outbound_session(&SessionConfig::version_2(), &a.curve25519_key(), &otk)
        .unwrap();

    let message = b_session.encrypt(plaintext);
    assert_eq!(message.message_type, 0);

    let mut a_res = a.create_inbound_session(&b.curve25519_key(), &message).unwrap();
    let recovered = a_res.plaintext.clone();
    let replay = OlmMessage::new(message.message_type, message.ciphertext.clone());
    let second = a.create_inbound_session(&b.curve25519_key(), &replay);
    assert!(matches!(second, Err(CryptoError::UnknownOrConsumedKey)));

    // Decrypt a second message so the channel is warm in both directions.
    let m2 = b_session.encrypt("warm-up");
    assert_eq!(a_res.session.decrypt(&m2).unwrap(), "warm-up");
    let reply = a_res.session.encrypt("reply");
    assert_eq!(b_session.decrypt(&reply).unwrap(), "reply");

    (a, a_res.session, b, b_session, recovered)
}

#[test]
fn identity_keys_are_base64_of_fixed_length() {
    let a = Account::new();
    let keys = a.identity_keys();
    assert_eq!(keys.ed25519.len(), 43);
    assert_eq!(keys.curve25519.len(), 43);
    assert_eq!(keys.ed25519, a.ed25519_key());
    assert_eq!(keys.curve25519, a.curve25519_key());
    assert_ne!(keys.ed25519, keys.curve25519);
}

#[test]
fn signatures_are_deterministic() {
    let a = Account::new();
    let s1 = a.sign("It's a secret to everybody");
    let s2 = a.sign("It's a secret to everybody");
    assert_eq!(s1.len(), 86);
    assert_eq!(s1, s2);
    assert_ne!(s1, a.sign("It's a secret to nobody"));
}

#[test]
fn one_time_keys_accumulate_and_publish() {
    let mut a = Account::new();
    assert_eq!(a.max_number_of_one_time_keys(), 50);
    assert!(a.one_time_keys().is_empty());
    a.generate_one_time_keys(2);
    assert_eq!(a.one_time_keys().len(), 2);
    a.generate_one_time_keys(3);
    assert_eq!(a.one_time_keys().len(), 5);
    a.mark_keys_as_published();
    assert!(a.one_time_keys().is_empty());
}

#[test]
fn fallback_key_is_rotated_not_dropped() {
    let mut a = Account::new();
    assert!(a.fallback_key().is_empty());
    a.generate_fallback_key();
    let first = a.fallback_key();
    assert_eq!(first.len(), 1);
    a.generate_fallback_key();
    let second = a.fallback_key();
    assert_eq!(second.len(), 1);
    assert_ne!(first[0].1, second[0].1);
    a.mark_keys_as_published();
    assert!(a.fallback_key().is_empty());
}

#[test]
fn outbound_session_rejects_malformed_keys() {
    let a = Account::new();
    let b = Account::new();
    let bad = a.create_outbound_session(&SessionConfig::version_2(), "not base64!", &b.curve25519_key());
    assert!(matches!(bad, Err(CryptoError::MalformedInput)));
    let bad = a.create_outbound_session(&SessionConfig::version_2(), &b.curve25519_key(), "too-short");
    assert!(matches!(bad, Err(CryptoError::MalformedInput)));
    let ok = a.create_outbound_session(&SessionConfig::version_2(), &b.curve25519_key(), &b.curve25519_key());
    assert!(ok.is_ok());
}

#[test]
fn olm_round_trip_both_directions() {
    let (_a, mut a_session, _b, mut b_session, recovered) = session_pair("hello");
    assert_eq!(recovered, "hello");

    let m = b_session.encrypt("from b to a");
    assert_eq!(a_session.decrypt(&m).unwrap(), "from b to a");
    let m = a_session.encrypt("from a to b");
    assert_eq!(b_session.decrypt(&m).unwrap(), "from a to b");
}

#[test]
fn prekey_scenario_consumes_the_one_time_key_once() {
    // The full flow is exercised inside the helper: one inbound creation
    // succeeds and recovers the plaintext, the replay of the same pre-key
    // message fails with the consumed-key error, and the session keeps
    // decrypting later normal messages.
    let (_a, mut a_session, _b, mut b_session, recovered) = session_pair("hello");
    assert_eq!(recovered, "hello");
    let m3 = b_session.encrypt("third message");
    assert_eq!(m3.message_type, 1);
    assert_eq!(a_session.decrypt(&m3).unwrap(), "third message");
}

#[test]
fn message_tag_switches_after_first_decryption() {
    let mut a = Account::new();
    a.generate_one_time_keys(1);
    let otk = a.one_time_keys()[0].1.clone();
    let b = Account::new();
    let mut b_session = b
        .create_outbound_session(&SessionConfig::version_2(), &a.curve25519_key(), &otk)
        .unwrap();
    assert!(!b_session.has_received_message());

    // Every outgoing message stays pre-key-tagged until a reply arrives,
    // so the peer can re-establish the inbound session.
    let m1 = b_session.encrypt("first");
    let m2 = b_session.encrypt("second");
    assert_eq!(m1.message_type, 0);
    assert_eq!(m2.message_type, 0);

    let mut a_res = a.create_inbound_session(&b.curve25519_key(), &m1).unwrap();
    assert!(a_res.session.has_received_message());
    assert_eq!(a_res.session.decrypt(&m2).unwrap(), "second");

    let reply = a_res.session.encrypt("reply");
    assert_eq!(b_session.decrypt(&reply).unwrap(), "reply");
    assert!(b_session.has_received_message());
    let m3 = b_session.encrypt("third");
    assert_eq!(m3.message_type, 1);
}

#[test]
fn version_1_sessions_interoperate() {
    assert_eq!(SessionConfig::version_1().version(), 1);
    assert_eq!(SessionConfig::version_2().version(), 2);

    let mut a = Account::new();
    a.generate_one_time_keys(1);
    let otk = a.one_time_keys()[0].1.clone();
    let b = Account::new();
    let mut b_session = b
        .create_outbound_session(&SessionConfig::version_1(), &a.curve25519_key(), &otk)
        .unwrap();
    let m = b_session.encrypt("truncated mac");
    let a_res = a.create_inbound_session(&b.curve25519_key(), &m).unwrap();
    assert_eq!(a_res.plaintext, "truncated mac");
}

#[test]
fn inbound_session_rejects_non_prekey_messages() {
    let mut a = Account::new();
    let b = Account::new();
    let normal = OlmMessage::new(1, "AAAA".to_string());
    let r = a.create_inbound_session(&b.curve25519_key(), &normal);
    assert!(matches!(r, Err(CryptoError::MalformedInput)));
    let unknown_tag = OlmMessage::new(7, "AAAA".to_string());
    let r = a.create_inbound_session(&b.curve25519_key(), &unknown_tag);
    assert!(matches!(r, Err(CryptoError::MalformedInput)));
}

#[test]
fn session_matches_routes_prekey_messages() {
    let mut a = Account::new();
    a.generate_one_time_keys(2);
    let otks = a.one_time_keys();
    assert_eq!(otks.len(), 2);

    let b = Account::new();
    let config = SessionConfig::version_2();
    let mut s1 = b.create_outbound_session(&config, &a.curve25519_key(), &otks[0].1).unwrap();
    let mut s2 = b.create_outbound_session(&config, &a.curve25519_key(), &otks[1].1).unwrap();

    let m1 = s1.encrypt("for session one");
    assert!(s1.session_matches(&m1));
    assert!(!s2.session_matches(&m1));
    let normal = OlmMessage::new(1, m1.ciphertext.clone());
    assert!(!s1.session_matches(&normal));

    // Decrypting a pre-key message on the wrong session is a hard key
    // mismatch, not a ratchet attempt.
    let r = s2.decrypt(&m1);
    assert!(matches!(r, Err(CryptoError::KeyMismatch)));
}

#[test]
fn decrypt_rejects_unknown_tags_and_garbage() {
    let (_a, mut a_session, _b, _b_session, _) = session_pair("hello");
    let r = a_session.decrypt(&OlmMessage::new(2, "AAAA".to_string()));
    assert!(matches!(r, Err(CryptoError::MalformedInput)));
    let r = a_session.decrypt(&OlmMessage::new(1, "!!not base64!!".to_string()));
    assert!(matches!(r, Err(CryptoError::MalformedInput)));
}

#[test]
fn session_pickle_round_trip_preserves_behaviour() {
    let (_a, mut a_session, _b, mut b_session, _) = session_pair("hello");

    let blob = b_session.pickle(PICKLE_KEY).unwrap();
    let mut restored = Session::from_pickle(&blob, PICKLE_KEY).unwrap();
    assert_eq!(restored.session_id(), b_session.session_id());

    let m = restored.encrypt("after restore");
    assert_eq!(a_session.decrypt(&m).unwrap(), "after restore");
}

#[test]
fn account_pickle_round_trip_preserves_state() {
    let mut a = Account::new();
    a.generate_one_time_keys(3);
    let blob = a.pickle(PICKLE_KEY).unwrap();
    let restored = Account::from_pickle(&blob, PICKLE_KEY).unwrap();
    assert_eq!(restored.ed25519_key(), a.ed25519_key());
    assert_eq!(restored.curve25519_key(), a.curve25519_key());
    assert_eq!(restored.one_time_keys().len(), 3);
}

#[test]
fn pickle_key_must_be_32_bytes() {
    let a = Account::new();
    assert!(matches!(a.pickle("short"), Err(CryptoError::MalformedInput)));
    assert!(a.pickle(PICKLE_KEY).is_ok());
    let r = Account::from_pickle("whatever", "short");
    assert!(matches!(r, Err(CryptoError::MalformedInput)));
}

#[test]
fn wrong_pickle_key_or_garbage_is_rejected() {
    let a = Account::new();
    let blob = a.pickle(PICKLE_KEY).unwrap();
    let r = Account::from_pickle(&blob, OTHER_PICKLE_KEY);
    assert!(matches!(r, Err(CryptoError::InvalidPickleKeyOrData)));
    let r = Account::from_pickle("corrupted blob", PICKLE_KEY);
    assert!(matches!(r, Err(CryptoError::InvalidPickleKeyOrData)));
    let (_a, a_session, _b, _b_session, _) = session_pair("hello");
    let blob = a_session.pickle(PICKLE_KEY).unwrap();
    let r = Session::from_pickle(&blob, OTHER_PICKLE_KEY);
    assert!(matches!(r, Err(CryptoError::InvalidPickleKeyOrData)));
}

#[test]
fn libolm_pickles_are_read_only_interop() {
    // A blob that does not decrypt at all is an invalid pickle.
    let r = Account::from_libolm_pickle("", PICKLE_KEY);
    assert!(matches!(r, Err(CryptoError::InvalidPickleKeyOrData)));

    // A blob that decrypts but carries another component's format version
    // is rejected as an unsupported version, not misread.
    let account = vodozemac::olm::Account::new();
    let alien = account.to_libolm_pickle(PICKLE_KEY.as_bytes()).unwrap();
    let r = Session::from_libolm_pickle(&alien, PICKLE_KEY);
    assert!(matches!(r, Err(CryptoError::UnsupportedFormatVersion)));
}
