use olm_core::group_sessions::GroupSession;
use olm_core::group_sessions::InboundGroupSession;
use olm_core::CryptoError;
use olm_core::SessionConfig;

const PICKLE_KEY: &str = "abcdefghijklmnopqrstuvwxyz012345";
const OTHER_PICKLE_KEY: &str = "543210zyxwvutsrqponmlkjihgfedcba";

#[test]
fn group_session_index_advances_by_one() {
    let mut group = GroupSession::new(&SessionConfig::version_1());
    assert_eq!(group.message_index(), 0);
    group.encrypt("one");
    assert_eq!(group.message_index(), 1);
    group.encrypt("two");
    assert_eq!(group.message_index(), 2);
    assert_eq!(group.session_id().len(), 43);
}

#[test]
fn inbound_decrypts_in_order_and_reports_indices() {
    let mut group = GroupSession::new(&SessionConfig::version_1());
    let key = group.session_key();
    let mut inbound = InboundGroupSession::new(&key, &SessionConfig::version_1()).unwrap();
    assert_eq!(inbound.session_id(), group.session_id());
    assert_eq!(inbound.first_known_index(), 0);

    let c0 = group.encrypt("zero");
    let c1 = group.encrypt("one");
    let c2 = group.encrypt("two");

    let d0 = inbound.decrypt(&c0).unwrap();
    assert_eq!((d0.plaintext.as_str(), d0.message_index), ("zero", 0));
    let d1 = inbound.decrypt(&c1).unwrap();
    assert_eq!((d1.plaintext.as_str(), d1.message_index), ("one", 1));
    let d2 = inbound.decrypt(&c2).unwrap();
    assert_eq!((d2.plaintext.as_str(), d2.message_index), ("two", 2));
}

#[test]
fn inbound_decrypts_out_of_order_above_the_anchor() {
    let mut group = GroupSession::new(&SessionConfig::version_1());
    let key = group.session_key();
    let c0 = group.encrypt("zero");
    let c1 = group.encrypt("one");
    let c2 = group.encrypt("two");

    let mut inbound = InboundGroupSession::new(&key, &SessionConfig::version_1()).unwrap();
    let d2 = inbound.decrypt(&c2).unwrap();
    assert_eq!((d2.plaintext.as_str(), d2.message_index), ("two", 2));
    let d1 = inbound.decrypt(&c1).unwrap();
    assert_eq!((d1.plaintext.as_str(), d1.message_index), ("one", 1));
    let d0 = inbound.decrypt(&c0).unwrap();
    assert_eq!((d0.plaintext.as_str(), d0.message_index), ("zero", 0));
}

#[test]
fn indices_below_the_anchor_are_out_of_bounds() {
    let mut group = GroupSession::new(&SessionConfig::version_1());
    let c0 = group.encrypt("zero");
    // Export the session key only after the first message: the receiver's
    // first known index is 1 and index 0 is unreachable for it.
    let key = group.session_key();
    let c1 = group.encrypt("one");

    let mut late = InboundGroupSession::new(&key, &SessionConfig::version_1()).unwrap();
    assert_eq!(late.first_known_index(), 1);
    let d1 = late.decrypt(&c1).unwrap();
    assert_eq!((d1.plaintext.as_str(), d1.message_index), ("one", 1));
    let r = late.decrypt(&c0);
    assert!(matches!(r, Err(CryptoError::IndexOutOfBound)));
}

#[test]
fn export_at_respects_the_anchor() {
    let mut group = GroupSession::new(&SessionConfig::version_1());
    group.encrypt("zero");
    group.encrypt("one");
    let key = group.session_key();

    let mut inbound = InboundGroupSession::new(&key, &SessionConfig::version_1()).unwrap();
    assert_eq!(inbound.first_known_index(), 2);
    assert!(inbound.export_at(0).is_none());
    assert!(inbound.export_at(1).is_none());
    let exported = inbound.export_at(2).unwrap();

    let mut imported = InboundGroupSession::import(&exported, &SessionConfig::version_1()).unwrap();
    assert_eq!(imported.first_known_index(), 2);
    assert_eq!(imported.session_id(), inbound.session_id());

    let c2 = group.encrypt("two");
    let d2 = imported.decrypt(&c2).unwrap();
    assert_eq!((d2.plaintext.as_str(), d2.message_index), ("two", 2));
}

#[test]
fn exported_state_forwards_later_indices_only() {
    let mut group = GroupSession::new(&SessionConfig::version_1());
    let key = group.session_key();
    let c0 = group.encrypt("zero");
    let c5 = {
        group.encrypt("one");
        group.encrypt("two");
        group.encrypt("three");
        group.encrypt("four");
        group.encrypt("five")
    };

    let mut inbound = InboundGroupSession::new(&key, &SessionConfig::version_1()).unwrap();
    let exported = inbound.export_at(3).unwrap();
    let mut partial = InboundGroupSession::import(&exported, &SessionConfig::version_1()).unwrap();
    assert_eq!(partial.first_known_index(), 3);
    let d5 = partial.decrypt(&c5).unwrap();
    assert_eq!((d5.plaintext.as_str(), d5.message_index), ("five", 5));
    assert!(matches!(partial.decrypt(&c0), Err(CryptoError::IndexOutOfBound)));
}

#[test]
fn foreign_frames_fail_authentication() {
    let mut group = GroupSession::new(&SessionConfig::version_1());
    let mut other = GroupSession::new(&SessionConfig::version_1());
    let key = group.session_key();
    let mut inbound = InboundGroupSession::new(&key, &SessionConfig::version_1()).unwrap();

    let foreign = other.encrypt("impostor");
    let r = inbound.decrypt(&foreign);
    assert!(matches!(r, Err(CryptoError::AuthenticationFailure)));
}

#[test]
fn undecodable_frames_and_keys_are_bad_input() {
    let mut group = GroupSession::new(&SessionConfig::version_1());
    let key = group.session_key();
    let mut inbound = InboundGroupSession::new(&key, &SessionConfig::version_1()).unwrap();
    assert!(matches!(inbound.decrypt("!!not a frame!!"), Err(CryptoError::MalformedInput)));

    let r = InboundGroupSession::new("not a session key", &SessionConfig::version_1());
    assert!(matches!(r, Err(CryptoError::MalformedInput)));
    let r = InboundGroupSession::import("not an exported key", &SessionConfig::version_1());
    assert!(matches!(r, Err(CryptoError::MalformedInput)));
}

#[test]
fn version_2_group_sessions_interoperate() {
    let mut group = GroupSession::new(&SessionConfig::version_2());
    let key = group.session_key();
    let mut inbound = InboundGroupSession::new(&key, &SessionConfig::version_2()).unwrap();
    let c0 = group.encrypt("full mac");
    let d0 = inbound.decrypt(&c0).unwrap();
    assert_eq!((d0.plaintext.as_str(), d0.message_index), ("full mac", 0));
}

#[test]
fn group_session_pickle_round_trip() {
    let mut group = GroupSession::new(&SessionConfig::version_1());
    group.encrypt("zero");
    let key = group.session_key();
    let blob = group.pickle(PICKLE_KEY.as_bytes()).unwrap();

    let mut restored = GroupSession::from_pickle(&blob, PICKLE_KEY.as_bytes()).unwrap();
    assert_eq!(restored.session_id(), group.session_id());
    assert_eq!(restored.message_index(), 1);

    let mut inbound = InboundGroupSession::new(&key, &SessionConfig::version_1()).unwrap();
    let c1 = restored.encrypt("one");
    let d1 = inbound.decrypt(&c1).unwrap();
    assert_eq!((d1.plaintext.as_str(), d1.message_index), ("one", 1));
}

#[test]
fn inbound_pickle_round_trip() {
    let mut group = GroupSession::new(&SessionConfig::version_1());
    group.encrypt("zero");
    let key = group.session_key();
    let inbound = InboundGroupSession::new(&key, &SessionConfig::version_1()).unwrap();
    let blob = inbound.pickle(PICKLE_KEY.as_bytes()).unwrap();

    let mut restored = InboundGroupSession::from_pickle(&blob, PICKLE_KEY.as_bytes()).unwrap();
    assert_eq!(restored.session_id(), inbound.session_id());
    assert_eq!(restored.first_known_index(), 1);

    let c1 = group.encrypt("one");
    let d1 = restored.decrypt(&c1).unwrap();
    assert_eq!((d1.plaintext.as_str(), d1.message_index), ("one", 1));
}

#[test]
fn group_pickle_errors_are_distinct() {
    let group = GroupSession::new(&SessionConfig::version_1());
    assert!(matches!(group.pickle(b"short"), Err(CryptoError::MalformedInput)));
    let blob = group.pickle(PICKLE_KEY.as_bytes()).unwrap();
    let r = GroupSession::from_pickle(&blob, OTHER_PICKLE_KEY.as_bytes());
    assert!(matches!(r, Err(CryptoError::InvalidPickleKeyOrData)));
    let r = InboundGroupSession::from_pickle("garbage", PICKLE_KEY.as_bytes());
    assert!(matches!(r, Err(CryptoError::InvalidPickleKeyOrData)));
    let r = InboundGroupSession::from_pickle("garbage", b"short");
    assert!(matches!(r, Err(CryptoError::MalformedInput)));
}

#[test]
fn inbound_libolm_pickles_are_read_only_interop() {
    let r = InboundGroupSession::from_libolm_pickle("", PICKLE_KEY.as_bytes());
    assert!(matches!(r, Err(CryptoError::InvalidPickleKeyOrData)));

    let account = vodozemac::olm::Account::new();
    let alien = account.to_libolm_pickle(PICKLE_KEY.as_bytes()).unwrap();
    let r = InboundGroupSession::from_libolm_pickle(&alien, PICKLE_KEY.as_bytes());
    assert!(matches!(r, Err(CryptoError::UnsupportedFormatVersion)));
}
