//! Group ratchet ("Megolm") sessions: a one-way sender ratchet and the
//! matching receiver ratchet for efficient one-to-many encryption.
//!
//! The sender side only ever advances: its message index grows by one per
//! encrypted message. The receiver side is anchored at a first known
//! index and can jump forward to any higher index, but can never derive
//! state for an index below that anchor.
use vstd::prelude::*;

use vodozemac::megolm::GroupSession as RemoteGroupSession;
use vodozemac::megolm::InboundGroupSession as RemoteInboundGroupSession;

use crate::primitives::string_from_utf8;
use crate::CryptoError;
use crate::SessionConfig;
use crate::PICKLE_KEY_LENGTH;

verus! {

#[verifier::external_type_specification]
#[verifier::external_body]
pub struct ExGroupSession(RemoteGroupSession);

#[verifier::external_type_specification]
#[verifier::external_body]
pub struct ExInboundGroupSession(RemoteInboundGroupSession);

#[verifier::external_type_specification]
#[verifier::external_body]
pub struct ExMegolmMessage(vodozemac::megolm::MegolmMessage);

#[verifier::external_type_specification]
#[verifier::external_body]
pub struct ExMegolmSessionKey(vodozemac::megolm::SessionKey);

#[verifier::external_type_specification]
#[verifier::external_body]
pub struct ExExportedSessionKey(vodozemac::megolm::ExportedSessionKey);

#[verifier::external_type_specification]
#[verifier::external_body]
pub struct ExMegolmDecryptionError(vodozemac::megolm::DecryptionError);

/// Whether a string is the base64 form of a valid Megolm session key, as
/// `vodozemac::megolm::SessionKey::from_base64` accepts it. The outcome
/// is a function of the string alone.
pub uninterp spec fn megolm_session_key_wf(s: Seq<char>) -> bool;

/// Whether a string is the base64 form of a valid exported Megolm session
/// key, as `vodozemac::megolm::ExportedSessionKey::from_base64` accepts
/// it. The outcome is a function of the string alone.
pub uninterp spec fn exported_session_key_wf(s: Seq<char>) -> bool;

/// The message index embedded in a well-formed Megolm session key: the
/// ratchet position the exported state starts at, as
/// `vodozemac::megolm::SessionKey` carries it. The outcome is a function
/// of the string alone.
pub uninterp spec fn megolm_session_key_index(s: Seq<char>) -> u32;

/// The message index embedded in a well-formed exported Megolm session
/// key, as `vodozemac::megolm::ExportedSessionKey` carries it. The
/// outcome is a function of the string alone.
pub uninterp spec fn exported_session_key_index(s: Seq<char>) -> u32;

/// Whether a string decodes as a Megolm ciphertext frame, as
/// `vodozemac::megolm::MegolmMessage::from_base64` accepts it. The
/// outcome is a function of the string alone.
pub uninterp spec fn megolm_frame_wf(ciphertext: Seq<char>) -> bool;

/// The message index a well-formed Megolm ciphertext frame declares, as
/// `vodozemac::megolm::MegolmMessage::message_index` reports it. The
/// outcome is a function of the string alone.
pub uninterp spec fn megolm_frame_index(ciphertext: Seq<char>) -> u32;

/// Whether a string is an encrypted sender-session pickle that decrypts
/// and deserializes under the given 32-byte key, as
/// `vodozemac::megolm::GroupSessionPickle::from_encrypted` accepts it.
/// The outcome is a function of the two values alone.
pub uninterp spec fn group_session_pickle_wf(pickle: Seq<char>, key: Seq<u8>) -> bool;

/// Whether a string is an encrypted receiver-session pickle that
/// decrypts and deserializes under the given 32-byte key, as
/// `vodozemac::megolm::InboundGroupSessionPickle::from_encrypted`
/// accepts it. The outcome is a function of the two values alone.
pub uninterp spec fn inbound_group_session_pickle_wf(pickle: Seq<char>, key: Seq<u8>) -> bool;

/// Whether a string is a legacy-format receiver-session pickle that
/// decrypts and decodes under the given key, as
/// `vodozemac::megolm::InboundGroupSession::from_libolm_pickle` accepts
/// it. The outcome is a function of the two values alone.
pub uninterp spec fn inbound_libolm_pickle_wf(pickle: Seq<char>, key: Seq<u8>) -> bool;

/// A plaintext recovered by an inbound group session, together with the
/// message index it was encrypted at; callers use the index to detect
/// replay.
pub struct DecryptedMessage {
    /// The recovered plaintext.
    pub plaintext: String,
    /// The ratchet index the message was encrypted at.
    pub message_index: u32,
}

/// A Megolm ciphertext frame decoded from its base64 transport form: the
/// opaque frame together with the message index it declares.
pub struct MegolmCiphertext {
    inner: vodozemac::megolm::MegolmMessage,
    index: u32,
}

impl MegolmCiphertext {
    /// The message index this frame declares.
    pub closed spec fn spec_index(self) -> u32 {
        self.index
    }

    /// The message index this frame declares.
    pub fn message_index(&self) -> (r: u32)
        ensures
            r == self.spec_index(),
    {
        self.index
    }
}

/// Relies on `vodozemac::megolm::MegolmMessage::from_base64` and
/// `message_index`: decodes the versioned binary frame from base64,
/// succeeding exactly on well-formed frames, and records the message
/// index the frame declares.
#[verifier::external_body]
pub(crate) fn megolm_ciphertext_from_base64(ciphertext: &str) -> (r: Result<
    MegolmCiphertext,
    CryptoError,
>)
    ensures
        r is Ok <==> megolm_frame_wf(ciphertext@),
        r matches Ok(m) ==> m.spec_index() == megolm_frame_index(ciphertext@),
        r matches Err(e) ==> e == CryptoError::MalformedInput,
{
    match vodozemac::megolm::MegolmMessage::from_base64(ciphertext) {
        Ok(m) => {
            let index = m.message_index();
            Ok(MegolmCiphertext { inner: m, index })
        },
        Err(_e) => Err(CryptoError::MalformedInput),
    }
}

/// Relies on `vodozemac::megolm::GroupSession::new` and
/// `vodozemac::megolm::SessionConfig::version_1` / `version_2`: a fresh
/// sender session whose ratchet starts at message index 0.
#[verifier::external_body]
fn group_new_inner(v2: bool) -> RemoteGroupSession {
    let config = if v2 {
        vodozemac::megolm::SessionConfig::version_2()
    } else {
        vodozemac::megolm::SessionConfig::version_1()
    };
    RemoteGroupSession::new(config)
}

/// Relies on `vodozemac::megolm::GroupSession::session_id`: the base64
/// form of the session's 32-byte Ed25519 signing key, 43 characters.
#[verifier::external_body]
fn group_session_id_inner(inner: &RemoteGroupSession) -> (r: String)
    ensures
        r@.len() == 43,
{
    inner.session_id()
}

/// Relies on `vodozemac::megolm::GroupSession::session_key` and
/// `vodozemac::megolm::SessionKey::to_base64`: exports the current
/// ratchet state, signed by the session's signing key, for distribution
/// to receivers; the exported string decodes back through
/// `vodozemac::megolm::SessionKey::from_base64` and carries the current
/// message index, which the `index` mirror field records.
#[verifier::external_body]
fn group_session_key_inner(g: &GroupSession) -> (r: String)
    ensures
        megolm_session_key_wf(r@),
        megolm_session_key_index(r@) == g.spec_message_index(),
{
    g.inner.session_key().to_base64()
}

/// Relies on `vodozemac::megolm::GroupSession::message_index`: the index
/// the next encrypted message will use.
#[verifier::external_body]
fn group_message_index_inner(inner: &RemoteGroupSession) -> u32 {
    inner.message_index()
}

/// Relies on `vodozemac::megolm::GroupSession::encrypt` and
/// `vodozemac::megolm::MegolmMessage::to_base64`: encrypts at the current
/// message index, which the `index` mirror field records, signs the
/// frame, advances the ratchet by one step, and returns the frame in
/// base64 transport form; the frame decodes back through
/// `vodozemac::megolm::MegolmMessage::from_base64` and declares the
/// index it was encrypted at.
#[verifier::external_body]
fn group_encrypt_inner(g: &mut GroupSession, plaintext: &str) -> (r: String)
    ensures
        megolm_frame_wf(r@),
        megolm_frame_index(r@) == old(g).spec_message_index(),
        final(g).spec_message_index() == old(g).spec_message_index(),
        final(g).spec_session_id() == old(g).spec_session_id(),
{
    g.inner.encrypt(plaintext).to_base64()
}

/// Relies on `vodozemac::megolm::GroupSession::pickle` and
/// `vodozemac::megolm::GroupSessionPickle::encrypt`: serializes the
/// sender state and encrypts it with the 32-byte key.
#[verifier::external_body]
fn group_pickle_encrypt(inner: &RemoteGroupSession, key: &[u8]) -> (r: String)
    requires
        key@.len() == 32,
    ensures
        group_session_pickle_wf(r@, key@),
{
    let key: &[u8; 32] = key.try_into().unwrap();
    inner.pickle().encrypt(key)
}

/// Relies on `vodozemac::megolm::GroupSessionPickle::from_encrypted` and
/// `vodozemac::megolm::GroupSession::from_pickle`: decrypts and
/// deserializes a pickled sender session, failing on a wrong key or
/// corrupted data.
#[verifier::external_body]
fn group_from_pickle_encrypted(pickle: &str, key: &[u8]) -> (r: Result<
    RemoteGroupSession,
    CryptoError,
>)
    requires
        key@.len() == 32,
    ensures
        r is Ok <==> group_session_pickle_wf(pickle@, key@),
        r matches Err(e) ==> e == CryptoError::InvalidPickleKeyOrData,
{
    let key: &[u8; 32] = key.try_into().unwrap();
    match vodozemac::megolm::GroupSessionPickle::from_encrypted(pickle, key) {
        Ok(p) => Ok(RemoteGroupSession::from_pickle(p)),
        Err(_e) => Err(CryptoError::InvalidPickleKeyOrData),
    }
}

/// Relies on `vodozemac::megolm::SessionKey::from_base64`,
/// `vodozemac::megolm::InboundGroupSession::new`,
/// `first_known_index` and
/// `vodozemac::megolm::SessionConfig::version_1` / `version_2`: decodes
/// an exported sender ratchet state, failing exactly on strings that do
/// not encode one, and builds the receiver session anchored at the index
/// the key carries, returned alongside it.
#[verifier::external_body]
fn inbound_new_inner(session_key: &str, v2: bool) -> (r: Result<
    (RemoteInboundGroupSession, u32),
    CryptoError,
>)
    ensures
        r is Ok <==> megolm_session_key_wf(session_key@),
        r matches Ok(p) ==> p.1 == megolm_session_key_index(session_key@),
        r matches Err(e) ==> e == CryptoError::MalformedInput,
{
    match vodozemac::megolm::SessionKey::from_base64(session_key) {
        Ok(key) => {
            let config = if v2 {
                vodozemac::megolm::SessionConfig::version_2()
            } else {
                vodozemac::megolm::SessionConfig::version_1()
            };
            let inner = RemoteInboundGroupSession::new(&key, config);
            let first_index = inner.first_known_index();
            Ok((inner, first_index))
        },
        Err(_e) => Err(CryptoError::MalformedInput),
    }
}

/// Relies on `vodozemac::megolm::ExportedSessionKey::from_base64`,
/// `vodozemac::megolm::InboundGroupSession::import`,
/// `first_known_index` and
/// `vodozemac::megolm::SessionConfig::version_1` / `version_2`: decodes
/// an exported receiver ratchet state, failing exactly on strings that
/// do not encode one, and builds the receiver session anchored at the
/// index the key carries, returned alongside it; the signing key of such
/// a session is taken on trust.
#[verifier::external_body]
fn inbound_import_inner(session_key: &str, v2: bool) -> (r: Result<
    (RemoteInboundGroupSession, u32),
    CryptoError,
>)
    ensures
        r is Ok <==> exported_session_key_wf(session_key@),
        r matches Ok(p) ==> p.1 == exported_session_key_index(session_key@),
        r matches Err(e) ==> e == CryptoError::MalformedInput,
{
    match vodozemac::megolm::ExportedSessionKey::from_base64(session_key) {
        Ok(key) => {
            let config = if v2 {
                vodozemac::megolm::SessionConfig::version_2()
            } else {
                vodozemac::megolm::SessionConfig::version_1()
            };
            let inner = RemoteInboundGroupSession::import(&key, config);
            let first_index = inner.first_known_index();
            Ok((inner, first_index))
        },
        Err(_e) => Err(CryptoError::MalformedInput),
    }
}

/// Relies on `vodozemac::megolm::InboundGroupSession::session_id`: the
/// base64 form of the session's 32-byte Ed25519 signing key, 43
/// characters.
#[verifier::external_body]
fn inbound_session_id_inner(inner: &RemoteInboundGroupSession) -> (r: String)
    ensures
        r@.len() == 43,
{
    inner.session_id()
}

/// Relies on `vodozemac::megolm::InboundGroupSession::first_known_index`:
/// the index of the ratchet state the session was created from; it never
/// changes over the session's lifetime.
#[verifier::external_body]
fn inbound_first_index_inner(inner: &RemoteInboundGroupSession) -> u32 {
    inner.first_known_index()
}

/// Relies on `vodozemac::megolm::InboundGroupSession::decrypt`: verifies
/// the embedded signature, derives the message key for the declared
/// index, and authenticated-decrypts; on success the reported index is
/// the one the frame declares.
#[verifier::external_body]
fn inbound_decrypt_inner(
    inner: &mut RemoteInboundGroupSession,
    message: &MegolmCiphertext,
) -> (r: Result<Vec<u8>, vodozemac::megolm::DecryptionError>) {
    match inner.decrypt(&message.inner) {
        Ok(d) => Ok(d.plaintext),
        Err(e) => Err(e),
    }
}

/// Relies on the variants of `vodozemac::megolm::DecryptionError`: a bad
/// signature or MAC is an authentication failure, a malformed MAC or
/// padding is bad input, and an unknown message index is out of bounds.
#[verifier::external_body]
fn classify_megolm_decryption_error(e: vodozemac::megolm::DecryptionError) -> (r: CryptoError)
    ensures
        r == CryptoError::AuthenticationFailure || r == CryptoError::MalformedInput || r
            == CryptoError::IndexOutOfBound,
{
    match e {
        vodozemac::megolm::DecryptionError::Signature(_) => CryptoError::AuthenticationFailure,
        vodozemac::megolm::DecryptionError::InvalidMAC(_) => CryptoError::AuthenticationFailure,
        vodozemac::megolm::DecryptionError::InvalidMACLength(_, _) => CryptoError::MalformedInput,
        vodozemac::megolm::DecryptionError::InvalidPadding(_) => CryptoError::MalformedInput,
        vodozemac::megolm::DecryptionError::UnknownMessageIndex(_, _) => {
            CryptoError::IndexOutOfBound
        },
    }
}

/// Relies on `vodozemac::megolm::InboundGroupSession::export_at` and
/// `vodozemac::megolm::ExportedSessionKey::to_base64`: exports the
/// ratchet state at the given index, which succeeds exactly when the
/// index is at or above the first known index, recorded by the
/// `first_index` mirror field; the exported string decodes back through
/// `vodozemac::megolm::ExportedSessionKey::from_base64`.
#[verifier::external_body]
fn inbound_export_at_inner(s: &mut InboundGroupSession, index: u32) -> (r: Option<String>)
    ensures
        r is Some <==> index >= old(s).spec_first_known_index(),
        r matches Some(k) ==> exported_session_key_wf(k@) && exported_session_key_index(k@)
            == index,
        final(s).spec_first_known_index() == old(s).spec_first_known_index(),
        final(s).spec_session_id() == old(s).spec_session_id(),
{
    match s.inner.export_at(index) {
        Some(k) => Some(k.to_base64()),
        None => None,
    }
}

/// Relies on `vodozemac::megolm::InboundGroupSession::pickle` and
/// `vodozemac::megolm::InboundGroupSessionPickle::encrypt`: serializes
/// the receiver state and encrypts it with the 32-byte key.
#[verifier::external_body]
fn inbound_pickle_encrypt(inner: &RemoteInboundGroupSession, key: &[u8]) -> (r: String)
    requires
        key@.len() == 32,
    ensures
        inbound_group_session_pickle_wf(r@, key@),
{
    let key: &[u8; 32] = key.try_into().unwrap();
    inner.pickle().encrypt(key)
}

/// Relies on
/// `vodozemac::megolm::InboundGroupSessionPickle::from_encrypted` and
/// `vodozemac::megolm::InboundGroupSession::from_pickle`: decrypts and
/// deserializes a pickled receiver session, failing on a wrong key or
/// corrupted data.
#[verifier::external_body]
fn inbound_from_pickle_encrypted(pickle: &str, key: &[u8]) -> (r: Result<
    RemoteInboundGroupSession,
    CryptoError,
>)
    requires
        key@.len() == 32,
    ensures
        r is Ok <==> inbound_group_session_pickle_wf(pickle@, key@),
        r matches Err(e) ==> e == CryptoError::InvalidPickleKeyOrData,
{
    let key: &[u8; 32] = key.try_into().unwrap();
    match vodozemac::megolm::InboundGroupSessionPickle::from_encrypted(pickle, key) {
        Ok(p) => Ok(RemoteInboundGroupSession::from_pickle(p)),
        Err(_e) => Err(CryptoError::InvalidPickleKeyOrData),
    }
}

/// Relies on
/// `vodozemac::megolm::InboundGroupSession::from_libolm_pickle`: reads
/// the legacy interoperability pickle format; a missing or unsupported
/// format version is reported apart from decryption or decoding failures.
#[verifier::external_body]
fn inbound_from_libolm(pickle: &str, key: &[u8]) -> (r: Result<
    RemoteInboundGroupSession,
    CryptoError,
>)
    ensures
        r is Ok <==> inbound_libolm_pickle_wf(pickle@, key@),
        r matches Err(e) ==> e == CryptoError::UnsupportedFormatVersion || e
            == CryptoError::InvalidPickleKeyOrData,
{
    match RemoteInboundGroupSession::from_libolm_pickle(pickle, key) {
        Ok(s) => Ok(s),
        Err(vodozemac::LibolmPickleError::MissingVersion) => Err(
            CryptoError::UnsupportedFormatVersion,
        ),
        Err(vodozemac::LibolmPickleError::Version(_, _)) => Err(
            CryptoError::UnsupportedFormatVersion,
        ),
        Err(_e) => Err(CryptoError::InvalidPickleKeyOrData),
    }
}

/// The sender side of a group conversation: a one-way ratchet that only
/// ever advances, one step per encrypted message.
///
/// The `index` field mirrors the message index of the inner ratchet: a
/// fresh ratchet starts at index 0, the index is read back from the
/// primitive library whenever a session is restored from a pickle, and it
/// advances by exactly one per encryption, as the inner ratchet does.
pub struct GroupSession {
    inner: RemoteGroupSession,
    index: u32,
    session_id_b64: String,
}

impl GroupSession {
    /// The index the next encrypted message will use.
    pub closed spec fn spec_message_index(self) -> u32 {
        self.index
    }

    /// The session identifier, fixed at construction and immutable for
    /// the session's lifetime.
    pub closed spec fn spec_session_id(self) -> Seq<char> {
        self.session_id_b64@
    }

    /// Create a fresh sender session; its first message will use index 0.
    pub fn new(config: &SessionConfig) -> (r: GroupSession)
        ensures
            r.spec_message_index() == 0,
            r.spec_session_id().len() == 43,
    {
        let v2 = config.version() == 2;
        let inner = group_new_inner(v2);
        let session_id_b64 = group_session_id_inner(&inner);
        GroupSession { inner, index: 0, session_id_b64 }
    }

    /// The immutable session identifier; base64, the same string on
    /// every call.
    pub fn session_id(&self) -> (r: String)
        ensures
            r@ == self.spec_session_id(),
    {
        self.session_id_b64.clone()
    }

    /// Export the current ratchet state so receivers can build a matching
    /// inbound session; it must be distributed before the first index it
    /// should decrypt, since the sender cannot produce past states. The
    /// result is a well-formed session key carrying the current message
    /// index, so building an inbound session from it succeeds and is
    /// anchored exactly there.
    pub fn session_key(&self) -> (r: String)
        ensures
            megolm_session_key_wf(r@),
            megolm_session_key_index(r@) == self.spec_message_index(),
    {
        group_session_key_inner(self)
    }

    /// The index the next encrypted message will use.
    pub fn message_index(&self) -> (r: u32)
        ensures
            r == self.spec_message_index(),
    {
        self.index
    }

    /// Encrypt a plaintext at the current message index and advance the
    /// ratchet by one irreversible step.
    ///
    /// The result is a well-formed Megolm frame that declares the index
    /// the message was encrypted at, the message index before the call.
    pub fn encrypt(&mut self, plaintext: &str) -> (r: String)
        requires
            old(self).spec_message_index() < u32::MAX,
        ensures
            final(self).spec_message_index() == old(self).spec_message_index() + 1,
            megolm_frame_wf(r@),
            megolm_frame_index(r@) == old(self).spec_message_index(),
            final(self).spec_session_id() == old(self).spec_session_id(),
    {
        let ciphertext = group_encrypt_inner(self, plaintext);
        self.index = self.index + 1;
        ciphertext
    }

    /// Serialize and encrypt the full sender state with the given 32-byte
    /// key, returning the versioned pickle blob.
    pub fn pickle(&self, pickle_key: &[u8]) -> (r: Result<String, CryptoError>)
        ensures
            r is Err <==> pickle_key@.len() != PICKLE_KEY_LENGTH,
            r matches Err(e) ==> e == CryptoError::MalformedInput,
            r matches Ok(blob) ==> group_session_pickle_wf(blob@, pickle_key@),
    {
        if pickle_key.len() != PICKLE_KEY_LENGTH {
            Err(CryptoError::MalformedInput)
        } else {
            Ok(group_pickle_encrypt(&self.inner, pickle_key))
        }
    }

    /// Decrypt and deserialize a pickled sender session.
    ///
    /// A pickle key of the wrong length is bad input; a key that does not
    /// decrypt the blob, or a corrupted blob, is an invalid pickle.
    pub fn from_pickle(pickle: &str, pickle_key: &[u8]) -> (r: Result<GroupSession, CryptoError>)
        ensures
            pickle_key@.len() != PICKLE_KEY_LENGTH ==> (r matches Err(e) && e
                == CryptoError::MalformedInput),
            pickle_key@.len() == PICKLE_KEY_LENGTH ==> (r is Ok <==> group_session_pickle_wf(
                pickle@,
                pickle_key@,
            )),
            r matches Ok(g) ==> g.spec_session_id().len() == 43,
            r matches Err(e) ==> e == CryptoError::MalformedInput || e
                == CryptoError::InvalidPickleKeyOrData,
            pickle_key@.len() == PICKLE_KEY_LENGTH ==> (r matches Err(e) ==> e
                == CryptoError::InvalidPickleKeyOrData),
    {
        if pickle_key.len() != PICKLE_KEY_LENGTH {
            Err(CryptoError::MalformedInput)
        } else {
            match group_from_pickle_encrypted(pickle, pickle_key) {
                Ok(inner) => {
                    let index = group_message_index_inner(&inner);
                    let session_id_b64 = group_session_id_inner(&inner);
                    Ok(GroupSession { inner, index, session_id_b64 })
                },
                Err(e) => Err(e),
            }
        }
    }
}

/// The receiver side of a group conversation: a ratchet anchored at a
/// first known index that can jump forward but never rewind.
///
/// The `first_index` field mirrors the first known index of the inner
/// ratchet: it is read from the primitive library whenever a session is
/// created or restored, and the inner value never changes afterwards.
pub struct InboundGroupSession {
    inner: RemoteInboundGroupSession,
    first_index: u32,
    session_id_b64: String,
}

impl InboundGroupSession {
    /// The lowest message index this session can ever decrypt.
    pub closed spec fn spec_first_known_index(self) -> u32 {
        self.first_index
    }

    /// The session identifier, fixed at construction and immutable for
    /// the session's lifetime.
    pub closed spec fn spec_session_id(self) -> Seq<char> {
        self.session_id_b64@
    }

    /// Build a receiver session from a session key exported by the
    /// matching sender; succeeds exactly when the key decodes.
    pub fn new(session_key: &str, config: &SessionConfig) -> (r: Result<
        InboundGroupSession,
        CryptoError,
    >)
        ensures
            r is Ok <==> megolm_session_key_wf(session_key@),
            r matches Err(e) ==> e == CryptoError::MalformedInput,
            r matches Ok(s) ==> s.spec_first_known_index() == megolm_session_key_index(
                session_key@,
            ) && s.spec_session_id().len() == 43,
    {
        let v2 = config.version() == 2;
        match inbound_new_inner(session_key, v2) {
            Ok((inner, first_index)) => {
                let session_id_b64 = inbound_session_id_inner(&inner);
                Ok(InboundGroupSession { inner, first_index, session_id_b64 })
            },
            Err(e) => Err(e),
        }
    }

    /// Build a receiver session from an exported ratchet state; succeeds
    /// exactly when the key decodes. The signing key of such a session is
    /// taken on trust.
    pub fn import(session_key: &str, config: &SessionConfig) -> (r: Result<
        InboundGroupSession,
        CryptoError,
    >)
        ensures
            r is Ok <==> exported_session_key_wf(session_key@),
            r matches Err(e) ==> e == CryptoError::MalformedInput,
            r matches Ok(s) ==> s.spec_first_known_index() == exported_session_key_index(
                session_key@,
            ) && s.spec_session_id().len() == 43,
    {
        let v2 = config.version() == 2;
        match inbound_import_inner(session_key, v2) {
            Ok((inner, first_index)) => {
                let session_id_b64 = inbound_session_id_inner(&inner);
                Ok(InboundGroupSession { inner, first_index, session_id_b64 })
            },
            Err(e) => Err(e),
        }
    }

    /// The immutable session identifier; base64, the same string on
    /// every call.
    pub fn session_id(&self) -> (r: String)
        ensures
            r@ == self.spec_session_id(),
    {
        self.session_id_b64.clone()
    }

    /// The lowest message index this session can ever decrypt.
    pub fn first_known_index(&self) -> (r: u32)
        ensures
            r == self.spec_first_known_index(),
    {
        self.first_index
    }

    /// Export the ratchet state at the given index for secure forwarding.
    ///
    /// Succeeds exactly for indices at or above the first known index:
    /// no state for an earlier index can ever be produced. The exported
    /// key is well-formed, so importing it succeeds; the first known
    /// index itself is unaffected.
    pub fn export_at(&mut self, index: u32) -> (r: Option<String>)
        ensures
            r is Some <==> index >= old(self).spec_first_known_index(),
            r matches Some(k) ==> exported_session_key_wf(k@) && exported_session_key_index(k@)
                == index,
            final(self).spec_first_known_index() == old(self).spec_first_known_index(),
            final(self).spec_session_id() == old(self).spec_session_id(),
    {
        if index < self.first_index {
            None
        } else {
            inbound_export_at_inner(self, index)
        }
    }

    /// Decrypt a parsed Megolm frame.
    ///
    /// A frame whose declared index is below the first known index is
    /// rejected as out of bounds before any ratchet work; on success the
    /// reported index is the frame's declared index, which is never below
    /// the first known index. The first known index itself is unaffected.
    pub fn decrypt_parsed(&mut self, message: &MegolmCiphertext) -> (r: Result<
        DecryptedMessage,
        CryptoError,
    >)
        ensures
            message.spec_index() < old(self).spec_first_known_index() ==> (r matches Err(e) && e
                == CryptoError::IndexOutOfBound),
            r matches Ok(d) ==> d.message_index == message.spec_index() && d.message_index >= old(self).spec_first_known_index(),
            r matches Err(e) ==> e == CryptoError::IndexOutOfBound
                || e == CryptoError::AuthenticationFailure || e == CryptoError::MalformedInput,
            final(self).spec_first_known_index() == old(self).spec_first_known_index(),
            final(self).spec_session_id() == old(self).spec_session_id(),
    {
        let index = message.message_index();
        if index < self.first_index {
            return Err(CryptoError::IndexOutOfBound);
        }
        match inbound_decrypt_inner(&mut self.inner, message) {
            Ok(plaintext_bytes) => {
                match string_from_utf8(plaintext_bytes) {
                    Ok(plaintext) => Ok(DecryptedMessage { plaintext, message_index: index }),
                    Err(e) => Err(e),
                }
            },
            Err(e) => Err(classify_megolm_decryption_error(e)),
        }
    }

    /// Decode a base64 Megolm frame and decrypt it.
    ///
    /// An undecodable frame is bad input; a decoded frame is handled as
    /// by [`Self::decrypt_parsed`], so a plaintext is only ever reported
    /// at an index at or above the first known index.
    pub fn decrypt(&mut self, ciphertext: &str) -> (r: Result<DecryptedMessage, CryptoError>)
        ensures
            !megolm_frame_wf(ciphertext@) ==> (r matches Err(e) && e
                == CryptoError::MalformedInput),
            megolm_frame_wf(ciphertext@) && megolm_frame_index(ciphertext@) < old(self).spec_first_known_index() ==> (r matches Err(e) && e == CryptoError::IndexOutOfBound),
            r matches Ok(d) ==> d.message_index == megolm_frame_index(ciphertext@)
                && d.message_index >= old(self).spec_first_known_index(),
            r matches Err(e) ==> e == CryptoError::MalformedInput || e
                == CryptoError::IndexOutOfBound || e == CryptoError::AuthenticationFailure,
            final(self).spec_first_known_index() == old(self).spec_first_known_index(),
            final(self).spec_session_id() == old(self).spec_session_id(),
    {
        match megolm_ciphertext_from_base64(ciphertext) {
            Ok(message) => self.decrypt_parsed(&message),
            Err(e) => Err(e),
        }
    }

    /// Serialize and encrypt the full receiver state with the given
    /// 32-byte key, returning the versioned pickle blob.
    pub fn pickle(&self, pickle_key: &[u8]) -> (r: Result<String, CryptoError>)
        ensures
            r is Err <==> pickle_key@.len() != PICKLE_KEY_LENGTH,
            r matches Err(e) ==> e == CryptoError::MalformedInput,
            r matches Ok(blob) ==> inbound_group_session_pickle_wf(blob@, pickle_key@),
    {
        if pickle_key.len() != PICKLE_KEY_LENGTH {
            Err(CryptoError::MalformedInput)
        } else {
            Ok(inbound_pickle_encrypt(&self.inner, pickle_key))
        }
    }

    /// Decrypt and deserialize a pickled receiver session.
    ///
    /// A pickle key of the wrong length is bad input; a key that does not
    /// decrypt the blob, or a corrupted blob, is an invalid pickle.
    pub fn from_pickle(pickle: &str, pickle_key: &[u8]) -> (r: Result<
        InboundGroupSession,
        CryptoError,
    >)
        ensures
            pickle_key@.len() != PICKLE_KEY_LENGTH ==> (r matches Err(e) && e
                == CryptoError::MalformedInput),
            pickle_key@.len() == PICKLE_KEY_LENGTH ==> (r is Ok
                <==> inbound_group_session_pickle_wf(pickle@, pickle_key@)),
            r matches Ok(s) ==> s.spec_session_id().len() == 43,
            r matches Err(e) ==> e == CryptoError::MalformedInput || e
                == CryptoError::InvalidPickleKeyOrData,
            pickle_key@.len() == PICKLE_KEY_LENGTH ==> (r matches Err(e) ==> e
                == CryptoError::InvalidPickleKeyOrData),
    {
        if pickle_key.len() != PICKLE_KEY_LENGTH {
            Err(CryptoError::MalformedInput)
        } else {
            match inbound_from_pickle_encrypted(pickle, pickle_key) {
                Ok(inner) => {
                    let first_index = inbound_first_index_inner(&inner);
                    let session_id_b64 = inbound_session_id_inner(&inner);
                    Ok(InboundGroupSession { inner, first_index, session_id_b64 })
                },
                Err(e) => Err(e),
            }
        }
    }

    /// Read a receiver session from the legacy interoperability pickle
    /// format. Writing that format is not supported.
    pub fn from_libolm_pickle(pickle: &str, pickle_key: &[u8]) -> (r: Result<
        InboundGroupSession,
        CryptoError,
    >)
        ensures
            r is Ok <==> inbound_libolm_pickle_wf(pickle@, pickle_key@),
            r matches Ok(s) ==> s.spec_session_id().len() == 43,
            r matches Err(e) ==> e == CryptoError::UnsupportedFormatVersion || e
                == CryptoError::InvalidPickleKeyOrData,
    {
        match inbound_from_libolm(pickle, pickle_key) {
            Ok(inner) => {
                let first_index = inbound_first_index_inner(&inner);
                let session_id_b64 = inbound_session_id_inner(&inner);
                Ok(InboundGroupSession { inner, first_index, session_id_b64 })
            },
            Err(e) => Err(e),
        }
    }
}

} // verus!
