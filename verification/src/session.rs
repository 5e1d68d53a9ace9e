//! Pairwise double-ratchet ("Olm") sessions.
//!
//! A session is one end of an encrypted channel between two parties. It is
//! created by an [`crate::account::Account`] and is self-contained from
//! then on: encrypting advances the sending chain, decrypting advances the
//! receiving chain, and neither consults the account again.
use vstd::prelude::*;
use vstd::string::StringSliceAdditionalSpecFns;

use vodozemac::olm::Session as RemoteOlmSession;

use crate::primitives::string_from_utf8;
use crate::CryptoError;
use crate::OlmMessage;
use crate::PICKLE_KEY_LENGTH;

verus! {

#[verifier::external_type_specification]
#[verifier::external_body]
pub struct ExOlmSession(RemoteOlmSession);

#[verifier::external_type_specification]
#[verifier::external_body]
pub struct ExPreKeyMessage(vodozemac::olm::PreKeyMessage);

#[verifier::external_type_specification]
#[verifier::external_body]
pub struct ExNormalMessage(vodozemac::olm::Message);

#[verifier::external_type_specification]
#[verifier::external_body]
pub struct ExOlmDecryptionError(vodozemac::olm::DecryptionError);

/// A wire message decoded into its two shapes: a pre-key message carrying
/// handshake material, or a normal message carrying only ciphertext.
pub(crate) enum ParsedOlmMessage {
    PreKey(vodozemac::olm::PreKeyMessage),
    Normal(vodozemac::olm::Message),
}

/// Whether a numeric type tag and a base64 ciphertext decode as an Olm
/// wire message, as `vodozemac::olm::OlmMessage::from_parts` accepts
/// them. The outcome is a function of the two values alone.
pub uninterp spec fn olm_frame_wf(message_type: u32, ciphertext: Seq<char>) -> bool;

/// Whether a string is an encrypted Olm session pickle that decrypts and
/// deserializes under the given 32-byte key, as
/// `vodozemac::olm::SessionPickle::from_encrypted` accepts it. The
/// outcome is a function of the two values alone.
pub uninterp spec fn session_pickle_wf(pickle: Seq<char>, key: Seq<u8>) -> bool;

/// Whether a string is a legacy-format session pickle that decrypts and
/// decodes under the given key, as
/// `vodozemac::olm::Session::from_libolm_pickle` accepts it. The outcome
/// is a function of the two values alone.
pub uninterp spec fn session_libolm_pickle_wf(pickle: Seq<char>, key: Seq<u8>) -> bool;

/// Relies on `vodozemac::olm::OlmMessage::from_parts`: tag 0 decodes to a
/// pre-key message, tag 1 to a normal message, and any other tag or an
/// undecodable frame is rejected; decoding succeeds exactly on
/// well-formed frames.
#[verifier::external_body]
pub(crate) fn parse_olm_message(message_type: u32, ciphertext: &str) -> (r: Result<
    ParsedOlmMessage,
    CryptoError,
>)
    ensures
        r is Ok <==> olm_frame_wf(message_type, ciphertext@),
        message_type >= 2 ==> r is Err,
        r matches Ok(p) ==> ((message_type == 0) <==> (p is PreKey)),
        r matches Ok(p) ==> ((message_type == 1) <==> (p is Normal)),
        r matches Err(e) ==> e == CryptoError::MalformedInput,
{
    match vodozemac::olm::OlmMessage::from_parts(message_type as usize, ciphertext) {
        Ok(vodozemac::olm::OlmMessage::PreKey(m)) => Ok(ParsedOlmMessage::PreKey(m)),
        Ok(vodozemac::olm::OlmMessage::Normal(m)) => Ok(ParsedOlmMessage::Normal(m)),
        Err(_e) => Err(CryptoError::MalformedInput),
    }
}

/// Relies on `vodozemac::olm::Session::encrypt` and
/// `vodozemac::olm::OlmMessage::to_parts`: encrypts the plaintext on the
/// sending chain and returns the wire tag with the base64 ciphertext.
/// The message is pre-key-tagged (0) as long as no message from the peer
/// has been decrypted on the session, and normal-tagged (1) afterwards,
/// which the `received` mirror field records; the two parts decode back
/// through `vodozemac::olm::OlmMessage::from_parts`.
#[verifier::external_body]
fn encrypt_to_parts(s: &mut Session, plaintext: &str) -> (r: (usize, String))
    ensures
        r.0 == (if old(s).spec_has_received_message() {
            1int
        } else {
            0int
        }),
        olm_frame_wf(r.0 as u32, r.1@),
        final(s).spec_has_received_message() == old(s).spec_has_received_message(),
        final(s).spec_session_id() == old(s).spec_session_id(),
{
    s.inner.encrypt(plaintext).to_parts()
}

/// Relies on `vodozemac::olm::Session::decrypt`: advances the receiving
/// ratchet as needed and returns the plaintext bytes, or the decryption
/// error.
#[verifier::external_body]
fn decrypt_inner(inner: &mut vodozemac::olm::Session, message: &ParsedOlmMessage) -> Result<
    Vec<u8>,
    vodozemac::olm::DecryptionError,
> {
    match message {
        ParsedOlmMessage::PreKey(m) => inner.decrypt(
            &vodozemac::olm::OlmMessage::PreKey(m.clone()),
        ),
        ParsedOlmMessage::Normal(m) => inner.decrypt(
            &vodozemac::olm::OlmMessage::Normal(m.clone()),
        ),
    }
}

/// Relies on the variants of `vodozemac::olm::DecryptionError`: a failed
/// MAC check is an authentication failure, a malformed MAC or padding is
/// bad input, and a missing or too-distant message key is an index outside
/// the bounded cache.
#[verifier::external_body]
pub(crate) fn classify_olm_decryption_error(e: vodozemac::olm::DecryptionError) -> (r: CryptoError)
    ensures
        r == CryptoError::AuthenticationFailure || r == CryptoError::MalformedInput || r
            == CryptoError::IndexOutOfBound,
{
    match e {
        vodozemac::olm::DecryptionError::InvalidMAC(_) => CryptoError::AuthenticationFailure,
        vodozemac::olm::DecryptionError::InvalidMACLength(_, _) => CryptoError::MalformedInput,
        vodozemac::olm::DecryptionError::InvalidPadding(_) => CryptoError::MalformedInput,
        vodozemac::olm::DecryptionError::MissingMessageKey(_) => CryptoError::IndexOutOfBound,
        vodozemac::olm::DecryptionError::TooBigMessageGap(_, _) => CryptoError::IndexOutOfBound,
    }
}

/// Relies on `vodozemac::olm::Session::session_keys`,
/// `vodozemac::olm::PreKeyMessage::session_keys` and the equality of
/// `SessionKeys`: true exactly when the handshake keys embedded in the
/// pre-key message are the ones this session was created from.
#[verifier::external_body]
fn session_keys_eq(inner: &vodozemac::olm::Session, m: &vodozemac::olm::PreKeyMessage) -> bool {
    inner.session_keys() == m.session_keys()
}

/// Relies on `vodozemac::olm::Session::session_id`: the base64 form of the
/// 32-byte session identifier hash, 43 characters long.
#[verifier::external_body]
pub(crate) fn session_id_inner(inner: &vodozemac::olm::Session) -> (r: String)
    ensures
        r@.len() == 43,
{
    inner.session_id()
}

/// Relies on `vodozemac::olm::Session::pickle` and
/// `vodozemac::olm::SessionPickle::encrypt`: serializes the session state
/// and encrypts it with the 32-byte key.
#[verifier::external_body]
fn session_pickle_encrypt(inner: &vodozemac::olm::Session, key: &[u8]) -> (r: String)
    requires
        key@.len() == 32,
    ensures
        session_pickle_wf(r@, key@),
{
    let key: &[u8; 32] = key.try_into().unwrap();
    inner.pickle().encrypt(key)
}

/// Relies on `vodozemac::olm::SessionPickle::from_encrypted` and
/// `vodozemac::olm::Session::from_pickle`: decrypts and deserializes a
/// pickled session, succeeding exactly on well-formed pickles and
/// failing on a wrong key or corrupted data.
#[verifier::external_body]
fn session_from_pickle_encrypted(pickle: &str, key: &[u8]) -> (r: Result<
    vodozemac::olm::Session,
    CryptoError,
>)
    requires
        key@.len() == 32,
    ensures
        r is Ok <==> session_pickle_wf(pickle@, key@),
        r matches Err(e) ==> e == CryptoError::InvalidPickleKeyOrData,
{
    let key: &[u8; 32] = key.try_into().unwrap();
    match vodozemac::olm::SessionPickle::from_encrypted(pickle, key) {
        Ok(p) => Ok(vodozemac::olm::Session::from_pickle(p)),
        Err(_e) => Err(CryptoError::InvalidPickleKeyOrData),
    }
}

/// Relies on `vodozemac::olm::Session::from_libolm_pickle`: reads the
/// legacy interoperability pickle format; a missing or unsupported format
/// version is reported apart from decryption or decoding failures.
#[verifier::external_body]
fn session_from_libolm(pickle: &str, key: &[u8]) -> (r: Result<
    vodozemac::olm::Session,
    CryptoError,
>)
    ensures
        r is Ok <==> session_libolm_pickle_wf(pickle@, key@),
        r matches Err(e) ==> e == CryptoError::UnsupportedFormatVersion || e
            == CryptoError::InvalidPickleKeyOrData,
{
    match vodozemac::olm::Session::from_libolm_pickle(pickle, key) {
        Ok(s) => Ok(s),
        Err(vodozemac::LibolmPickleError::MissingVersion) => Err(
            CryptoError::UnsupportedFormatVersion,
        ),
        Err(vodozemac::LibolmPickleError::Version(_, _)) => Err(
            CryptoError::UnsupportedFormatVersion,
        ),
        Err(_e) => Err(CryptoError::InvalidPickleKeyOrData),
    }
}

/// Relies on `vodozemac::olm::Session::has_received_message`: whether a
/// message from the peer has ever been decrypted on this session.
#[verifier::external_body]
fn has_received_inner(inner: &RemoteOlmSession) -> bool {
    inner.has_received_message()
}

/// One end of a pairwise double-ratchet channel.
///
/// The `received` field mirrors whether a message from the peer has ever
/// been decrypted on the inner session: it is read from the primitive
/// library whenever a session is restored, starts false for an outbound
/// session and true for an inbound one, and becomes true on the first
/// successful decryption. The `session_id_b64` field mirrors the
/// session identifier, read from the primitive library at construction;
/// the inner value never changes afterwards.
pub struct Session {
    pub(crate) inner: vodozemac::olm::Session,
    pub(crate) received: bool,
    pub(crate) session_id_b64: String,
}

impl Session {
    /// Whether a message from the peer has ever been decrypted on this
    /// session.
    pub open(crate) spec fn spec_has_received_message(self) -> bool {
        self.received
    }

    /// The session identifier, fixed at construction and immutable for
    /// the session's lifetime.
    pub open(crate) spec fn spec_session_id(self) -> Seq<char> {
        self.session_id_b64@
    }

    /// Whether a message from the peer has ever been decrypted on this
    /// session; outgoing messages are pre-key-tagged until then.
    pub fn has_received_message(&self) -> (r: bool)
        ensures
            r == self.spec_has_received_message(),
    {
        self.received
    }

    /// Serialize and encrypt the full session state with the given 32-byte
    /// key, returning the versioned pickle blob.
    pub fn pickle(&self, pickle_key: &str) -> (r: Result<String, CryptoError>)
        ensures
            r is Err <==> pickle_key.spec_bytes().len() != PICKLE_KEY_LENGTH,
            r matches Err(e) ==> e == CryptoError::MalformedInput,
            r matches Ok(blob) ==> session_pickle_wf(blob@, pickle_key.spec_bytes()),
    {
        let key_bytes = pickle_key.as_bytes();
        if key_bytes.len() != PICKLE_KEY_LENGTH {
            Err(CryptoError::MalformedInput)
        } else {
            Ok(session_pickle_encrypt(&self.inner, key_bytes))
        }
    }

    /// Decrypt and deserialize a pickled session.
    ///
    /// A pickle key of the wrong length is bad input; a key that does not
    /// decrypt the blob, or a corrupted blob, is an invalid pickle.
    pub fn from_pickle(pickle: &str, pickle_key: &str) -> (r: Result<Session, CryptoError>)
        ensures
            pickle_key.spec_bytes().len() != PICKLE_KEY_LENGTH ==> (r matches Err(e) && e
                == CryptoError::MalformedInput),
            pickle_key.spec_bytes().len() == PICKLE_KEY_LENGTH ==> (r is Ok <==> session_pickle_wf(
                pickle@,
                pickle_key.spec_bytes(),
            )),
            r matches Ok(s) ==> s.spec_session_id().len() == 43,
            r matches Err(e) ==> e == CryptoError::MalformedInput || e
                == CryptoError::InvalidPickleKeyOrData,
            pickle_key.spec_bytes().len() == PICKLE_KEY_LENGTH ==> (r matches Err(e) ==> e
                == CryptoError::InvalidPickleKeyOrData),
    {
        let key_bytes = pickle_key.as_bytes();
        if key_bytes.len() != PICKLE_KEY_LENGTH {
            Err(CryptoError::MalformedInput)
        } else {
            match session_from_pickle_encrypted(pickle, key_bytes) {
                Ok(inner) => {
                    let received = has_received_inner(&inner);
                    let session_id_b64 = session_id_inner(&inner);
                    Ok(Session { inner, received, session_id_b64 })
                },
                Err(e) => Err(e),
            }
        }
    }

    /// Read a session from the legacy interoperability pickle format.
    /// Writing that format is not supported.
    pub fn from_libolm_pickle(pickle: &str, pickle_key: &str) -> (r: Result<Session, CryptoError>)
        ensures
            r is Ok <==> session_libolm_pickle_wf(pickle@, pickle_key.spec_bytes()),
            r matches Ok(s) ==> s.spec_session_id().len() == 43,
            r matches Err(e) ==> e == CryptoError::UnsupportedFormatVersion || e
                == CryptoError::InvalidPickleKeyOrData,
    {
        match session_from_libolm(pickle, pickle_key.as_bytes()) {
            Ok(inner) => {
                let received = has_received_inner(&inner);
                let session_id_b64 = session_id_inner(&inner);
                Ok(Session { inner, received, session_id_b64 })
            },
            Err(e) => Err(e),
        }
    }

    /// The session identifier, derived deterministically from the
    /// handshake material so that both parties compute the same value;
    /// base64, the same string on every call.
    pub fn session_id(&self) -> (r: String)
        ensures
            r@ == self.spec_session_id(),
    {
        self.session_id_b64.clone()
    }

    /// Whether the handshake key material embedded in a pre-key message
    /// matches this session's own recorded keys.
    ///
    /// A message that is not pre-key-tagged, or that does not decode,
    /// never matches.
    pub fn session_matches(&self, message: &OlmMessage) -> (r: bool)
        ensures
            message.message_type != 0 ==> r == false,
            !olm_frame_wf(message.message_type, message.ciphertext@) ==> r == false,
    {
        match parse_olm_message(message.message_type, message.ciphertext.as_str()) {
            Ok(ParsedOlmMessage::PreKey(m)) => session_keys_eq(&self.inner, &m),
            Ok(ParsedOlmMessage::Normal(_)) => false,
            Err(_) => false,
        }
    }

    /// Encrypt a plaintext, advancing the sending chain by one step.
    ///
    /// The result is pre-key-tagged (0) exactly as long as no message
    /// from the peer has been decrypted on this session, so the peer can
    /// re-establish the inbound session if earlier copies were lost, and
    /// normal-tagged (1) afterwards.
    pub fn encrypt(&mut self, plaintext: &str) -> (r: OlmMessage)
        ensures
            r.message_type == (if old(self).spec_has_received_message() {
                1u32
            } else {
                0u32
            }),
            olm_frame_wf(r.message_type, r.ciphertext@),
            final(self).spec_has_received_message() == old(self).spec_has_received_message(),
            final(self).spec_session_id() == old(self).spec_session_id(),
    {
        let (message_type, ciphertext) = encrypt_to_parts(self, plaintext);
        OlmMessage { message_type: message_type as u32, ciphertext }
    }

    /// Decrypt a wire message.
    ///
    /// An unknown type tag or an undecodable frame is bad input; a
    /// pre-key message whose embedded handshake keys are not this
    /// session's is a key mismatch, not a ratchet attempt; a failed MAC
    /// check is an authentication failure and never mutates the ratchet
    /// into the failed state.
    pub fn decrypt(&mut self, message: &OlmMessage) -> (r: Result<String, CryptoError>)
        ensures
            message.message_type >= 2 ==> (r matches Err(e) && e == CryptoError::MalformedInput),
            !olm_frame_wf(message.message_type, message.ciphertext@) ==> (r matches Err(e) && e
                == CryptoError::MalformedInput),
            r matches Err(e) ==> e == CryptoError::MalformedInput || e == CryptoError::KeyMismatch
                || e == CryptoError::AuthenticationFailure || e == CryptoError::IndexOutOfBound,
            r is Ok ==> final(self).spec_has_received_message(),
            old(self).spec_has_received_message() ==> final(self).spec_has_received_message(),
            (r matches Err(e) && e != CryptoError::MalformedInput) ==> final(self)
                .spec_has_received_message() == old(self).spec_has_received_message(),
            final(self).spec_session_id() == old(self).spec_session_id(),
    {
        let parsed = match parse_olm_message(message.message_type, message.ciphertext.as_str()) {
            Ok(p) => p,
            Err(e) => {
                return Err(e);
            },
        };
        if let ParsedOlmMessage::PreKey(m) = &parsed {
            if !session_keys_eq(&self.inner, m) {
                return Err(CryptoError::KeyMismatch);
            }
        }
        match decrypt_inner(&mut self.inner, &parsed) {
            Ok(bytes) => {
                self.received = true;
                string_from_utf8(bytes)
            },
            Err(e) => Err(classify_olm_decryption_error(e)),
        }
    }
}

} // verus!
