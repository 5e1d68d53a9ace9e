//! The long-term identity account: identity keys, one-time and fallback
//! key lifecycle, and session initiation.
use vstd::prelude::*;
use vstd::string::StringSliceAdditionalSpecFns;

use vodozemac::olm::Account as RemoteOlmAccount;

use crate::primitives::curve25519_b64_wf;
use crate::primitives::curve25519_from_base64;
use crate::primitives::string_from_utf8_lossy;
use crate::session::classify_olm_decryption_error;
use crate::session::olm_frame_wf;
use crate::session::parse_olm_message;
use crate::session::session_id_inner;
use crate::session::ParsedOlmMessage;
use crate::session::Session;
use crate::CryptoError;
use crate::OlmMessage;
use crate::SessionConfig;
use crate::PICKLE_KEY_LENGTH;

verus! {

#[verifier::external_type_specification]
#[verifier::external_body]
pub struct ExOlmAccount(RemoteOlmAccount);

#[verifier::external_type_specification]
#[verifier::external_body]
pub struct ExSessionCreationError(vodozemac::olm::SessionCreationError);

/// The number of one-time keys a caller should keep published, a fixed
/// policy constant of the key store.
pub const MAX_PUBLISHED_ONE_TIME_KEYS: u32 = 50;

/// The number of private one-time keys the underlying store keeps at
/// most; generating keys beyond this evicts the oldest ones.
pub const MAX_STORED_ONE_TIME_KEYS: usize = 5000;

/// Whether a string is an encrypted account pickle that decrypts and
/// deserializes under the given 32-byte key, as
/// `vodozemac::olm::AccountPickle::from_encrypted` accepts it. The
/// outcome is a function of the two values alone.
pub uninterp spec fn account_pickle_wf(pickle: Seq<char>, key: Seq<u8>) -> bool;

/// Whether a string is a legacy-format account pickle that decrypts and
/// decodes under the given key, as
/// `vodozemac::olm::Account::from_libolm_pickle` accepts it. The outcome
/// is a function of the two values alone.
pub uninterp spec fn account_libolm_pickle_wf(pickle: Seq<char>, key: Seq<u8>) -> bool;

/// The two public identity keys of an account, in unpadded base64 form.
pub struct IdentityKeys {
    /// The Ed25519 signing key.
    pub ed25519: String,
    /// The Curve25519 Diffie-Hellman key.
    pub curve25519: String,
}

/// The result of consuming an inbound pre-key message: the new session and
/// the plaintext recovered from the embedded ciphertext, produced
/// atomically.
pub struct InboundCreationResult {
    /// The freshly created inbound session.
    pub session: Session,
    /// The plaintext of the pre-key message.
    pub plaintext: String,
}

/// Relies on `vodozemac::olm::Account::new`: a fresh account with new
/// random identity keys and empty key sets.
#[verifier::external_body]
fn account_new() -> RemoteOlmAccount {
    RemoteOlmAccount::new()
}

/// Relies on `vodozemac::olm::Account::ed25519_key` and
/// `vodozemac::Ed25519PublicKey::to_base64`: the unpadded base64 form of
/// the 32-byte signing key, 43 characters.
#[verifier::external_body]
fn ed25519_key_b64(inner: &RemoteOlmAccount) -> (r: String)
    ensures
        r@.len() == 43,
{
    inner.ed25519_key().to_base64()
}

/// Relies on `vodozemac::olm::Account::curve25519_key` and
/// `vodozemac::Curve25519PublicKey::to_base64`: the unpadded base64 form
/// of the 32-byte Diffie-Hellman key, 43 characters; it decodes back
/// through `vodozemac::Curve25519PublicKey::from_base64`.
#[verifier::external_body]
fn curve25519_key_b64(inner: &RemoteOlmAccount) -> (r: String)
    ensures
        r@.len() == 43,
        curve25519_b64_wf(r@),
{
    inner.curve25519_key().to_base64()
}

/// Relies on `vodozemac::olm::Account::sign` and
/// `vodozemac::Ed25519Signature::to_base64`: a deterministic Ed25519
/// signature over the raw message bytes, 64 bytes, 86 base64 characters.
#[verifier::external_body]
fn sign_b64(inner: &RemoteOlmAccount, message: &str) -> (r: String)
    ensures
        r@.len() == 86,
{
    inner.sign(message).to_base64()
}

/// Relies on `vodozemac::olm::Account::one_time_keys` and the base64
/// encodings of `KeyId` and `Curve25519PublicKey`: the currently
/// unpublished one-time keys as (key id, public key) pairs, as many as
/// the `otk_count` mirror field records. The map is walked in hash
/// order, so nothing is promised of the order of the pairs.
#[verifier::external_body]
fn one_time_keys_b64(a: &Account) -> (r: Vec<(String, String)>)
    ensures
        r@.len() == a.spec_one_time_key_count(),
        forall|i: int| 0 <= i < r@.len() ==> curve25519_b64_wf(#[trigger] r@[i].1@),
{
    a.inner.one_time_keys().into_iter().map(|(k, v)| (k.to_base64(), v.to_base64())).collect()
}

/// Relies on `vodozemac::olm::Account::one_time_keys`: the number of
/// currently unpublished one-time keys.
#[verifier::external_body]
fn unpublished_count_inner(inner: &RemoteOlmAccount) -> usize {
    inner.one_time_keys().len()
}

/// Relies on `vodozemac::olm::Account::stored_one_time_key_count`: the
/// number of private one-time keys held in the store. Key generation
/// keeps the store within its capacity, but a restored pickle may carry
/// more, so no bound is claimed.
#[verifier::external_body]
fn stored_count_inner(inner: &RemoteOlmAccount) -> usize {
    inner.stored_one_time_key_count()
}

/// Relies on `vodozemac::olm::Account::fallback_key`: the number of
/// unpublished fallback keys, zero or one.
#[verifier::external_body]
fn fallback_count_inner(inner: &RemoteOlmAccount) -> (r: usize)
    ensures
        r <= 1,
{
    inner.fallback_key().len()
}

/// Relies on `vodozemac::olm::Account::fallback_key` and the base64
/// encodings of `KeyId` and `Curve25519PublicKey`: the unpublished
/// fallback key as at most one (key id, public key) pair, present
/// exactly when the `has_fallback` mirror field records one.
#[verifier::external_body]
fn fallback_key_b64(a: &Account) -> (r: Vec<(String, String)>)
    ensures
        r@.len() == (if a.spec_has_unpublished_fallback() {
            1int
        } else {
            0int
        }),
{
    a.inner.fallback_key().into_iter().map(|(k, v)| (k.to_base64(), v.to_base64())).collect()
}

/// Relies on `vodozemac::olm::Account::generate_one_time_keys`: adds the
/// given number of freshly generated key pairs to the unpublished set.
/// While the store stays within its capacity the addition is exact;
/// beyond it the store evicts its oldest keys, so the counts are read
/// back into the mirror fields rather than computed. The fallback and
/// identity mirrors are untouched.
#[verifier::external_body]
fn generate_one_time_keys_inner(a: &mut Account, count: usize)
    ensures
        old(a).spec_stored_key_count() + count <= MAX_STORED_ONE_TIME_KEYS ==> final(a).spec_one_time_key_count() == old(a).spec_one_time_key_count() + count,
        old(a).spec_stored_key_count() + count <= MAX_STORED_ONE_TIME_KEYS ==> final(a).spec_stored_key_count() == old(a).spec_stored_key_count() + count,
        final(a).spec_has_unpublished_fallback() == old(a).spec_has_unpublished_fallback(),
        final(a).spec_ed25519_b64() == old(a).spec_ed25519_b64(),
        final(a).spec_curve25519_b64() == old(a).spec_curve25519_b64(),
{
    a.inner.generate_one_time_keys(count);
    a.otk_count = a.inner.one_time_keys().len();
    a.total_key_count = a.inner.stored_one_time_key_count();
}

/// Relies on `vodozemac::olm::Account::generate_fallback_key`: rotates the
/// fallback key, demoting the current one to "previous" rather than
/// discarding it; afterwards an unpublished fallback key exists. The
/// one-time-key and identity mirrors are untouched.
#[verifier::external_body]
fn generate_fallback_key_inner(a: &mut Account)
    ensures
        final(a).spec_has_unpublished_fallback(),
        final(a).spec_one_time_key_count() == old(a).spec_one_time_key_count(),
        final(a).spec_stored_key_count() == old(a).spec_stored_key_count(),
        final(a).spec_ed25519_b64() == old(a).spec_ed25519_b64(),
        final(a).spec_curve25519_b64() == old(a).spec_curve25519_b64(),
{
    a.inner.generate_fallback_key();
    a.has_fallback = true;
}

/// Relies on `vodozemac::olm::Account::mark_keys_as_published`: moves all
/// currently unpublished one-time and fallback keys out of the "to
/// publish" view, leaving both views empty; the keys remain stored and
/// usable for inbound-session creation until consumed, so the stored
/// count and identity mirrors are untouched.
#[verifier::external_body]
fn mark_keys_as_published_inner(a: &mut Account)
    ensures
        final(a).spec_one_time_key_count() == 0,
        !final(a).spec_has_unpublished_fallback(),
        final(a).spec_stored_key_count() == old(a).spec_stored_key_count(),
        final(a).spec_ed25519_b64() == old(a).spec_ed25519_b64(),
        final(a).spec_curve25519_b64() == old(a).spec_curve25519_b64(),
{
    a.inner.mark_keys_as_published();
    a.otk_count = 0;
    a.has_fallback = false;
}

/// Relies on `vodozemac::olm::Account::create_outbound_session` and
/// `vodozemac::olm::SessionConfig::version_1` / `version_2`: performs the
/// triple Diffie-Hellman with the given remote keys and returns the ready
/// sending session, without mutating the account.
#[verifier::external_body]
fn create_outbound_inner(
    inner: &RemoteOlmAccount,
    v2: bool,
    identity_key: vodozemac::Curve25519PublicKey,
    one_time_key: vodozemac::Curve25519PublicKey,
) -> vodozemac::olm::Session {
    let config = if v2 {
        vodozemac::olm::SessionConfig::version_2()
    } else {
        vodozemac::olm::SessionConfig::version_1()
    };
    inner.create_outbound_session(config, identity_key, one_time_key)
}

/// Relies on `vodozemac::olm::Account::create_inbound_session`:
/// reconstructs the shared secret from the embedded handshake material,
/// decrypts the embedded ciphertext, and consumes the matching local
/// one-time key, removing at most one key from the store (none when the
/// message used a fallback key); on any failure the account is left
/// unchanged, without a partially created session. The key counts are
/// read back into the mirror fields; the fallback and identity mirrors
/// are untouched.
#[verifier::external_body]
fn create_inbound_inner(
    a: &mut Account,
    identity_key: vodozemac::Curve25519PublicKey,
    message: &vodozemac::olm::PreKeyMessage,
) -> (r: Result<(vodozemac::olm::Session, Vec<u8>), vodozemac::olm::SessionCreationError>)
    ensures
        final(a).spec_one_time_key_count() <= old(a).spec_one_time_key_count(),
        old(a).spec_one_time_key_count() <= final(a).spec_one_time_key_count() + 1,
        final(a).spec_stored_key_count() <= old(a).spec_stored_key_count(),
        old(a).spec_stored_key_count() <= final(a).spec_stored_key_count() + 1,
        r is Err ==> final(a).spec_one_time_key_count() == old(a).spec_one_time_key_count(),
        r is Err ==> final(a).spec_stored_key_count() == old(a).spec_stored_key_count(),
        final(a).spec_has_unpublished_fallback() == old(a).spec_has_unpublished_fallback(),
        final(a).spec_ed25519_b64() == old(a).spec_ed25519_b64(),
        final(a).spec_curve25519_b64() == old(a).spec_curve25519_b64(),
{
    let result = a.inner.create_inbound_session(identity_key, message);
    a.otk_count = a.inner.one_time_keys().len();
    a.total_key_count = a.inner.stored_one_time_key_count();
    match result {
        Ok(res) => Ok((res.session, res.plaintext)),
        Err(e) => Err(e),
    }
}

/// Relies on the variants of `vodozemac::olm::SessionCreationError`: an
/// unknown or already consumed one-time key, a mismatched identity key,
/// or a failure to decrypt the embedded ciphertext.
#[verifier::external_body]
fn classify_session_creation_error(e: vodozemac::olm::SessionCreationError) -> (r: CryptoError)
    ensures
        r == CryptoError::UnknownOrConsumedKey || r == CryptoError::KeyMismatch || r
            == CryptoError::AuthenticationFailure || r == CryptoError::MalformedInput || r
            == CryptoError::IndexOutOfBound,
{
    match e {
        vodozemac::olm::SessionCreationError::MissingOneTimeKey(_) => {
            CryptoError::UnknownOrConsumedKey
        },
        vodozemac::olm::SessionCreationError::MismatchedIdentityKey(_, _) => {
            CryptoError::KeyMismatch
        },
        vodozemac::olm::SessionCreationError::Decryption(d) => classify_olm_decryption_error(d),
    }
}

/// Relies on `vodozemac::olm::Account::pickle` and
/// `vodozemac::olm::AccountPickle::encrypt`: serializes the account state
/// and encrypts it with the 32-byte key.
#[verifier::external_body]
fn account_pickle_encrypt(inner: &RemoteOlmAccount, key: &[u8]) -> (r: String)
    requires
        key@.len() == 32,
    ensures
        account_pickle_wf(r@, key@),
{
    let key: &[u8; 32] = key.try_into().unwrap();
    inner.pickle().encrypt(key)
}

/// Relies on `vodozemac::olm::AccountPickle::from_encrypted` and
/// `vodozemac::olm::Account::from_pickle`: decrypts and deserializes a
/// pickled account, failing on a wrong key or corrupted data.
#[verifier::external_body]
fn account_from_pickle_encrypted(pickle: &str, key: &[u8]) -> (r: Result<
    RemoteOlmAccount,
    CryptoError,
>)
    requires
        key@.len() == 32,
    ensures
        r is Ok <==> account_pickle_wf(pickle@, key@),
        r matches Err(e) ==> e == CryptoError::InvalidPickleKeyOrData,
{
    let key: &[u8; 32] = key.try_into().unwrap();
    match vodozemac::olm::AccountPickle::from_encrypted(pickle, key) {
        Ok(p) => Ok(RemoteOlmAccount::from_pickle(p)),
        Err(_e) => Err(CryptoError::InvalidPickleKeyOrData),
    }
}

/// Relies on `vodozemac::olm::Account::from_libolm_pickle`: reads the
/// legacy interoperability pickle format; a missing or unsupported format
/// version is reported apart from decryption or decoding failures.
#[verifier::external_body]
fn account_from_libolm(pickle: &str, key: &[u8]) -> (r: Result<RemoteOlmAccount, CryptoError>)
    ensures
        r is Ok <==> account_libolm_pickle_wf(pickle@, key@),
        r matches Err(e) ==> e == CryptoError::UnsupportedFormatVersion || e
            == CryptoError::InvalidPickleKeyOrData,
{
    match RemoteOlmAccount::from_libolm_pickle(pickle, key) {
        Ok(a) => Ok(a),
        Err(vodozemac::LibolmPickleError::MissingVersion) => Err(
            CryptoError::UnsupportedFormatVersion,
        ),
        Err(vodozemac::LibolmPickleError::Version(_, _)) => Err(
            CryptoError::UnsupportedFormatVersion,
        ),
        Err(_e) => Err(CryptoError::InvalidPickleKeyOrData),
    }
}

/// A long-term identity: one Ed25519 signing key and one Curve25519
/// Diffie-Hellman key, created once and immutable for the account's
/// lifetime, together with the one-time and fallback key stores.
pub struct Account {
    inner: RemoteOlmAccount,
    otk_count: usize,
    total_key_count: usize,
    has_fallback: bool,
    ed25519_b64: String,
    curve25519_b64: String,
}

impl Account {
    /// The number of currently unpublished one-time keys, mirroring the
    /// unpublished view of the inner store: zero for a fresh account,
    /// read back whenever an account is restored from a pickle, and
    /// updated alongside every store mutation.
    pub closed spec fn spec_one_time_key_count(self) -> usize {
        self.otk_count
    }

    /// The number of private one-time keys held in the inner store,
    /// published or not, mirrored in the same way.
    pub closed spec fn spec_stored_key_count(self) -> usize {
        self.total_key_count
    }

    /// Whether an unpublished fallback key exists, mirrored in the same
    /// way.
    pub closed spec fn spec_has_unpublished_fallback(self) -> bool {
        self.has_fallback
    }

    /// The base64 form of the Ed25519 identity key, fixed at creation
    /// and immutable for the account's lifetime.
    pub closed spec fn spec_ed25519_b64(self) -> Seq<char> {
        self.ed25519_b64@
    }

    /// The base64 form of the Curve25519 identity key, fixed at creation
    /// and immutable for the account's lifetime.
    pub closed spec fn spec_curve25519_b64(self) -> Seq<char> {
        self.curve25519_b64@
    }

    /// Create a fresh account with new random identity keys and empty
    /// key sets: no one-time keys, no fallback key.
    pub fn new() -> (r: Account)
        ensures
            r.spec_one_time_key_count() == 0,
            r.spec_stored_key_count() == 0,
            !r.spec_has_unpublished_fallback(),
            r.spec_ed25519_b64().len() == 43,
            r.spec_curve25519_b64().len() == 43,
            curve25519_b64_wf(r.spec_curve25519_b64()),
    {
        let inner = account_new();
        let ed25519_b64 = ed25519_key_b64(&inner);
        let curve25519_b64 = curve25519_key_b64(&inner);
        Account {
            inner,
            otk_count: 0,
            total_key_count: 0,
            has_fallback: false,
            ed25519_b64,
            curve25519_b64,
        }
    }

    /// Both public identity keys, in unpadded base64 form; the same two
    /// strings as [`Self::ed25519_key`] and [`Self::curve25519_key`], on
    /// every call.
    pub fn identity_keys(&self) -> (r: IdentityKeys)
        ensures
            r.ed25519@ == self.spec_ed25519_b64(),
            r.curve25519@ == self.spec_curve25519_b64(),
    {
        IdentityKeys {
            ed25519: self.ed25519_b64.clone(),
            curve25519: self.curve25519_b64.clone(),
        }
    }

    /// The public Ed25519 signing key, in unpadded base64 form; the same
    /// string on every call.
    pub fn ed25519_key(&self) -> (r: String)
        ensures
            r@ == self.spec_ed25519_b64(),
    {
        self.ed25519_b64.clone()
    }

    /// The public Curve25519 Diffie-Hellman key, in unpadded base64
    /// form; the same string on every call.
    pub fn curve25519_key(&self) -> (r: String)
        ensures
            r@ == self.spec_curve25519_b64(),
    {
        self.curve25519_b64.clone()
    }

    /// Sign the raw bytes of the message with the account's Ed25519 key;
    /// the signature is deterministic and 86 base64 characters long.
    pub fn sign(&self, message: &str) -> (r: String)
        ensures
            r@.len() == 86,
    {
        sign_b64(&self.inner, message)
    }

    /// The fixed number of one-time keys a caller should keep published.
    pub fn max_number_of_one_time_keys(&self) -> (r: u32)
        ensures
            r == MAX_PUBLISHED_ONE_TIME_KEYS,
    {
        MAX_PUBLISHED_ONE_TIME_KEYS
    }

    /// The currently unpublished one-time keys, as (key id, public key)
    /// base64 pairs in no particular order; one pair per unpublished
    /// key, so a fresh account lists none.
    pub fn one_time_keys(&self) -> (r: Vec<(String, String)>)
        ensures
            r@.len() == self.spec_one_time_key_count(),
            forall|i: int| 0 <= i < r@.len() ==> curve25519_b64_wf(#[trigger] r@[i].1@),
    {
        one_time_keys_b64(self)
    }

    /// Add `count` freshly generated one-time key pairs to the active
    /// set. While the store stays within its capacity the addition is
    /// exact and existing unpublished keys are kept; beyond the capacity
    /// the store evicts its oldest keys. The fallback and identity keys
    /// are untouched.
    pub fn generate_one_time_keys(&mut self, count: u32)
        ensures
            old(self).spec_stored_key_count() + count <= MAX_STORED_ONE_TIME_KEYS ==> final(self).spec_one_time_key_count() == old(self).spec_one_time_key_count() + count,
            old(self).spec_stored_key_count() + count <= MAX_STORED_ONE_TIME_KEYS ==> final(self).spec_stored_key_count() == old(self).spec_stored_key_count() + count,
            final(self).spec_has_unpublished_fallback() == old(self).spec_has_unpublished_fallback(),
            final(self).spec_ed25519_b64() == old(self).spec_ed25519_b64(),
            final(self).spec_curve25519_b64() == old(self).spec_curve25519_b64(),
    {
        generate_one_time_keys_inner(self, count as usize);
    }

    /// The currently unpublished fallback key as at most one (key id,
    /// public key) base64 pair: exactly one after a rotation, none for a
    /// fresh account or after publishing.
    pub fn fallback_key(&self) -> (r: Vec<(String, String)>)
        ensures
            r@.len() == (if self.spec_has_unpublished_fallback() {
                1int
            } else {
                0int
            }),
            r@.len() <= 1,
    {
        fallback_key_b64(self)
    }

    /// Rotate the fallback key, leaving an unpublished fallback key in
    /// place. The previous fallback key stays valid until the next
    /// rotation, so in-flight messages that used it can still be
    /// decrypted; the one-time and identity keys are untouched.
    pub fn generate_fallback_key(&mut self)
        ensures
            final(self).spec_has_unpublished_fallback(),
            final(self).spec_one_time_key_count() == old(self).spec_one_time_key_count(),
            final(self).spec_stored_key_count() == old(self).spec_stored_key_count(),
            final(self).spec_ed25519_b64() == old(self).spec_ed25519_b64(),
            final(self).spec_curve25519_b64() == old(self).spec_curve25519_b64(),
    {
        generate_fallback_key_inner(self);
    }

    /// Mark all currently unpublished one-time and fallback keys as
    /// published: both publish views are empty afterwards, while the
    /// keys stay stored and usable for inbound-session creation until
    /// consumed.
    pub fn mark_keys_as_published(&mut self)
        ensures
            final(self).spec_one_time_key_count() == 0,
            !final(self).spec_has_unpublished_fallback(),
            final(self).spec_stored_key_count() == old(self).spec_stored_key_count(),
            final(self).spec_ed25519_b64() == old(self).spec_ed25519_b64(),
            final(self).spec_curve25519_b64() == old(self).spec_curve25519_b64(),
    {
        mark_keys_as_published_inner(self);
    }

    /// Create an outbound session towards the holder of the given
    /// identity key, consuming (remotely) the given one-time key.
    ///
    /// Succeeds exactly when both keys are well-formed base64 Curve25519
    /// keys; the account itself is not mutated.
    pub fn create_outbound_session(
        &self,
        config: &SessionConfig,
        identity_key: &str,
        one_time_key: &str,
    ) -> (r: Result<Session, CryptoError>)
        ensures
            r is Ok <==> curve25519_b64_wf(identity_key@) && curve25519_b64_wf(one_time_key@),
            r matches Err(e) ==> e == CryptoError::MalformedInput,
            r matches Ok(s) ==> !s.spec_has_received_message() && s.spec_session_id().len() == 43,
    {
        let ik = match curve25519_from_base64(identity_key) {
            Ok(k) => k,
            Err(e) => {
                return Err(e);
            },
        };
        let otk = match curve25519_from_base64(one_time_key) {
            Ok(k) => k,
            Err(e) => {
                return Err(e);
            },
        };
        let v2 = config.version() == 2;
        let inner = create_outbound_inner(&self.inner, v2, ik, otk);
        let session_id_b64 = session_id_inner(&inner);
        Ok(Session { inner, received: false, session_id_b64 })
    }

    /// Consume an inbound pre-key message: recompute the shared secret
    /// from the embedded handshake material, decrypt the embedded
    /// ciphertext, and consume the referenced local one-time key, all
    /// atomically.
    ///
    /// A malformed identity key, a message that is not pre-key-tagged, or
    /// an undecodable frame is bad input; a pre-key message naming an
    /// unknown or already consumed one-time key fails without re-deriving
    /// a session.
    pub fn create_inbound_session(&mut self, identity_key: &str, message: &OlmMessage) -> (r:
        Result<InboundCreationResult, CryptoError>)
        ensures
            !curve25519_b64_wf(identity_key@) ==> (r matches Err(e) && e
                == CryptoError::MalformedInput),
            message.message_type != 0 ==> (r matches Err(e) && e == CryptoError::MalformedInput),
            r matches Err(e) ==> e == CryptoError::MalformedInput || e == CryptoError::KeyMismatch
                || e == CryptoError::UnknownOrConsumedKey || e == CryptoError::AuthenticationFailure
                || e == CryptoError::IndexOutOfBound,
            r matches Ok(res) ==> res.session.spec_has_received_message()
                && res.session.spec_session_id().len() == 43,
            !olm_frame_wf(message.message_type, message.ciphertext@) ==> (r matches Err(e) && e
                == CryptoError::MalformedInput),
            final(self).spec_one_time_key_count() <= old(self).spec_one_time_key_count(),
            old(self).spec_one_time_key_count() <= final(self).spec_one_time_key_count() + 1,
            r is Err ==> final(self).spec_one_time_key_count() == old(self).spec_one_time_key_count(),
            final(self).spec_has_unpublished_fallback() == old(self).spec_has_unpublished_fallback(),
            final(self).spec_ed25519_b64() == old(self).spec_ed25519_b64(),
            final(self).spec_curve25519_b64() == old(self).spec_curve25519_b64(),
    {
        let ik = match curve25519_from_base64(identity_key) {
            Ok(k) => k,
            Err(e) => {
                return Err(e);
            },
        };
        let parsed = match parse_olm_message(message.message_type, message.ciphertext.as_str()) {
            Ok(p) => p,
            Err(e) => {
                return Err(e);
            },
        };
        match parsed {
            ParsedOlmMessage::PreKey(m) => {
                match create_inbound_inner(self, ik, &m) {
                    Ok((session, plaintext_bytes)) => {
                        let plaintext = string_from_utf8_lossy(plaintext_bytes.as_slice());
                        let session_id_b64 = session_id_inner(&session);
                        Ok(
                            InboundCreationResult {
                                session: Session { inner: session, received: true, session_id_b64 },
                                plaintext,
                            },
                        )
                    },
                    Err(e) => Err(classify_session_creation_error(e)),
                }
            },
            ParsedOlmMessage::Normal(_) => Err(CryptoError::MalformedInput),
        }
    }

    /// Serialize and encrypt the full account state with the given
    /// 32-byte key, returning the versioned pickle blob.
    pub fn pickle(&self, pickle_key: &str) -> (r: Result<String, CryptoError>)
        ensures
            r is Err <==> pickle_key.spec_bytes().len() != PICKLE_KEY_LENGTH,
            r matches Err(e) ==> e == CryptoError::MalformedInput,
            r matches Ok(blob) ==> account_pickle_wf(blob@, pickle_key.spec_bytes()),
    {
        let key_bytes = pickle_key.as_bytes();
        if key_bytes.len() != PICKLE_KEY_LENGTH {
            Err(CryptoError::MalformedInput)
        } else {
            Ok(account_pickle_encrypt(&self.inner, key_bytes))
        }
    }

    /// Decrypt and deserialize a pickled account.
    ///
    /// A pickle key of the wrong length is bad input; a key that does not
    /// decrypt the blob, or a corrupted blob, is an invalid pickle.
    pub fn from_pickle(pickle: &str, pickle_key: &str) -> (r: Result<Account, CryptoError>)
        ensures
            pickle_key.spec_bytes().len() != PICKLE_KEY_LENGTH ==> (r matches Err(e) && e
                == CryptoError::MalformedInput),
            pickle_key.spec_bytes().len() == PICKLE_KEY_LENGTH ==> (r is Ok <==> account_pickle_wf(
                pickle@,
                pickle_key.spec_bytes(),
            )),
            r matches Err(e) ==> e == CryptoError::MalformedInput || e
                == CryptoError::InvalidPickleKeyOrData,
            pickle_key.spec_bytes().len() == PICKLE_KEY_LENGTH ==> (r matches Err(e) ==> e
                == CryptoError::InvalidPickleKeyOrData),
            r matches Ok(a) ==> a.spec_ed25519_b64().len() == 43 && a.spec_curve25519_b64().len()
                == 43 && curve25519_b64_wf(a.spec_curve25519_b64()),
    {
        let key_bytes = pickle_key.as_bytes();
        if key_bytes.len() != PICKLE_KEY_LENGTH {
            Err(CryptoError::MalformedInput)
        } else {
            match account_from_pickle_encrypted(pickle, key_bytes) {
                Ok(inner) => Ok(Account::wrap(inner)),
                Err(e) => Err(e),
            }
        }
    }

    /// Read an account from the legacy interoperability pickle format.
    /// Writing that format is not supported.
    pub fn from_libolm_pickle(pickle: &str, pickle_key: &str) -> (r: Result<Account, CryptoError>)
        ensures
            r is Ok <==> account_libolm_pickle_wf(pickle@, pickle_key.spec_bytes()),
            r matches Err(e) ==> e == CryptoError::UnsupportedFormatVersion || e
                == CryptoError::InvalidPickleKeyOrData,
            r matches Ok(a) ==> a.spec_ed25519_b64().len() == 43 && a.spec_curve25519_b64().len()
                == 43 && curve25519_b64_wf(a.spec_curve25519_b64()),
    {
        match account_from_libolm(pickle, pickle_key.as_bytes()) {
            Ok(inner) => Ok(Account::wrap(inner)),
            Err(e) => Err(e),
        }
    }

    /// Rebuild an `Account` around a restored inner value, reading every
    /// mirror field back from the store.
    fn wrap(inner: RemoteOlmAccount) -> (r: Account)
        ensures
            r.spec_ed25519_b64().len() == 43,
            r.spec_curve25519_b64().len() == 43,
            curve25519_b64_wf(r.spec_curve25519_b64()),
    {
        let otk_count = unpublished_count_inner(&inner);
        let total_key_count = stored_count_inner(&inner);
        let fallback_count = fallback_count_inner(&inner);
        let ed25519_b64 = ed25519_key_b64(&inner);
        let curve25519_b64 = curve25519_key_b64(&inner);
        Account {
            inner,
            otk_count,
            total_key_count,
            has_fallback: fallback_count != 0,
            ed25519_b64,
            curve25519_b64,
        }
    }
}

} // verus!
