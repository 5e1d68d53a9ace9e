//! Short-authentication-string (SAS) key verification: an ephemeral
//! Diffie-Hellman handshake followed by human-comparable output and
//! MAC-based confirmation.
//!
//! The conversions from the six shared-secret bytes to the seven emoji
//! indices and the three decimal groups are pure bit arithmetic, written
//! here and proved against their specification rather than taken on
//! trust.
use vstd::prelude::*;

use vodozemac::sas::EstablishedSas as RemoteEstablishedSas;
use vodozemac::sas::Sas as RemoteSas;

use crate::primitives::curve25519_b64_wf;
use crate::CryptoError;

verus! {

#[verifier::external_type_specification]
#[verifier::external_body]
pub struct ExSas(RemoteSas);

#[verifier::external_type_specification]
#[verifier::external_body]
pub struct ExEstablishedSas(RemoteEstablishedSas);

#[verifier::external_type_specification]
#[verifier::external_body]
pub struct ExSasMac(vodozemac::sas::Mac);

/// Whether a string is valid unpadded base64, as
/// `vodozemac::sas::Mac::from_base64` accepts it. The outcome is a
/// function of the string alone.
pub uninterp spec fn base64_wf(s: Seq<char>) -> bool;

/// Relies on `vodozemac::sas::Sas::new`: a fresh ephemeral Curve25519
/// key pair for one verification ceremony.
#[verifier::external_body]
fn sas_new_inner() -> RemoteSas {
    RemoteSas::new()
}

/// Relies on `vodozemac::sas::Sas::public_key` and
/// `vodozemac::Curve25519PublicKey::to_base64`: the unpadded base64 form
/// of the 32-byte ephemeral public key, 43 characters; it decodes back
/// through `vodozemac::Curve25519PublicKey::from_base64`.
#[verifier::external_body]
fn sas_public_key_b64(inner: &RemoteSas) -> (r: String)
    ensures
        r@.len() == 43,
        curve25519_b64_wf(r@),
{
    inner.public_key().to_base64()
}

/// Relies on `vodozemac::sas::Sas::diffie_hellman_with_raw`: consumes the
/// ephemeral key pair and establishes the shared secret; a key that is
/// not well-formed base64 fails as bad input, and a degenerate key whose
/// shared secret would be non-contributory fails as a key mismatch.
#[verifier::external_body]
fn sas_dh_raw(inner: RemoteSas, key: &str) -> (r: Result<RemoteEstablishedSas, CryptoError>)
    ensures
        (r matches Err(e) && e == CryptoError::MalformedInput) <==> !curve25519_b64_wf(key@),
        r matches Err(e) ==> e == CryptoError::MalformedInput || e == CryptoError::KeyMismatch,
{
    match inner.diffie_hellman_with_raw(key) {
        Ok(established) => Ok(established),
        Err(vodozemac::KeyError::NonContributoryKey) => Err(CryptoError::KeyMismatch),
        Err(_e) => Err(CryptoError::MalformedInput),
    }
}

/// Relies on `vodozemac::sas::EstablishedSas::bytes` and
/// `vodozemac::sas::SasBytes::as_bytes`: six bytes derived from the
/// shared secret by HKDF under the given info string.
#[verifier::external_body]
fn established_bytes_raw(inner: &RemoteEstablishedSas, info: &str) -> [u8; 6] {
    *inner.bytes(info).as_bytes()
}

/// Relies on `vodozemac::sas::EstablishedSas::calculate_mac` and
/// `vodozemac::sas::Mac::to_base64`: an HMAC-SHA256 tag over the input
/// under the shared secret and info string, 32 bytes, 43 base64
/// characters; the tag decodes back through
/// `vodozemac::sas::Mac::from_base64`.
#[verifier::external_body]
fn calculate_mac_b64(inner: &RemoteEstablishedSas, input: &str, info: &str) -> (r: String)
    ensures
        r@.len() == 43,
        base64_wf(r@),
{
    inner.calculate_mac(input, info).to_base64()
}

/// Relies on `vodozemac::sas::EstablishedSas::calculate_mac_invalid_base64`:
/// the same MAC in the historical, incorrectly encoded form kept only for
/// interoperability.
#[verifier::external_body]
fn calculate_mac_invalid_b64_inner(inner: &RemoteEstablishedSas, input: &str, info: &str) -> String {
    inner.calculate_mac_invalid_base64(input, info)
}

/// Relies on `vodozemac::sas::Mac::from_base64`: decodes a MAC tag,
/// failing exactly on strings that are not valid base64.
#[verifier::external_body]
fn mac_from_b64(s: &str) -> (r: Result<vodozemac::sas::Mac, CryptoError>)
    ensures
        r is Ok <==> base64_wf(s@),
        r matches Err(e) ==> e == CryptoError::MalformedInput,
{
    match vodozemac::sas::Mac::from_base64(s) {
        Ok(mac) => Ok(mac),
        Err(_e) => Err(CryptoError::MalformedInput),
    }
}

/// Relies on `vodozemac::sas::EstablishedSas::verify_mac`: recomputes the
/// MAC over the input under the info string and compares it with the
/// given tag in constant time, failing closed on any difference.
#[verifier::external_body]
fn verify_mac_inner(
    inner: &RemoteEstablishedSas,
    input: &str,
    info: &str,
    tag: &vodozemac::sas::Mac,
) -> (r: Result<(), CryptoError>)
    ensures
        r matches Err(e) ==> e == CryptoError::AuthenticationFailure,
{
    match inner.verify_mac(input, info, tag) {
        Ok(()) => Ok(()),
        Err(_e) => Err(CryptoError::AuthenticationFailure),
    }
}

/// A verification object before the handshake: an ephemeral key pair
/// whose public half is exchanged out of band.
///
/// The `public_key_b64` field mirrors the base64 form of the ephemeral
/// public key: it is read from the primitive library at creation and the
/// inner value never changes afterwards.
pub struct Sas {
    inner: RemoteSas,
    public_key_b64: String,
}

/// A verification object once the shared secret is established; the
/// secret is fixed for the lifetime of the value and never recomputed.
pub struct EstablishedSas {
    inner: RemoteEstablishedSas,
}

/// The six bytes of short-authentication-string material derived from
/// the shared secret for one info string.
pub struct SasBytes {
    bytes: [u8; 6],
}

/// The first 48 bits of the six SAS bytes, as one number; the emoji
/// indices are its 6-bit groups from the top.
pub open spec fn sas_number(b: Seq<u8>) -> u64 {
    ((b[0] as u64) << 40) | ((b[1] as u64) << 32) | ((b[2] as u64) << 24) | ((b[3] as u64) << 16)
        | ((b[4] as u64) << 8) | (b[5] as u64)
}

/// The seven 6-bit emoji indices taken from the top 42 bits of the SAS
/// number.
pub open spec fn spec_emoji_indices(b: Seq<u8>) -> Seq<u8> {
    seq![
        ((sas_number(b) >> 42) & 63) as u8,
        ((sas_number(b) >> 36) & 63) as u8,
        ((sas_number(b) >> 30) & 63) as u8,
        ((sas_number(b) >> 24) & 63) as u8,
        ((sas_number(b) >> 18) & 63) as u8,
        ((sas_number(b) >> 12) & 63) as u8,
        ((sas_number(b) >> 6) & 63) as u8,
    ]
}

/// The three decimal groups: 13-bit slices of the first five SAS bytes,
/// each shifted into the range 1000 to 9191.
pub open spec fn spec_decimals(b: Seq<u8>) -> Seq<u16> {
    seq![
        (((b[0] as u16) << 5 | (b[1] as u16) >> 3) + 1000) as u16,
        ((((b[1] as u16) & 0x7) << 10 | (b[2] as u16) << 2 | (b[3] as u16) >> 6) + 1000) as u16,
        ((((b[3] as u16) & 0x3f) << 7 | (b[4] as u16) >> 1) + 1000) as u16,
    ]
}

impl Sas {
    /// The base64 form of the ephemeral public key, fixed at creation.
    pub closed spec fn spec_public_key_b64(self) -> Seq<char> {
        self.public_key_b64@
    }

    /// Create a fresh ephemeral key pair for one verification ceremony.
    pub fn new() -> (r: Sas)
        ensures
            r.spec_public_key_b64().len() == 43,
            curve25519_b64_wf(r.spec_public_key_b64()),
    {
        let inner = sas_new_inner();
        let public_key_b64 = sas_public_key_b64(&inner);
        Sas { inner, public_key_b64 }
    }

    /// The ephemeral public key to exchange out of band; base64, 43
    /// characters, the same string on every call.
    pub fn public_key(&self) -> (r: String)
        ensures
            r@ == self.spec_public_key_b64(),
    {
        self.public_key_b64.clone()
    }

    /// Establish the shared secret from the peer's base64 public key.
    ///
    /// Consumes this value, so a key pair can be used for exactly one
    /// handshake. A key that is not well-formed base64 is bad input; a
    /// degenerate key is a key mismatch.
    pub fn diffie_hellman(self, key: &str) -> (r: Result<EstablishedSas, CryptoError>)
        ensures
            (r matches Err(e) && e == CryptoError::MalformedInput) <==> !curve25519_b64_wf(key@),
            r matches Err(e) ==> e == CryptoError::MalformedInput || e == CryptoError::KeyMismatch,
    {
        let Sas { inner, public_key_b64: _ } = self;
        match sas_dh_raw(inner, key) {
            Ok(inner) => Ok(EstablishedSas { inner }),
            Err(e) => Err(e),
        }
    }
}

impl EstablishedSas {
    /// Derive the six bytes of verification output for the given info
    /// string; both parties obtain the same bytes for the same info.
    pub fn bytes(&self, info: &str) -> SasBytes {
        SasBytes { bytes: established_bytes_raw(&self.inner, info) }
    }

    /// An HMAC tag over the input under the shared secret and info
    /// string; valid base64, 43 characters, so [`Self::verify_mac`]
    /// never rejects it as bad input.
    pub fn calculate_mac(&self, input: &str, info: &str) -> (r: String)
        ensures
            r@.len() == 43,
            base64_wf(r@),
    {
        calculate_mac_b64(&self.inner, input, info)
    }

    /// The same MAC in the historical, incorrectly encoded form kept
    /// only for interoperability with the legacy library.
    pub fn calculate_mac_invalid_base64(&self, input: &str, info: &str) -> String {
        calculate_mac_invalid_b64_inner(&self.inner, input, info)
    }

    /// Check a peer's MAC tag, failing closed rather than returning a
    /// boolean.
    ///
    /// A tag that is not valid base64 is bad input, exactly then; a
    /// well-formed tag that does not match is an authentication failure.
    pub fn verify_mac(&self, input: &str, info: &str, tag: &str) -> (r: Result<(), CryptoError>)
        ensures
            !base64_wf(tag@) <==> (r matches Err(e) && e == CryptoError::MalformedInput),
            r matches Err(e) ==> e == CryptoError::MalformedInput || e
                == CryptoError::AuthenticationFailure,
    {
        match mac_from_b64(tag) {
            Ok(mac) => verify_mac_inner(&self.inner, input, info, &mac),
            Err(e) => Err(e),
        }
    }
}

proof fn lemma_six_bit_bound(x: u64)
    ensures
        (x & 63) < 64,
{
    assert((x & 63) < 64) by (bit_vector);
}

impl SasBytes {
    /// The six raw SAS bytes.
    pub closed spec fn spec_sas_bytes(self) -> Seq<u8> {
        self.bytes@
    }

    /// Rebuild a `SasBytes` value from its six raw bytes, as obtained
    /// from [`Self::as_bytes`]; fails exactly when the slice is not six
    /// bytes long.
    pub fn from_bytes(bytes: &[u8]) -> (r: Option<SasBytes>)
        ensures
            r is Some <==> bytes@.len() == 6,
            r matches Some(s) ==> s.spec_sas_bytes() == bytes@,
    {
        if bytes.len() != 6 {
            None
        } else {
            let array: [u8; 6] = [bytes[0], bytes[1], bytes[2], bytes[3], bytes[4], bytes[5]];
            proof {
                assert(array@ =~= bytes@);
            }
            Some(SasBytes { bytes: array })
        }
    }

    /// The six raw bytes the verification output is derived from.
    pub fn as_bytes(&self) -> (r: Vec<u8>)
        ensures
            r@ == self.spec_sas_bytes(),
    {
        let r: Vec<u8> = vec![
            self.bytes[0],
            self.bytes[1],
            self.bytes[2],
            self.bytes[3],
            self.bytes[4],
            self.bytes[5],
        ];
        proof {
            assert(r@ =~= self.spec_sas_bytes());
        }
        r
    }

    /// The indices of the seven emojis to show the user: the top 42 bits
    /// of the six bytes, split into 6-bit groups, each below 64.
    pub fn emoji_indices(&self) -> (r: Vec<u8>)
        ensures
            r@ == spec_emoji_indices(self.spec_sas_bytes()),
            r@.len() == 7,
            forall|i: int| 0 <= i < 7 ==> #[trigger] r@[i] < 64,
    {
        let num: u64 = ((self.bytes[0] as u64) << 40) | ((self.bytes[1] as u64) << 32) | ((
        self.bytes[2] as u64) << 24) | ((self.bytes[3] as u64) << 16) | ((self.bytes[4] as u64)
            << 8) | (self.bytes[5] as u64);
        proof {
            lemma_six_bit_bound(num >> 42);
            lemma_six_bit_bound(num >> 36);
            lemma_six_bit_bound(num >> 30);
            lemma_six_bit_bound(num >> 24);
            lemma_six_bit_bound(num >> 18);
            lemma_six_bit_bound(num >> 12);
            lemma_six_bit_bound(num >> 6);
        }
        let r: Vec<u8> = vec![
            ((num >> 42) & 63) as u8,
            ((num >> 36) & 63) as u8,
            ((num >> 30) & 63) as u8,
            ((num >> 24) & 63) as u8,
            ((num >> 18) & 63) as u8,
            ((num >> 12) & 63) as u8,
            ((num >> 6) & 63) as u8,
        ];
        proof {
            assert(r@ =~= spec_emoji_indices(self.spec_sas_bytes()));
        }
        r
    }

    /// The three decimal groups to show the user, each between 1000 and
    /// 9191.
    pub fn decimals(&self) -> (r: Vec<u16>)
        ensures
            r@ == spec_decimals(self.spec_sas_bytes()),
            r@.len() == 3,
            forall|i: int| 0 <= i < 3 ==> 1000 <= #[trigger] r@[i] <= 9191,
    {
        let b0 = self.bytes[0];
        let b1 = self.bytes[1];
        let b2 = self.bytes[2];
        let b3 = self.bytes[3];
        let b4 = self.bytes[4];
        assert(((b0 as u16) << 5 | (b1 as u16) >> 3) <= 8191) by (bit_vector);
        assert((((b1 as u16) & 0x7) << 10 | (b2 as u16) << 2 | (b3 as u16) >> 6) <= 8191)
            by (bit_vector);
        assert((((b3 as u16) & 0x3f) << 7 | (b4 as u16) >> 1) <= 8191) by (bit_vector);
        let first: u16 = ((b0 as u16) << 5 | (b1 as u16) >> 3) + 1000;
        let second: u16 = (((b1 as u16) & 0x7) << 10 | (b2 as u16) << 2 | (b3 as u16) >> 6) + 1000;
        let third: u16 = (((b3 as u16) & 0x3f) << 7 | (b4 as u16) >> 1) + 1000;
        let r: Vec<u16> = vec![first, second, third];
        proof {
            assert(r@ =~= spec_decimals(self.spec_sas_bytes()));
        }
        r
    }
}

} // verus!
