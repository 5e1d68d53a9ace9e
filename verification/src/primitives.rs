//! Declarations of the primitive-library types that flow through the
//! session logic, and the trusted wrappers that are shared between
//! components.
//!
//! Every item in this module either declares an opaque outside type or
//! wraps exactly the outside calls its doc comment names; Verus believes
//! the stated contracts without reading the bodies.
use vstd::prelude::*;

use crate::CryptoError;

verus! {

#[verifier::external_type_specification]
#[verifier::external_body]
pub struct ExCurve25519PublicKey(vodozemac::Curve25519PublicKey);

/// Whether a string is the unpadded (or padded) base64 form of a valid
/// 32-byte Curve25519 public key, as `Curve25519PublicKey::from_base64`
/// accepts it. The outcome is a function of the string alone.
pub uninterp spec fn curve25519_b64_wf(s: Seq<char>) -> bool;

/// Relies on `vodozemac::Curve25519PublicKey::from_base64`: decodes a
/// base64 public key, failing exactly on strings that do not encode a
/// 32-byte key.
#[verifier::external_body]
pub(crate) fn curve25519_from_base64(s: &str) -> (r: Result<
    vodozemac::Curve25519PublicKey,
    CryptoError,
>)
    ensures
        r is Ok <==> curve25519_b64_wf(s@),
        r matches Err(e) ==> e == CryptoError::MalformedInput,
{
    match vodozemac::Curve25519PublicKey::from_base64(s) {
        Ok(key) => Ok(key),
        Err(_e) => Err(CryptoError::MalformedInput),
    }
}

/// Relies on `String::from_utf8`: on success the returned string consists
/// of exactly the given bytes.
#[verifier::external_body]
pub(crate) fn string_from_utf8(bytes: Vec<u8>) -> (r: Result<String, CryptoError>)
    ensures
        r matches Ok(s) ==> vstd::utf8::encode_utf8(s@) == bytes@,
        r matches Err(e) ==> e == CryptoError::MalformedInput,
{
    match String::from_utf8(bytes) {
        Ok(s) => Ok(s),
        Err(_e) => Err(CryptoError::MalformedInput),
    }
}

/// The string `String::from_utf8_lossy` decodes the given bytes to:
/// valid UTF-8 read as it stands, invalid sequences replaced. The
/// outcome is a function of the bytes alone.
pub uninterp spec fn utf8_lossy_of(b: Seq<u8>) -> Seq<char>;

/// Relies on `String::from_utf8_lossy`: decodes the bytes as UTF-8,
/// replacing invalid sequences, so the call never fails.
#[verifier::external_body]
pub(crate) fn string_from_utf8_lossy(bytes: &[u8]) -> (r: String)
    ensures
        r@ == utf8_lossy_of(bytes@),
{
    String::from_utf8_lossy(bytes).into_owned()
}

} // verus!
