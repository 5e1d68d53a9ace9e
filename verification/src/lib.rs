//! Core session machinery for an end-to-end-encrypted messaging protocol
//! family: a long-term identity account, pairwise double-ratchet ("Olm")
//! sessions, group ratchet ("Megolm") sessions, and a short-authentication
//! -string (SAS) verification handshake.
//!
//! The underlying cryptographic primitives (Ed25519, X25519, AES-based
//! authenticated encryption, HKDF, base64) are supplied by the `vodozemac`
//! crate and are consumed, not re-implemented; every call into it goes
//! through a small trusted wrapper whose contract records what the call is
//! relied upon for.
use vstd::prelude::*;

pub mod account;
pub mod group_sessions;
pub mod primitives;
pub mod sas;
pub mod session;

verus! {

/// The error taxonomy of the library.
///
/// Every fallible operation surfaces one of these inspectable values;
/// cryptographic verification failures are terminal for the call and are
/// never coerced to a default result.
#[derive(Clone, Copy, Debug, PartialEq, Eq, Structural)]
pub enum CryptoError {
    /// Bad base64, a bad frame, an unknown message tag, or a wrong length.
    MalformedInput,
    /// The key material embedded in a message does not match the expected
    /// identity or session keys, or a key was degenerate.
    KeyMismatch,
    /// A MAC or signature check failed.
    AuthenticationFailure,
    /// A Megolm message index before the first known index, or an Olm chain
    /// gap beyond the bounded message-key cache.
    IndexOutOfBound,
    /// A one-time key that is not known or was already consumed.
    UnknownOrConsumedKey,
    /// A pickle or message format version that this library does not read.
    UnsupportedFormatVersion,
    /// A pickle that could not be decrypted or deserialized with the given
    /// key: the key is wrong or the data is corrupted.
    InvalidPickleKeyOrData,
}

/// The number of bytes a pickle key must have.
pub const PICKLE_KEY_LENGTH: usize = 32;

/// Version tag for the protocol variant a session should use.
///
/// Version 1 encrypts individual messages with AES-256 and authenticates
/// them with a MAC truncated to 8 bytes; version 2 keeps the full-length
/// MAC.
pub struct SessionConfig {
    version: u8,
}

impl SessionConfig {
    /// The version tag this configuration stands for.
    pub closed spec fn spec_version(self) -> u8 {
        self.version
    }

    /// The numeric version of this `SessionConfig`.
    pub fn version(&self) -> (v: u8)
        ensures
            v == self.spec_version(),
    {
        self.version
    }

    /// A `SessionConfig` for version 1 (truncated MAC).
    pub fn version_1() -> (c: SessionConfig)
        ensures
            c.spec_version() == 1,
    {
        SessionConfig { version: 1 }
    }

    /// A `SessionConfig` for version 2 (full-length MAC).
    pub fn version_2() -> (c: SessionConfig)
        ensures
            c.spec_version() == 2,
    {
        SessionConfig { version: 2 }
    }
}

/// An Olm message in wire form: a numeric type tag together with a base64
/// ciphertext frame.
///
/// Tag 0 marks a pre-key message, which embeds the handshake material a
/// recipient needs to build the matching inbound session; tag 1 marks a
/// normal message. Any other tag is rejected at decode time.
pub struct OlmMessage {
    /// The message type tag: 0 for pre-key, 1 for normal.
    pub message_type: u32,
    /// The base64-encoded ciphertext frame.
    pub ciphertext: String,
}

impl OlmMessage {
    /// Wrap a type tag and a base64 ciphertext into an `OlmMessage`.
    pub fn new(message_type: u32, ciphertext: String) -> (m: OlmMessage)
        ensures
            m.message_type == message_type,
            m.ciphertext@ == ciphertext@,
    {
        OlmMessage { message_type, ciphertext }
    }
}

} // verus!
