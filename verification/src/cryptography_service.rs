//! The capability surface the core presents to its callers.
//!
//! A cryptography service can share its public key, encrypt a message and
//! decrypt a ciphertext. The production implementation coordinates workers
//! through a broker; tests substitute their own implementations.

use vstd::prelude::*;
use vstd::string::StringExecFns;

verus! {

/// Why a cryptography service call failed, with a human-readable detail.
#[derive(Debug)]
pub enum CryptographyServiceError {
    PublicKeySharingError(String),
    DecryptionError(String),
    EncryptionError(String),
}

impl CryptographyServiceError {
    /// The rendered error text: a fixed prefix per variant, then the detail.
    pub open spec fn spec_message(&self) -> Seq<char> {
        match self {
            CryptographyServiceError::PublicKeySharingError(d) => "Unable to share public key. "@
                + d@,
            CryptographyServiceError::DecryptionError(d) => "Unable to decrypt message. "@ + d@,
            CryptographyServiceError::EncryptionError(d) => "Unable to encrypt message. "@ + d@,
        }
    }

    /// Renders the error text.
    pub fn message(&self) -> (r: String)
        ensures
            r@ == self.spec_message(),
    {
        match self {
            CryptographyServiceError::PublicKeySharingError(d) => String::from_str(
                "Unable to share public key. ",
            ).concat(d.as_str()),
            CryptographyServiceError::DecryptionError(d) => String::from_str(
                "Unable to decrypt message. ",
            ).concat(d.as_str()),
            CryptographyServiceError::EncryptionError(d) => String::from_str(
                "Unable to encrypt message. ",
            ).concat(d.as_str()),
        }
    }
}

/// The capability set of a cryptography service. Implementations may sit
/// on a broker or be local substitutes in tests; each says through the
/// three spec functions which results its calls may return, and the use
/// cases' contracts relate their output to a result the service permits.
pub trait CryptographyService {
    /// Which results this service's `share_public_key` may return; any,
    /// unless an implementation narrows it.
    open spec fn public_key_post(&self, r: Result<Vec<u8>, CryptographyServiceError>) -> bool {
        true
    }

    /// Which results this service's `decrypt_message` may return for the
    /// given ciphertext bytes; any, unless an implementation narrows it.
    open spec fn decrypt_post(
        &self,
        message: Seq<u8>,
        r: Result<Vec<u8>, CryptographyServiceError>,
    ) -> bool {
        true
    }

    /// Which results this service's `encrypt_message` may return for the
    /// given plaintext; any, unless an implementation narrows it.
    open spec fn encrypt_post(
        &self,
        message: Seq<char>,
        r: Result<Vec<u8>, CryptographyServiceError>,
    ) -> bool {
        true
    }

    /// The serialized public half of the key set.
    fn share_public_key(&self) -> (r: Result<Vec<u8>, CryptographyServiceError>)
        ensures
            self.public_key_post(r),
    ;

    /// Decrypts a serialized ciphertext into plaintext bytes.
    fn decrypt_message(&self, message: Vec<u8>) -> (r: Result<Vec<u8>, CryptographyServiceError>)
        ensures
            self.decrypt_post(message@, r),
    ;

    /// Encrypts a UTF-8 message into a serialized ciphertext.
    fn encrypt_message(&self, message: String) -> (r: Result<Vec<u8>, CryptographyServiceError>)
        ensures
            self.encrypt_post(message@, r),
    ;
}

} // verus!
