//! Decrypting a ciphertext for a client.

use vstd::prelude::*;
use vstd::string::StringExecFns;
use vstd::utf8::{decode_utf8, encode_utf8, valid_utf8};

use crate::crypto::utf8_to_string;
use crate::cryptography_service::{CryptographyService, CryptographyServiceError};

verus! {

pub struct DecryptMessageRequestModel {
    pub message: Vec<u8>,
}

pub struct DecryptMessageResponseModel {
    pub decrypted_message: String,
}

/// Why a decrypt interaction failed.
#[derive(Debug)]
pub enum DecryptMessageError {
    CryptographyServiceError(String),
    BrokenEncryptionError(String),
}

impl DecryptMessageError {
    /// The rendered error text: a fixed prefix per variant, then the detail.
    pub open spec fn spec_message(&self) -> Seq<char> {
        match self {
            DecryptMessageError::CryptographyServiceError(d) => {
                "Unable to decrypt message from Cryptography Service. "@ + d@
            },
            DecryptMessageError::BrokenEncryptionError(d) => {
                "Invalid or broken message encryption. "@ + d@
            },
        }
    }

    /// Renders the error text.
    pub fn message(&self) -> (r: String)
        ensures
            r@ == self.spec_message(),
    {
        match self {
            DecryptMessageError::CryptographyServiceError(d) => String::from_str(
                "Unable to decrypt message from Cryptography Service. ",
            ).concat(d.as_str()),
            DecryptMessageError::BrokenEncryptionError(d) => String::from_str(
                "Invalid or broken message encryption. ",
            ).concat(d.as_str()),
        }
    }
}

/// Turns the plaintext bytes a cryptography service returned into the
/// response: succeeds exactly on valid UTF-8, decoding to the characters
/// of those bytes.
pub fn decode_decrypted_bytes(decrypted_message: Vec<u8>) -> (r: Result<
    DecryptMessageResponseModel,
    DecryptMessageError,
>)
    ensures
        valid_utf8(decrypted_message@) ==> (r matches Ok(resp) && resp.decrypted_message@
            == decode_utf8(decrypted_message@)),
        !valid_utf8(decrypted_message@) ==> (r matches Err(e) && e is BrokenEncryptionError),
{
    match utf8_to_string(decrypted_message) {
        Option::Some(s) => Result::Ok(DecryptMessageResponseModel { decrypted_message: s }),
        Option::None => Result::Err(
            DecryptMessageError::BrokenEncryptionError(
                String::from_str("decrypted bytes are not valid utf-8"),
            ),
        ),
    }
}

/// A message's UTF-8 bytes decode back to the message: the byte pipeline
/// around the cryptographic primitive preserves any UTF-8 plaintext, so a
/// decryption that returns the encrypted bytes unchanged yields the
/// original message.
pub proof fn lemma_plaintext_byte_round_trip(message: Seq<char>)
    ensures
        valid_utf8(encode_utf8(message)),
        decode_utf8(encode_utf8(message)) == message,
{
    vstd::utf8::encode_utf8_valid_utf8(message);
    vstd::utf8::encode_utf8_decode_utf8(message);
}

pub struct DecryptMessageUseCase<'a, C: CryptographyService> {
    cryptography_service: &'a C,
}

impl<'a, C: CryptographyService> DecryptMessageUseCase<'a, C> {
    /// The service this use case consults.
    pub closed spec fn spec_service(&self) -> &'a C {
        self.cryptography_service
    }

    pub fn new(cryptography_service: &'a C) -> (r: Self)
        ensures
            r.spec_service() == cryptography_service,
    {
        DecryptMessageUseCase { cryptography_service }
    }

    /// Asks the service to decrypt, then decodes the plaintext bytes as
    /// UTF-8: the response is the decoding of some plaintext the service
    /// permits for these bytes, a permitted non-UTF-8 plaintext is a
    /// broken encryption, and a permitted service error keeps its rendered
    /// text as the detail.
    pub fn interact(&self, request_model: DecryptMessageRequestModel) -> (r: Result<
        DecryptMessageResponseModel,
        DecryptMessageError,
    >)
        ensures
            match r {
                Ok(resp) => (exists|b: Vec<u8>|
                    {
                        &&& #[trigger] self.spec_service().decrypt_post(
                            request_model.message@,
                            Result::Ok(b),
                        )
                        &&& valid_utf8(b@)
                        &&& resp.decrypted_message@ == decode_utf8(b@)
                    }),
                Err(e) => {
                    ||| (exists|b: Vec<u8>|
                        {
                            &&& #[trigger] self.spec_service().decrypt_post(
                                request_model.message@,
                                Result::Ok(b),
                            )
                            &&& !valid_utf8(b@)
                            &&& e is BrokenEncryptionError
                        })
                    ||| (exists|err: CryptographyServiceError|
                        {
                            &&& #[trigger] self.spec_service().decrypt_post(
                                request_model.message@,
                                Result::Err(err),
                            )
                            &&& e matches DecryptMessageError::CryptographyServiceError(d)
                            &&& d@ == err.spec_message()
                        })
                },
            },
    {
        let ghost message_view = request_model.message@;
        match self.cryptography_service.decrypt_message(request_model.message) {
            Result::Ok(bytes) => {
                let ghost plaintext = bytes;
                let mapped = decode_decrypted_bytes(bytes);
                proof {
                    assert(self.spec_service().decrypt_post(
                        message_view,
                        Result::Ok(plaintext),
                    ));
                }
                mapped
            },
            Result::Err(service_error) => {
                let ghost failure = service_error;
                let detail = service_error.message();
                proof {
                    assert(self.spec_service().decrypt_post(
                        message_view,
                        Result::Err(failure),
                    ));
                }
                Result::Err(DecryptMessageError::CryptographyServiceError(detail))
            },
        }
    }
}

} // verus!
