//! Encrypting a client's message.

use vstd::prelude::*;
use vstd::string::StringExecFns;

use crate::cryptography_service::{CryptographyService, CryptographyServiceError};

verus! {

pub struct EncryptMessageRequestModel {
    pub message: String,
}

pub struct EncryptMessageResponseModel {
    pub encrypted_message: Vec<u8>,
}

/// Why an encrypt interaction failed.
#[derive(Debug)]
pub enum EncryptMessageError {
    CryptographyServiceError(String),
    BrokenEncryptionError(String),
}

impl EncryptMessageError {
    /// The rendered error text: a fixed prefix per variant, then the detail.
    pub open spec fn spec_message(&self) -> Seq<char> {
        match self {
            EncryptMessageError::CryptographyServiceError(d) => {
                "Unable to decrypt message from Cryptography Service. "@ + d@
            },
            EncryptMessageError::BrokenEncryptionError(d) => {
                "Invalid or broken message encryption. "@ + d@
            },
        }
    }

    /// Renders the error text.
    pub fn message(&self) -> (r: String)
        ensures
            r@ == self.spec_message(),
    {
        match self {
            EncryptMessageError::CryptographyServiceError(d) => String::from_str(
                "Unable to decrypt message from Cryptography Service. ",
            ).concat(d.as_str()),
            EncryptMessageError::BrokenEncryptionError(d) => String::from_str(
                "Invalid or broken message encryption. ",
            ).concat(d.as_str()),
        }
    }
}

pub struct EncryptMessageUseCase<'a, C: CryptographyService> {
    cryptography_service: &'a C,
}

impl<'a, C: CryptographyService> EncryptMessageUseCase<'a, C> {
    /// The service this use case consults.
    pub closed spec fn spec_service(&self) -> &'a C {
        self.cryptography_service
    }

    pub fn new(cryptography_service: &'a C) -> (r: Self)
        ensures
            r.spec_service() == cryptography_service,
    {
        EncryptMessageUseCase { cryptography_service }
    }

    /// Asks the service to encrypt: a ciphertext the service permits for
    /// this plaintext comes back unchanged in the response model, and a
    /// permitted service error keeps its rendered text as the detail.
    pub fn interact(&self, request_model: EncryptMessageRequestModel) -> (r: Result<
        EncryptMessageResponseModel,
        EncryptMessageError,
    >)
        ensures
            match r {
                Ok(resp) => self.spec_service().encrypt_post(
                    request_model.message@,
                    Result::Ok(resp.encrypted_message),
                ),
                Err(e) => (exists|err: CryptographyServiceError|
                    {
                        &&& #[trigger] self.spec_service().encrypt_post(
                            request_model.message@,
                            Result::Err(err),
                        )
                        &&& e matches EncryptMessageError::CryptographyServiceError(d)
                        &&& d@ == err.spec_message()
                    }),
            },
    {
        let ghost message_view = request_model.message@;
        match self.cryptography_service.encrypt_message(request_model.message) {
            Result::Ok(encrypted_message) => Result::Ok(
                EncryptMessageResponseModel { encrypted_message },
            ),
            Result::Err(service_error) => {
                let ghost failure = service_error;
                let detail = service_error.message();
                proof {
                    assert(self.spec_service().encrypt_post(
                        message_view,
                        Result::Err(failure),
                    ));
                }
                Result::Err(EncryptMessageError::CryptographyServiceError(detail))
            },
        }
    }
}

} // verus!
