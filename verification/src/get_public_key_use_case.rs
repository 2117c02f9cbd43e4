//! Sharing the service's public key with a client.

use vstd::prelude::*;
use vstd::string::StringExecFns;

use crate::cryptography_service::{CryptographyService, CryptographyServiceError};

verus! {

pub struct GetPublicKeyResponseModel {
    pub public_key: Vec<u8>,
}

/// Why a public-key query failed.
#[derive(Debug)]
pub enum GetPublicKeyError {
    CryptographyServiceError(String),
}

impl GetPublicKeyError {
    /// The rendered error text: a fixed prefix, then the detail.
    pub open spec fn spec_message(&self) -> Seq<char> {
        match self {
            GetPublicKeyError::CryptographyServiceError(d) => {
                "Unable to get public key from Cryptography Service. "@ + d@
            },
        }
    }

    /// Renders the error text.
    pub fn message(&self) -> (r: String)
        ensures
            r@ == self.spec_message(),
    {
        match self {
            GetPublicKeyError::CryptographyServiceError(d) => String::from_str(
                "Unable to get public key from Cryptography Service. ",
            ).concat(d.as_str()),
        }
    }
}

pub struct GetPublicKeyUseCase<'a, C: CryptographyService> {
    cryptography_service: &'a C,
}

impl<'a, C: CryptographyService> GetPublicKeyUseCase<'a, C> {
    /// The service this use case consults.
    pub closed spec fn spec_service(&self) -> &'a C {
        self.cryptography_service
    }

    pub fn new(cryptography_service: &'a C) -> (r: Self)
        ensures
            r.spec_service() == cryptography_service,
    {
        GetPublicKeyUseCase { cryptography_service }
    }

    /// Asks the service for its public key: a key the service permits
    /// comes back unchanged in the response model, and a permitted service
    /// error keeps its rendered text as the detail.
    pub fn interact(&self) -> (r: Result<GetPublicKeyResponseModel, GetPublicKeyError>)
        ensures
            match r {
                Ok(resp) => self.spec_service().public_key_post(
                    Result::Ok(resp.public_key),
                ),
                Err(e) => (exists|err: CryptographyServiceError|
                    {
                        &&& #[trigger] self.spec_service().public_key_post(
                            Result::Err(err),
                        )
                        &&& e matches GetPublicKeyError::CryptographyServiceError(d)
                        &&& d@ == err.spec_message()
                    }),
            },
    {
        match self.cryptography_service.share_public_key() {
            Result::Ok(public_key) => Result::Ok(GetPublicKeyResponseModel { public_key }),
            Result::Err(service_error) => {
                let ghost failure = service_error;
                let detail = service_error.message();
                proof {
                    assert(self.spec_service().public_key_post(Result::Err(failure)));
                }
                Result::Err(GetPublicKeyError::CryptographyServiceError(detail))
            },
        }
    }
}

} // verus!
