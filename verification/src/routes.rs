//! The HTTP routes' decisions: bodies, envelopes and status codes.
//!
//! The HTTP adapter itself — routing, JSON, the rate-limiter's clock —
//! lives outside the library. What each route decides is here: whether the
//! request passes authorization, how the base64 envelope is opened and
//! sealed, which use case runs, and which status code each outcome gets.
//! The base64 codec itself is trusted to an outside engine.

use base64::Engine;
use vstd::prelude::*;
use vstd::string::StringExecFns;

use crate::cryptography_service::CryptographyService;
use crate::decrypt_message_use_case::{DecryptMessageRequestModel, DecryptMessageUseCase};
use crate::encrypt_message_use_case::{EncryptMessageRequestModel, EncryptMessageUseCase};
use crate::get_public_key_use_case::GetPublicKeyUseCase;
use crate::guards::AuthorizationHeader;

verus! {

pub struct DecryptMessageRequest {
    pub message: String,
}

pub struct DecryptMessageResponse {
    pub decrypted_message: String,
}

pub struct EncryptMessageRequest {
    pub message: String,
}

pub struct EncryptMessageResponse {
    pub encrypted_message: String,
}

pub struct GetPublicKeyResponse {
    pub public_key: Vec<u8>,
}

/// The error body every route returns on failure.
#[derive(Debug)]
pub struct HttpErrorResponse {
    pub error: String,
}

pub const STATUS_OK: u16 = 200;

pub const STATUS_BAD_REQUEST: u16 = 400;

pub const STATUS_UNAUTHORIZED: u16 = 401;

pub const STATUS_INTERNAL_SERVER_ERROR: u16 = 500;

/// What the standard-alphabet, padded base64 decoding of a string yields:
/// the bytes, or nothing when the string is not a base64 encoding.
pub uninterp spec fn base64_decoding(s: Seq<char>) -> Option<Seq<u8>>;

/// The standard-alphabet, padded base64 encoding of a byte string.
pub uninterp spec fn base64_encoding(b: Seq<u8>) -> Seq<char>;

/// Relies on the base64 crate's standard engine: decoding is a
/// deterministic function of the input string.
#[verifier::external_body]
fn base64_decode(s: &str) -> (r: Option<Vec<u8>>)
    ensures
        match r {
            Some(v) => base64_decoding(s@) == Some(v@),
            None => base64_decoding(s@) is None,
        },
{
    base64::engine::general_purpose::STANDARD.decode(s).ok()
}

/// Relies on the base64 crate's standard engine: encoding is a
/// deterministic function of the input bytes, and its documentation
/// promises that decoding an encoded value returns the value.
#[verifier::external_body]
fn base64_encode(b: &Vec<u8>) -> (r: String)
    ensures
        r@ == base64_encoding(b@),
        base64_decoding(r@) == Some(b@),
{
    base64::engine::general_purpose::STANDARD.encode(b)
}

/// The health probe's constant answer.
pub fn healthz() -> (r: &'static str)
    ensures
        r@ == "OK"@,
{
    "OK"
}

/// The decrypt route: an unauthorized request is rejected before
/// anything else; a message that is not base64 is a client error; a
/// failure of the service or a non-UTF-8 plaintext is a server error; on
/// success the answer is the UTF-8 decoding of a plaintext the service
/// permits for the unwrapped ciphertext bytes.
pub fn decrypt_message<C: CryptographyService>(
    service: &C,
    authorization: Result<AuthorizationHeader, String>,
    request: DecryptMessageRequest,
) -> (r: Result<DecryptMessageResponse, (u16, HttpErrorResponse)>)
    ensures
        (authorization matches Err(m) ==> (r matches Err(e) && e.0 == STATUS_UNAUTHORIZED
            && e.1.error == m)),
        (authorization is Ok && base64_decoding(request.message@) is None ==> (r matches Err(e)
            && e.0 == STATUS_BAD_REQUEST)),
        (authorization is Ok && base64_decoding(request.message@) is Some ==> (r is Ok || (
        r matches Err(e) && e.0 == STATUS_INTERNAL_SERVER_ERROR))),
        (r matches Ok(resp) ==> (exists|b: Vec<u8>|
            {
                &&& #[trigger] service.decrypt_post(
                    base64_decoding(request.message@)->0,
                    Result::Ok(b),
                )
                &&& vstd::utf8::valid_utf8(b@)
                &&& resp.decrypted_message@ == vstd::utf8::decode_utf8(b@)
            })),
{
    if let Result::Err(error) = authorization {
        return Result::Err((STATUS_UNAUTHORIZED, HttpErrorResponse { error }));
    }
    let message_bytes = match base64_decode(request.message.as_str()) {
        Option::Some(bytes) => bytes,
        Option::None => {
            return Result::Err(
                (
                    STATUS_BAD_REQUEST,
                    HttpErrorResponse {
                        error: String::from_str("message is not valid base64"),
                    },
                ),
            );
        },
    };
    let ghost unwrapped = message_bytes@;
    let use_case = DecryptMessageUseCase::new(service);
    match use_case.interact(DecryptMessageRequestModel { message: message_bytes }) {
        Result::Ok(response_model) => {
            proof {
                let b = choose|b: Vec<u8>|
                    {
                        &&& #[trigger] use_case.spec_service().decrypt_post(
                            unwrapped,
                            Result::Ok(b),
                        )
                        &&& vstd::utf8::valid_utf8(b@)
                        &&& response_model.decrypted_message@ == vstd::utf8::decode_utf8(b@)
                    };
                assert(service.decrypt_post(
                    base64_decoding(request.message@)->0,
                    Result::Ok(b),
                ));
            }
            Result::Ok(
                DecryptMessageResponse { decrypted_message: response_model.decrypted_message },
            )
        },
        Result::Err(e) => Result::Err(
            (STATUS_INTERNAL_SERVER_ERROR, HttpErrorResponse { error: e.message() }),
        ),
    }
}

/// The encrypt route: an unauthorized request is rejected before anything
/// else; a failure of the service is a server error; on success the
/// envelope in the answer decodes to exactly a ciphertext the service
/// permits for the request's message.
pub fn encrypt_message<C: CryptographyService>(
    service: &C,
    authorization: Result<AuthorizationHeader, String>,
    request: EncryptMessageRequest,
) -> (r: Result<EncryptMessageResponse, (u16, HttpErrorResponse)>)
    ensures
        (authorization matches Err(m) ==> (r matches Err(e) && e.0 == STATUS_UNAUTHORIZED
            && e.1.error == m)),
        (r matches Ok(resp) ==> (exists|b: Vec<u8>|
            {
                &&& #[trigger] service.encrypt_post(request.message@, Result::Ok(b))
                &&& base64_decoding(resp.encrypted_message@) == Some(b@)
            })),
        (authorization is Ok ==> (r is Ok || (r matches Err(e) && e.0
            == STATUS_INTERNAL_SERVER_ERROR))),
{
    if let Result::Err(error) = authorization {
        return Result::Err((STATUS_UNAUTHORIZED, HttpErrorResponse { error }));
    }
    let use_case = EncryptMessageUseCase::new(service);
    match use_case.interact(EncryptMessageRequestModel { message: request.message }) {
        Result::Ok(response_model) => Result::Ok(
            EncryptMessageResponse {
                encrypted_message: base64_encode(&response_model.encrypted_message),
            },
        ),
        Result::Err(e) => Result::Err(
            (STATUS_INTERNAL_SERVER_ERROR, HttpErrorResponse { error: e.message() }),
        ),
    }
}

/// The public-key route: an unauthorized request is rejected before
/// anything else; a failure of the service is a server error; on success
/// the answer is a key the service permits.
pub fn get_public_key<C: CryptographyService>(
    service: &C,
    authorization: Result<AuthorizationHeader, String>,
) -> (r: Result<GetPublicKeyResponse, (u16, HttpErrorResponse)>)
    ensures
        (authorization matches Err(m) ==> (r matches Err(e) && e.0 == STATUS_UNAUTHORIZED
            && e.1.error == m)),
        (r matches Err(e) ==> (e.0 == STATUS_UNAUTHORIZED || e.0
            == STATUS_INTERNAL_SERVER_ERROR)),
        (r matches Ok(resp) ==> service.public_key_post(Result::Ok(resp.public_key))),
{
    if let Result::Err(error) = authorization {
        return Result::Err((STATUS_UNAUTHORIZED, HttpErrorResponse { error }));
    }
    let use_case = GetPublicKeyUseCase::new(service);
    match use_case.interact() {
        Result::Ok(response_model) => Result::Ok(
            GetPublicKeyResponse { public_key: response_model.public_key },
        ),
        Result::Err(e) => Result::Err(
            (STATUS_INTERNAL_SERVER_ERROR, HttpErrorResponse { error: e.message() }),
        ),
    }
}

} // verus!
