use base64::Engine;

use threshold_decryption::cryptography_service::{CryptographyService, CryptographyServiceError};
use threshold_decryption::guards::{authorize, AuthorizationHeader};
use threshold_decryption::routes::{
    decrypt_message, encrypt_message, get_public_key, healthz, DecryptMessageRequest,
    EncryptMessageRequest, STATUS_BAD_REQUEST, STATUS_INTERNAL_SERVER_ERROR,
    STATUS_UNAUTHORIZED,
};

/// A service that encrypts and decrypts by keeping the bytes as they are,
/// so the envelope logic around it can be observed exactly.
struct EchoService;

impl CryptographyService for EchoService {
    fn share_public_key(&self) -> Result<Vec<u8>, CryptographyServiceError> {
        Ok(vec![7, 7, 7])
    }

    fn decrypt_message(&self, message: Vec<u8>) -> Result<Vec<u8>, CryptographyServiceError> {
        Ok(message)
    }

    fn encrypt_message(&self, message: String) -> Result<Vec<u8>, CryptographyServiceError> {
        Ok(message.into_bytes())
    }
}

struct FailingService;

impl CryptographyService for FailingService {
    fn share_public_key(&self) -> Result<Vec<u8>, CryptographyServiceError> {
        Err(CryptographyServiceError::PublicKeySharingError(String::from("down")))
    }

    fn decrypt_message(&self, _message: Vec<u8>) -> Result<Vec<u8>, CryptographyServiceError> {
        Err(CryptographyServiceError::DecryptionError(String::from("down")))
    }

    fn encrypt_message(&self, _message: String) -> Result<Vec<u8>, CryptographyServiceError> {
        Err(CryptographyServiceError::EncryptionError(String::from("down")))
    }
}

fn bearer() -> Result<AuthorizationHeader, String> {
    authorize(Some(String::from("Bearer sometoken")))
}

#[test]
fn healthz_answers_ok() {
    assert_eq!(healthz(), "OK");
}

#[test]
fn routes_round_trip_through_the_base64_envelope() {
    let service = EchoService;
    let encrypted = encrypt_message(
        &service,
        bearer(),
        EncryptMessageRequest { message: String::from("Hello, World!") },
    )
    .unwrap();
    assert_eq!(
        encrypted.encrypted_message,
        base64::engine::general_purpose::STANDARD.encode(b"Hello, World!"),
    );
    let decrypted = decrypt_message(
        &service,
        bearer(),
        DecryptMessageRequest { message: encrypted.encrypted_message },
    )
    .unwrap();
    assert_eq!(decrypted.decrypted_message, "Hello, World!");
}

#[test]
fn routes_reject_missing_authorization() {
    let service = EchoService;
    let err = decrypt_message(
        &service,
        authorize(None),
        DecryptMessageRequest { message: String::from("aGk=") },
    )
    .err()
    .unwrap();
    assert_eq!(err.0, STATUS_UNAUTHORIZED);
    assert_eq!(err.1.error, "No access token provided");
    let err = encrypt_message(
        &service,
        authorize(None),
        EncryptMessageRequest { message: String::from("hi") },
    )
    .err()
    .unwrap();
    assert_eq!(err.0, STATUS_UNAUTHORIZED);
}

#[test]
fn decrypt_route_rejects_broken_base64() {
    let service = EchoService;
    let err = decrypt_message(
        &service,
        bearer(),
        DecryptMessageRequest { message: String::from("not base64 !!!") },
    )
    .err()
    .unwrap();
    assert_eq!(err.0, STATUS_BAD_REQUEST);
}

#[test]
fn routes_report_service_failures_as_server_errors() {
    let service = FailingService;
    let err = decrypt_message(
        &service,
        bearer(),
        DecryptMessageRequest { message: String::from("aGk=") },
    )
    .err()
    .unwrap();
    assert_eq!(err.0, STATUS_INTERNAL_SERVER_ERROR);
    assert!(err.1.error.contains("Unable to decrypt message from Cryptography Service."));
    let err = encrypt_message(
        &service,
        bearer(),
        EncryptMessageRequest { message: String::from("hi") },
    )
    .err()
    .unwrap();
    assert_eq!(err.0, STATUS_INTERNAL_SERVER_ERROR);
    let err = get_public_key(&service, bearer()).err().unwrap();
    assert_eq!(err.0, STATUS_INTERNAL_SERVER_ERROR);
    assert!(err.1.error.contains("Unable to get public key from Cryptography Service."));
}

#[test]
fn get_public_key_route_returns_the_service_key() {
    let service = EchoService;
    let response = get_public_key(&service, bearer()).unwrap();
    assert_eq!(response.public_key, vec![7, 7, 7]);
}

#[test]
fn get_public_key_route_rejects_missing_authorization() {
    let service = EchoService;
    let err = get_public_key(&service, authorize(None)).err().unwrap();
    assert_eq!(err.0, STATUS_UNAUTHORIZED);
    assert_eq!(err.1.error, "No access token provided");
}
