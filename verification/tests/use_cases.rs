use std::cell::Cell;

use threshold_decryption::cryptography_service::{CryptographyService, CryptographyServiceError};
use threshold_decryption::decrypt_message_use_case::{
    DecryptMessageRequestModel, DecryptMessageUseCase,
};
use threshold_decryption::encrypt_message_use_case::{
    EncryptMessageRequestModel, EncryptMessageUseCase,
};
use threshold_decryption::get_public_key_use_case::GetPublicKeyUseCase;

enum MockBehavior {
    EchoBytes,
    FixedKey,
    Fail,
}

struct MockCryptographyService {
    behavior: MockBehavior,
    calls: Cell<u32>,
}

impl MockCryptographyService {
    fn new(behavior: MockBehavior) -> Self {
        MockCryptographyService { behavior, calls: Cell::new(0) }
    }
}

impl CryptographyService for MockCryptographyService {
    fn share_public_key(&self) -> Result<Vec<u8>, CryptographyServiceError> {
        self.calls.set(self.calls.get() + 1);
        match self.behavior {
            MockBehavior::FixedKey => Ok(vec![1, 2, 3]),
            MockBehavior::EchoBytes => Ok(vec![1, 2, 3]),
            MockBehavior::Fail => Err(CryptographyServiceError::PublicKeySharingError(
                String::from("Error"),
            )),
        }
    }

    fn decrypt_message(&self, message: Vec<u8>) -> Result<Vec<u8>, CryptographyServiceError> {
        self.calls.set(self.calls.get() + 1);
        match self.behavior {
            MockBehavior::Fail => Err(CryptographyServiceError::DecryptionError(String::from(
                "Error",
            ))),
            _ => Ok(message),
        }
    }

    fn encrypt_message(&self, message: String) -> Result<Vec<u8>, CryptographyServiceError> {
        self.calls.set(self.calls.get() + 1);
        match self.behavior {
            MockBehavior::Fail => Err(CryptographyServiceError::EncryptionError(String::from(
                "Error",
            ))),
            _ => Ok(message.into_bytes()),
        }
    }
}

#[test]
fn should_decrypt_message_use_case() {
    let mock_cryptography_service = MockCryptographyService::new(MockBehavior::EchoBytes);
    let use_case = DecryptMessageUseCase::new(&mock_cryptography_service);
    let request_model = DecryptMessageRequestModel { message: b"Hello, World!".to_vec() };
    let response_model = use_case.interact(request_model).unwrap();
    assert_eq!(response_model.decrypted_message, "Hello, World!");
    assert_eq!(mock_cryptography_service.calls.get(), 1);
}

#[test]
fn should_fail_to_decrypt_message_use_case() {
    let mock_cryptography_service = MockCryptographyService::new(MockBehavior::Fail);
    let use_case = DecryptMessageUseCase::new(&mock_cryptography_service);
    let request_model = DecryptMessageRequestModel { message: b"Hello, World!".to_vec() };
    let response_model = use_case.interact(request_model);
    assert!(response_model.is_err());
    assert_eq!(mock_cryptography_service.calls.get(), 1);
}

#[test]
fn should_encrypt_message_use_case() {
    let mock_cryptography_service = MockCryptographyService::new(MockBehavior::EchoBytes);
    let use_case = EncryptMessageUseCase::new(&mock_cryptography_service);
    let request_model = EncryptMessageRequestModel { message: String::from("Hello, World!") };
    let response_model = use_case.interact(request_model).unwrap();
    assert_eq!(response_model.encrypted_message, b"Hello, World!".to_vec());
    assert_eq!(mock_cryptography_service.calls.get(), 1);
}

#[test]
fn should_fail_to_encrypt_message_use_case() {
    let mock_cryptography_service = MockCryptographyService::new(MockBehavior::Fail);
    let use_case = EncryptMessageUseCase::new(&mock_cryptography_service);
    let request_model = EncryptMessageRequestModel { message: String::from("Hello, World!") };
    let response_model = use_case.interact(request_model);
    assert!(response_model.is_err());
    assert_eq!(mock_cryptography_service.calls.get(), 1);
}

#[test]
fn should_get_public_key_use_case() {
    let mock_cryptography_service = MockCryptographyService::new(MockBehavior::FixedKey);
    let use_case = GetPublicKeyUseCase::new(&mock_cryptography_service);
    let response_model = use_case.interact().unwrap();
    assert_eq!(response_model.public_key, vec![1, 2, 3]);
    assert_eq!(mock_cryptography_service.calls.get(), 1);
}

#[test]
fn should_fail_to_get_public_key_use_case() {
    let mock_cryptography_service = MockCryptographyService::new(MockBehavior::Fail);
    let use_case = GetPublicKeyUseCase::new(&mock_cryptography_service);
    let response_model = use_case.interact();
    assert!(response_model.is_err());
    assert_eq!(mock_cryptography_service.calls.get(), 1);
}

#[test]
fn decrypt_use_case_rejects_invalid_utf8() {
    let mock_cryptography_service = MockCryptographyService::new(MockBehavior::EchoBytes);
    let use_case = DecryptMessageUseCase::new(&mock_cryptography_service);
    let request_model = DecryptMessageRequestModel { message: vec![0xff, 0xfe, 0x80] };
    let response_model = use_case.interact(request_model);
    match response_model {
        Err(e) => {
            let text = e.message();
            assert!(text.contains("Invalid or broken message encryption."));
        },
        Ok(_) => panic!("invalid utf-8 must be rejected"),
    }
}

#[test]
fn error_messages_render_with_their_prefixes() {
    let e = CryptographyServiceError::DecryptionError(String::from("boom"));
    assert_eq!(e.message(), "Unable to decrypt message. boom");
    let e = CryptographyServiceError::PublicKeySharingError(String::from("x"));
    assert_eq!(e.message(), "Unable to share public key. x");
    let e = CryptographyServiceError::EncryptionError(String::from("y"));
    assert_eq!(e.message(), "Unable to encrypt message. y");
}
