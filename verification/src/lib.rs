//! Core of a threshold public-key decryption service.
//!
//! A coordinator encrypts plaintext under a single public key whose matching
//! secret key is split across N decryption workers; any `threshold + 1`
//! workers can cooperatively decrypt a ciphertext, fewer cannot. The modules
//! here hold the verified core: the wire codec shared by coordinator and
//! workers, the signature framing of decryption requests, the worker state
//! machine, the coordinator's key lifecycle and share-collection logic, the
//! broker topology contract, and the decisions of the request/response
//! surface. Broker and HTTP I/O itself stays outside the library.

pub mod codec;
pub mod crypto;
pub mod cryptography_service;
pub mod decrypt_message_use_case;
pub mod encrypt_message_use_case;
pub mod framing;
pub mod get_public_key_use_case;
pub mod guards;
pub mod pairing_cryptography_service;
pub mod routes;
pub mod topology;
pub mod worker;
