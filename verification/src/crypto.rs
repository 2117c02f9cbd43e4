//! Trusted boundary to the cryptographic primitives.
//!
//! The pairing-based threshold encryption scheme (key-set generation, share
//! derivation, encryption, per-share decryption and combination) and the
//! Ed25519 signatures come from outside libraries. Each call the verified
//! core makes is wrapped here in one function whose contract states only
//! what the outside source shows; the values of the scheme stay opaque and
//! flow through the core unchanged.

use ring::signature::KeyPair;
use vstd::prelude::*;
use vstd::utf8::{decode_utf8, valid_utf8};

verus! {

#[verifier::external_type_specification]
#[verifier::external_body]
pub struct ExSecretKeySet(threshold_crypto::SecretKeySet);

#[verifier::external_type_specification]
#[verifier::external_body]
pub struct ExPublicKeySet(threshold_crypto::PublicKeySet);

#[verifier::external_type_specification]
#[verifier::external_body]
pub struct ExSecretKeyShare(threshold_crypto::SecretKeyShare);

#[verifier::external_type_specification]
#[verifier::external_body]
pub struct ExCiphertext(threshold_crypto::Ciphertext);

#[verifier::external_type_specification]
#[verifier::external_body]
pub struct ExDecryptionShare(threshold_crypto::DecryptionShare);

#[verifier::external_type_specification]
#[verifier::external_body]
pub struct ExEd25519KeyPair(ring::signature::Ed25519KeyPair);

/// Whether an Ed25519 signature verifies a message under a raw 32-byte
/// public key. RFC 8032 verification is a deterministic function of the
/// three byte strings, so it can be named, though not computed here.
pub uninterp spec fn ed25519_verifies(pk: Seq<u8>, msg: Seq<u8>, sig: Seq<u8>) -> bool;

/// Whether the bytes parse as a ciphertext under the threshold-crypto
/// library's own codec; deterministic in the bytes.
pub uninterp spec fn ciphertext_parses(bytes: Seq<u8>) -> bool;

/// Whether the ciphertext parsed from the bytes passes the library's
/// validity check against chosen-ciphertext tampering; deterministic in
/// the bytes.
pub uninterp spec fn ciphertext_valid(bytes: Seq<u8>) -> bool;

/// Whether the bytes parse as a secret key share in the library's
/// SerdeSecret envelope; deterministic in the bytes.
pub uninterp spec fn secret_share_parses(bytes: Seq<u8>) -> bool;

/// Whether the bytes parse as a decryption share; deterministic in the
/// bytes.
pub uninterp spec fn decryption_share_parses(bytes: Seq<u8>) -> bool;

/// The encoded decryption share that the secret key share encoded in
/// `share_blob` computes for the ciphertext encoded in `ct_bytes`. Share
/// decryption is one group multiplication, a deterministic function of
/// the two values, which the codec fixes from their bytes.
pub uninterp spec fn share_decryption(share_blob: Seq<u8>, ct_bytes: Seq<u8>) -> Seq<u8>;

/// Relies on threshold_crypto::SecretKeySet::random: a fresh secret-sharing
/// polynomial of degree `threshold` from the thread's random generator. The
/// result is random, so nothing is stated of it; the call fails only when
/// `threshold` is `usize::MAX`, which the precondition rules out.
#[verifier::external_body]
pub(crate) fn fresh_secret_key_set(threshold: usize) -> threshold_crypto::SecretKeySet
    requires
        threshold < usize::MAX,
{
    threshold_crypto::SecretKeySet::random(threshold, &mut rand::thread_rng())
}

/// Relies on threshold_crypto::SecretKeySet::public_keys: the commitment to
/// the secret polynomial, safe to share.
#[verifier::external_body]
pub(crate) fn public_key_set_of(sks: &threshold_crypto::SecretKeySet) -> threshold_crypto::PublicKeySet {
    sks.public_keys()
}

/// Relies on threshold_crypto::SecretKeySet::secret_key_share: the secret
/// share for holder `id`.
#[verifier::external_body]
pub(crate) fn secret_key_share_of(
    sks: &threshold_crypto::SecretKeySet,
    id: usize,
) -> threshold_crypto::SecretKeyShare {
    sks.secret_key_share(id)
}

/// Relies on threshold_crypto::PublicKeySet::public_key and
/// threshold_crypto::PublicKey::to_bytes: the master public key in its
/// 48-byte compressed encoding.
#[verifier::external_body]
pub(crate) fn public_key_bytes_of(pks: &threshold_crypto::PublicKeySet) -> (r: Vec<u8>)
    ensures
        r@.len() == 48,
{
    pks.public_key().to_bytes().to_vec()
}

/// Relies on threshold_crypto::PublicKeySet::public_key and
/// threshold_crypto::PublicKey::encrypt: encryption of the message bytes
/// under the master public key. Encryption is randomized, so nothing is
/// stated of the ciphertext value.
#[verifier::external_body]
pub(crate) fn encrypt_with(
    pks: &threshold_crypto::PublicKeySet,
    msg: &[u8],
) -> threshold_crypto::Ciphertext {
    pks.public_key().encrypt(msg)
}

/// Relies on bincode::serialize of a threshold_crypto::Ciphertext, the
/// library's own codec for ciphertexts on the wire. Serialization of an
/// in-memory ciphertext cannot fail, and bincode deserializes what it
/// serialized, so the bytes re-parse.
#[verifier::external_body]
pub(crate) fn ciphertext_to_bytes(ct: &threshold_crypto::Ciphertext) -> (r: Vec<u8>)
    ensures
        ciphertext_parses(r@),
{
    bincode::serialize(ct).expect("ciphertext serialization is infallible")
}

/// Relies on bincode::deserialize of a threshold_crypto::Ciphertext: `Some`
/// exactly when the bytes are a well-formed ciphertext encoding.
#[verifier::external_body]
pub(crate) fn ciphertext_from_bytes(bytes: &[u8]) -> (r: Option<threshold_crypto::Ciphertext>)
    ensures
        r is Some <==> ciphertext_parses(bytes@),
{
    bincode::deserialize(bytes).ok()
}

/// Relies on bincode::deserialize of the SerdeSecret envelope and of a
/// threshold_crypto::Ciphertext, SecretKeyShare::decrypt_share and
/// bincode::serialize of the resulting share, deterministic functions all:
/// the share succeeds exactly when the ciphertext parses and passes its
/// validity check (decrypt_share returns `None` exactly on that check).
#[verifier::external_body]
pub(crate) fn compute_decryption_share(share_blob: &Vec<u8>, ct_bytes: &Vec<u8>) -> (r: Option<
    Vec<u8>,
>)
    ensures
        match r {
            Some(v) => secret_share_parses(share_blob@) && ciphertext_parses(ct_bytes@)
                && ciphertext_valid(ct_bytes@) && v@ == share_decryption(share_blob@, ct_bytes@),
            None => !(secret_share_parses(share_blob@) && ciphertext_parses(ct_bytes@)
                && ciphertext_valid(ct_bytes@)),
        },
{
    let secret: threshold_crypto::serde_impl::SerdeSecret<threshold_crypto::SecretKeyShare> =
        bincode::deserialize(share_blob).ok()?;
    let ciphertext: threshold_crypto::Ciphertext = bincode::deserialize(ct_bytes).ok()?;
    let share = secret.0.decrypt_share(&ciphertext)?;
    Some(bincode::serialize(&share).expect("decryption share serialization is infallible"))
}

/// Relies on bincode::deserialize of a threshold_crypto::DecryptionShare:
/// `Some` exactly when the bytes are a well-formed share encoding.
#[verifier::external_body]
pub(crate) fn decryption_share_from_bytes(bytes: &[u8]) -> (r: Option<
    threshold_crypto::DecryptionShare,
>)
    ensures
        r is Some <==> decryption_share_parses(bytes@),
{
    bincode::deserialize(bytes).ok()
}

/// Relies on bincode::serialize of a threshold_crypto SerdeSecret envelope,
/// the library's own codec for secret scalars on the wire; bincode
/// deserializes what it serialized, so the blob re-parses.
#[verifier::external_body]
pub(crate) fn secret_key_share_to_bytes(share: &threshold_crypto::SecretKeyShare) -> (r: Vec<
    u8,
>)
    ensures
        secret_share_parses(r@),
{
    bincode::serialize(&threshold_crypto::serde_impl::SerdeSecret(share.clone())).expect(
        "secret key share serialization is infallible",
    )
}

/// Relies on bincode::deserialize of a threshold_crypto SerdeSecret
/// envelope: it accepts the bytes exactly when they are a well-formed
/// secret share.
#[verifier::external_body]
pub(crate) fn check_secret_share_blob(bytes: &[u8]) -> (r: bool)
    ensures
        r == secret_share_parses(bytes@),
{
    bincode::deserialize::<threshold_crypto::serde_impl::SerdeSecret<
        threshold_crypto::SecretKeyShare,
    >>(bytes).is_ok()
}


/// Relies on ring's Ed25519KeyPair::generate_pkcs8 and from_pkcs8: a fresh
/// signing key pair from the system's random generator. Random, so nothing
/// is stated of it; the calls fail only when the system generator does,
/// where the process gives up as the service cannot run without a key.
#[verifier::external_body]
pub(crate) fn fresh_signing_key_pair() -> ring::signature::Ed25519KeyPair {
    let rng = ring::rand::SystemRandom::new();
    let doc = ring::signature::Ed25519KeyPair::generate_pkcs8(&rng).expect(
        "system random generator failed",
    );
    ring::signature::Ed25519KeyPair::from_pkcs8(doc.as_ref()).expect(
        "freshly generated key is well-formed",
    )
}

/// Relies on ring's KeyPair::public_key: the raw 32-byte Ed25519 public
/// half.
#[verifier::external_body]
pub(crate) fn signing_public_key_bytes(kp: &ring::signature::Ed25519KeyPair) -> (r: Vec<u8>)
    ensures
        r@.len() == 32,
{
    kp.public_key().as_ref().to_vec()
}

/// Relies on ring's UnparsedPublicKey::verify with the ED25519 algorithm:
/// RFC 8032 verification, a deterministic function of public key, message
/// and signature.
#[verifier::external_body]
pub(crate) fn ed25519_verify(pk: &[u8], msg: &[u8], sig: &[u8]) -> (r: bool)
    ensures
        r == ed25519_verifies(pk@, msg@, sig@),
{
    ring::signature::UnparsedPublicKey::new(&ring::signature::ED25519, pk).verify(
        msg,
        sig,
    ).is_ok()
}

/// Relies on String::from_utf8: `Ok` exactly on valid UTF-8, decoding to the
/// characters that vstd's UTF-8 model gives for the bytes.
#[verifier::external_body]
pub(crate) fn utf8_to_string(bytes: Vec<u8>) -> (r: Option<String>)
    ensures
        match r {
            Some(s) => valid_utf8(bytes@) && s@ == decode_utf8(bytes@),
            None => !valid_utf8(bytes@),
        },
{
    String::from_utf8(bytes).ok()
}

} // verus!
