//! The decryption worker's state machine.
//!
//! A worker starts unprovisioned, absorbs exactly one well-formed key-sync
//! message, and from then on is provisioned for good: later deliveries can
//! produce a partial decryption to publish but never change its state. A
//! provisioned worker accepts a decryption request only when the 64-byte
//! signature prefix verifies under the stored signing public key and the
//! request's timestamp lies within the freshness window.

use vstd::prelude::*;

use crate::codec::{
    decode_message, encode_partial, is_key_sync, is_request, parse_message, spec_partial_bytes,
};
use crate::crypto::{
    check_secret_share_blob, ciphertext_parses, ciphertext_valid, compute_decryption_share,
    ed25519_verifies, ed25519_verify, secret_share_parses, share_decryption,
};
use crate::framing::{split_signed, SIGNATURE_LEN};

verus! {

/// Maximum permitted age in seconds of a decryption request, measured at
/// the worker against its own clock.
pub const FRESHNESS_WINDOW_SECS: u64 = 10;

/// A request stamped `timestamp` is fresh at time `now` when it is at most
/// `FRESHNESS_WINDOW_SECS` seconds old. Timestamps from the future are
/// tolerated as clock skew.
pub open spec fn is_fresh(timestamp: u64, now: u64) -> bool {
    timestamp + FRESHNESS_WINDOW_SECS >= now
}

/// Decides freshness without overflow: a request is rejected exactly when
/// `timestamp < now - FRESHNESS_WINDOW_SECS`.
pub fn check_fresh(timestamp: u64, now: u64) -> (r: bool)
    ensures
        r == is_fresh(timestamp, now),
{
    now <= timestamp || now - timestamp <= FRESHNESS_WINDOW_SECS
}

/// What a worker did with one delivery.
pub enum WorkerOutcome {
    /// The first well-formed key-sync message was absorbed.
    KeysSynced,
    /// A partial decryption, ready to publish on the partials exchange.
    SharePublished(Vec<u8>),
    /// The signature prefix did not verify under the stored public key.
    BadSignature,
    /// The request is older than the freshness window.
    StaleTimestamp,
    /// The delivery parsed to no known message shape, or an opaque payload
    /// inside it was rejected by the cryptographic library.
    MalformedMessage,
    /// A decryption request arrived before key sync; it is dropped.
    UnprovisionedWorker,
}

/// One decryption worker: its share id and, once key sync has happened, the
/// coordinator's signing public key and this worker's secret key share,
/// kept in the wire encoding it arrived in.
pub struct DecryptionServer {
    id: usize,
    signature_public_key: Option<Vec<u8>>,
    secret_key_share: Option<Vec<u8>>,
}

impl DecryptionServer {
    /// The worker's share id.
    pub closed spec fn spec_id(&self) -> usize {
        self.id
    }

    /// Whether key sync has completed.
    pub closed spec fn provisioned(&self) -> bool {
        self.signature_public_key is Some
    }

    /// The signing public key stored at key sync.
    pub closed spec fn stored_public_key(&self) -> Seq<u8>
        recommends
            self.provisioned(),
    {
        self.signature_public_key->0@
    }

    /// The secret key share stored at key sync, in its wire encoding.
    pub closed spec fn stored_share_blob(&self) -> Seq<u8>
        recommends
            self.provisioned(),
    {
        self.secret_key_share->0@
    }

    /// Both halves of the key material arrive together or not at all, and
    /// only a share blob that parses is ever stored.
    pub closed spec fn wf(&self) -> bool {
        &&& (self.signature_public_key is Some <==> self.secret_key_share is Some)
        &&& (self.secret_key_share matches Some(blob) ==> secret_share_parses(blob@))
    }

    /// A fresh worker for share id `id`, not yet provisioned.
    pub fn new(id: usize) -> (r: DecryptionServer)
        ensures
            r.wf(),
            r.spec_id() == id,
            !r.provisioned(),
    {
        DecryptionServer { id, signature_public_key: None, secret_key_share: None }
    }

    /// The worker's share id.
    pub fn id(&self) -> (r: usize)
        ensures
            r == self.spec_id(),
    {
        self.id
    }

    /// Whether key sync has completed.
    pub fn is_provisioned(&self) -> (r: bool)
        ensures
            r == self.provisioned(),
    {
        self.signature_public_key.is_some()
    }

    /// Processes one broker delivery at time `now` and says what to do with
    /// it. A provisioned worker never changes state, so applying any
    /// message — a repeated key sync included — after provisioning is a
    /// no-op on the state.
    pub fn consume(&mut self, content: &Vec<u8>, now: u64) -> (out: WorkerOutcome)
        requires
            old(self).wf(),
        ensures
            final(self).wf(),
            old(self).provisioned() ==> *final(self) == *old(self) && provisioned_step(
                *old(self),
                content@,
                now,
                out,
            ),
            !old(self).provisioned() ==> unprovisioned_step(
                *old(self),
                *final(self),
                content@,
                out,
            ),
    {
        if !self.signature_public_key.is_some() {
            let msg = match decode_message(content.as_slice()) {
                Option::Some(m) => m,
                Option::None => {
                    return WorkerOutcome::MalformedMessage;
                },
            };
            match (msg.cipher_text, msg.public_key, msg.secret_key_share, msg.timestamp) {
                (Option::None, Option::Some(public_key), Option::Some(share_blob), Option::None) => {
                    if check_secret_share_blob(share_blob.as_slice()) {
                        self.secret_key_share = Option::Some(share_blob);
                        self.signature_public_key = Option::Some(public_key);
                        WorkerOutcome::KeysSynced
                    } else {
                        WorkerOutcome::MalformedMessage
                    }
                },
                (Option::Some(_ct), Option::None, Option::None, Option::Some(_ts)) => {
                    WorkerOutcome::UnprovisionedWorker
                },
                _ => WorkerOutcome::MalformedMessage,
            }
        } else {
            let (sig, payload) = match split_signed(content) {
                Option::Some(p) => p,
                Option::None => {
                    return WorkerOutcome::MalformedMessage;
                },
            };
            let verified = match &self.signature_public_key {
                Option::Some(pk) => ed25519_verify(
                    pk.as_slice(),
                    payload.as_slice(),
                    sig.as_slice(),
                ),
                Option::None => false,
            };
            if !verified {
                return WorkerOutcome::BadSignature;
            }
            let msg = match decode_message(payload.as_slice()) {
                Option::Some(m) => m,
                Option::None => {
                    return WorkerOutcome::MalformedMessage;
                },
            };
            match (msg.cipher_text, msg.public_key, msg.secret_key_share, msg.timestamp) {
                (Option::Some(ct_bytes), Option::None, Option::None, Option::Some(timestamp)) => {
                    if !check_fresh(timestamp, now) {
                        return WorkerOutcome::StaleTimestamp;
                    }
                    let ds_bytes = match &self.secret_key_share {
                        Option::Some(blob) => compute_decryption_share(blob, &ct_bytes),
                        Option::None => Option::None,
                    };
                    match ds_bytes {
                        Option::Some(ds) => {
                            let partial = encode_partial(self.id as u64, &ds);
                            WorkerOutcome::SharePublished(partial)
                        },
                        Option::None => WorkerOutcome::MalformedMessage,
                    }
                },
                _ => WorkerOutcome::MalformedMessage,
            }
        }
    }
}

/// What a provisioned worker does with one delivery: framing, signature,
/// shape and freshness are checked in that order; a fresh, verified
/// request whose ciphertext parses and passes its validity check must be
/// answered with this worker's encoded partial decryption, and with
/// nothing otherwise.
pub open spec fn provisioned_step(
    s: DecryptionServer,
    content: Seq<u8>,
    now: u64,
    out: WorkerOutcome,
) -> bool
    recommends
        s.provisioned(),
{
    if content.len() < SIGNATURE_LEN {
        out is MalformedMessage
    } else {
        let sig = content.subrange(0, SIGNATURE_LEN as int);
        let payload = content.skip(SIGNATURE_LEN as int);
        if !ed25519_verifies(s.stored_public_key(), payload, sig) {
            out is BadSignature
        } else {
            match parse_message(payload) {
                Option::Some(m) => {
                    if is_request(m) {
                        if !is_fresh(m.timestamp->0, now) {
                            out is StaleTimestamp
                        } else if ciphertext_parses(m.cipher_text->0) && ciphertext_valid(
                            m.cipher_text->0,
                        ) {
                            &&& out matches WorkerOutcome::SharePublished(p)
                            &&& p@ == spec_partial_bytes(
                                s.spec_id() as u64,
                                share_decryption(s.stored_share_blob(), m.cipher_text->0),
                            )
                        } else {
                            out is MalformedMessage
                        }
                    } else {
                        out is MalformedMessage
                    }
                },
                Option::None => out is MalformedMessage,
            }
        }
    }
}

/// What an unprovisioned worker does with one delivery: a key-sync
/// message whose share blob parses must provision the worker with exactly
/// the delivered signing public key and share; everything else leaves the
/// state alone, and a decryption request is dropped.
pub open spec fn unprovisioned_step(
    pre: DecryptionServer,
    post: DecryptionServer,
    content: Seq<u8>,
    out: WorkerOutcome,
) -> bool {
    match parse_message(content) {
        Option::Some(m) => {
            if is_key_sync(m) {
                if secret_share_parses(m.secret_key_share->0) {
                    &&& post.provisioned()
                    &&& post.stored_public_key() == m.public_key->0
                    &&& post.stored_share_blob() == m.secret_key_share->0
                    &&& post.spec_id() == pre.spec_id()
                    &&& out is KeysSynced
                } else {
                    post == pre && out is MalformedMessage
                }
            } else if is_request(m) {
                post == pre && out is UnprovisionedWorker
            } else {
                post == pre && out is MalformedMessage
            }
        },
        Option::None => post == pre && out is MalformedMessage,
    }
}

} // verus!
