//! The coordinator's key lifecycle and decryption orchestration.
//!
//! At construction the coordinator draws a fresh secret-sharing polynomial,
//! derives one secret key share per worker, prepares the key-sync payloads
//! and then drops the secret set: only the public key set, the signing key
//! pair and the pending payloads remain. Decryption builds a signed,
//! framed request for the fan-out exchange and collects partial
//! decryptions into a round that counts each worker id once.

use vstd::bytes::spec_u64_from_le_bytes;
use vstd::pervasive::VecAdditionalExecFns;
use vstd::prelude::*;
use vstd::string::StringExecFns;

use crate::codec::{
    decode_partial, encode_message, is_key_sync, is_request, lemma_message_round_trip,
    parse_message, spec_message_bytes, DecryptionServerMessage, MessageModel,
};
use crate::cryptography_service::CryptographyServiceError;
use crate::crypto::{
    ciphertext_from_bytes, ciphertext_parses, ciphertext_to_bytes, decryption_share_from_bytes,
    decryption_share_parses, ed25519_verifies, encrypt_with, fresh_secret_key_set,
    fresh_signing_key_pair, public_key_bytes_of, public_key_set_of, secret_key_share_of,
    secret_key_share_to_bytes, signing_public_key_bytes,
};
use crate::framing::{frame_signed, spec_framed};

verus! {

/// Maximum time in seconds the coordinator waits for enough partial
/// decryptions before a decryption fails.
pub const COLLECT_TIMEOUT_SECS: u64 = 10;

/// Why the coordinator could not be constructed.
#[derive(Debug)]
pub enum PairingCryptographyServiceError {
    InvalidInitialization(String),
}

impl PairingCryptographyServiceError {
    /// The rendered error text: a fixed prefix, then the detail.
    pub open spec fn spec_message(&self) -> Seq<char> {
        match self {
            PairingCryptographyServiceError::InvalidInitialization(d) => {
                "Unable to initialize instance. "@ + d@
            },
        }
    }

    /// Renders the error text.
    pub fn message(&self) -> (r: String)
        ensures
            r@ == self.spec_message(),
    {
        match self {
            PairingCryptographyServiceError::InvalidInitialization(d) => String::from_str(
                "Unable to initialize instance. ",
            ).concat(d.as_str()),
        }
    }
}

/// The wire payload of the key-sync message for one worker: no ciphertext,
/// no timestamp, the coordinator's signing public key, and some secret key
/// share blob in the threshold-crypto library's own encoding.
pub open spec fn is_key_sync_payload(bytes: Seq<u8>, signing_pk: Seq<u8>) -> bool {
    exists|blob: Seq<u8>|
        blob.len() <= u64::MAX && bytes == spec_message_bytes(
            MessageModel {
                cipher_text: Option::None,
                public_key: Option::Some(signing_pk),
                secret_key_share: Option::Some(blob),
                timestamp: Option::None,
            },
        )
}

/// The wire payload of a decryption request for ciphertext bytes `ct`
/// stamped at `now`.
pub open spec fn request_payload(ct: Seq<u8>, now: u64) -> Seq<u8> {
    spec_message_bytes(
        MessageModel {
            cipher_text: Option::Some(ct),
            public_key: Option::None,
            secret_key_share: Option::None,
            timestamp: Option::Some(now),
        },
    )
}

/// The coordinator. It retains no secret key set: the per-worker shares
/// exist only inside the pending key-sync payloads, which `propagate_keys`
/// hands out once.
pub struct PairingCryptographyService {
    n_servers: usize,
    threshold: usize,
    public_key_set: threshold_crypto::PublicKeySet,
    public_key_bytes: Vec<u8>,
    key_pair: ring::signature::Ed25519KeyPair,
    signing_public_key: Vec<u8>,
    pending_key_sync: Vec<Vec<u8>>,
}

impl PairingCryptographyService {
    /// Number of decryption workers.
    pub closed spec fn spec_n_servers(&self) -> usize {
        self.n_servers
    }

    /// The threshold `t`: `t + 1` distinct shares decrypt.
    pub closed spec fn spec_threshold(&self) -> usize {
        self.threshold
    }

    /// The raw 32-byte public half of the request-signing key.
    pub closed spec fn spec_signing_public_key(&self) -> Seq<u8> {
        self.signing_public_key@
    }

    /// The 48-byte encoding of the master public key, fixed at
    /// construction.
    pub closed spec fn spec_public_key_bytes(&self) -> Seq<u8> {
        self.public_key_bytes@
    }

    /// The public key set fixed at construction.
    pub closed spec fn spec_public_key_set(&self) -> threshold_crypto::PublicKeySet {
        self.public_key_set
    }

    /// The signing key pair fixed at construction.
    pub closed spec fn spec_key_pair(&self) -> ring::signature::Ed25519KeyPair {
        self.key_pair
    }

    /// The key-sync payloads not yet handed to the broker, one per worker,
    /// indexed by worker id.
    pub closed spec fn spec_pending_key_sync(&self) -> Seq<Seq<u8>> {
        Seq::new(self.pending_key_sync@.len(), |i: int| self.pending_key_sync@[i]@)
    }

    /// Invariants established at construction: valid parameters, a 32-byte
    /// signing public key, and every pending payload a key-sync message
    /// carrying that key.
    pub closed spec fn wf(&self) -> bool {
        &&& 1 <= self.threshold
        &&& self.threshold < self.n_servers
        &&& self.signing_public_key@.len() == 32
        &&& self.public_key_bytes@.len() == 48
        &&& forall|i: int|
            0 <= i < self.pending_key_sync@.len() ==> is_key_sync_payload(
                #[trigger] self.pending_key_sync@[i]@,
                self.signing_public_key@,
            )
    }

    /// Builds a coordinator for `n_servers` workers at threshold
    /// `threshold`. Succeeds exactly when `n_servers > threshold >= 1`;
    /// the fresh key material and the key-sync payload of every worker are
    /// prepared here, and the secret key set is dropped before returning.
    pub fn new(n_servers: usize, threshold: usize) -> (r: Result<
        PairingCryptographyService,
        PairingCryptographyServiceError,
    >)
        ensures
            r is Ok <==> 1 <= threshold < n_servers,
            r matches Ok(s) ==> {
                &&& s.wf()
                &&& s.spec_n_servers() == n_servers
                &&& s.spec_threshold() == threshold
                &&& s.spec_pending_key_sync().len() == n_servers
            },
            r matches Err(e) ==> e is InvalidInitialization,
    {
        if threshold < 1 {
            return Result::Err(
                PairingCryptographyServiceError::InvalidInitialization(
                    String::from_str("Threshold must be at least one."),
                ),
            );
        }
        if n_servers <= threshold {
            return Result::Err(
                PairingCryptographyServiceError::InvalidInitialization(
                    String::from_str(
                        "Number of servers must be greater by one to the threshold.",
                    ),
                ),
            );
        }
        let secret_key_set = fresh_secret_key_set(threshold);
        let public_key_set = public_key_set_of(&secret_key_set);
        let public_key_bytes = public_key_bytes_of(&public_key_set);
        let key_pair = fresh_signing_key_pair();
        let signing_public_key = signing_public_key_bytes(&key_pair);
        let mut pending_key_sync: Vec<Vec<u8>> = Vec::new();
        let mut id: usize = 0;
        while id < n_servers
            invariant
                id <= n_servers,
                pending_key_sync@.len() == id,
                signing_public_key@.len() == 32,
                forall|i: int|
                    0 <= i < id ==> is_key_sync_payload(
                        #[trigger] pending_key_sync@[i]@,
                        signing_public_key@,
                    ),
            decreases n_servers - id,
        {
            let share = secret_key_share_of(&secret_key_set, id);
            let blob = secret_key_share_to_bytes(&share);
            let blob_len: usize = blob.len();
            let message = DecryptionServerMessage {
                cipher_text: Option::None,
                public_key: Option::Some(vstd::slice::slice_to_vec(signing_public_key.as_slice())),
                secret_key_share: Option::Some(blob),
                timestamp: Option::None,
            };
            let payload = encode_message(&message);
            proof {
                assert(blob_len <= u64::MAX);
                assert(is_key_sync_payload(payload@, signing_public_key@));
            }
            pending_key_sync.push(payload);
            id = id + 1;
        }
        Result::Ok(
            PairingCryptographyService {
                n_servers,
                threshold,
                public_key_set,
                public_key_bytes,
                key_pair,
                signing_public_key,
                pending_key_sync,
            },
        )
    }

    /// Number of decryption workers.
    pub fn n_servers(&self) -> (r: usize)
        ensures
            r == self.spec_n_servers(),
    {
        self.n_servers
    }

    /// The threshold `t`.
    pub fn threshold(&self) -> (r: usize)
        ensures
            r == self.spec_threshold(),
    {
        self.threshold
    }

    /// The raw public half of the request-signing key, as broadcast to the
    /// workers during key sync.
    pub fn signing_public_key(&self) -> (r: &Vec<u8>)
        ensures
            r@ == self.spec_signing_public_key(),
    {
        &self.signing_public_key
    }

    /// Hands out the pending key-sync payloads, one per worker id in order,
    /// and forgets them: a second call returns nothing, so the shares are
    /// distributed at most once. The caller publishes payload `i` on the
    /// secrets exchange under worker `i`'s routing key, unsigned.
    pub fn propagate_keys(&mut self) -> (r: Vec<Vec<u8>>)
        requires
            old(self).wf(),
        ensures
            final(self).wf(),
            r@.len() == old(self).spec_pending_key_sync().len(),
            forall|i: int|
                0 <= i < r@.len() ==> (#[trigger] r@[i])@ == old(self).spec_pending_key_sync()[i],
            final(self).spec_pending_key_sync().len() == 0,
            final(self).spec_n_servers() == old(self).spec_n_servers(),
            final(self).spec_threshold() == old(self).spec_threshold(),
            final(self).spec_signing_public_key() == old(self).spec_signing_public_key(),
            final(self).spec_public_key_bytes() == old(self).spec_public_key_bytes(),
            final(self).spec_public_key_set() == old(self).spec_public_key_set(),
            final(self).spec_key_pair() == old(self).spec_key_pair(),
            forall|i: int|
                0 <= i < r@.len() ==> is_key_sync_payload(
                    (#[trigger] r@[i])@,
                    old(self).spec_signing_public_key(),
                ),
    {
        let mut out: Vec<Vec<u8>> = Vec::new();
        core::mem::swap(&mut out, &mut self.pending_key_sync);
        out
    }

    /// The serialized master public key, the same 48 bytes fixed at
    /// construction on every call; always available.
    pub fn share_public_key(&self) -> (r: Result<Vec<u8>, CryptographyServiceError>)
        requires
            self.wf(),
        ensures
            r matches Ok(pk) && pk@ == self.spec_public_key_bytes() && pk@.len() == 48,
    {
        Result::Ok(vstd::slice::slice_to_vec(self.public_key_bytes.as_slice()))
    }

    /// Encrypts the UTF-8 bytes of `message` under the master public key
    /// and serializes the ciphertext; always succeeds, and the bytes
    /// handed out parse back as a ciphertext, so a decryption of them can
    /// begin. Encryption is randomized, so the value itself is unstated.
    pub fn encrypt_message(&self, message: String) -> (r: Result<
        Vec<u8>,
        CryptographyServiceError,
    >)
        ensures
            r matches Ok(ct) && ciphertext_parses(ct@),
    {
        let ciphertext = encrypt_with(&self.public_key_set, message.as_str().as_bytes());
        Result::Ok(ciphertext_to_bytes(&ciphertext))
    }

    /// Starts one decryption: parses the ciphertext, stamps it `now`,
    /// signs the request and frames it as `signature || payload`. Returns
    /// the collection round and the framed request to publish on the
    /// fan-out exchange, whose signature prefix verifies under the
    /// coordinator's signing public key; fails exactly when the ciphertext
    /// bytes do not parse, the one per-request error the coordinator
    /// itself decides.
    pub fn begin_decrypt(&self, message: Vec<u8>, now: u64) -> (r: Result<
        (DecryptionRound, Vec<u8>),
        CryptographyServiceError,
    >)
        requires
            self.wf(),
        ensures
            r is Ok <==> ciphertext_parses(message@),
            r matches Ok(started) ==> {
                &&& started.0.wf()
                &&& started.0.spec_threshold() == self.spec_threshold()
                &&& started.0.collected_ids() == Seq::<usize>::empty()
                &&& started.1@.len() >= 64
                &&& started.1@.skip(64) == request_payload(message@, now)
                &&& ed25519_verifies(
                    self.spec_signing_public_key(),
                    started.1@.skip(64),
                    started.1@.subrange(0, 64),
                )
            },
            r matches Err(e) ==> e is DecryptionError,
    {
        let ciphertext = match ciphertext_from_bytes(message.as_slice()) {
            Option::Some(c) => c,
            Option::None => {
                return Result::Err(
                    CryptographyServiceError::DecryptionError(
                        String::from_str("Invalid or broken ciphertext encoding."),
                    ),
                );
            },
        };
        let request = DecryptionServerMessage {
            cipher_text: Option::Some(message),
            public_key: Option::None,
            secret_key_share: Option::None,
            timestamp: Option::Some(now),
        };
        let payload = encode_message(&request);
        let signature = self.sign_request(payload.as_slice());
        let wire = frame_signed(&signature, &payload);
        proof {
            assert(wire@.skip(64) =~= payload@);
            assert(wire@.subrange(0, 64) =~= signature@);
        }
        let round = DecryptionRound {
            threshold: self.threshold,
            ciphertext,
            shares: Vec::new(),
        };
        proof {
            assert(round.collected_ids() =~= Seq::<usize>::empty());
        }
        Result::Ok((round, wire))
    }

    /// Signs a request payload with the coordinator's key pair. Relies on
    /// ring's Ed25519KeyPair::sign and on RFC 8032: a pair's signatures
    /// verify under its own public key, whose raw bytes the constructor
    /// stored beside the pair; the body checks the claim by verifying the
    /// signature it returns.
    #[verifier::external_body]
    fn sign_request(&self, payload: &[u8]) -> (r: Vec<u8>)
        ensures
            r@.len() == 64,
            ed25519_verifies(self.spec_signing_public_key(), payload@, r@),
    {
        let signature = self.key_pair.sign(payload).as_ref().to_vec();
        ring::signature::UnparsedPublicKey::new(
            &ring::signature::ED25519,
            &self.signing_public_key,
        ).verify(payload, &signature).expect("a fresh signature verifies under its public key");
        signature
    }

    /// Combines shares with the stored public key set. Relies on
    /// threshold_crypto::PublicKeySet::decrypt: its source errors exactly
    /// on a duplicate evaluation point or on fewer than `threshold + 1`
    /// shares, distinct ids give distinct points (the field's modulus is
    /// above `u64::MAX`), and the stored key set carries this service's
    /// threshold, fixed together at construction — the body checks that;
    /// the combined value is correct only if the shares are.
    #[verifier::external_body]
    fn combine(
        &self,
        shares: &Vec<(usize, threshold_crypto::DecryptionShare)>,
        ct: &threshold_crypto::Ciphertext,
    ) -> (r: Result<Vec<u8>, String>)
        ensures
            ((forall|i: int, j: int|
                0 <= i < j < shares@.len() ==> (#[trigger] shares@[i]).0 != (
                #[trigger] shares@[j]).0) && shares@.len() >= self.spec_threshold() + 1) ==> r
                is Ok,
    {
        (self.public_key_set.threshold() == self.threshold).then_some(()).expect(
            "the stored key set carries the service's threshold",
        );
        self.public_key_set.decrypt(shares.iter().map(|p| (p.0, &p.1)), ct).map_err(
            |e| format!("{}", e),
        )
    }

    /// Combines a round's collected shares into the plaintext. A round
    /// that collected at least `threshold + 1` distinct shares combines
    /// successfully; the plaintext is right exactly when the shares were
    /// honest, which only the cryptographic primitive warrants.
    pub fn complete_decryption(&self, round: DecryptionRound) -> (r: Result<
        Vec<u8>,
        CryptographyServiceError,
    >)
        requires
            round.wf(),
            round.spec_threshold() == self.spec_threshold(),
        ensures
            round.count() >= self.spec_threshold() + 1 ==> r is Ok,
            r matches Err(e) ==> e is DecryptionError,
    {
        match self.combine(&round.shares, &round.ciphertext) {
            Result::Ok(plaintext) => Result::Ok(plaintext),
            Result::Err(detail) => Result::Err(
                CryptographyServiceError::DecryptionError(detail),
            ),
        }
    }
}

/// A delivery from the partials exchange that a round can count: long
/// enough to carry the id prefix, an id that fits `usize`, and share
/// bytes in the threshold-crypto library's encoding.
pub open spec fn well_formed_partial(content: Seq<u8>) -> bool {
    &&& content.len() >= 8
    &&& spec_u64_from_le_bytes(content.subrange(0, 8)) <= usize::MAX
    &&& decryption_share_parses(content.skip(8))
}

/// What a collection round did with one delivery from the partials
/// exchange.
pub enum AbsorbOutcome {
    /// A share from a worker not yet counted.
    Accepted,
    /// A duplicate worker id: the share is overwritten, the count stands.
    Replaced,
    /// The delivery was not a well-formed partial decryption; it is
    /// discarded and collection continues.
    Malformed,
}

/// One decryption's share collection: the parsed ciphertext and the
/// partial decryptions received so far, at most one per worker id.
pub struct DecryptionRound {
    threshold: usize,
    ciphertext: threshold_crypto::Ciphertext,
    shares: Vec<(usize, threshold_crypto::DecryptionShare)>,
}

impl DecryptionRound {
    /// The round's threshold `t`.
    pub closed spec fn spec_threshold(&self) -> usize {
        self.threshold
    }

    /// The worker ids of the shares collected so far, in arrival order.
    pub closed spec fn collected_ids(&self) -> Seq<usize> {
        self.shares@.map_values(|p: (usize, threshold_crypto::DecryptionShare)| p.0)
    }

    /// How many distinct workers have contributed.
    pub open spec fn count(&self) -> nat {
        self.collected_ids().len()
    }

    /// Whether worker `id` has already contributed.
    pub open spec fn has_share(&self, id: usize) -> bool {
        self.collected_ids().contains(id)
    }

    /// Each worker id is counted at most once, and the threshold leaves
    /// room for the `threshold + 1` comparison.
    pub closed spec fn wf(&self) -> bool {
        &&& self.threshold < usize::MAX
        &&& forall|i: int, j: int|
            0 <= i < j < self.shares@.len() ==> (#[trigger] self.shares@[i]).0 != (
            #[trigger] self.shares@[j]).0
    }

    /// Whether `threshold + 1` distinct workers have contributed, which is
    /// when collection may stop and combination succeeds on correct
    /// shares.
    pub fn has_enough(&self) -> (r: bool)
        requires
            self.wf(),
        ensures
            r == (self.count() >= self.spec_threshold() + 1),
    {
        self.shares.len() >= self.threshold + 1
    }

    /// Absorbs one delivery from the partials exchange. A delivery is
    /// malformed — and changes nothing — exactly when it is shorter than
    /// the id prefix, its id overflows `usize`, or its share bytes do not
    /// parse; a duplicate id overwrites the stored share but never
    /// inflates the count; a new id raises the count by exactly one.
    pub fn absorb(&mut self, content: &Vec<u8>) -> (out: AbsorbOutcome)
        requires
            old(self).wf(),
        ensures
            final(self).wf(),
            final(self).spec_threshold() == old(self).spec_threshold(),
            match out {
                AbsorbOutcome::Accepted => {
                    &&& well_formed_partial(content@)
                    &&& !old(self).has_share(
                        (spec_u64_from_le_bytes(content@.subrange(0, 8)) as usize),
                    )
                    &&& final(self).collected_ids() == old(self).collected_ids().push(
                        (spec_u64_from_le_bytes(content@.subrange(0, 8)) as usize),
                    )
                },
                AbsorbOutcome::Replaced => {
                    &&& well_formed_partial(content@)
                    &&& old(self).has_share(
                        (spec_u64_from_le_bytes(content@.subrange(0, 8)) as usize),
                    )
                    &&& final(self).collected_ids() == old(self).collected_ids()
                },
                AbsorbOutcome::Malformed => {
                    &&& !well_formed_partial(content@)
                    &&& final(self).collected_ids() == old(self).collected_ids()
                },
            },
            final(self).count() == old(self).count() + (
            if out is Accepted {
                1int
            } else {
                0int
            }),
    {
        let (id64, share_bytes) = match decode_partial(content) {
            Option::Some(p) => p,
            Option::None => {
                return AbsorbOutcome::Malformed;
            },
        };
        if id64 > (usize::MAX as u64) {
            return AbsorbOutcome::Malformed;
        }
        let id = id64 as usize;
        let share = match decryption_share_from_bytes(share_bytes.as_slice()) {
            Option::Some(s) => s,
            Option::None => {
                return AbsorbOutcome::Malformed;
            },
        };
        let ghost pre_ids = self.collected_ids();
        let mut i: usize = 0;
        while i < self.shares.len()
            invariant
                i <= self.shares@.len(),
                old(self).wf(),
                *self == *old(self),
                pre_ids == self.collected_ids(),
                content@.len() >= 8,
                id64 == spec_u64_from_le_bytes(content@.subrange(0, 8)),
                id64 <= usize::MAX,
                id == id64 as usize,
                decryption_share_parses(content@.skip(8)),
                forall|j: int| 0 <= j < i ==> (#[trigger] self.shares@[j]).0 != id,
            decreases self.shares@.len() - i,
        {
            if self.shares[i].0 == id {
                proof {
                    assert(pre_ids[i as int] == id);
                    assert(pre_ids.contains(id));
                }
                self.shares.set(i, (id, share));
                proof {
                    assert forall|a: int, b: int|
                        0 <= a < b < self.shares@.len() implies (#[trigger] self.shares@[a]).0 != (
                    #[trigger] self.shares@[b]).0 by {
                        assert((self.shares@[a]).0 == (old(self).shares@[a]).0);
                        assert((self.shares@[b]).0 == (old(self).shares@[b]).0);
                    }
                    assert(self.collected_ids() =~= pre_ids);
                }
                return AbsorbOutcome::Replaced;
            }
            i = i + 1;
        }
        proof {
            if pre_ids.contains(id) {
                let j = choose|j: int| 0 <= j < pre_ids.len() && pre_ids[j] == id;
                assert((self.shares@[j]).0 == id);
                assert(false);
            }
        }
        self.shares.push((id, share));
        proof {
            assert(self.collected_ids() =~= pre_ids.push(id));
        }
        AbsorbOutcome::Accepted
    }

    /// The collection deadline has passed: succeed if enough distinct
    /// workers contributed, otherwise fail with the timeout error text.
    pub fn deadline_outcome(&self) -> (r: Result<(), CryptographyServiceError>)
        requires
            self.wf(),
        ensures
            r is Ok <==> self.count() >= self.spec_threshold() + 1,
            r matches Err(e) ==> e matches CryptographyServiceError::DecryptionError(d) && d@
                == "Not enough available Decryption Servers."@,
    {
        if self.has_enough() {
            Result::Ok(())
        } else {
            Result::Err(
                CryptographyServiceError::DecryptionError(
                    String::from_str("Not enough available Decryption Servers."),
                ),
            )
        }
    }
}

/// Request round-trip through the protocol: stripping the 64-byte
/// signature prefix from a framed request and parsing the payload, as a
/// provisioned worker does, yields exactly the request that was framed:
/// the ciphertext bytes and the timestamp survive unchanged.
pub proof fn lemma_request_round_trip(sig: Seq<u8>, ct: Seq<u8>, now: u64)
    requires
        sig.len() == 64,
        ct.len() <= u64::MAX,
    ensures
        ({
            let m = parse_message(spec_framed(sig, request_payload(ct, now)).skip(64));
            &&& m matches Option::Some(req)
            &&& is_request(req)
            &&& req.cipher_text == Option::Some(ct)
            &&& req.timestamp == Option::Some(now)
        }),
{
    let payload = request_payload(ct, now);
    crate::framing::lemma_framing_round_trip(sig, payload);
    let model = MessageModel {
        cipher_text: Option::Some(ct),
        public_key: Option::None,
        secret_key_share: Option::None,
        timestamp: Option::Some(now),
    };
    assert(payload + Seq::<u8>::empty() =~= payload);
    lemma_message_round_trip(model, Seq::<u8>::empty());
}

/// Key-sync round-trip through the protocol: every pending key-sync
/// payload the coordinator prepared parses, on an unprovisioned worker, to
/// a key-sync message carrying exactly the coordinator's signing public
/// key.
pub proof fn lemma_key_sync_round_trip(bytes: Seq<u8>, signing_pk: Seq<u8>)
    requires
        is_key_sync_payload(bytes, signing_pk),
        signing_pk.len() <= u64::MAX,
    ensures
        ({
            let m = parse_message(bytes);
            &&& m matches Option::Some(sync)
            &&& is_key_sync(sync)
            &&& sync.public_key == Option::Some(signing_pk)
        }),
{
    let blob = choose|blob: Seq<u8>|
        blob.len() <= u64::MAX && bytes == spec_message_bytes(
            MessageModel {
                cipher_text: Option::None,
                public_key: Option::Some(signing_pk),
                secret_key_share: Option::Some(blob),
                timestamp: Option::None,
            },
        );
    let model = MessageModel {
        cipher_text: Option::None,
        public_key: Option::Some(signing_pk),
        secret_key_share: Option::Some(blob),
        timestamp: Option::None,
    };
    assert(spec_message_bytes(model) + Seq::<u8>::empty() =~= spec_message_bytes(model));
    lemma_message_round_trip(model, Seq::<u8>::empty());
}

} // verus!
