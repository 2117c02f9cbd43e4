//! Signature framing of decryption requests.
//!
//! A decryption request travels on the broker as `signature || payload`,
//! where the signature is the 64-byte Ed25519 signature over the payload
//! bytes. All other broker messages are unframed.

use vstd::prelude::*;
use vstd::slice::{slice_subrange, slice_to_vec};

verus! {

/// Length in bytes of an Ed25519 signature (RFC 8032).
pub const SIGNATURE_LEN: usize = 64;

/// The framed form of a signed payload: the signature bytes followed by the
/// payload bytes.
pub open spec fn spec_framed(sig: Seq<u8>, payload: Seq<u8>) -> Seq<u8> {
    sig + payload
}

/// Prepends a 64-byte signature to the payload it signs.
pub fn frame_signed(signature: &Vec<u8>, payload: &Vec<u8>) -> (r: Vec<u8>)
    requires
        signature@.len() == SIGNATURE_LEN,
    ensures
        r@ == spec_framed(signature@, payload@),
{
    let mut out: Vec<u8> = slice_to_vec(signature.as_slice());
    let mut tail: Vec<u8> = slice_to_vec(payload.as_slice());
    out.append(&mut tail);
    out
}

/// Splits a framed message into its 64-byte signature prefix and the signed
/// payload. Returns `None` exactly when the message is too short to carry a
/// signature.
pub fn split_signed(content: &Vec<u8>) -> (r: Option<(Vec<u8>, Vec<u8>)>)
    ensures
        match r {
            Some(parts) => {
                &&& content@.len() >= SIGNATURE_LEN
                &&& parts.0@ == content@.subrange(0, SIGNATURE_LEN as int)
                &&& parts.1@ == content@.skip(SIGNATURE_LEN as int)
                &&& content@ == spec_framed(parts.0@, parts.1@)
            },
            None => content@.len() < SIGNATURE_LEN,
        },
{
    if content.len() < SIGNATURE_LEN {
        return None;
    }
    let sig: Vec<u8> = slice_to_vec(slice_subrange(content.as_slice(), 0, SIGNATURE_LEN));
    let payload: Vec<u8> = slice_to_vec(
        slice_subrange(content.as_slice(), SIGNATURE_LEN, content.len()),
    );
    proof {
        assert(content@ =~= sig@ + payload@);
    }
    Some((sig, payload))
}

/// Framing round-trip: splitting `signature || payload` returns exactly the
/// signature and the payload that were framed.
pub proof fn lemma_framing_round_trip(sig: Seq<u8>, payload: Seq<u8>)
    requires
        sig.len() == SIGNATURE_LEN,
    ensures
        spec_framed(sig, payload).subrange(0, SIGNATURE_LEN as int) == sig,
        spec_framed(sig, payload).skip(SIGNATURE_LEN as int) == payload,
{
    assert(spec_framed(sig, payload).subrange(0, SIGNATURE_LEN as int) =~= sig);
    assert(spec_framed(sig, payload).skip(SIGNATURE_LEN as int) =~= payload);
}

} // verus!
