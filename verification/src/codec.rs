//! Wire codec for the broker messages shared by coordinator and workers.
//!
//! Every message is serialized with a deterministic length-prefixed binary
//! layout: a nullable field carries a one-byte discriminator (`0` absent, `1`
//! present), byte-string fields carry a little-endian 64-bit length prefix,
//! and integers are 64-bit little-endian. A decoder reads a prefix of its
//! input and tolerates trailing bytes, so a framed or padded carrier does not
//! change the parse.
//!
//! The payloads inside the `cipher_text`, `secret_key_share` and
//! `decryption_share` fields use the threshold-crypto library's own codec and
//! pass through here as opaque byte strings.

use vstd::bytes::{
    lemma_auto_spec_u64_to_from_le_bytes, spec_u64_from_le_bytes, spec_u64_to_le_bytes,
    u64_from_le_bytes, u64_to_le_bytes,
};
use vstd::prelude::*;
use vstd::slice::{slice_subrange, slice_to_vec};

verus! {

/// The four-field record exchanged between coordinator and workers. The
/// combination of present fields selects the interpretation: a ciphertext
/// with a timestamp is a decryption request; a public key with a secret key
/// share is a key-sync message; everything else is invalid.
pub struct DecryptionServerMessage {
    pub cipher_text: Option<Vec<u8>>,
    pub public_key: Option<Vec<u8>>,
    pub secret_key_share: Option<Vec<u8>>,
    pub timestamp: Option<u64>,
}

/// Mathematical model of a broker message: each byte-string field as a
/// sequence.
pub struct MessageModel {
    pub cipher_text: Option<Seq<u8>>,
    pub public_key: Option<Seq<u8>>,
    pub secret_key_share: Option<Seq<u8>>,
    pub timestamp: Option<u64>,
}

pub open spec fn view_opt_bytes(o: Option<Vec<u8>>) -> Option<Seq<u8>> {
    match o {
        Option::None => Option::None,
        Option::Some(v) => Option::Some(v@),
    }
}

impl View for DecryptionServerMessage {
    type V = MessageModel;

    open spec fn view(&self) -> MessageModel {
        MessageModel {
            cipher_text: view_opt_bytes(self.cipher_text),
            public_key: view_opt_bytes(self.public_key),
            secret_key_share: view_opt_bytes(self.secret_key_share),
            timestamp: self.timestamp,
        }
    }
}

/// A decryption request: a ciphertext and a timestamp, nothing else.
pub open spec fn is_request(m: MessageModel) -> bool {
    &&& m.cipher_text is Some
    &&& m.public_key is None
    &&& m.secret_key_share is None
    &&& m.timestamp is Some
}

/// A key-sync message: a signing public key and a secret key share, nothing
/// else.
pub open spec fn is_key_sync(m: MessageModel) -> bool {
    &&& m.cipher_text is None
    &&& m.public_key is Some
    &&& m.secret_key_share is Some
    &&& m.timestamp is None
}

/// Encoding of one nullable byte-string field: a one-byte discriminator,
/// then a 64-bit little-endian length prefix and the bytes when present.
pub open spec fn spec_opt_bytes(o: Option<Seq<u8>>) -> Seq<u8> {
    match o {
        Option::None => seq![0u8],
        Option::Some(b) => seq![1u8] + spec_u64_to_le_bytes(b.len() as u64) + b,
    }
}

/// Encoding of one nullable 64-bit integer field.
pub open spec fn spec_opt_u64(o: Option<u64>) -> Seq<u8> {
    match o {
        Option::None => seq![0u8],
        Option::Some(n) => seq![1u8] + spec_u64_to_le_bytes(n),
    }
}

/// The full wire encoding of a broker message: its four fields in order.
pub open spec fn spec_message_bytes(m: MessageModel) -> Seq<u8> {
    spec_opt_bytes(m.cipher_text) + spec_opt_bytes(m.public_key) + spec_opt_bytes(
        m.secret_key_share,
    ) + spec_opt_u64(m.timestamp)
}

/// Parses one nullable byte-string field from a prefix of `bytes`; returns
/// the field and the number of bytes consumed.
pub open spec fn parse_opt_bytes(bytes: Seq<u8>) -> Option<(Option<Seq<u8>>, int)> {
    if bytes.len() < 1 {
        Option::None
    } else if bytes[0] == 0u8 {
        Option::Some((Option::None, 1int))
    } else if bytes[0] == 1u8 {
        if bytes.len() < 9 {
            Option::None
        } else {
            let n = spec_u64_from_le_bytes(bytes.subrange(1, 9)) as int;
            if bytes.len() < 9 + n {
                Option::None
            } else {
                Option::Some((Option::Some(bytes.subrange(9, 9 + n)), 9 + n))
            }
        }
    } else {
        Option::None
    }
}

/// Parses one nullable 64-bit integer field from a prefix of `bytes`.
pub open spec fn parse_opt_u64(bytes: Seq<u8>) -> Option<(Option<u64>, int)> {
    if bytes.len() < 1 {
        Option::None
    } else if bytes[0] == 0u8 {
        Option::Some((Option::None, 1int))
    } else if bytes[0] == 1u8 {
        if bytes.len() < 9 {
            Option::None
        } else {
            Option::Some((Option::Some(spec_u64_from_le_bytes(bytes.subrange(1, 9))), 9int))
        }
    } else {
        Option::None
    }
}

/// Parses a broker message from a prefix of `bytes`, ignoring trailing
/// bytes.
pub open spec fn parse_message(bytes: Seq<u8>) -> Option<MessageModel> {
    match parse_opt_bytes(bytes) {
        Option::None => Option::None,
        Option::Some((ct, n1)) => match parse_opt_bytes(bytes.skip(n1)) {
            Option::None => Option::None,
            Option::Some((pk, n2)) => match parse_opt_bytes(bytes.skip(n1 + n2)) {
                Option::None => Option::None,
                Option::Some((sk, n3)) => match parse_opt_u64(bytes.skip(n1 + n2 + n3)) {
                    Option::None => Option::None,
                    Option::Some((ts, _n4)) => Option::Some(
                        MessageModel {
                            cipher_text: ct,
                            public_key: pk,
                            secret_key_share: sk,
                            timestamp: ts,
                        },
                    ),
                },
            },
        },
    }
}

proof fn lemma_parse_opt_bytes_round_trip(o: Option<Seq<u8>>, tail: Seq<u8>)
    requires
        o matches Option::Some(b) ==> b.len() <= u64::MAX,
    ensures
        parse_opt_bytes(spec_opt_bytes(o) + tail) == Option::Some(
            (o, spec_opt_bytes(o).len() as int),
        ),
{
    lemma_auto_spec_u64_to_from_le_bytes();
    match o {
        Option::None => {
            assert((spec_opt_bytes(o) + tail)[0] == 0u8);
        },
        Option::Some(b) => {
            let enc = spec_opt_bytes(o) + tail;
            let lenb = spec_u64_to_le_bytes(b.len() as u64);
            assert(enc[0] == 1u8);
            assert(enc.len() == 9 + b.len() + tail.len());
            assert(enc.subrange(1, 9) =~= lenb);
            assert(spec_u64_from_le_bytes(enc.subrange(1, 9)) == b.len() as u64);
            assert(enc.subrange(9, 9 + b.len() as int) =~= b);
        },
    }
}

proof fn lemma_parse_opt_u64_round_trip(o: Option<u64>, tail: Seq<u8>)
    ensures
        parse_opt_u64(spec_opt_u64(o) + tail) == Option::Some((o, spec_opt_u64(o).len() as int)),
{
    lemma_auto_spec_u64_to_from_le_bytes();
    match o {
        Option::None => {
            assert((spec_opt_u64(o) + tail)[0] == 0u8);
        },
        Option::Some(n) => {
            let enc = spec_opt_u64(o) + tail;
            assert(enc[0] == 1u8);
            assert(enc.subrange(1, 9) =~= spec_u64_to_le_bytes(n));
        },
    }
}

/// A message model whose byte-string fields fit the 64-bit length prefixes.
/// Every message built from in-memory vectors satisfies this.
pub open spec fn encodable(m: MessageModel) -> bool {
    &&& (m.cipher_text matches Option::Some(b) ==> b.len() <= u64::MAX)
    &&& (m.public_key matches Option::Some(b) ==> b.len() <= u64::MAX)
    &&& (m.secret_key_share matches Option::Some(b) ==> b.len() <= u64::MAX)
}

/// Codec round-trip: parsing an encoded message, with any trailing bytes,
/// returns exactly the fields that were encoded.
pub proof fn lemma_message_round_trip(m: MessageModel, tail: Seq<u8>)
    requires
        encodable(m),
    ensures
        parse_message(spec_message_bytes(m) + tail) == Option::Some(m),
{
    let e1 = spec_opt_bytes(m.cipher_text);
    let e2 = spec_opt_bytes(m.public_key);
    let e3 = spec_opt_bytes(m.secret_key_share);
    let e4 = spec_opt_u64(m.timestamp);
    let all = spec_message_bytes(m) + tail;
    assert(all =~= e1 + (e2 + e3 + e4 + tail));
    lemma_parse_opt_bytes_round_trip(m.cipher_text, e2 + e3 + e4 + tail);
    assert(all.skip(e1.len() as int) =~= e2 + (e3 + e4 + tail));
    lemma_parse_opt_bytes_round_trip(m.public_key, e3 + e4 + tail);
    assert(all.skip(e1.len() + e2.len() as int) =~= e3 + (e4 + tail));
    lemma_parse_opt_bytes_round_trip(m.secret_key_share, e4 + tail);
    assert(all.skip(e1.len() + e2.len() + e3.len() as int) =~= e4 + tail);
    lemma_parse_opt_u64_round_trip(m.timestamp, tail);
}

fn push_opt_bytes(out: &mut Vec<u8>, o: &Option<Vec<u8>>)
    ensures
        final(out)@ == old(out)@ + spec_opt_bytes(view_opt_bytes(*o)),
{
    match o {
        Option::None => {
            out.push(0u8);
            assert(out@ =~= old(out)@ + spec_opt_bytes(view_opt_bytes(*o)));
        },
        Option::Some(b) => {
            out.push(1u8);
            let mut len_bytes = u64_to_le_bytes(b.len() as u64);
            out.append(&mut len_bytes);
            let mut body = slice_to_vec(b.as_slice());
            out.append(&mut body);
            assert(out@ =~= old(out)@ + spec_opt_bytes(view_opt_bytes(*o)));
        },
    }
}

fn push_opt_u64(out: &mut Vec<u8>, o: &Option<u64>)
    ensures
        final(out)@ == old(out)@ + spec_opt_u64(*o),
{
    match o {
        Option::None => {
            out.push(0u8);
            assert(out@ =~= old(out)@ + spec_opt_u64(*o));
        },
        Option::Some(n) => {
            out.push(1u8);
            let mut body = u64_to_le_bytes(*n);
            out.append(&mut body);
            assert(out@ =~= old(out)@ + spec_opt_u64(*o));
        },
    }
}

/// Serializes a broker message into its wire bytes.
pub fn encode_message(m: &DecryptionServerMessage) -> (r: Vec<u8>)
    ensures
        r@ == spec_message_bytes(m@),
{
    let mut out: Vec<u8> = Vec::new();
    push_opt_bytes(&mut out, &m.cipher_text);
    push_opt_bytes(&mut out, &m.public_key);
    push_opt_bytes(&mut out, &m.secret_key_share);
    push_opt_u64(&mut out, &m.timestamp);
    proof {
        assert(out@ =~= spec_message_bytes(m@));
    }
    out
}

fn read_opt_bytes(bytes: &[u8], at: usize) -> (r: Option<(Option<Vec<u8>>, usize)>)
    requires
        at <= bytes@.len(),
    ensures
        match r {
            Option::Some(parsed) => {
                &&& parse_opt_bytes(bytes@.skip(at as int)) matches Option::Some(model)
                &&& model.0 == view_opt_bytes(parsed.0)
                &&& model.1 == parsed.1 as int
                &&& at + parsed.1 <= bytes@.len()
            },
            Option::None => parse_opt_bytes(bytes@.skip(at as int)) is None,
        },
{
    let ghost rest = bytes@.skip(at as int);
    if at >= bytes.len() {
        return Option::None;
    }
    let tag = bytes[at];
    if tag == 0u8 {
        return Option::Some((Option::None, 1));
    }
    if tag != 1u8 {
        return Option::None;
    }
    if bytes.len() - at < 9 {
        return Option::None;
    }
    let len_slice = slice_subrange(bytes, at + 1, at + 9);
    let n = u64_from_le_bytes(len_slice);
    proof {
        assert(len_slice@ =~= rest.subrange(1, 9));
    }
    if n > (bytes.len() - at - 9) as u64 {
        return Option::None;
    }
    let n_usize: usize = n as usize;
    let body = slice_to_vec(slice_subrange(bytes, at + 9, at + 9 + n_usize));
    proof {
        assert(body@ =~= rest.subrange(9, 9 + n as int));
    }
    Option::Some((Option::Some(body), 9 + n_usize))
}

fn read_opt_u64(bytes: &[u8], at: usize) -> (r: Option<(Option<u64>, usize)>)
    requires
        at <= bytes@.len(),
    ensures
        match r {
            Option::Some(parsed) => {
                &&& parse_opt_u64(bytes@.skip(at as int)) matches Option::Some(model)
                &&& model.0 == parsed.0
                &&& model.1 == parsed.1 as int
                &&& at + parsed.1 <= bytes@.len()
            },
            Option::None => parse_opt_u64(bytes@.skip(at as int)) is None,
        },
{
    let ghost rest = bytes@.skip(at as int);
    if at >= bytes.len() {
        return Option::None;
    }
    let tag = bytes[at];
    if tag == 0u8 {
        return Option::Some((Option::None, 1));
    }
    if tag != 1u8 {
        return Option::None;
    }
    if bytes.len() - at < 9 {
        return Option::None;
    }
    let len_slice = slice_subrange(bytes, at + 1, at + 9);
    let n = u64_from_le_bytes(len_slice);
    proof {
        assert(len_slice@ =~= rest.subrange(1, 9));
    }
    Option::Some((Option::Some(n), 9))
}

/// Deserializes a broker message from a prefix of `bytes`; trailing bytes
/// are ignored. Returns `None` exactly when no well-formed message starts
/// the input.
pub fn decode_message(bytes: &[u8]) -> (r: Option<DecryptionServerMessage>)
    ensures
        match r {
            Option::Some(m) => parse_message(bytes@) == Option::Some(m@),
            Option::None => parse_message(bytes@) is None,
        },
{
    // Binds the slice length so its machine bound is in scope below.
    let total: usize = bytes.len();
    proof {
        assert(bytes@.skip(0) =~= bytes@);
    }
    let (cipher_text, n1) = match read_opt_bytes(bytes, 0) {
        Option::Some(p) => p,
        Option::None => {
            return Option::None;
        },
    };
    let (public_key, n2) = match read_opt_bytes(bytes, n1) {
        Option::Some(p) => p,
        Option::None => {
            return Option::None;
        },
    };
    let (secret_key_share, n3) = match read_opt_bytes(bytes, n1 + n2) {
        Option::Some(p) => p,
        Option::None => {
            return Option::None;
        },
    };
    let (timestamp, _n4) = match read_opt_u64(bytes, n1 + n2 + n3) {
        Option::Some(p) => p,
        Option::None => {
            return Option::None;
        },
    };
    Option::Some(
        DecryptionServerMessage { cipher_text, public_key, secret_key_share, timestamp },
    )
}

/// The wire encoding of a partial decryption: the worker id as a 64-bit
/// little-endian integer, then the decryption share in the threshold-crypto
/// library's own encoding.
pub open spec fn spec_partial_bytes(id: u64, share: Seq<u8>) -> Seq<u8> {
    spec_u64_to_le_bytes(id) + share
}

/// Serializes a partial decryption.
pub fn encode_partial(id: u64, share_bytes: &Vec<u8>) -> (r: Vec<u8>)
    ensures
        r@ == spec_partial_bytes(id, share_bytes@),
{
    proof {
        lemma_auto_spec_u64_to_from_le_bytes();
    }
    let mut out = u64_to_le_bytes(id);
    let mut body = slice_to_vec(share_bytes.as_slice());
    out.append(&mut body);
    out
}

/// Splits a partial decryption into the worker id and the share bytes.
/// Returns `None` exactly when the input is shorter than the id prefix.
pub fn decode_partial(bytes: &Vec<u8>) -> (r: Option<(u64, Vec<u8>)>)
    ensures
        match r {
            Option::Some(parts) => {
                &&& bytes@.len() >= 8
                &&& parts.0 == spec_u64_from_le_bytes(bytes@.subrange(0, 8))
                &&& parts.1@ == bytes@.skip(8)
            },
            Option::None => bytes@.len() < 8,
        },
{
    if bytes.len() < 8 {
        return Option::None;
    }
    let id = u64_from_le_bytes(slice_subrange(bytes.as_slice(), 0, 8));
    let share = slice_to_vec(slice_subrange(bytes.as_slice(), 8, bytes.len()));
    Option::Some((id, share))
}

/// Partial-decryption round-trip: splitting an encoded partial returns the
/// id and share bytes that were encoded.
pub proof fn lemma_partial_round_trip(id: u64, share: Seq<u8>)
    ensures
        spec_partial_bytes(id, share).len() >= 8,
        spec_u64_from_le_bytes(spec_partial_bytes(id, share).subrange(0, 8)) == id,
        spec_partial_bytes(id, share).skip(8) == share,
{
    lemma_auto_spec_u64_to_from_le_bytes();
    assert(spec_partial_bytes(id, share).subrange(0, 8) =~= spec_u64_to_le_bytes(id));
    assert(spec_partial_bytes(id, share).skip(8) =~= share);
}

} // verus!
