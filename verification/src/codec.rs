//! Payload codec: converts between a locally produced miniblock and the
//! opaque byte payload that the consensus engine transports. The encoding
//! is lossless: `decode_payload` recovers exactly the miniblock that
//! `encode_payload` was given.
use vstd::prelude::*;
use vstd::bytes::*;
use vstd::slice::slice_subrange;

verus! {

/// A locally produced rollup block: its timestamp, the address of the
/// operator that produced it, and its transactions. Transactions are
/// owned and interpreted by local execution alone, so the codec carries
/// them as one opaque byte section.
#[derive(Clone, Debug, PartialEq, Eq)]
pub struct Miniblock {
    pub timestamp: u64,
    pub operator_address: u64,
    pub transactions: Vec<u8>,
}

/// The byte payload that encodes a miniblock: the timestamp and the
/// operator address as little-endian 64-bit words, then the transaction
/// section.
pub open spec fn payload_bytes(m: Miniblock) -> Seq<u8> {
    spec_u64_to_le_bytes(m.timestamp) + spec_u64_to_le_bytes(m.operator_address)
        + m.transactions@
}

/// What decoding a byte payload yields: the timestamp, the operator
/// address and the transaction section, or nothing if the payload is too
/// short to hold the two fixed words.
pub open spec fn decoded_payload(b: Seq<u8>) -> Option<(u64, u64, Seq<u8>)> {
    if b.len() >= 16 {
        Some(
            (
                spec_u64_from_le_bytes(b.subrange(0, 8)),
                spec_u64_from_le_bytes(b.subrange(8, 16)),
                b.skip(16),
            ),
        )
    } else {
        None
    }
}

/// The payload codec round-trips losslessly: decoding an encoded
/// miniblock yields exactly the miniblock's fields.
pub proof fn lemma_payload_round_trip(m: Miniblock)
    ensures
        decoded_payload(payload_bytes(m)) == Some(
            (m.timestamp, m.operator_address, m.transactions@),
        ),
{
    lemma_auto_spec_u64_to_from_le_bytes();
    let b = payload_bytes(m);
    assert(b.subrange(0, 8) =~= spec_u64_to_le_bytes(m.timestamp));
    assert(b.subrange(8, 16) =~= spec_u64_to_le_bytes(m.operator_address));
    assert(b.skip(16) =~= m.transactions@);
}

/// Decoding succeeds exactly on the payloads that encode some miniblock:
/// a decoded triple always comes from the payload that re-encodes to the
/// same bytes.
pub proof fn lemma_payload_decode_encode(b: Seq<u8>, m: Miniblock)
    requires
        decoded_payload(b) == Some((m.timestamp, m.operator_address, m.transactions@)),
    ensures
        payload_bytes(m) == b,
{
    lemma_auto_spec_u64_to_from_le_bytes();
    assert(payload_bytes(m) =~= b);
}

/// Serializes a miniblock into the byte payload carried by the engine.
pub fn encode_payload(m: &Miniblock) -> (r: Vec<u8>)
    ensures
        r@ == payload_bytes(*m),
{
    let mut out = u64_to_le_bytes(m.timestamp);
    let mut addr = u64_to_le_bytes(m.operator_address);
    out.append(&mut addr);
    let mut i: usize = 0;
    while i < m.transactions.len()
        invariant
            i <= m.transactions@.len(),
            out@ == spec_u64_to_le_bytes(m.timestamp) + spec_u64_to_le_bytes(
                m.operator_address,
            ) + m.transactions@.take(i as int),
        decreases m.transactions@.len() - i,
    {
        out.push(m.transactions[i]);
        i = i + 1;
        proof {
            assert(m.transactions@.take(i as int) =~= m.transactions@.take(i - 1).push(
                m.transactions@[i - 1],
            ));
        }
    }
    proof {
        assert(m.transactions@.take(m.transactions@.len() as int) =~= m.transactions@);
    }
    out
}

/// Deserializes a byte payload back into a miniblock; fails exactly when
/// the payload is shorter than the two fixed words.
pub fn decode_payload(b: &Vec<u8>) -> (r: Option<Miniblock>)
    ensures
        match r {
            Some(m) => decoded_payload(b@) == Some(
                (m.timestamp, m.operator_address, m.transactions@),
            ),
            None => b@.len() < 16,
        },
{
    if b.len() < 16 {
        return None;
    }
    let timestamp = u64_from_le_bytes(slice_subrange(b.as_slice(), 0, 8));
    let operator_address = u64_from_le_bytes(slice_subrange(b.as_slice(), 8, 16));
    let mut transactions: Vec<u8> = Vec::new();
    let mut i: usize = 16;
    while i < b.len()
        invariant
            16 <= i <= b@.len(),
            transactions@ == b@.subrange(16, i as int),
        decreases b@.len() - i,
    {
        transactions.push(b[i]);
        i = i + 1;
        proof {
            assert(b@.subrange(16, i as int) =~= b@.subrange(16, i - 1).push(b@[i - 1]));
        }
    }
    proof {
        assert(b@.subrange(16, b@.len() as int) =~= b@.skip(16));
    }
    Some(Miniblock { timestamp, operator_address, transactions })
}

} // verus!
