//! Certified-chain data model: block headers, final (certified) blocks,
//! and the digest that links a block to its parent.
use vstd::prelude::*;
use vstd::bytes::*;

verus! {

/// The digest of a byte string, as the consensus engine's hash function
/// computes it. The result depends on the bytes alone.
pub uninterp spec fn digest_of(bytes: Seq<u8>) -> Seq<u8>;

/// Relies on zksync_consensus_crypto's Keccak256: hashing is a function
/// of the input bytes alone and always yields a 32-byte digest.
#[verifier::external_body]
fn keccak(bytes: &Vec<u8>) -> (r: Vec<u8>)
    ensures
        r@ == digest_of(bytes@),
        r@.len() == 32,
{
    zksync_consensus_crypto::keccak256::Keccak256::new(bytes.as_slice()).as_bytes().to_vec()
}

/// The digest of a byte payload. The engine identifies a payload by this
/// value; a header certifies the payload whose digest it carries.
pub fn payload_digest(bytes: &Vec<u8>) -> (r: Vec<u8>)
    ensures
        r@ == digest_of(bytes@),
        r@.len() == 32,
{
    keccak(bytes)
}

/// A block header: the digest of the parent header (absent only for the
/// genesis block), the block number, and the digest of the payload.
#[derive(Clone, Debug, PartialEq, Eq)]
pub struct BlockHeader {
    pub parent: Option<Vec<u8>>,
    pub number: u64,
    pub payload_hash: Vec<u8>,
}

/// A certified block: its header, the payload it certifies, and the
/// opaque justification (quorum certificate) proving validator agreement.
#[derive(Clone, Debug, PartialEq, Eq)]
pub struct FinalBlock {
    pub header: BlockHeader,
    pub payload: Vec<u8>,
    pub justification: Vec<u8>,
}

/// The byte encoding of a header, which its digest is taken over: a tag
/// for the parent digest, the parent digest if present, the number as a
/// little-endian 64-bit word, and the payload digest.
pub open spec fn header_bytes(h: BlockHeader) -> Seq<u8> {
    (match h.parent {
        Option::None => seq![0u8],
        Option::Some(p) => seq![1u8] + p@,
    }) + spec_u64_to_le_bytes(h.number) + h.payload_hash@
}

/// The digest that identifies a header; a child block names its parent
/// by this value.
pub open spec fn header_digest(h: BlockHeader) -> Seq<u8> {
    digest_of(header_bytes(h))
}

/// Computes the digest that identifies a header.
pub fn header_hash(h: &BlockHeader) -> (r: Vec<u8>)
    ensures
        r@ == header_digest(*h),
        r@.len() == 32,
{
    let mut buf: Vec<u8> = Vec::new();
    match &h.parent {
        Option::None => {
            buf.push(0u8);
        },
        Option::Some(p) => {
            buf.push(1u8);
            append_bytes(&mut buf, p);
        },
    }
    let mut nb = u64_to_le_bytes(h.number);
    buf.append(&mut nb);
    append_bytes(&mut buf, &h.payload_hash);
    proof {
        assert(buf@ =~= header_bytes(*h));
    }
    keccak(&buf)
}

/// Appends the bytes of `src` to `dst`.
pub fn append_bytes(dst: &mut Vec<u8>, src: &Vec<u8>)
    ensures
        final(dst)@ == old(dst)@ + src@,
{
    let mut i: usize = 0;
    while i < src.len()
        invariant
            i <= src@.len(),
            dst@ == old(dst)@ + src@.take(i as int),
        decreases src@.len() - i,
    {
        dst.push(src[i]);
        i = i + 1;
        proof {
            assert(src@.take(i as int) =~= src@.take(i - 1).push(src@[i - 1]));
        }
    }
    proof {
        assert(src@.take(src@.len() as int) =~= src@);
    }
}

/// Whether two byte vectors hold the same bytes.
pub fn bytes_eq(a: &Vec<u8>, b: &Vec<u8>) -> (r: bool)
    ensures
        r == (a@ == b@),
{
    if a.len() != b.len() {
        proof {
            assert(a@.len() != b@.len());
        }
        return false;
    }
    let mut i: usize = 0;
    while i < a.len()
        invariant
            i <= a@.len(),
            a@.len() == b@.len(),
            forall|j: int| 0 <= j < i ==> a@[j] == b@[j],
        decreases a@.len() - i,
    {
        if a[i] != b[i] {
            return false;
        }
        i = i + 1;
    }
    proof {
        assert(a@ =~= b@);
    }
    true
}

/// Builds the header of the genesis block for the given payload: it has
/// no parent and anchors the certified chain at `number`.
pub fn genesis_header(payload_hash: Vec<u8>, number: u64) -> (r: BlockHeader)
    ensures
        r.parent is None,
        r.number == number,
        r.payload_hash == payload_hash,
{
    BlockHeader { parent: None, number, payload_hash }
}

/// Builds the header of the block that follows `parent`, certifying the
/// payload with the given digest. Fails only when the parent's number is
/// the largest representable one.
pub fn child_header(parent: &BlockHeader, payload_hash: Vec<u8>) -> (r: Option<BlockHeader>)
    ensures
        parent.number < u64::MAX ==> {
            &&& r is Some
            &&& r->0.parent is Some
            &&& r->0.parent->0@ == header_digest(*parent)
            &&& r->0.number == parent.number + 1
            &&& r->0.payload_hash == payload_hash
        },
        parent.number == u64::MAX ==> r is None,
{
    if parent.number == u64::MAX {
        return None;
    }
    let parent_digest = header_hash(parent);
    Some(
        BlockHeader {
            parent: Some(parent_digest),
            number: parent.number + 1,
            payload_hash,
        },
    )
}

/// A block is internally consistent when its header certifies exactly
/// its payload.
pub open spec fn block_wf(b: FinalBlock) -> bool {
    b.header.payload_hash@ == digest_of(b.payload@)
}

} // verus!
