//! The persistence bridge: presents the locally produced chain as the
//! consensus engine's persistent block store, replica-state store and
//! payload source, anchors consensus onto local history by a genesis
//! bootstrap, and, in fetcher mode, hands certified payloads back to
//! local execution through an ordered action queue.
use vstd::prelude::*;
use crate::codec::Miniblock;
use crate::codec::payload_bytes;
use crate::codec::encode_payload;
use crate::block::FinalBlock;
use crate::block::BlockHeader;
use crate::block::header_digest;
use crate::block::digest_of;
use crate::block::header_hash;
use crate::block::payload_digest;
use crate::block::bytes_eq;
use crate::block::block_wf;

verus! {

/// Errors of the block-store capabilities.
#[derive(Clone, Copy, Debug, PartialEq, Eq, Structural)]
pub enum StoreError {
    /// The requested record does not exist (block outside the certified
    /// range, genesis before bootstrap, replica state never set).
    NotFound,
    /// A block was offered whose number is not the successor of the
    /// current head. Fatal: the engine never legitimately retries with
    /// the wrong number.
    OutOfOrder,
    /// Stored history and the offered or recorded data disagree (parent
    /// digest mismatch, payload digest mismatch, genesis mismatch on
    /// restart). Fatal; history is never silently rewritten.
    StorageConsistency,
}

/// Errors of the payload-source capability.
#[derive(Clone, Copy, Debug, PartialEq, Eq, Structural)]
pub enum PayloadError {
    /// Local execution has not produced the requested block yet; the
    /// engine is expected to wait and retry.
    NotReady,
    /// A block exists at the requested number but was produced by a
    /// different operator than consensus expects. Fatal.
    Mismatch,
}

/// One item of the action queue: a certified payload handed to local
/// execution, tagged with its block number.
#[derive(Clone, Debug, PartialEq, Eq)]
pub struct QueueItem {
    pub number: u64,
    pub payload: Vec<u8>,
}

/// The ordered hand-off from gossip ingestion to local execution. The
/// producer is the fetcher-mode `store_next_block` path; the recorded
/// items are the sequence delivered to the consumer, in delivery order.
#[derive(Clone, Debug, PartialEq, Eq)]
pub struct ActionQueue {
    pub items: Vec<QueueItem>,
}

/// The bridge: the certified chain, the locally produced chain it is
/// anchored to, the engine's opaque replica recovery state, the action
/// queue (installed in fetcher mode only) and the operator address this
/// node validates payloads against. The backing chain state is held as
/// plain values.
pub struct Store {
    /// Miniblocks produced by local execution; the miniblock at index
    /// `i` is block number `i`. Append-only.
    local: Vec<Miniblock>,
    /// The certified chain; contiguous block numbers starting at the
    /// genesis block's number.
    certs: Vec<FinalBlock>,
    /// The engine's opaque crash-recovery blob; last write wins.
    replica: Option<Vec<u8>>,
    /// The action queue, present only in fetcher mode.
    queue: Option<ActionQueue>,
    /// The address whose blocks this node proposes.
    operator_address: u64,
}

/// The chain invariant: block numbers are contiguous from the genesis
/// block's number, the genesis block has no parent, every other block
/// names the digest of its predecessor's header as its parent, and every
/// header certifies exactly its block's payload.
pub open spec fn chain_wf(certs: Seq<FinalBlock>) -> bool {
    &&& certs.len() > 0 ==> certs[0].header.parent is None
    &&& forall|i: int|
        0 <= i < certs.len() ==> (#[trigger] certs[i]).header.number == certs[0].header.number + i
    &&& forall|i: int| 0 <= i < certs.len() ==> block_wf(#[trigger] certs[i])
    &&& forall|i: int|
        0 < i < certs.len() ==> {
            &&& (#[trigger] certs[i]).header.parent is Some
            &&& certs[i].header.parent->0@ == header_digest(certs[i - 1].header)
        }
}

/// The queue invariant: the recorded deliveries are exactly the most
/// recently certified blocks, in chain order — each item carries the
/// number and the payload of the matching block of the certified chain.
pub open spec fn queue_wf(queue: Option<ActionQueue>, certs: Seq<FinalBlock>) -> bool {
    match queue {
        Option::None => true,
        Option::Some(q) => {
            &&& q.items@.len() <= certs.len()
            &&& forall|i: int|
                0 <= i < q.items@.len() ==> {
                    let c = certs[certs.len() - q.items@.len() + i];
                    &&& (#[trigger] q.items@[i]).number == c.header.number
                    &&& q.items@[i].payload@ == c.payload@
                }
        },
    }
}

/// Stored blocks are immutable and never removed: however the bridge is
/// driven, the certified chain only ever grows by appending, so a block,
/// once certified, never changes and never goes away.
pub open spec fn chain_extends(pre: Store, post: Store) -> bool {
    pre.certs()@.is_prefix_of(post.certs()@)
}

/// The decision `store_next_block` makes for an offered block: accepted,
/// out of order, or inconsistent with stored history.
pub open spec fn store_next_outcome(certs: Seq<FinalBlock>, b: FinalBlock) -> Result<
    (),
    StoreError,
> {
    if certs.len() == 0 {
        if !(b.header.parent is None) {
            Err(StoreError::StorageConsistency)
        } else if b.header.payload_hash@ != digest_of(b.payload@) {
            Err(StoreError::StorageConsistency)
        } else {
            Ok(())
        }
    } else {
        let head = certs.last();
        if head.header.number == u64::MAX || b.header.number != head.header.number + 1 {
            Err(StoreError::OutOfOrder)
        } else if !(b.header.parent is Some && b.header.parent->0@ == header_digest(
            head.header,
        )) {
            Err(StoreError::StorageConsistency)
        } else if b.header.payload_hash@ != digest_of(b.payload@) {
            Err(StoreError::StorageConsistency)
        } else {
            Ok(())
        }
    }
}

/// The genesis-consistency check on restart: the stored genesis record
/// must still match the local block it anchored to.
pub open spec fn genesis_check(certs: Seq<FinalBlock>, local: Seq<Miniblock>) -> Result<
    (),
    StoreError,
> {
    let g = certs[0].header;
    if g.number >= local.len() {
        Err(StoreError::StorageConsistency)
    } else if digest_of(payload_bytes(local[g.number as int])) != g.payload_hash@ {
        Err(StoreError::StorageConsistency)
    } else {
        Ok(())
    }
}

/// How one genesis bootstrap invocation relates the store before the
/// call, the store after it and the returned result: an existing record
/// is kept and only checked; with no record and no local history nothing
/// is done; otherwise the earliest local block becomes the genesis block
/// of the certified chain.
pub open spec fn bootstrap_transition(
    pre: Store,
    post: Store,
    justification: Vec<u8>,
    r: Result<(), StoreError>,
) -> bool {
    if pre.certs()@.len() > 0 {
        post == pre && r == genesis_check(pre.certs()@, pre.local()@)
    } else if pre.local()@.len() == 0 {
        post == pre && r == Err::<(), StoreError>(StoreError::NotFound)
    } else {
        &&& r is Ok
        &&& post.certs()@.len() == 1
        &&& post.certs()@[0].header.parent is None
        &&& post.certs()@[0].header.number == 0
        &&& post.certs()@[0].header.payload_hash@ == digest_of(payload_bytes(pre.local()@[0]))
        &&& post.certs()@[0].payload@ == payload_bytes(pre.local()@[0])
        &&& post.certs()@[0].justification == justification
        &&& post.local() == pre.local()
        &&& post.replica() == pre.replica()
        &&& post.queue() == pre.queue()
        &&& post.operator_address() == pre.operator_address()
    }
}

impl Store {
    /// The locally produced chain.
    pub closed spec fn local(&self) -> Vec<Miniblock> {
        self.local
    }

    /// The certified chain.
    pub closed spec fn certs(&self) -> Vec<FinalBlock> {
        self.certs
    }

    /// The replica recovery blob, if one was ever set.
    pub closed spec fn replica(&self) -> Option<Vec<u8>> {
        self.replica
    }

    /// The action queue, if one is installed.
    pub closed spec fn queue(&self) -> Option<ActionQueue> {
        self.queue
    }

    /// The operator address of this node.
    pub closed spec fn operator_address(&self) -> u64 {
        self.operator_address
    }

    /// The bridge invariant: the certified chain is linked and the queue
    /// mirrors its most recent blocks.
    pub open spec fn wf(&self) -> bool {
        &&& chain_wf(self.certs()@)
        &&& queue_wf(self.queue(), self.certs()@)
    }

    /// Creates a bridge with no certified history, no replica state and
    /// no action queue, for the node operating under `operator_address`.
    pub fn new(operator_address: u64) -> (r: Store)
        ensures
            r.wf(),
            r.local()@.len() == 0,
            r.certs()@.len() == 0,
            r.replica() is None,
            r.queue() is None,
            r.operator_address() == operator_address,
    {
        Store {
            local: Vec::new(),
            certs: Vec::new(),
            replica: None,
            queue: None,
            operator_address,
        }
    }

    /// Local execution appends the miniblock it has just produced; its
    /// number is its position in the local chain.
    pub fn push_local(&mut self, m: Miniblock)
        requires
            old(self).wf(),
        ensures
            final(self).wf(),
            chain_extends(*old(self), *final(self)),
            final(self).local()@ == old(self).local()@.push(m),
            final(self).certs() == old(self).certs(),
            final(self).replica() == old(self).replica(),
            final(self).queue() == old(self).queue(),
            final(self).operator_address() == old(self).operator_address(),
    {
        self.local.push(m);
    }

    /// The number of blocks local execution has produced.
    pub fn local_count(&self) -> (r: usize)
        ensures
            r == self.local()@.len(),
    {
        self.local.len()
    }

    /// The certified chain, in chain order.
    pub fn certified(&self) -> (r: &Vec<FinalBlock>)
        ensures
            r == self.certs(),
    {
        &self.certs
    }

    /// The deliveries recorded on the action queue, oldest first, or
    /// nothing when no queue is installed.
    pub fn actions(&self) -> (r: Option<&Vec<QueueItem>>)
        ensures
            match r {
                Some(v) => self.queue() is Some && v == self.queue()->0.items,
                None => self.queue() is None,
            },
    {
        match &self.queue {
            Some(q) => Some(&q.items),
            None => None,
        }
    }

    /// The number of the certified head, or nothing before bootstrap.
    pub fn head_number(&self) -> (r: Option<u64>)
        ensures
            self.certs()@.len() == 0 ==> r is None,
            self.certs()@.len() > 0 ==> r == Some(self.certs()@.last().header.number),
    {
        if self.certs.len() == 0 {
            None
        } else {
            Some(self.certs[self.certs.len() - 1].header.number)
        }
    }

    /// The persistent-block-store capability: the certified block at
    /// number `n`, or `NotFound` outside the certified range.
    pub fn block(&self, n: u64) -> (r: Result<&FinalBlock, StoreError>)
        requires
            self.wf(),
        ensures
            match r {
                Ok(b) => {
                    &&& self.certs()@.len() > 0
                    &&& self.certs()@[0].header.number <= n
                    &&& n - self.certs()@[0].header.number < self.certs()@.len()
                    &&& *b == self.certs()@[n - self.certs()@[0].header.number]
                    &&& b.header.number == n
                },
                Err(e) => {
                    &&& e == StoreError::NotFound
                    &&& (self.certs()@.len() == 0 || n < self.certs()@[0].header.number || n
                        - self.certs()@[0].header.number >= self.certs()@.len())
                },
            },
    {
        if self.certs.len() == 0 {
            return Err(StoreError::NotFound);
        }
        let first = self.certs[0].header.number;
        if n < first {
            return Err(StoreError::NotFound);
        }
        let offset = n - first;
        if offset >= self.certs.len() as u64 {
            return Err(StoreError::NotFound);
        }
        Ok(&self.certs[offset as usize])
    }

    /// The genesis record: the header of the first certified block, or
    /// `NotFound` before bootstrap.
    pub fn genesis(&self) -> (r: Result<&BlockHeader, StoreError>)
        ensures
            match r {
                Ok(h) => self.certs()@.len() > 0 && *h == self.certs()@[0].header,
                Err(e) => e == StoreError::NotFound && self.certs()@.len() == 0,
            },
    {
        if self.certs.len() == 0 {
            Err(StoreError::NotFound)
        } else {
            Ok(&self.certs[0].header)
        }
    }

    /// The replica-store capability, read side: the engine's recovery
    /// blob, or `NotFound` if it was never set.
    pub fn replica_get(&self) -> (r: Result<&Vec<u8>, StoreError>)
        ensures
            match r {
                Ok(b) => self.replica() is Some && b == self.replica()->0,
                Err(e) => e == StoreError::NotFound && self.replica() is None,
            },
    {
        match &self.replica {
            Some(b) => Ok(b),
            None => Err(StoreError::NotFound),
        }
    }

    /// The replica-store capability, write side: last write wins.
    pub fn replica_set(&mut self, blob: Vec<u8>)
        requires
            old(self).wf(),
        ensures
            final(self).wf(),
            chain_extends(*old(self), *final(self)),
            final(self).replica() == Some(blob),
            final(self).local() == old(self).local(),
            final(self).certs() == old(self).certs(),
            final(self).queue() == old(self).queue(),
            final(self).operator_address() == old(self).operator_address(),
    {
        self.replica = Some(blob);
    }

    /// Installs the action queue. Done once, in fetcher mode only, and
    /// before the engine begins ingesting blocks, so the queue starts
    /// empty.
    pub fn set_actions_queue(&mut self, queue: ActionQueue)
        requires
            old(self).wf(),
            old(self).queue() is None,
            queue.items@.len() == 0,
        ensures
            final(self).wf(),
            chain_extends(*old(self), *final(self)),
            final(self).queue() == Some(queue),
            final(self).local() == old(self).local(),
            final(self).certs() == old(self).certs(),
            final(self).replica() == old(self).replica(),
            final(self).operator_address() == old(self).operator_address(),
    {
        self.queue = Some(queue);
    }

    /// The payload-source capability (validator mode): the locally
    /// produced block at number `n`, re-encoded for proposal. `NotReady`
    /// while local execution has not produced block `n` yet; `Mismatch`
    /// when the block at `n` was produced by a different operator than
    /// the caller expects.
    pub fn payload(&self, n: u64, operator_address: u64) -> (r: Result<Vec<u8>, PayloadError>)
        ensures
            match r {
                Ok(p) => {
                    &&& n < self.local()@.len()
                    &&& self.local()@[n as int].operator_address == operator_address
                    &&& p@ == payload_bytes(self.local()@[n as int])
                },
                Err(PayloadError::NotReady) => n >= self.local()@.len(),
                Err(PayloadError::Mismatch) => {
                    &&& n < self.local()@.len()
                    &&& self.local()@[n as int].operator_address != operator_address
                },
            },
    {
        if n >= self.local.len() as u64 {
            return Err(PayloadError::NotReady);
        }
        let m = &self.local[n as usize];
        if m.operator_address != operator_address {
            return Err(PayloadError::Mismatch);
        }
        Ok(encode_payload(m))
    }

    /// The persistent-block-store capability, write side: accepts only
    /// the block that extends the certified head (or, on an empty store,
    /// a parentless genesis block), and only when its parent and payload
    /// digests agree with stored history. On success the certificate is
    /// persisted and then — in fetcher mode — the payload is forwarded
    /// on the action queue, in that order.
    pub fn store_next_block(&mut self, b: FinalBlock) -> (r: Result<(), StoreError>)
        requires
            old(self).wf(),
        ensures
            final(self).wf(),
            chain_extends(*old(self), *final(self)),
            r == store_next_outcome(old(self).certs()@, b),
            r is Err ==> *final(self) == *old(self),
            r is Ok ==> {
                &&& final(self).certs()@ == old(self).certs()@.push(b)
                &&& final(self).local() == old(self).local()
                &&& final(self).replica() == old(self).replica()
                &&& final(self).operator_address() == old(self).operator_address()
                &&& (old(self).queue() is None ==> final(self).queue() is None)
                &&& (old(self).queue() is Some ==> {
                    let items = final(self).queue()->0.items@;
                    let old_items = old(self).queue()->0.items@;
                    &&& final(self).queue() is Some
                    &&& items.len() == old_items.len() + 1
                    &&& items.subrange(0, old_items.len() as int) == old_items
                    &&& items.last().number == b.header.number
                    &&& items.last().payload@ == b.payload@
                })
            },
    {
        if self.certs.len() == 0 {
            if b.header.parent.is_some() {
                return Err(StoreError::StorageConsistency);
            }
        } else {
            let head = &self.certs[self.certs.len() - 1];
            if head.header.number == u64::MAX || b.header.number != head.header.number + 1 {
                return Err(StoreError::OutOfOrder);
            }
            let parent_ok = match &b.header.parent {
                Some(p) => {
                    let want = header_hash(&head.header);
                    bytes_eq(p, &want)
                },
                None => false,
            };
            if !parent_ok {
                return Err(StoreError::StorageConsistency);
            }
        }
        let want_payload_hash = payload_digest(&b.payload);
        if !bytes_eq(&b.header.payload_hash, &want_payload_hash) {
            return Err(StoreError::StorageConsistency);
        }
        // Persist the certificate first; forward to local execution only
        // after it is durable, so a crash in between can only re-deliver.
        let number = b.header.number;
        let mut payload_copy: Vec<u8> = Vec::new();
        crate::block::append_bytes(&mut payload_copy, &b.payload);
        let ghost old_certs = self.certs@;
        let ghost old_queue = self.queue;
        self.certs.push(b);
        match &mut self.queue {
            Some(q) => {
                q.items.push(QueueItem { number, payload: payload_copy });
            },
            None => {},
        }
        proof {
            let certs = self.certs@;
            assert forall|i: int| 0 <= i < certs.len() implies (#[trigger] certs[i]).header.number
                == certs[0].header.number + i by {
                if i < certs.len() - 1 {
                    assert(certs[i] == old_certs[i]);
                }
            }
            assert forall|i: int| 0 <= i < certs.len() implies block_wf(#[trigger] certs[i]) by {
                if i < certs.len() - 1 {
                    assert(certs[i] == old_certs[i]);
                }
            }
            assert forall|i: int| 0 < i < certs.len() implies {
                &&& (#[trigger] certs[i]).header.parent is Some
                &&& certs[i].header.parent->0@ == header_digest(certs[i - 1].header)
            } by {
                if i < certs.len() - 1 {
                    assert(certs[i] == old_certs[i]);
                    assert(certs[i - 1] == old_certs[i - 1]);
                } else if i == certs.len() - 1 && old_certs.len() > 0 {
                    assert(certs[i - 1] == old_certs[i - 1]);
                    assert(old_certs[i - 1] == old_certs.last());
                }
            }
            assert(queue_wf(self.queue, certs)) by {
                match old_queue {
                    Option::None => {},
                    Option::Some(q0) => {
                        let q = self.queue->0;
                        assert forall|i: int| 0 <= i < q.items@.len() implies {
                            let c = certs[certs.len() - q.items@.len() + i];
                            &&& (#[trigger] q.items@[i]).number == c.header.number
                            &&& q.items@[i].payload@ == c.payload@
                        } by {
                            if i < q.items@.len() - 1 {
                                assert(q.items@[i] == q0.items@[i]);
                                assert(certs[certs.len() - q.items@.len() + i] == old_certs[
                                    old_certs.len() - q0.items@.len() + i]);
                            }
                        }
                    },
                }
            }
        }
        Ok(())
    }

    /// The genesis bootstrap. With no genesis record, anchors the
    /// certified chain at the earliest locally produced block, wrapping
    /// it with the given bootstrap justification; `NotFound` when local
    /// execution has produced nothing yet. With an existing record, only
    /// checks that local history still matches it — a mismatch is fatal
    /// and nothing is ever rewritten. Idempotent: a second invocation
    /// keeps the record of the first, byte for byte.
    pub fn try_init_genesis(&mut self, justification: Vec<u8>) -> (r: Result<(), StoreError>)
        requires
            old(self).wf(),
        ensures
            final(self).wf(),
            chain_extends(*old(self), *final(self)),
            bootstrap_transition(*old(self), *final(self), justification, r),
    {
        if self.certs.len() > 0 {
            let g_number = self.certs[0].header.number;
            if g_number >= self.local.len() as u64 {
                return Err(StoreError::StorageConsistency);
            }
            let payload = encode_payload(&self.local[g_number as usize]);
            let want = payload_digest(&payload);
            if !bytes_eq(&self.certs[0].header.payload_hash, &want) {
                return Err(StoreError::StorageConsistency);
            }
            return Ok(());
        }
        if self.local.len() == 0 {
            return Err(StoreError::NotFound);
        }
        let payload = encode_payload(&self.local[0]);
        let payload_hash = payload_digest(&payload);
        let header = BlockHeader { parent: None, number: 0, payload_hash };
        let block = FinalBlock { header, payload, justification };
        self.certs.push(block);
        proof {
            assert(queue_wf(self.queue, self.certs@));
        }
        Ok(())
    }
}

/// Every stored block above genesis extends its predecessor: its number
/// is one more, and its parent field is exactly the digest of the
/// predecessor's header.
pub proof fn lemma_chain_linked(s: Store, i: int)
    requires
        s.wf(),
        0 < i < s.certs()@.len(),
    ensures
        s.certs()@[i].header.number == s.certs()@[i - 1].header.number + 1,
        s.certs()@[i].header.number == s.certs()@[0].header.number + i,
        s.certs()@[i].header.parent is Some,
        s.certs()@[i].header.parent->0@ == header_digest(s.certs()@[i - 1].header),
        s.certs()@[i].header.payload_hash@ == digest_of(s.certs()@[i].payload@),
{
}

/// Genesis bootstrap is idempotent: once a bootstrap has left a genesis
/// record in the store, any further bootstrap returns with the record
/// unchanged, byte for byte.
pub proof fn lemma_bootstrap_idempotent(
    s0: Store,
    s1: Store,
    s2: Store,
    j1: Vec<u8>,
    j2: Vec<u8>,
    r1: Result<(), StoreError>,
    r2: Result<(), StoreError>,
)
    requires
        bootstrap_transition(s0, s1, j1, r1),
        bootstrap_transition(s1, s2, j2, r2),
        s1.certs()@.len() > 0,
    ensures
        s2.certs()@.len() > 0,
        s2.certs()@[0] == s1.certs()@[0],
{
}

/// The action queue delivers certified payloads exactly once, in
/// strictly increasing block-number order with no gaps, and each
/// delivery matches the certified chain at its number.
pub proof fn lemma_queue_ordered(s: Store, i: int)
    requires
        s.wf(),
        s.queue() is Some,
        0 <= i < s.queue()->0.items@.len(),
    ensures
        ({
            let items = s.queue()->0.items@;
            let certs = s.certs()@;
            let c = certs[certs.len() - items.len() + i];
            &&& items[i].number == c.header.number
            &&& items[i].payload@ == c.payload@
            &&& (0 < i ==> items[i].number == items[i - 1].number + 1)
        }),
{
    let items = s.queue()->0.items@;
    let certs = s.certs()@;
    if 0 < i {
        assert(certs[certs.len() - items.len() + i].header.number == certs[0].header.number + (
        certs.len() - items.len() + i));
        assert(certs[certs.len() - items.len() + i - 1].header.number == certs[0].header.number + (
        certs.len() - items.len() + i - 1));
    }
}

} // verus!
