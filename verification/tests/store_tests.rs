use consensus_bridge::block::{child_header, genesis_header, payload_digest, FinalBlock};
use consensus_bridge::codec::Miniblock;
use consensus_bridge::store::{ActionQueue, PayloadError, Store, StoreError};

fn miniblock(n: u64, operator: u64) -> Miniblock {
    Miniblock { timestamp: 1000 + n, operator_address: operator, transactions: vec![n as u8; 3] }
}

fn certify_next(store: &mut Store, n: u64, operator: u64) -> FinalBlock {
    let payload = store.payload(n, operator).expect("payload must be ready");
    let hash = payload_digest(&payload);
    let header = match store.certified().last() {
        None => genesis_header(hash, n),
        Some(prev) => child_header(&prev.header, hash).expect("head number below the maximum"),
    };
    let block = FinalBlock { header, payload, justification: vec![n as u8, 0xcc] };
    store.store_next_block(block.clone()).expect("block must be accepted");
    block
}

#[test]
fn payload_digest_is_keccak256() {
    // The Keccak-256 digest of the empty message.
    let want = [
        0xc5, 0xd2, 0x46, 0x01, 0x86, 0xf7, 0x23, 0x3c, 0x92, 0x7e, 0x7d, 0xb2, 0xdc, 0xc7, 0x03,
        0xc0, 0xe5, 0x00, 0xb6, 0x53, 0xca, 0x82, 0x27, 0x3b, 0x7b, 0xfa, 0xd8, 0x04, 0x5d, 0x85,
        0xa4, 0x70,
    ];
    assert_eq!(payload_digest(&vec![]), want.to_vec());
}

#[test]
fn payload_states() {
    let mut store = Store::new(17);
    assert_eq!(store.payload(0, 17), Err(PayloadError::NotReady));
    store.push_local(miniblock(0, 17));
    assert!(store.payload(0, 17).is_ok());
    assert_eq!(store.payload(1, 17), Err(PayloadError::NotReady));
    assert_eq!(store.payload(0, 99), Err(PayloadError::Mismatch));
}

#[test]
fn genesis_not_found_before_bootstrap() {
    let store = Store::new(17);
    assert_eq!(store.genesis(), Err(StoreError::NotFound));
    assert_eq!(store.block(0), Err(StoreError::NotFound));
    assert_eq!(store.head_number(), None);
}

#[test]
fn bootstrap_anchors_earliest_local_block() {
    let mut store = Store::new(17);
    assert_eq!(store.try_init_genesis(vec![1]), Err(StoreError::NotFound));
    store.push_local(miniblock(0, 17));
    store.push_local(miniblock(1, 17));
    store.try_init_genesis(vec![1]).unwrap();
    let g = store.genesis().unwrap();
    assert_eq!(g.number, 0);
    assert!(g.parent.is_none());
    let b0 = store.block(0).unwrap();
    assert_eq!(b0.payload, store.payload(0, 17).unwrap());
    assert_eq!(b0.justification, vec![1]);
}

#[test]
fn bootstrap_is_idempotent() {
    let mut store = Store::new(17);
    store.push_local(miniblock(0, 17));
    store.try_init_genesis(vec![1]).unwrap();
    let first = store.genesis().unwrap().clone();
    let first_block = store.block(0).unwrap().clone();
    // A second bootstrap, even with a different justification, keeps the
    // record byte for byte.
    store.try_init_genesis(vec![2]).unwrap();
    assert_eq!(store.genesis().unwrap(), &first);
    assert_eq!(store.block(0).unwrap(), &first_block);
}

#[test]
fn bootstrap_rejects_rewritten_history() {
    let mut store = Store::new(17);
    store.push_local(miniblock(0, 17));
    store.try_init_genesis(vec![1]).unwrap();
    // A store whose genesis points past local history is inconsistent.
    let mut other = Store::new(17);
    other.push_local(miniblock(5, 17));
    let payload = other.payload(0, 17).unwrap();
    let hash = payload_digest(&payload);
    let header = genesis_header(hash, 3);
    other
        .store_next_block(FinalBlock { header, payload, justification: vec![] })
        .unwrap();
    assert_eq!(other.try_init_genesis(vec![1]), Err(StoreError::StorageConsistency));
}

#[test]
fn store_next_block_rejects_out_of_order() {
    let mut store = Store::new(17);
    for n in 0..3 {
        store.push_local(miniblock(n, 17));
    }
    certify_next(&mut store, 0, 17);
    let head = store.certified().last().unwrap().header.clone();
    let payload = store.payload(2, 17).unwrap();
    let hash = payload_digest(&payload);
    // A block numbered head + 2 instead of head + 1.
    let mut header = child_header(&head, hash).unwrap();
    header.number = 2;
    let r = store.store_next_block(FinalBlock { header, payload, justification: vec![] });
    assert_eq!(r, Err(StoreError::OutOfOrder));
    assert_eq!(store.certified().len(), 1);
}

#[test]
fn store_next_block_rejects_bad_parent() {
    let mut store = Store::new(17);
    for n in 0..2 {
        store.push_local(miniblock(n, 17));
    }
    certify_next(&mut store, 0, 17);
    let payload = store.payload(1, 17).unwrap();
    let hash = payload_digest(&payload);
    let mut header = child_header(&store.certified()[0].header, hash).unwrap();
    header.parent = Some(vec![0u8; 32]);
    let r = store.store_next_block(FinalBlock { header, payload, justification: vec![] });
    assert_eq!(r, Err(StoreError::StorageConsistency));
}

#[test]
fn store_next_block_rejects_bad_payload_hash() {
    let mut store = Store::new(17);
    store.push_local(miniblock(0, 17));
    let payload = store.payload(0, 17).unwrap();
    let header = genesis_header(vec![0u8; 32], 0);
    let r = store.store_next_block(FinalBlock { header, payload, justification: vec![] });
    assert_eq!(r, Err(StoreError::StorageConsistency));
}

#[test]
fn first_stored_block_must_be_parentless() {
    let mut store = Store::new(17);
    store.push_local(miniblock(0, 17));
    let payload = store.payload(0, 17).unwrap();
    let hash = payload_digest(&payload);
    let mut header = genesis_header(hash, 0);
    header.parent = Some(vec![0u8; 32]);
    let r = store.store_next_block(FinalBlock { header, payload, justification: vec![] });
    assert_eq!(r, Err(StoreError::StorageConsistency));
}

#[test]
fn block_lookup_by_number() {
    let mut store = Store::new(17);
    for n in 0..5 {
        store.push_local(miniblock(n, 17));
    }
    for n in 2..5 {
        certify_next(&mut store, n, 17);
    }
    assert_eq!(store.block(1), Err(StoreError::NotFound));
    assert_eq!(store.block(5), Err(StoreError::NotFound));
    for n in 2..5u64 {
        let b = store.block(n).unwrap();
        assert_eq!(b.header.number, n);
    }
    assert_eq!(store.head_number(), Some(4));
}

#[test]
fn replica_state_last_write_wins() {
    let mut store = Store::new(17);
    assert_eq!(store.replica_get(), Err(StoreError::NotFound));
    store.replica_set(vec![1, 2, 3]);
    assert_eq!(store.replica_get(), Ok(&vec![1, 2, 3]));
    store.replica_set(vec![4]);
    assert_eq!(store.replica_get(), Ok(&vec![4]));
}

#[test]
fn action_queue_records_deliveries_in_order() {
    let mut store = Store::new(17);
    for n in 0..4 {
        store.push_local(miniblock(n, 17));
    }
    assert!(store.actions().is_none());
    store.set_actions_queue(ActionQueue { items: vec![] });
    let mut want = vec![];
    for n in 0..4 {
        let b = certify_next(&mut store, n, 17);
        want.push((n, b.payload.clone()));
    }
    let items = store.actions().expect("queue is installed");
    assert_eq!(items.len(), 4);
    for (i, item) in items.iter().enumerate() {
        assert_eq!(item.number, want[i].0);
        assert_eq!(item.payload, want[i].1);
        if i > 0 {
            assert_eq!(item.number, items[i - 1].number + 1);
        }
    }
}
