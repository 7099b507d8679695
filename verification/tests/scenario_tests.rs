use consensus_bridge::block::{child_header, genesis_header, payload_digest, FinalBlock};
use consensus_bridge::codec::Miniblock;
use consensus_bridge::config::{Config, ExecutorConfig, ValidatorConfig};
use consensus_bridge::store::{ActionQueue, Store};

const OPERATOR_ADDRESS: u64 = 17;

fn miniblock(n: u64) -> Miniblock {
    Miniblock {
        timestamp: 1_700_000_000 + n,
        operator_address: OPERATOR_ADDRESS,
        transactions: vec![n as u8, (n + 1) as u8],
    }
}

fn make_block(store: &Store, n: u64) -> FinalBlock {
    let payload = store.payload(n, OPERATOR_ADDRESS).expect("payload must be ready");
    let hash = payload_digest(&payload);
    let header = match store.certified().last() {
        None => genesis_header(hash, n),
        Some(prev) => child_header(&prev.header, hash).expect("head number below the maximum"),
    };
    FinalBlock { header, payload, justification: vec![n as u8, 0x5a] }
}

fn validator_config(validators: Vec<u64>) -> Config {
    Config {
        executor: ExecutorConfig {
            server_addr: "127.0.0.1:3054".to_string(),
            validators,
            node_key: 1,
            gossip_dynamic_inbound_limit: 10,
            gossip_static_inbound: vec![],
            gossip_static_outbound: vec![],
        },
        validator: ValidatorConfig { public_key: 1, public_addr: "127.0.0.1:3054".to_string() },
        operator_address: OPERATOR_ADDRESS,
    }
}

#[test]
fn test_validator_block_store() {
    // Local execution produces 10 blocks; a validator bridge
    // back-certifies blocks 4..=9. Before each insertion the certified
    // prefix equals exactly the blocks inserted so far.
    let mut store = Store::new(OPERATOR_ADDRESS);
    for n in 0..10 {
        store.push_local(miniblock(n));
    }
    let mut want: Vec<FinalBlock> = vec![];
    for n in 4..10u64 {
        assert_eq!(&want, store.certified());
        let block = make_block(&store, n);
        store.store_next_block(block.clone()).unwrap();
        want.push(block);
    }
    assert_eq!(&want, store.certified());
}

#[test]
fn test_fetcher() {
    // One validator and two chained fetchers: the validator certifies 5
    // blocks; each fetcher replicates from the node before it. All three
    // end with an identical sequence of (payload, justification) pairs,
    // and each fetcher's action queue delivered the payloads in order.
    let mut validator = Store::new(OPERATOR_ADDRESS);
    for n in 0..5 {
        validator.push_local(miniblock(n));
    }
    for n in 0..5 {
        let block = make_block(&validator, n);
        validator.store_next_block(block).unwrap();
    }

    let mut fetchers = vec![Store::new(OPERATOR_ADDRESS), Store::new(OPERATOR_ADDRESS)];
    for f in fetchers.iter_mut() {
        f.set_actions_queue(ActionQueue { items: vec![] });
    }
    // validator -> fetcher 0 -> fetcher 1.
    for i in 0..fetchers.len() {
        let upstream: Vec<FinalBlock> = if i == 0 {
            validator.certified().clone()
        } else {
            fetchers[i - 1].certified().clone()
        };
        for block in upstream {
            fetchers[i].store_next_block(block).unwrap();
        }
    }

    let want: Vec<(Vec<u8>, Vec<u8>)> = validator
        .certified()
        .iter()
        .map(|b| (b.payload.clone(), b.justification.clone()))
        .collect();
    assert_eq!(want.len(), 5);
    for f in &fetchers {
        let got: Vec<(Vec<u8>, Vec<u8>)> = f
            .certified()
            .iter()
            .map(|b| (b.payload.clone(), b.justification.clone()))
            .collect();
        assert_eq!(want, got);
        let items = f.actions().expect("queue is installed");
        assert_eq!(items.len(), 5);
        for (i, item) in items.iter().enumerate() {
            assert_eq!(item.number, i as u64);
            assert_eq!(item.payload, want[i].0);
        }
    }
}

#[test]
fn test_validator() {
    // The validator orchestrator is stopped and restarted three times
    // while local execution keeps producing blocks in between; the final
    // certified chain equals that of a single uninterrupted run over the
    // same production schedule.
    let schedule = [5usize, 3, 1, 1];
    let cfg = validator_config(vec![1]);

    // Interrupted run: a restart (guard + genesis bootstrap) before each
    // phase of block production, then certification catches up.
    let mut interrupted = Store::new(OPERATOR_ADDRESS);
    let mut produced = 0u64;
    for phase in schedule {
        for _ in 0..phase {
            interrupted.push_local(miniblock(produced));
            produced += 1;
        }
        cfg.start(&mut interrupted, vec![0xb0]).unwrap();
        let mut next = interrupted.head_number().map_or(0, |h| h + 1);
        while next < produced {
            let block = make_block(&interrupted, next);
            interrupted.store_next_block(block).unwrap();
            next += 1;
        }
    }

    // Uninterrupted run over the same schedule.
    let mut uninterrupted = Store::new(OPERATOR_ADDRESS);
    for n in 0..produced {
        uninterrupted.push_local(miniblock(n));
    }
    cfg.start(&mut uninterrupted, vec![0xb0]).unwrap();
    let mut next = uninterrupted.head_number().map_or(0, |h| h + 1);
    while next < produced {
        let block = make_block(&uninterrupted, next);
        uninterrupted.store_next_block(block).unwrap();
        next += 1;
    }

    assert_eq!(interrupted.certified().len(), produced as usize);
    assert_eq!(interrupted.certified(), uninterrupted.certified());
}

#[test]
fn validator_set_of_two_is_rejected_before_any_work() {
    let cfg = validator_config(vec![1, 2]);
    let mut store = Store::new(OPERATOR_ADDRESS);
    store.push_local(miniblock(0));
    let r = cfg.validate_single_validator();
    assert!(r.is_err());
    // Starting the orchestrator fails the same way and leaves the store
    // untouched: no genesis record, no background work to do.
    let r = cfg.start(&mut store, vec![0xb0]);
    assert!(r.is_err());
    assert!(store.genesis().is_err());
    assert_eq!(store.certified().len(), 0);
}
