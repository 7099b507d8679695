use consensus_bridge::codec::{decode_payload, encode_payload, Miniblock};

#[test]
fn encode_exact_bytes() {
    let m = Miniblock { timestamp: 1, operator_address: 2, transactions: vec![0xab, 0xcd] };
    let b = encode_payload(&m);
    let mut want = vec![1u8, 0, 0, 0, 0, 0, 0, 0, 2, 0, 0, 0, 0, 0, 0, 0];
    want.extend_from_slice(&[0xab, 0xcd]);
    assert_eq!(b, want);
}

#[test]
fn round_trip() {
    let m = Miniblock {
        timestamp: 0xdead_beef_0102_0304,
        operator_address: 17,
        transactions: vec![9, 8, 7, 6, 5],
    };
    let b = encode_payload(&m);
    let d = decode_payload(&b).expect("payload must decode");
    assert_eq!(d, m);
}

#[test]
fn round_trip_empty_transactions() {
    let m = Miniblock { timestamp: 0, operator_address: 0, transactions: vec![] };
    let b = encode_payload(&m);
    assert_eq!(b.len(), 16);
    let d = decode_payload(&b).expect("payload must decode");
    assert_eq!(d, m);
}

#[test]
fn decode_rejects_short_payload() {
    assert_eq!(decode_payload(&vec![]), None);
    assert_eq!(decode_payload(&vec![0; 15]), None);
    assert!(decode_payload(&vec![0; 16]).is_some());
}
