use explorer_index::id::first8_bytes_to_u64;
use explorer_index::model::{BlockData, BlockOutcome, Transaction, TransformError};
use explorer_index::transform::{normalize_outputs, transform_block, transform_transaction};
use serde_json::Value;

fn json(text: &str) -> Value {
    serde_json::from_str(text).unwrap()
}

fn ident(first: u8) -> [u8; 32] {
    let mut id = [0u8; 32];
    for (i, b) in id.iter_mut().enumerate() {
        *b = first.wrapping_add(i as u8);
    }
    id
}

fn script(id: [u8; 32], inputs: &str, outputs: Vec<Value>) -> Transaction {
    Transaction::Script { id, inputs: inputs.to_string(), outputs }
}

fn block(time: u64, transactions: Vec<Transaction>) -> BlockData {
    BlockData { height: 7, time, transactions }
}

#[test]
fn script_with_object_inputs_and_no_outputs() {
    let out = transform_block(&block(100, vec![script(ident(1), "{\"a\":1}", vec![])]));
    assert_eq!(out.failure, None);
    assert_eq!(out.entities.len(), 1);
    let e = &out.entities[0];
    assert_eq!(e.inputs, Some(json("{\"a\":1}")));
    assert_eq!(e.outputs, "[]");
    assert_eq!(e.age, 100);
    assert_eq!(e.id, 0x0102030405060708);
}

#[test]
fn script_with_text_that_is_not_json_fails() {
    let out = transform_block(&block(100, vec![script(ident(1), "not json", vec![])]));
    assert_eq!(out.failure, Some(TransformError::MalformedInput));
    assert!(out.entities.is_empty());
    let r = transform_transaction(&script(ident(1), "not json", vec![]), 100);
    assert_eq!(r.unwrap_err(), TransformError::MalformedInput);
}

#[test]
fn mint_has_no_inputs_and_keeps_outputs() {
    let tx = Transaction::Mint { id: ident(9), outputs: vec![json("{\"amount\":5}")] };
    let out = transform_block(&block(3, vec![tx]));
    assert_eq!(out.failure, None);
    let e = &out.entities[0];
    assert_eq!(e.inputs, None);
    assert_eq!(e.outputs, "[{\"amount\":5}]");
}

#[test]
fn create_is_treated_like_script() {
    let tx = Transaction::Create {
        id: ident(2),
        inputs: "[1, 2]".to_string(),
        outputs: vec![json("{\"to\":\"x\"}"), json("3")],
    };
    let e = transform_transaction(&tx, 55).unwrap();
    assert_eq!(e.inputs, Some(json("[1,2]")));
    assert_eq!(e.outputs, "[{\"to\":\"x\"},3]");
    assert_eq!(e.age, 55);
    assert_eq!(e.id, 0x0203040506070809);
}

#[test]
fn create_with_malformed_inputs_fails() {
    let tx = Transaction::Create { id: ident(2), inputs: "{".to_string(), outputs: vec![] };
    assert_eq!(transform_transaction(&tx, 1).unwrap_err(), TransformError::MalformedInput);
}

#[test]
fn one_entity_per_transaction_in_order() {
    let txs = vec![
        script(ident(1), "{}", vec![]),
        Transaction::Mint { id: ident(40), outputs: vec![] },
        Transaction::Create { id: ident(80), inputs: "null".to_string(), outputs: vec![] },
    ];
    let out = transform_block(&block(9, txs));
    assert_eq!(out.failure, None);
    let ids: Vec<u64> = out.entities.iter().map(|e| e.id).collect();
    assert_eq!(ids, vec![first8_bytes_to_u64(&ident(1)), first8_bytes_to_u64(&ident(40)), first8_bytes_to_u64(&ident(80))]);
    assert_eq!(out.entities[2].inputs, Some(Value::Null));
}

#[test]
fn every_entity_carries_block_time() {
    let txs = vec![
        script(ident(1), "1", vec![]),
        Transaction::Mint { id: ident(2), outputs: vec![] },
    ];
    let out = transform_block(&block(u64::MAX, txs));
    assert_eq!(out.entities.len(), 2);
    assert!(out.entities.iter().all(|e| e.age == u64::MAX));
}

#[test]
fn empty_block_yields_nothing() {
    let out: BlockOutcome = transform_block(&block(1, vec![]));
    assert_eq!(out.failure, None);
    assert!(out.entities.is_empty());
}

#[test]
fn failure_midway_keeps_earlier_entities() {
    let txs = vec![
        script(ident(1), "{}", vec![]),
        script(ident(2), "oops", vec![]),
        script(ident(3), "{}", vec![]),
    ];
    let out = transform_block(&block(1, txs));
    assert_eq!(out.failure, Some(TransformError::MalformedInput));
    assert_eq!(out.entities.len(), 1);
    assert_eq!(out.entities[0].id, first8_bytes_to_u64(&ident(1)));
}

#[test]
fn key_is_big_endian_first_eight_bytes() {
    let mut id = [0xffu8; 32];
    id[..8].copy_from_slice(&[0x12, 0x34, 0x56, 0x78, 0x9a, 0xbc, 0xde, 0xf0]);
    assert_eq!(first8_bytes_to_u64(&id), 0x123456789abcdef0);
    assert_eq!(first8_bytes_to_u64(&[0u8; 32]), 0);
    assert_eq!(first8_bytes_to_u64(&[0xffu8; 32]), u64::MAX);
}

#[test]
fn key_is_deterministic_and_separates_prefixes() {
    let a = ident(5);
    assert_eq!(first8_bytes_to_u64(&a), first8_bytes_to_u64(&a.clone()));
    let mut b = a;
    b[31] = 0;
    assert_eq!(first8_bytes_to_u64(&a), first8_bytes_to_u64(&b));
    let mut c = a;
    c[7] ^= 1;
    assert_ne!(first8_bytes_to_u64(&a), first8_bytes_to_u64(&c));
}

#[test]
fn outputs_text_parses_back_to_their_value() {
    let outs = vec![json("{\"amount\":5,\"asset\":\"ab\"}"), json("[true,null]"), json("-3")];
    let text = normalize_outputs(&outs).unwrap();
    let back: Value = serde_json::from_str(&text).unwrap();
    assert_eq!(back, serde_json::to_value(&outs).unwrap());
}
