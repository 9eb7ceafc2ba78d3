use hera::attributes::{BlockInfo, L2AttributesWithParent, L2PayloadAttributes, RawTransaction};
use hera::bytes::{Address, B256};
use hera::engine::{engine_verdict, validate_response, EngineError};
use hera::validator::{BlockHeader, TrustedValidator, ValidationError};

const CANYON: u64 = 1_704_992_401;

fn header(timestamp: u64) -> BlockHeader {
    BlockHeader {
        timestamp,
        mix_hash: Some(B256([0x11; 32])),
        miner: Address([0x22; 20]),
        parent_beacon_block_root: Some(B256([0x33; 32])),
        gas_limit: 30_000_000,
    }
}

fn txs() -> Vec<RawTransaction> {
    vec![RawTransaction(vec![0x02, 0xf8, 0x01]), RawTransaction(vec![0x7e, 0x00])]
}

fn attributes_with_parent(attributes: L2PayloadAttributes, parent: u64) -> L2AttributesWithParent {
    L2AttributesWithParent { attributes, parent: BlockInfo { hash: B256([0; 32]), number: parent } }
}

#[test]
fn withdrawals_absent_before_canyon() {
    let v = TrustedValidator::new(CANYON);
    let p = v.get_payload(&header(CANYON - 1), txs());
    assert!(p.withdrawals.is_none());
}

#[test]
fn withdrawals_empty_from_canyon() {
    let v = TrustedValidator::new(CANYON);
    let p = v.get_payload(&header(CANYON), txs());
    assert_eq!(p.withdrawals.map(|w| w.len()), Some(0));
}

#[test]
fn payload_fields_come_from_header() {
    let v = TrustedValidator::new(CANYON);
    let p = v.get_payload(&header(CANYON + 5), txs());
    assert_eq!(p.timestamp, CANYON + 5);
    assert_eq!(p.prev_randao.0, [0x11; 32]);
    assert_eq!(p.fee_recipient.0, [0x22; 20]);
    assert_eq!(p.parent_beacon_block_root.unwrap().0, [0x33; 32]);
    assert_eq!(p.transactions.len(), 2);
    assert_eq!(p.transactions[0].0, vec![0x02, 0xf8, 0x01]);
    assert!(p.no_tx_pool);
    assert_eq!(p.gas_limit, Some(30_000_000));
}

#[test]
fn missing_mix_hash_gives_zero_randao() {
    let v = TrustedValidator::new(CANYON);
    let mut h = header(1);
    h.mix_hash = None;
    assert_eq!(v.get_payload(&h, vec![]).prev_randao.0, [0; 32]);
}

#[test]
fn short_transaction_list_is_an_error() {
    let v = TrustedValidator::new(CANYON);
    let fetched: Vec<Option<RawTransaction>> = txs().into_iter().take(1).map(Some).collect();
    let r = v.get_block(header(CANYON), 2, fetched);
    assert_eq!(r.unwrap_err(), ValidationError::TransactionCountMismatch);
}

#[test]
fn failed_transaction_fetch_is_an_error() {
    let v = TrustedValidator::new(CANYON);
    let fetched = vec![Some(RawTransaction(vec![1])), None];
    let r = v.get_block(header(CANYON), 2, fetched);
    assert_eq!(r.unwrap_err(), ValidationError::TransactionFetch);
}

#[test]
fn full_transaction_list_is_kept_in_order() {
    let v = TrustedValidator::new(CANYON);
    let fetched: Vec<Option<RawTransaction>> = txs().into_iter().map(Some).collect();
    let (h, t) = v.get_block(header(CANYON), 2, fetched).unwrap();
    assert_eq!(h.timestamp, CANYON);
    assert_eq!(t.len(), 2);
    assert_eq!(t[1].0, vec![0x7e, 0x00]);
}

#[test]
fn end_to_end_matching_attributes_are_valid() {
    let v = TrustedValidator::new(CANYON);
    let expected = v.get_payload(&header(CANYON + 24), txs());
    let attrs = attributes_with_parent(expected, 100);
    assert_eq!(v.expected_block_number(&attrs), 101);
    let fetched: Vec<Option<RawTransaction>> = txs().into_iter().map(Some).collect();
    let block = v.get_block(header(CANYON + 24), 2, fetched);
    assert_eq!(v.validate(&attrs, block), Ok(true));
}

#[test]
fn end_to_end_differing_attributes_are_invalid() {
    let v = TrustedValidator::new(CANYON);
    let mut changed = v.get_payload(&header(CANYON + 24), txs());
    changed.transactions[1].0.push(0xff);
    let attrs = attributes_with_parent(changed, 100);
    let fetched: Vec<Option<RawTransaction>> = txs().into_iter().map(Some).collect();
    let block = v.get_block(header(CANYON + 24), 2, fetched);
    assert_eq!(v.validate(&attrs, block), Ok(false));

    let mut other = v.get_payload(&header(CANYON + 24), txs());
    other.gas_limit = Some(1);
    let attrs = attributes_with_parent(other, 100);
    let block = Ok((header(CANYON + 24), txs()));
    assert_eq!(v.validate(&attrs, block), Ok(false));

    let mut no_withdrawals = v.get_payload(&header(CANYON + 24), txs());
    no_withdrawals.withdrawals = None;
    let attrs = attributes_with_parent(no_withdrawals, 100);
    assert_eq!(v.validate(&attrs, Ok((header(CANYON + 24), txs()))), Ok(false));
}

#[test]
fn failed_fetch_fails_validation() {
    let v = TrustedValidator::new(CANYON);
    let attrs = attributes_with_parent(v.get_payload(&header(CANYON), txs()), 100);
    assert_eq!(
        v.validate(&attrs, Err(ValidationError::BlockNotFound)),
        Err(ValidationError::BlockNotFound)
    );
}

#[test]
fn engine_valid_status_is_true() {
    let body = br#"{"jsonrpc":"2.0","id":1,"result":{"status":"VALID"}}"#;
    assert_eq!(validate_response(200, body), Ok(true));
}

#[test]
fn engine_invalid_status_is_false() {
    let body = br#"{"jsonrpc":"2.0","id":1,"result":{"status":"INVALID"}}"#;
    assert_eq!(validate_response(200, body), Ok(false));
    let lower = br#"{"result":{"status":"valid"}}"#;
    assert_eq!(validate_response(200, lower), Ok(false));
    let missing = br#"{"error":{"code":-32000}}"#;
    assert_eq!(validate_response(200, missing), Ok(false));
}

#[test]
fn engine_non_success_http_is_an_error() {
    let body = br#"{"result":{"status":"VALID"}}"#;
    assert_eq!(validate_response(401, body), Err(EngineError::HttpStatus(401)));
    assert_eq!(validate_response(500, b"{}"), Err(EngineError::HttpStatus(500)));
}

#[test]
fn engine_malformed_body_is_an_error() {
    assert_eq!(validate_response(200, b"not json"), Err(EngineError::MalformedBody));
    assert_eq!(validate_response(200, b""), Err(EngineError::MalformedBody));
}

#[test]
fn engine_verdict_from_parts() {
    assert_eq!(engine_verdict(200, Some(Some("VALID".to_string()))), Ok(true));
    assert_eq!(engine_verdict(200, Some(None)), Ok(false));
    assert_eq!(engine_verdict(503, Some(Some("VALID".to_string()))), Err(EngineError::HttpStatus(503)));
    assert_eq!(engine_verdict(200, None), Err(EngineError::MalformedBody));
}
