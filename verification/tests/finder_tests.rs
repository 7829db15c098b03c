use event_watch::decoder::{encode, DecodedValue};
use event_watch::finder::{
    event_signature, find_loop_created_event, loop_created_signature, LoopCreatedEvent,
};
use event_watch::types::{
    Address, DecodeError, FinderError, Hash256, LogRecord, Uint256, WatchError, WatchMode,
};
use event_watch::watcher::{lookback_filter, watch};

fn addr(b: u8) -> Address {
    Address::from_bytes(vec![b; 20]).unwrap()
}

fn hash(b: u8) -> Hash256 {
    Hash256::from_bytes(vec![b; 32]).unwrap()
}

fn loop_created_payload() -> Vec<u8> {
    let fields = vec![
        DecodedValue::AddressValue(addr(0x11)),
        DecodedValue::AddressValue(addr(0x22)),
        DecodedValue::UintValue(Uint256::from_u64(120)),
        DecodedValue::UintValue(Uint256::from_u64(5)),
    ];
    encode(&fields)
}

fn record(topic0: Hash256, data: Vec<u8>, block: u64) -> LogRecord {
    LogRecord {
        topics: vec![topic0],
        data,
        block_number: block,
        tx_hash: hash(0xcc),
        log_index: 0,
    }
}

#[test]
fn signature_is_the_keccak_digest_of_the_canonical_string() {
    let sig = loop_created_signature();
    let reference = ethers::utils::keccak256("LoopCreated(address,address,uint256,uint256)");
    assert_eq!(sig.bytes().as_slice(), &reference);
    let other = event_signature("Transfer(address,address,uint256)");
    assert_ne!(sig, other);
}

#[test]
fn lookback_scenario_finds_the_log_in_its_window() {
    // Height 1000: the scanned window is [900, 1000]; the matching record
    // sits in block 975 among non-matching neighbours.
    let height: u64 = 1000;
    let f = lookback_filter(addr(0x0a), height);
    assert_eq!(f.from_block, Some(900));
    assert_eq!(f.to_block, Some(1000));

    let sig = loop_created_signature();
    let logs = vec![
        record(hash(1), Vec::new(), 950),
        record(loop_created_signature(), loop_created_payload(), 975),
        record(hash(3), Vec::new(), 1000),
    ];
    let found = watch(logs, &sig, WatchMode::Lookback).unwrap();
    assert_eq!(found.block_number, 975);
}

#[test]
fn finder_decodes_the_first_matching_record() {
    let logs = vec![
        record(hash(1), Vec::new(), 950),
        record(loop_created_signature(), loop_created_payload(), 975),
    ];
    let ev: LoopCreatedEvent = find_loop_created_event(logs).unwrap().unwrap();
    assert_eq!(ev.loop_address, addr(0x11));
    assert_eq!(ev.token, addr(0x22));
    assert_eq!(ev.period_length, Uint256::from_u64(120));
    assert_eq!(ev.percent_per_period, Uint256::from_u64(5));
}

#[test]
fn finder_reports_an_empty_payload_as_nothing_to_decode() {
    let logs = vec![record(loop_created_signature(), Vec::new(), 975)];
    let r = find_loop_created_event(logs).unwrap();
    assert!(r.is_none());
}

#[test]
fn finder_without_match_fails_distinctly() {
    let logs = vec![record(hash(1), Vec::new(), 950)];
    match find_loop_created_event(logs) {
        Err(FinderError::Watch(e)) => assert_eq!(e, WatchError::NoPastEvent),
        _ => panic!("a missing event must surface as the watch failure"),
    }
    match find_loop_created_event(Vec::new()) {
        Err(FinderError::Watch(e)) => assert_eq!(e, WatchError::NoPastEvent),
        _ => panic!("an empty range must surface as the watch failure"),
    }
}

#[test]
fn finder_surfaces_payload_shape_faults() {
    let logs = vec![record(loop_created_signature(), vec![0u8; 33], 975)];
    match find_loop_created_event(logs) {
        Err(FinderError::Decode(e)) => assert_eq!(e, DecodeError::LengthNotAligned),
        _ => panic!("an unaligned payload must surface as a decode failure"),
    }
    let logs = vec![record(loop_created_signature(), vec![0u8; 32], 975)];
    match find_loop_created_event(logs) {
        Err(FinderError::Decode(e)) => assert_eq!(e, DecodeError::SlotCountMismatch),
        _ => panic!("a short payload must surface as a decode failure"),
    }
    let mut bad = loop_created_payload();
    bad[0] = 0xff;
    let logs = vec![record(loop_created_signature(), bad, 975)];
    match find_loop_created_event(logs) {
        Err(FinderError::Decode(e)) => assert_eq!(e, DecodeError::FieldMiscast),
        _ => panic!("nonzero address padding must surface as a decode failure"),
    }
}
