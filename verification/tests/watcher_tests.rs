use event_watch::types::{Hash256, LogRecord, WatchError, WatchMode};
use event_watch::watcher::{
    first_match, lookback_filter, lookback_from, live_filter, matches_signature, scan_live, watch,
    WatchPhase, WatchSession,
};
use event_watch::types::Address;

fn hash(b: u8) -> Hash256 {
    Hash256::from_bytes(vec![b; 32]).unwrap()
}

fn addr(b: u8) -> Address {
    Address::from_bytes(vec![b; 20]).unwrap()
}

fn log_with_topic(topic: u8, block: u64, index: u64) -> LogRecord {
    LogRecord {
        topics: vec![hash(topic)],
        data: Vec::new(),
        block_number: block,
        tx_hash: hash(0xaa),
        log_index: index,
    }
}

#[test]
fn lookback_returns_first_match_in_delivered_order() {
    let sig = hash(2);
    let logs = vec![
        log_with_topic(1, 950, 0),
        log_with_topic(2, 975, 1),
        log_with_topic(2, 990, 2),
    ];
    let found = watch(logs, &sig, WatchMode::Lookback).unwrap();
    assert_eq!(found.block_number, 975);
    assert_eq!(found.log_index, 1);
}

#[test]
fn watch_skips_records_without_topics() {
    let sig = hash(2);
    let bare = LogRecord {
        topics: Vec::new(),
        data: Vec::new(),
        block_number: 949,
        tx_hash: hash(0xaa),
        log_index: 0,
    };
    let logs = vec![bare, log_with_topic(2, 960, 1)];
    let found = watch(logs, &sig, WatchMode::Lookback).unwrap();
    assert_eq!(found.block_number, 960);
}

#[test]
fn lookback_range_boundaries() {
    assert_eq!(lookback_from(0), 0);
    for h in 1..=9u64 {
        assert_eq!(lookback_from(h), h);
    }
    assert_eq!(lookback_from(10), 9);
    assert_eq!(lookback_from(100), 90);
    assert_eq!(lookback_from(1000), 900);
}

#[test]
fn lookback_filter_covers_recent_tenth() {
    let f = lookback_filter(addr(0x11), 1000);
    assert_eq!(f.from_block, Some(900));
    assert_eq!(f.to_block, Some(1000));
    assert_eq!(f.address.bytes(), &vec![0x11u8; 20]);
}

#[test]
fn live_filter_has_no_block_bounds() {
    let f = live_filter(addr(0x11));
    assert_eq!(f.from_block, None);
    assert_eq!(f.to_block, None);
}

#[test]
fn live_consumes_exactly_up_to_first_match() {
    let sig = hash(9);
    let logs = vec![
        log_with_topic(1, 10, 0),
        log_with_topic(2, 11, 1),
        log_with_topic(9, 12, 2),
    ];
    let (consumed, result) = scan_live(logs, &sig);
    assert_eq!(consumed, 3);
    let found = result.unwrap();
    assert_eq!(found.block_number, 12);
}

#[test]
fn live_match_midway_stops_early() {
    let sig = hash(9);
    let logs = vec![
        log_with_topic(9, 10, 0),
        log_with_topic(9, 11, 1),
        log_with_topic(1, 12, 2),
    ];
    let (consumed, result) = scan_live(logs, &sig);
    assert_eq!(consumed, 1);
    assert_eq!(result.unwrap().block_number, 10);
}

#[test]
fn empty_lookback_yields_distinct_not_found() {
    let sig = hash(2);
    let err = watch(Vec::new(), &sig, WatchMode::Lookback).unwrap_err();
    assert_eq!(err, WatchError::NoPastEvent);
    assert_eq!(err.message(), "no past event matched");
}

#[test]
fn exhausted_live_stream_yields_distinct_not_found() {
    let sig = hash(2);
    let logs = vec![log_with_topic(1, 10, 0)];
    let (consumed, result) = scan_live(logs, &sig);
    assert_eq!(consumed, 1);
    let err = result.unwrap_err();
    assert_eq!(err, WatchError::NoLiveEvent);
    assert_eq!(err.message(), "expected live event not observed");
    assert_ne!(
        WatchError::NoPastEvent.message(),
        WatchError::NoLiveEvent.message()
    );
}

#[test]
fn topic_match_is_exact_byte_equality() {
    let sig = hash(7);
    let matching = log_with_topic(7, 1, 0);
    let differing = log_with_topic(8, 1, 0);
    assert!(matches_signature(&matching, &sig));
    assert!(!matches_signature(&differing, &sig));
}

#[test]
fn session_walks_the_lookback_protocol() {
    let mut s = WatchSession::start(hash(2), WatchMode::Lookback);
    assert_eq!(s.phase, WatchPhase::AwaitingHeight);
    s.on_height(1000);
    assert_eq!(
        s.phase,
        WatchPhase::AwaitingLogs {
            from_block: 900,
            to_block: 1000
        }
    );
    s.on_logs(vec![log_with_topic(1, 950, 0), log_with_topic(2, 975, 1)]);
    assert_eq!(s.phase, WatchPhase::Finished);
    assert_eq!(s.finish().unwrap().block_number, 975);
}

#[test]
fn session_live_finishes_on_the_third_record() {
    let mut s = WatchSession::start(hash(9), WatchMode::Live);
    assert_eq!(s.phase, WatchPhase::Streaming);
    s.on_live_record(log_with_topic(1, 10, 0));
    assert_eq!(s.phase, WatchPhase::Streaming);
    s.on_live_record(log_with_topic(2, 11, 1));
    assert_eq!(s.phase, WatchPhase::Streaming);
    s.on_live_record(log_with_topic(9, 12, 2));
    assert_eq!(s.phase, WatchPhase::Finished);
    assert_eq!(s.finish().unwrap().block_number, 12);
}

#[test]
fn session_stream_end_without_match_fails_live() {
    let mut s = WatchSession::start(hash(9), WatchMode::Live);
    s.on_live_record(log_with_topic(1, 10, 0));
    s.on_stream_end();
    assert_eq!(s.finish().unwrap_err(), WatchError::NoLiveEvent);
}

#[test]
fn session_lookback_without_match_fails_past() {
    let mut s = WatchSession::start(hash(2), WatchMode::Lookback);
    s.on_height(0);
    assert_eq!(
        s.phase,
        WatchPhase::AwaitingLogs {
            from_block: 0,
            to_block: 0
        }
    );
    s.on_logs(Vec::new());
    assert_eq!(s.finish().unwrap_err(), WatchError::NoPastEvent);
}

#[test]
fn first_match_reports_position() {
    let sig = hash(3);
    let logs = vec![
        log_with_topic(1, 1, 0),
        log_with_topic(3, 2, 1),
        log_with_topic(3, 3, 2),
    ];
    assert_eq!(first_match(&logs, &sig), Some(1));
    let none = first_match(&vec![log_with_topic(1, 1, 0)], &sig);
    assert_eq!(none, None);
}
