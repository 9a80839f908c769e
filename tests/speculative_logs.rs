use vm_logging::events::{Channel, Level, LogError, SpeculativeEvents, VMLogEntry};
use vm_logging::handle::{
    clear_speculative_txn_logs, flush_speculative_logs, init_speculative_logs, speculative_log,
    speculative_record, LogHandle,
};

fn pairs(events: &[VMLogEntry]) -> Vec<(usize, String)> {
    events.iter().map(|e| (e.txn_idx, e.message.clone())).collect()
}

fn log(h: &mut LogHandle, idx: usize, msg: &str) -> Result<(), LogError> {
    speculative_log(h, Level::Info, idx, msg.to_string())
}

#[test]
fn fresh_store_flushes_nothing() {
    for n in 0..6usize {
        let mut h = LogHandle::new();
        init_speculative_logs(&mut h, n);
        assert_eq!(h.num_txns(), Some(n));
        let out = flush_speculative_logs(&mut h, n).unwrap();
        assert!(out.is_empty());
        assert!(!h.is_installed());
        assert_eq!(h.critical_errors(), 0);
    }
}

#[test]
fn appends_flush_in_append_order() {
    let mut h = LogHandle::new();
    init_speculative_logs(&mut h, 4);
    log(&mut h, 2, "e1").unwrap();
    log(&mut h, 2, "e2").unwrap();
    log(&mut h, 2, "e3").unwrap();
    let out = flush_speculative_logs(&mut h, 4).unwrap();
    assert_eq!(
        pairs(&out),
        vec![(2, "e1".to_string()), (2, "e2".to_string()), (2, "e3".to_string())]
    );
}

#[test]
fn cleared_slot_dispatches_nothing() {
    let mut h = LogHandle::new();
    init_speculative_logs(&mut h, 2);
    log(&mut h, 0, "keep").unwrap();
    log(&mut h, 1, "drop1").unwrap();
    log(&mut h, 1, "drop2").unwrap();
    assert_eq!(clear_speculative_txn_logs(&mut h, 1), Ok(()));
    let out = flush_speculative_logs(&mut h, 2).unwrap();
    assert_eq!(pairs(&out), vec![(0, "keep".to_string())]);
}

#[test]
fn interleaved_slots_flush_in_index_order() {
    let mut h = LogHandle::new();
    init_speculative_logs(&mut h, 5);
    log(&mut h, 3, "j1").unwrap();
    log(&mut h, 1, "i1").unwrap();
    log(&mut h, 3, "j2").unwrap();
    log(&mut h, 1, "i2").unwrap();
    let out = flush_speculative_logs(&mut h, 5).unwrap();
    assert_eq!(
        pairs(&out),
        vec![
            (1, "i1".to_string()),
            (1, "i2".to_string()),
            (3, "j1".to_string()),
            (3, "j2".to_string())
        ]
    );
}

#[test]
fn flush_with_second_holder_is_not_exclusive() {
    let mut h = LogHandle::new();
    init_speculative_logs(&mut h, 2);
    speculative_log(&mut h, Level::Error, 0, "x".to_string()).unwrap();
    assert!(h.hold());
    assert_eq!(h.num_holders(), 1);
    assert_eq!(flush_speculative_logs(&mut h, 2), Err(LogError::NotExclusive));
    assert!(!h.is_installed());
    assert_eq!(h.num_holders(), 0);
    assert_eq!(h.critical_errors(), 1);
}

#[test]
fn released_holder_allows_flush() {
    let mut h = LogHandle::new();
    init_speculative_logs(&mut h, 1);
    log(&mut h, 0, "a").unwrap();
    assert!(h.hold());
    h.release();
    let out = flush_speculative_logs(&mut h, 1).unwrap();
    assert_eq!(pairs(&out), vec![(0, "a".to_string())]);
}

#[test]
fn hold_without_store_is_refused() {
    let mut h = LogHandle::new();
    assert!(!h.hold());
    assert_eq!(h.num_holders(), 0);
    h.release();
    assert_eq!(h.num_holders(), 0);
}

#[test]
fn out_of_range_append_keeps_other_slots() {
    let mut h = LogHandle::new();
    init_speculative_logs(&mut h, 2);
    log(&mut h, 0, "a").unwrap();
    log(&mut h, 1, "b").unwrap();
    assert_eq!(log(&mut h, 2, "c"), Err(LogError::OutOfRange));
    assert_eq!(log(&mut h, 7, "d"), Err(LogError::OutOfRange));
    assert_eq!(h.critical_errors(), 2);
    let out = flush_speculative_logs(&mut h, 2).unwrap();
    assert_eq!(pairs(&out), vec![(0, "a".to_string()), (1, "b".to_string())]);
}

#[test]
fn install_three_clear_middle() {
    let mut h = LogHandle::new();
    init_speculative_logs(&mut h, 3);
    log(&mut h, 0, "a").unwrap();
    log(&mut h, 1, "b").unwrap();
    log(&mut h, 2, "c").unwrap();
    clear_speculative_txn_logs(&mut h, 1).unwrap();
    let out = flush_speculative_logs(&mut h, 3).unwrap();
    assert_eq!(pairs(&out), vec![(0, "a".to_string()), (2, "c".to_string())]);
}

#[test]
fn error_counted_at_flush_not_append() {
    let mut h = LogHandle::new();
    init_speculative_logs(&mut h, 2);
    speculative_log(&mut h, Level::Error, 0, "x".to_string()).unwrap();
    assert_eq!(h.critical_errors(), 0);
    let out = flush_speculative_logs(&mut h, 2).unwrap();
    assert_eq!(h.critical_errors(), 1);
    assert_eq!(out.len(), 1);
    assert_eq!(out[0].dispatch(), Channel::Alert);
}

#[test]
fn append_without_store_is_not_installed() {
    let mut h = LogHandle::new();
    assert_eq!(log(&mut h, 0, "a"), Err(LogError::NotInstalled));
    assert_eq!(h.critical_errors(), 1);
    assert!(!h.is_installed());
}

#[test]
fn clear_without_store_is_silent() {
    let mut h = LogHandle::new();
    assert_eq!(clear_speculative_txn_logs(&mut h, 5), Ok(()));
    assert_eq!(h.critical_errors(), 0);
}

#[test]
fn clear_out_of_range_is_reported() {
    let mut h = LogHandle::new();
    init_speculative_logs(&mut h, 1);
    assert_eq!(clear_speculative_txn_logs(&mut h, 1), Err(LogError::OutOfRange));
    assert_eq!(h.critical_errors(), 1);
}

#[test]
fn flush_without_store_is_empty() {
    let mut h = LogHandle::new();
    assert_eq!(flush_speculative_logs(&mut h, 3), Ok(vec![]));
    assert_eq!(h.critical_errors(), 0);
}

#[test]
fn flush_prefix_only() {
    let mut h = LogHandle::new();
    init_speculative_logs(&mut h, 3);
    log(&mut h, 0, "a").unwrap();
    log(&mut h, 1, "b").unwrap();
    log(&mut h, 2, "c").unwrap();
    let out = flush_speculative_logs(&mut h, 2).unwrap();
    assert_eq!(pairs(&out), vec![(0, "a".to_string()), (1, "b".to_string())]);
}

#[test]
fn flush_beyond_size_takes_all_slots() {
    let mut h = LogHandle::new();
    init_speculative_logs(&mut h, 2);
    log(&mut h, 1, "b").unwrap();
    log(&mut h, 0, "a").unwrap();
    let out = flush_speculative_logs(&mut h, 10).unwrap();
    assert_eq!(pairs(&out), vec![(0, "a".to_string()), (1, "b".to_string())]);
}

#[test]
fn reinstall_discards_previous_store() {
    let mut h = LogHandle::new();
    init_speculative_logs(&mut h, 2);
    log(&mut h, 0, "old").unwrap();
    assert!(h.hold());
    init_speculative_logs(&mut h, 1);
    assert_eq!(h.num_holders(), 0);
    let out = flush_speculative_logs(&mut h, 2).unwrap();
    assert!(out.is_empty());
}

#[test]
fn several_errors_counted() {
    let mut h = LogHandle::new();
    init_speculative_logs(&mut h, 3);
    speculative_log(&mut h, Level::Error, 0, "e".to_string()).unwrap();
    speculative_log(&mut h, Level::Warn, 1, "w".to_string()).unwrap();
    speculative_log(&mut h, Level::Error, 2, "e".to_string()).unwrap();
    flush_speculative_logs(&mut h, 3).unwrap();
    assert_eq!(h.critical_errors(), 2);
}

#[test]
fn record_below_threshold_is_skipped() {
    let mut h = LogHandle::new();
    init_speculative_logs(&mut h, 1);
    assert_eq!(speculative_record(&mut h, Level::Info, Level::Debug, 0, "d".to_string()), Ok(()));
    assert_eq!(speculative_record(&mut h, Level::Info, Level::Trace, 5, "t".to_string()), Ok(()));
    assert_eq!(speculative_record(&mut h, Level::Info, Level::Warn, 0, "w".to_string()), Ok(()));
    assert_eq!(
        speculative_record(&mut h, Level::Info, Level::Info, 3, "i".to_string()),
        Err(LogError::OutOfRange)
    );
    let out = flush_speculative_logs(&mut h, 1).unwrap();
    assert_eq!(pairs(&out), vec![(0, "w".to_string())]);
}

#[test]
fn level_ranks_and_thresholds() {
    assert_eq!(Level::Error.rank(), 1);
    assert_eq!(Level::Trace.rank(), 5);
    assert!(Level::Error.enabled_at(Level::Error));
    assert!(!Level::Warn.enabled_at(Level::Error));
    assert!(Level::Info.enabled_at(Level::Debug));
    assert!(!Level::Trace.enabled_at(Level::Debug));
}

#[test]
fn dispatch_channels() {
    let ch = |l: Level| VMLogEntry::new(l, 0, String::new()).dispatch();
    assert_eq!(ch(Level::Error), Channel::Alert);
    assert_eq!(ch(Level::Warn), Channel::Warn);
    assert_eq!(ch(Level::Info), Channel::Info);
    assert_eq!(ch(Level::Debug), Channel::Debug);
    assert_eq!(ch(Level::Trace), Channel::Trace);
}

#[test]
fn store_record_clear_flush() {
    let mut s = SpeculativeEvents::new(2);
    assert_eq!(s.num_txns(), 2);
    let e = VMLogEntry::new(Level::Info, 1, "m".to_string());
    assert_eq!(s.record(1, e.clone()), Ok(()));
    assert_eq!(s.record(2, e.clone()), Err(LogError::OutOfRange));
    assert_eq!(s.clear_txn_events(3), Err(LogError::OutOfRange));
    assert_eq!(s.record(0, e.clone()), Ok(()));
    assert_eq!(s.clear_txn_events(0), Ok(()));
    assert_eq!(s.flush(2), vec![e]);
}
