use pake_logs::entry::LogEntry;
use pake_logs::store::LogStore;

const CAPACITY: usize = 5000;

fn entry(n: usize) -> LogEntry {
    LogEntry::to_storage_form("INFO", &format!("message {}", n), format!("ts {}", n))
}

#[test]
fn append_and_snapshot_in_order() {
    let mut store = LogStore::new();
    for n in 0..3 {
        store.append(entry(n));
    }
    let logs = store.snapshot();
    assert_eq!(logs.len(), 3);
    for n in 0..3 {
        assert_eq!(logs[n].level, "INFO");
        assert_eq!(logs[n].message, format!("message {}", n));
        assert_eq!(logs[n].timestamp, format!("ts {}", n));
    }
}

#[test]
fn snapshot_of_empty_store_is_empty() {
    let store = LogStore::new();
    assert_eq!(store.snapshot().len(), 0);
}

#[test]
fn bounded_fifo_eviction() {
    let mut store = LogStore::new();
    let total = CAPACITY + 3;
    for n in 0..total {
        store.append(entry(n));
    }
    let logs = store.snapshot();
    assert_eq!(logs.len(), CAPACITY);
    for (i, log) in logs.iter().enumerate() {
        assert_eq!(log.message, format!("message {}", i + 3));
    }
}

#[test]
fn eviction_starts_right_past_capacity() {
    let mut store = LogStore::new();
    for n in 0..(CAPACITY + 1) {
        store.append(entry(n));
    }
    let logs = store.snapshot();
    assert_eq!(logs.len(), CAPACITY);
    assert_eq!(logs[0].message, "message 1");
    assert_eq!(logs[CAPACITY - 1].message, format!("message {}", CAPACITY));
}

#[test]
fn sequential_append_count_is_min_of_total_and_capacity() {
    let mut store = LogStore::new();
    let writers = 3;
    let per_writer = 4;
    for w in 0..writers {
        for k in 0..per_writer {
            store.add_log_entry("INFO", &format!("writer {} item {}", w, k));
        }
    }
    let logs = store.snapshot();
    assert_eq!(logs.len(), writers * per_writer);
    for log in &logs {
        assert_eq!(log.level, "INFO");
        assert!(log.message.starts_with("writer "));
    }
}

#[test]
fn clear_is_observable() {
    let mut store = LogStore::new();
    for n in 0..10 {
        store.append(entry(n));
    }
    store.clear();
    let logs = store.snapshot();
    assert_eq!(logs.len(), 1);
    assert_eq!(logs[0].level, "INFO");
    assert_eq!(logs[0].message, "Log cleared");
}

#[test]
fn add_log_entry_captures_a_timestamp() {
    let mut store = LogStore::new();
    store.add_log_entry("ERROR", "boom");
    let logs = store.snapshot();
    assert_eq!(logs.len(), 1);
    assert_eq!(logs[0].level, "ERROR");
    assert_eq!(logs[0].message, "boom");
    // YYYY-MM-DD HH:MM:SS.mmm
    assert_eq!(logs[0].timestamp.len(), 23);
    assert_eq!(&logs[0].timestamp[4..5], "-");
    assert_eq!(&logs[0].timestamp[13..14], ":");
    assert_eq!(&logs[0].timestamp[19..20], ".");
}

#[test]
fn entries_are_stored_verbatim() {
    let mut store = LogStore::new();
    store.append(LogEntry::to_storage_form(
        "weird level",
        "message with \n newline and unicode \u{00e9}",
        "whenever".to_string(),
    ));
    let logs = store.snapshot();
    assert_eq!(logs[0].level, "weird level");
    assert_eq!(logs[0].message, "message with \n newline and unicode \u{00e9}");
    assert_eq!(logs[0].timestamp, "whenever");
}
