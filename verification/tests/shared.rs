use pake_logs::shared::SharedLogStore;

#[test]
fn shared_store_commands_round_trip() {
    let store = SharedLogStore::new();
    store.add_log_entry("INFO", "first");
    store.add_log_entry("ERROR", "second");
    let logs = store.get_logs();
    assert_eq!(logs.len(), 2);
    assert_eq!(logs[0].level, "INFO");
    assert_eq!(logs[0].message, "first");
    assert_eq!(logs[1].level, "ERROR");
    assert_eq!(logs[1].message, "second");

    store.clear_logs();
    let logs = store.get_logs();
    assert_eq!(logs.len(), 1);
    assert_eq!(logs[0].level, "INFO");
    assert_eq!(logs[0].message, "Log cleared");
}

#[test]
fn shared_store_keeps_the_bound() {
    let store = SharedLogStore::new();
    let capacity = 5000;
    for n in 0..(capacity + 2) {
        store.add_log_entry("INFO", &format!("entry {}", n));
    }
    let logs = store.get_logs();
    assert_eq!(logs.len(), capacity);
    assert_eq!(logs[0].message, "entry 2");
    assert_eq!(logs[capacity - 1].message, format!("entry {}", capacity + 1));
}

#[test]
fn shared_store_starts_empty() {
    let store = SharedLogStore::new();
    assert!(store.get_logs().is_empty());
}
