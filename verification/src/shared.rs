//! The process-wide shared log store: one mutual-exclusion point guards the
//! whole collection, so appends, snapshots and clears are atomic with
//! respect to each other and no caller ever observes a partially-mutated
//! store. Constructed once at composition root and shared by reference.

use vstd::prelude::*;
use vstd::rwlock::{RwLock, RwLockPredicate};
use crate::entry::LogEntry;
use crate::store::{LogStore, MAX_LOG_ENTRIES};

verus! {

/// The condition every value stored in the shared lock satisfies: the
/// store's bound.
pub struct StorePred;

impl RwLockPredicate<LogStore> for StorePred {
    open spec fn inv(self, v: LogStore) -> bool {
        v.inv()
    }
}

/// Thread-safe handle to the one bounded log store of the process. Every
/// operation acquires the lock, performs one whole-store step, and releases
/// it; no lock is ever held across a network call.
pub struct SharedLogStore {
    lock: RwLock<LogStore, StorePred>,
}

impl SharedLogStore {
    /// The lock is set up to maintain the store's bound.
    pub closed spec fn wf(&self) -> bool {
        self.lock.pred() == StorePred
    }

    /// Creates the shared store, empty.
    pub fn new() -> (r: SharedLogStore)
        ensures
            r.wf(),
    {
        SharedLogStore { lock: RwLock::new(LogStore::new(), Ghost(StorePred)) }
    }

    /// Command: capture the current time and append one entry. Always
    /// succeeds; when the store is full the oldest entry is evicted.
    pub fn add_log_entry(&self, level: &str, message: &str)
        requires
            self.wf(),
    {
        let (mut store, handle) = self.lock.acquire_write();
        store.add_log_entry(level, message);
        handle.release_write(store);
    }

    /// Command: an ordered copy of the current entries, oldest first. The
    /// copy is taken under the lock, so it is one consistent state, and it
    /// never exceeds the store's bound.
    pub fn get_logs(&self) -> (r: Vec<LogEntry>)
        requires
            self.wf(),
        ensures
            r@.len() <= MAX_LOG_ENTRIES,
    {
        let read_handle = self.lock.acquire_read();
        let logs = read_handle.borrow().snapshot();
        read_handle.release_read();
        logs
    }

    /// Command: atomically empty the store; the next snapshot holds exactly
    /// the one entry recording the clear.
    pub fn clear_logs(&self)
        requires
            self.wf(),
    {
        let (mut store, handle) = self.lock.acquire_write();
        store.clear();
        handle.release_write(store);
    }
}

} // verus!
