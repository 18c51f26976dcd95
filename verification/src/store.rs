//! The bounded, FIFO-evicting in-memory log store.

use vstd::prelude::*;
use std::collections::VecDeque;
use crate::clock;
use crate::entry::{LogEntry, LogEntryV};
use crate::timestamp::{format_storage_timestamp, is_storage_timestamp};

verus! {

/// Maximum number of entries the store retains at any time.
pub const MAX_LOG_ENTRIES: usize = 5000;

/// Level tag of the entry the store writes about itself after a clear.
pub open spec fn clear_level() -> Seq<char> {
    "INFO"@
}

/// Message of the entry the store writes about itself after a clear.
pub open spec fn clear_message() -> Seq<char> {
    "Log cleared"@
}

/// The views of a sequence of stored entries.
pub open spec fn entry_views(s: Seq<LogEntry>) -> Seq<LogEntryV> {
    s.map(|i: int, e: LogEntry| e@)
}

/// The last `n` elements of `s` (all of `s` when it is no longer than `n`).
pub open spec fn keep_last<T>(s: Seq<T>, n: int) -> Seq<T> {
    if s.len() <= n {
        s
    } else {
        s.skip(s.len() - n)
    }
}

/// The store's contents after one append: the entry goes to the tail, and
/// the oldest entries are evicted until at most `MAX_LOG_ENTRIES` remain.
pub open spec fn store_after_append(s: Seq<LogEntryV>, e: LogEntryV) -> Seq<LogEntryV> {
    keep_last(s.push(e), MAX_LOG_ENTRIES as int)
}

/// The store's contents after appending each element of `es` in order.
pub open spec fn store_after_appends(s: Seq<LogEntryV>, es: Seq<LogEntryV>) -> Seq<LogEntryV>
    decreases es.len(),
{
    if es.len() == 0 {
        s
    } else {
        store_after_appends(store_after_append(s, es[0]), es.skip(1))
    }
}

/// Bounded, FIFO-evicting ordered collection of log entries. Insertion order
/// is logical time order; the bound is enforced immediately after every
/// insertion. Callers that share one store across threads wrap it in their
/// own mutual exclusion; every operation here is a single whole-store step.
pub struct LogStore {
    entries: VecDeque<LogEntry>,
}

impl View for LogStore {
    type V = Seq<LogEntryV>;

    closed spec fn view(&self) -> Seq<LogEntryV> {
        entry_views(self.entries@)
    }
}

impl LogStore {
    /// The store's invariant: never more than `MAX_LOG_ENTRIES` entries.
    pub open spec fn inv(&self) -> bool {
        self@.len() <= MAX_LOG_ENTRIES
    }

    /// Creates an empty store.
    pub fn new() -> (r: LogStore)
        ensures
            r.inv(),
            r@ == Seq::<LogEntryV>::empty(),
    {
        let store = LogStore { entries: VecDeque::new() };
        proof {
            assert(store@ =~= Seq::<LogEntryV>::empty());
        }
        store
    }

    /// Inserts `entry` at the tail, then evicts from the head until the
    /// bound holds again. Never fails.
    pub fn append(&mut self, entry: LogEntry)
        requires
            old(self).inv(),
        ensures
            final(self).inv(),
            final(self)@ == store_after_append(old(self)@, entry@),
    {
        let ghost pushed: Seq<LogEntryV> = old(self)@.push(entry@);
        self.entries.push_back(entry);
        proof {
            assert(self@ =~= pushed);
        }
        if self.entries.len() > MAX_LOG_ENTRIES {
            let _ = self.entries.pop_front();
            proof {
                assert(self@ =~= pushed.skip(1));
                assert(self@ =~= store_after_append(old(self)@, entry@));
            }
        } else {
            proof {
                assert(self@ =~= store_after_append(old(self)@, entry@));
            }
        }
    }

    /// Captures the current local time, builds an entry from `level` and
    /// `message`, and appends it. Mirrors one capture-site call; the
    /// entry's timestamp is in the storage format `YYYY-MM-DD HH:MM:SS.mmm`.
    pub fn add_log_entry(&mut self, level: &str, message: &str)
        requires
            old(self).inv(),
        ensures
            final(self).inv(),
            exists|ts: Seq<char>|
                is_storage_timestamp(ts) && final(self)@ == store_after_append(
                    old(self)@,
                    (LogEntryV { timestamp: ts, level: level@, message: message@ }),
                ),
    {
        let (year, month, day, hour, minute, second, millis) = clock::now_local_parts();
        let now = format_storage_timestamp(year, month, day, hour, minute, second, millis);
        let ghost ts: Seq<char> = now@;
        let entry = LogEntry::to_storage_form(level, message, now);
        self.append(entry);
        proof {
            assert(is_storage_timestamp(ts));
            assert(self@ == store_after_append(
                old(self)@,
                (LogEntryV { timestamp: ts, level: level@, message: message@ }),
            ));
        }
    }

    /// Returns an ordered copy of all current entries, oldest first.
    pub fn snapshot(&self) -> (r: Vec<LogEntry>)
        ensures
            entry_views(r@) == self@,
    {
        let mut out: Vec<LogEntry> = Vec::new();
        let n = self.entries.len();
        for i in 0..n
            invariant
                n == self.entries@.len(),
                out@.len() == i,
                forall|j: int| 0 <= j < i ==> out@[j]@ == self@[j],
        {
            out.push(self.entries[i].clone());
        }
        proof {
            assert(entry_views(out@) =~= self@);
        }
        out
    }

    /// Atomically empties the store, then appends one informational entry
    /// recording that the log was cleared; the very next snapshot sees it.
    pub fn clear(&mut self)
        requires
            old(self).inv(),
        ensures
            final(self).inv(),
            final(self)@.len() == 1,
            final(self)@[0].level == clear_level(),
            final(self)@[0].message == clear_message(),
    {
        self.entries.clear();
        proof {
            assert(self@ =~= Seq::<LogEntryV>::empty());
        }
        self.add_log_entry("INFO", "Log cleared");
    }
}

/// `keep_last` of an already-truncated sequence extended by `t` is
/// `keep_last` of the whole extension.
proof fn lemma_keep_last_absorb<T>(u: Seq<T>, t: Seq<T>, n: int)
    requires
        n >= 0,
    ensures
        keep_last(keep_last(u, n) + t, n) == keep_last(u + t, n),
{
    if u.len() <= n {
        assert(keep_last(u, n) + t =~= u + t);
    } else {
        let ku = u.skip(u.len() - n);
        if ku.len() + t.len() <= n {
            assert(keep_last(ku + t, n) =~= keep_last(u + t, n));
        } else {
            assert((ku + t).skip(ku.len() + t.len() - n) =~= (u + t).skip(
                u.len() + t.len() - n,
            ));
        }
    }
}

/// Appending each element of `es` in order to a store holding `s` leaves
/// exactly the last `MAX_LOG_ENTRIES` elements of the whole history `s + es`.
pub proof fn lemma_store_after_appends(s: Seq<LogEntryV>, es: Seq<LogEntryV>)
    requires
        s.len() <= MAX_LOG_ENTRIES,
    ensures
        store_after_appends(s, es) == keep_last(s + es, MAX_LOG_ENTRIES as int),
    decreases es.len(),
{
    let m = MAX_LOG_ENTRIES as int;
    if es.len() == 0 {
        assert(s + es =~= s);
    } else {
        let s1 = store_after_append(s, es[0]);
        lemma_store_after_appends(s1, es.skip(1));
        lemma_keep_last_absorb(s.push(es[0]), es.skip(1), m);
        assert(s.push(es[0]) + es.skip(1) =~= s + es);
    }
}

/// Bounded FIFO eviction: starting from an empty store, appending the
/// elements of `es` in order keeps exactly the last `MAX_LOG_ENTRIES` of
/// them, in append order, and the resulting length is the smaller of
/// `es.len()` and the capacity.
pub proof fn lemma_bounded_fifo(es: Seq<LogEntryV>)
    ensures
        es.len() >= MAX_LOG_ENTRIES ==> store_after_appends(Seq::empty(), es) == es.skip(
            es.len() - MAX_LOG_ENTRIES,
        ),
        es.len() <= MAX_LOG_ENTRIES ==> store_after_appends(Seq::empty(), es) == es,
        store_after_appends(Seq::empty(), es).len() == if es.len() <= MAX_LOG_ENTRIES {
            es.len() as int
        } else {
            MAX_LOG_ENTRIES as int
        },
{
    lemma_store_after_appends(Seq::empty(), es);
    assert(Seq::<LogEntryV>::empty() + es =~= es);
}

} // verus!
