//! The stored form of a single captured log event.

use vstd::prelude::*;

verus! {

/// Mathematical view of a log entry: the three fields as character sequences.
pub struct LogEntryV {
    pub timestamp: Seq<char>,
    pub level: Seq<char>,
    pub message: Seq<char>,
}

/// One captured log event. Entries are immutable once created: the store
/// only appends or evicts whole entries.
#[derive(Debug)]
pub struct LogEntry {
    /// Capture time, millisecond precision, `YYYY-MM-DD HH:MM:SS.mmm`.
    pub timestamp: String,
    /// Free-form short tag such as `INFO` or `ERROR`; stored verbatim.
    pub level: String,
    /// Arbitrary message text; no length limit.
    pub message: String,
}

impl View for LogEntry {
    type V = LogEntryV;

    open spec fn view(&self) -> LogEntryV {
        LogEntryV {
            timestamp: self.timestamp@,
            level: self.level@,
            message: self.message@,
        }
    }
}

impl Clone for LogEntry {
    fn clone(&self) -> (r: Self)
        ensures
            r@ == self@,
    {
        LogEntry {
            timestamp: self.timestamp.clone(),
            level: self.level.clone(),
            message: self.message.clone(),
        }
    }
}

impl LogEntry {
    /// Builds the stored representation of a `(timestamp, level, message)`
    /// tuple. The caller supplies the already-formatted capture time.
    pub fn to_storage_form(level: &str, message: &str, now: String) -> (r: LogEntry)
        ensures
            r@ == (LogEntryV { timestamp: now@, level: level@, message: message@ }),
    {
        LogEntry { timestamp: now, level: level.to_owned(), message: message.to_owned() }
    }
}

} // verus!
