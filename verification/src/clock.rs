//! Plain date-time parts read from the wall clock.

use vstd::prelude::*;
use chrono::Datelike;
use chrono::Timelike;

verus! {

/// Relies on chrono's `Local::now` with the `Datelike`/`Timelike` getters
/// and `timestamp_subsec_millis`: the current local time as plain
/// `(year, month, day, hour, minute, second, millisecond)` values. The
/// getters' documented ranges hold of every reading — milliseconds exceed
/// 999 only in chrono's leap-second encoding and stay below 2000. The
/// values themselves depend on the clock and the machine's time zone, so
/// nothing more is promised. chrono itself aborts on a system clock set
/// before the Unix epoch; the wrapper adds no handling of its own, so the
/// reading passes through unaltered.
#[verifier::external_body]
pub(crate) fn now_local_parts() -> (r: (i32, u32, u32, u32, u32, u32, u32))
    ensures
        1 <= r.1 <= 12,
        1 <= r.2 <= 31,
        r.3 <= 23,
        r.4 <= 59,
        r.5 <= 59,
        r.6 <= 1999,
{
    let t = chrono::Local::now();
    (t.year(), t.month(), t.day(), t.hour(), t.minute(), t.second(), t.timestamp_subsec_millis())
}

/// Relies on chrono's `Utc::now` with the `Datelike`/`Timelike` getters:
/// the current UTC time as plain `(year, month, day, hour, minute, second)`
/// values, with the getters' documented ranges; the values depend on the
/// clock, so nothing more is promised. As above, chrono itself aborts on a
/// pre-epoch system clock; the wrapper adds no handling of its own.
#[verifier::external_body]
pub(crate) fn now_utc_parts() -> (r: (i32, u32, u32, u32, u32, u32))
    ensures
        1 <= r.1 <= 12,
        1 <= r.2 <= 31,
        r.3 <= 23,
        r.4 <= 59,
        r.5 <= 59,
{
    let t = chrono::Utc::now();
    (t.year(), t.month(), t.day(), t.hour(), t.minute(), t.second())
}

} // verus!
