//! Admin log queries: turning a request's time parameters into an
//! inclusive millisecond range.

use vstd::prelude::*;

verus! {

pub const MS_PER_DAY: i64 = 86_400_000;

/// One second before midnight, in milliseconds after midnight.
pub const LAST_MINUTE_MS: i64 = 86_340_000;

/// The time window a log query asks for.
pub struct LogsQuery {
    pub begin: Option<i64>,
    pub end: Option<i64>,
    pub days: Option<u8>,
}

impl LogsQuery {
    /// The inclusive range `ts >= begin && ts <= end` the query selects,
    /// at current time `now_ms` (unix milliseconds).
    ///
    /// A `days` parameter wins and selects the last so-many days up to
    /// now.  With no parameters at all the current UTC day is selected,
    /// from midnight to 23:59.  A lone bound leaves the other end open.
    pub fn limit(&self, now_ms: i64) -> (r: (i64, i64))
        requires
            0 <= now_ms <= i64::MAX - MS_PER_DAY,
        ensures
            match self.days {
                Some(d) => r.0 == now_ms - d * (MS_PER_DAY as int) && r.1 == now_ms,
                None => match (self.begin, self.end) {
                    (None, None) => r.0 == now_ms - ((now_ms as int) % (MS_PER_DAY as int)) && r.1 == r.0
                        + LAST_MINUTE_MS,
                    (None, Some(end)) => r == (0i64, end),
                    (Some(begin), None) => r == (begin, i64::MAX),
                    (Some(begin), Some(end)) => r == (begin, end),
                },
            },
    {
        if let Some(days) = self.days {
            let delta = (days as i64) * MS_PER_DAY;
            return (now_ms - delta, now_ms);
        }
        match (self.begin, self.end) {
            (None, None) => {
                let midnight = now_ms - now_ms % MS_PER_DAY;
                (midnight, midnight + LAST_MINUTE_MS)
            }
            (None, Some(end)) => (0, end),
            (Some(begin), None) => (begin, i64::MAX),
            (Some(begin), Some(end)) => (begin, end),
        }
    }
}

} // verus!
