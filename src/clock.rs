//! Clock-skew samples: the server's clock against the local one.
use vstd::prelude::*;

verus! {

/// One comparison of the server's time with the local time, in milliseconds
/// since the Unix epoch; `offset_ms` is server minus local.
#[derive(Clone, Copy, Debug, PartialEq, Eq, Structural)]
pub struct ClockSkewSample {
    pub ts_local_ms: i64,
    pub server_time_ms: i64,
    pub offset_ms: i64,
}

impl ClockSkewSample {
    /// The sample for a local and a server time; none where the offset does
    /// not fit in an `i64`.
    pub fn measure(ts_local_ms: i64, server_time_ms: i64) -> (r: Option<ClockSkewSample>)
        ensures
            i64::MIN <= server_time_ms - ts_local_ms <= i64::MAX ==> r == Some(
                ClockSkewSample { ts_local_ms, server_time_ms, offset_ms: (server_time_ms - ts_local_ms) as i64 },
            ),
            !(i64::MIN <= server_time_ms - ts_local_ms <= i64::MAX) ==> r is None,
    {
        let d: i128 = server_time_ms as i128 - ts_local_ms as i128;
        if d < i64::MIN as i128 || d > i64::MAX as i128 {
            None
        } else {
            Some(ClockSkewSample { ts_local_ms, server_time_ms, offset_ms: d as i64 })
        }
    }
}

} // verus!
