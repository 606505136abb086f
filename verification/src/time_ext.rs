use vstd::prelude::*;

verus! {

/// The smallest Unix timestamp (in whole seconds) that chrono can
/// represent as a date and time: the first second of its earliest date.
pub const MIN_CHRONO_TS: i64 = -8334601228800;

/// The largest Unix timestamp (in whole seconds) that chrono can
/// represent as a date and time: the last second of its latest date.
pub const MAX_CHRONO_TS: i64 = 8210266876799;

/// Whether a timestamp lies in the range chrono can represent.
pub open spec fn ts_in_range(ts: int) -> bool {
    MIN_CHRONO_TS as int <= ts <= MAX_CHRONO_TS as int
}

/// The RFC 3339 rendering, in UTC, of the instant a Unix timestamp
/// (in whole seconds) names. A function of the timestamp alone.
pub uninterp spec fn rfc3339_of(ts: int) -> Seq<char>;

/// Relies on chrono's `DateTime::<Utc>::from_timestamp`, which with a
/// zero nanosecond part returns `None` exactly when the seconds fall
/// outside the day range its dates can carry — the timestamps of its
/// earliest and latest dates are the two constants above — and on
/// `DateTime::to_rfc3339`, whose output depends on the instant alone.
#[verifier::external_body]
pub(crate) fn timestamp_to_rfc3339(ts: i64) -> (r: Option<String>)
    ensures
        r is Some <==> ts_in_range(ts as int),
        r matches Some(s) ==> s@ == rfc3339_of(ts as int),
{
    chrono::DateTime::<chrono::Utc>::from_timestamp(ts, 0).map(|d| d.to_rfc3339())
}

/// Relies on chrono's `Utc::now` and `DateTime::to_rfc3339`: the current
/// wall-clock time, of which nothing can be promised.
#[verifier::external_body]
pub(crate) fn now_rfc3339() -> String {
    chrono::Utc::now().to_rfc3339()
}

} // verus!
