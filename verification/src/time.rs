//! Timestamps: milliseconds since the Unix epoch, as `chrono` accepts them.
use vstd::prelude::*;

verus! {

/// The earliest instant chrono represents, January 1 of year -262143
/// (262144 BCE), in milliseconds since the epoch.
pub const MIN_CHRONO_MILLIS: i64 = -8334601228800000i64;

/// The last millisecond chrono represents, December 31 of year 262142,
/// 23:59:59.999.
pub const MAX_CHRONO_MILLIS: i64 = 8210266876799999i64;

/// Whether `chrono::DateTime::from_timestamp_millis` accepts a number of
/// milliseconds: those whose day lies in chrono's date range.
pub open spec fn chrono_millis_in_range(ms: int) -> bool {
    MIN_CHRONO_MILLIS <= ms <= MAX_CHRONO_MILLIS
}

/// Calls `chrono::DateTime::<Utc>::from_timestamp_millis` and reports whether it
/// returned a date: it does exactly for the days from `NaiveDate::MIN` to
/// `NaiveDate::MAX`.
#[verifier::external_body]
pub(crate) fn millis_in_range(ms: i64) -> (r: bool)
    ensures
        r == chrono_millis_in_range(ms as int),
{
    chrono::DateTime::from_timestamp_millis(ms).is_some()
}

/// Calls `chrono::Utc::now` and returns its `timestamp_millis`.  The value
/// depends on the clock; it is always within chrono's range, since every
/// `DateTime` is.
#[verifier::external_body]
pub(crate) fn now_millis() -> (r: i64)
    ensures
        chrono_millis_in_range(r as int),
{
    chrono::Utc::now().timestamp_millis()
}

/// The timestamp `ms` where chrono accepts it, and the current time otherwise
/// (`DateTime::from_timestamp_millis(ms).unwrap_or_else(Utc::now)`).
pub fn millis_or_now(ms: i64) -> (r: i64)
    ensures
        chrono_millis_in_range(ms as int) ==> r == ms,
        chrono_millis_in_range(r as int),
{
    if millis_in_range(ms) {
        ms
    } else {
        now_millis()
    }
}

/// How chrono prints an instant given in milliseconds with the format
/// `%Y-%m-%d %H:%M:%S` (UTC).
pub uninterp spec fn utc_datetime_text(ms: int) -> Seq<char>;

/// Calls `chrono::DateTime::from_timestamp_millis` and `format("%Y-%m-%d %H:%M:%S")`;
/// the text is named by `utc_datetime_text`.
#[verifier::external_body]
pub(crate) fn format_utc_datetime(ms: i64) -> (r: String)
    requires
        chrono_millis_in_range(ms as int),
    ensures
        r@ == utc_datetime_text(ms as int),
{
    match chrono::DateTime::from_timestamp_millis(ms) {
        Some(t) => t.format("%Y-%m-%d %H:%M:%S").to_string(),
        None => String::new(),
    }
}

/// The timestamp stored for a value that may be out of chrono's range: the
/// value itself when accepted, otherwise some accepted instant.
pub open spec fn stamped(ms: int, r: int) -> bool {
    &&& chrono_millis_in_range(ms) ==> r == ms
    &&& chrono_millis_in_range(r)
}

} // verus!
