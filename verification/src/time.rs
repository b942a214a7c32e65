//! Calendar text for epoch seconds.

use chrono::DateTime;
use vstd::prelude::*;

verus! {

/// The `Display` text of the UTC date and time that lies `secs` seconds
/// after the Unix epoch, such as `1970-01-01 00:16:40 UTC`; `None` where the
/// calendar cannot hold that instant.
pub uninterp spec fn utc_text(secs: i64) -> Option<Seq<char>>;

/// The `Debug` text of the date and time without a zone that lies `secs`
/// seconds after the Unix epoch, such as `1970-01-01T04:16:40`; `None` where
/// the calendar cannot hold that instant.
pub uninterp spec fn naive_text(secs: i64) -> Option<Seq<char>>;

/// `chrono::DateTime::from_timestamp` with no nanoseconds, printed with
/// `Display`. The contract only names the text, [`utc_text`].
#[verifier::external_body]
pub(crate) fn format_utc(secs: i64) -> (text: Option<String>)
    ensures
        text matches Some(t) ==> utc_text(secs) == Some(t@),
        text is None ==> utc_text(secs) is None,
{
    match DateTime::from_timestamp(secs, 0) {
        Some(t) => Some(t.to_string()),
        None => None,
    }
}

/// `chrono::DateTime::from_timestamp` with no nanoseconds, its
/// `naive_utc` printed with `Debug`. The contract only names the text,
/// [`naive_text`].
#[verifier::external_body]
pub(crate) fn format_naive(secs: i64) -> (text: Option<String>)
    ensures
        text matches Some(t) ==> naive_text(secs) == Some(t@),
        text is None ==> naive_text(secs) is None,
{
    match DateTime::from_timestamp(secs, 0) {
        Some(t) => Some(format!("{:?}", t.naive_utc())),
        None => None,
    }
}

} // verus!
