//! Calendar rendering of commit timestamps.

use vstd::prelude::*;

verus! {

/// The RFC 2822 rendering of a POSIX timestamp, such as
/// `Fri, 15 May 2015 00:00:00 +0000`; a function of the timestamp alone.
pub uninterp spec fn rfc2822_of(secs: int) -> Seq<char>;

/// Relies on chrono::DateTime::from_timestamp and
/// chrono::DateTime::to_rfc2822: `None` exactly when chrono cannot
/// represent the timestamp as an RFC 2822 date (seconds out of range, or a
/// year outside 0..=9999, where to_rfc2822 would panic); otherwise the
/// fixed calendar rendering of `secs` in UTC.
#[verifier::external_body]
pub(crate) fn format_rfc2822(secs: i64) -> (r: Option<String>)
    ensures
        r matches Some(s) ==> s@ == rfc2822_of(secs as int),
{
    match chrono::DateTime::from_timestamp(secs, 0) {
        Some(dt) => {
            let year = chrono::Datelike::year(&dt);
            if 0 <= year && year <= 9999 {
                Some(dt.to_rfc2822())
            } else {
                None
            }
        },
        None => None,
    }
}

} // verus!
