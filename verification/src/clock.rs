//! The one place where the library asks for the time.

use vstd::prelude::*;
use vstd::string::*;

verus! {

/// How a time in UTC ends when written by RFC 3339 with a numeric offset.
pub open spec fn utc_offset() -> Seq<char> {
    "+00:00"@
}

/// What holds of every time stamp: it has room for a date, a time of day
/// and an offset, and the offset is that of UTC.
pub open spec fn is_stamp(text: Seq<char>) -> bool {
    &&& text.len() >= 25
    &&& text.subrange(text.len() - 6, text.len() as int) == utc_offset()
}

/// Reads the system clock, turns it into a `chrono::DateTime<Utc>` through
/// chrono's `From<SystemTime>`, which takes clocks before 1970 too, and
/// writes it with `DateTime::to_rfc3339`, as in
/// `2018-01-26T18:30:09.453+00:00`.
///
/// The text differs from call to call. Whatever the time, chrono writes at
/// least four characters of year, `-MM-DD`, `T`, `HH:MM:SS`, and for UTC the
/// offset `+00:00`: that much is claimed, and no more. chrono holds years up
/// to about 262 000 either side of year 0, beyond what a system clock
/// counts.
#[verifier::external_body]
pub(crate) fn timestamp_now() -> (text: String)
    ensures
        is_stamp(text@),
{
    chrono::DateTime::<chrono::Utc>::from(std::time::SystemTime::now()).to_rfc3339()
}

} // verus!
