//! The local wall clock, read through `chrono`.

use vstd::prelude::*;

verus! {

/// The patterns in which the simulator writes wall-clock time: the protocol
/// style `YYYY-MM-DD:HH:MM:SS` and the display style `YYYY-MM-DD HH:MM:SS`.
pub open spec fn is_time_pattern(pattern: Seq<char>) -> bool {
    pattern == "%Y-%m-%d:%H:%M:%S"@ || pattern == "%Y-%m-%d %H:%M:%S"@
}

/// `chrono::Local::now()`, shifted by `offset_seconds` with
/// `TimeDelta::try_seconds` and `DateTime::checked_add_signed`, then written
/// with `DateTime::format(pattern)`.
/// Which time the text shows depends on the clock and is not stated. It is
/// `None` only when the shift leaves chrono's range of dates, which a zero
/// shift never does. Both patterns write the year with at least four
/// characters (`%Y` pads to four digits, and a year outside 0..=9999 gets a
/// sign) and every other field with two, so the text has at least 19
/// characters.
#[verifier::external_body]
pub(crate) fn local_time_text(offset_seconds: i64, pattern: &str) -> (text: Option<String>)
    requires
        is_time_pattern(pattern@),
    ensures
        offset_seconds == 0 ==> text is Some,
        text matches Some(t) ==> t@.len() >= 19,
{
    let shift = chrono::TimeDelta::try_seconds(offset_seconds)?;
    let moment = chrono::Local::now().checked_add_signed(shift)?;
    Some(moment.format(pattern).to_string())
}

} // verus!
