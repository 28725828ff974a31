//! The local time as text, for the names of backup folders and for the lines
//! of the log.

use vstd::prelude::*;

verus! {

/// The format of a backup's folder and log name: date and time to the second.
pub const RUN_STAMP_FORMAT: &'static str = "%Y%m%d_%H%M%S";

/// The format of the time in a log line: date and time to the millisecond.
pub const LOG_STAMP_FORMAT: &'static str = "%Y-%m-%dT%H:%M:%S%.3f";

/// `format` is one of the two formats above.
pub open spec fn is_stamp_format(format: Seq<char>) -> bool {
    format == RUN_STAMP_FORMAT@ || format == LOG_STAMP_FORMAT@
}

/// Every character of `text` is a decimal digit.
pub open spec fn is_digits(text: Seq<char>) -> bool {
    forall|i: int| 0 <= i < text.len() ==> '0' <= #[trigger] text[i] <= '9'
}

/// A year as a time stamp shows it: four digits; beyond the year 9999 a plus
/// sign and all its digits.
pub open spec fn is_year(text: Seq<char>) -> bool {
    ||| text.len() == 4 && is_digits(text)
    ||| text.len() >= 6 && text[0] == '+' && is_digits(text.drop_first())
}

/// A time to the second: the year, the month and the day in two digits each,
/// a low line, then hour, minute and second in two digits each.
pub open spec fn is_run_stamp(stamp: Seq<char>) -> bool {
    let year = stamp.len() - 11;
    &&& stamp.len() >= 15
    &&& is_year(stamp.subrange(0, year))
    &&& is_digits(stamp.subrange(year, year + 4))
    &&& stamp[year + 4] == '_'
    &&& is_digits(stamp.subrange(year + 5, year + 11))
}

/// A time to the millisecond: year, month and day with a hyphen between
/// them, a `T`, hour, minute and second with a colon between them, a point
/// and three digits of milliseconds.
pub open spec fn is_log_stamp(stamp: Seq<char>) -> bool {
    let year = stamp.len() - 19;
    &&& stamp.len() >= 23
    &&& is_year(stamp.subrange(0, year))
    &&& stamp[year] == '-'
    &&& is_digits(stamp.subrange(year + 1, year + 3))
    &&& stamp[year + 3] == '-'
    &&& is_digits(stamp.subrange(year + 4, year + 6))
    &&& stamp[year + 6] == 'T'
    &&& is_digits(stamp.subrange(year + 7, year + 9))
    &&& stamp[year + 9] == ':'
    &&& is_digits(stamp.subrange(year + 10, year + 12))
    &&& stamp[year + 12] == ':'
    &&& is_digits(stamp.subrange(year + 13, year + 15))
    &&& stamp[year + 15] == '.'
    &&& is_digits(stamp.subrange(year + 16, year + 19))
}

/// `stamp` has the shape that `format` gives to a time.
pub open spec fn has_shape(format: Seq<char>, stamp: Seq<char>) -> bool {
    &&& format == RUN_STAMP_FORMAT@ ==> is_run_stamp(stamp)
    &&& format == LOG_STAMP_FORMAT@ ==> is_log_stamp(stamp)
}

/// `chrono::Local::now`, then `DateTime::format` with `format`, as a string.
/// Which time it is, is the clock's business; claimed is only the shape that
/// chrono gives to every time: `%Y` is four digits, or a plus sign and the
/// digits from the year 10000 on, the other items are two digits each and
/// `%.3f` a point and three digits, with the format's own characters between
/// them. The two formats that are let in are well formed, which keeps the
/// formatting from failing.
#[verifier::external_body]
fn local_time(format: &str) -> (stamp: String)
    requires
        is_stamp_format(format@),
    ensures
        has_shape(format@, stamp@),
{
    chrono::Local::now().format(format).to_string()
}

/// The local time, as it names a backup's folder and its log: year, month,
/// day, a low line, hour, minute, second.
pub fn run_timestamp() -> (stamp: String)
    ensures
        is_run_stamp(stamp@),
{
    local_time(RUN_STAMP_FORMAT)
}

/// The local time, as it opens a log line: date and time to the millisecond.
pub fn log_timestamp() -> (stamp: String)
    ensures
        is_log_stamp(stamp@),
{
    local_time(LOG_STAMP_FORMAT)
}

} // verus!
