//! Time as the explorer reads and writes it: timestamps of block headers,
//! the age of a block in words, and the date that keys the daily series.

use vstd::prelude::*;
use vstd::string::*;
use crate::data::text_of;

verus! {

/// Seconds after which a block's age is cut down to its largest unit:
/// 30 days.
pub const LONG_AGO: u64 = 2592000;

/// The text that humantime gives for a length of `secs` whole seconds.
pub uninterp spec fn duration_text(secs: u64) -> Seq<char>;

/// `humantime::format_duration` on a duration of `secs` seconds and no
/// nanoseconds, rendered through its `Display`. The text is a function of
/// the duration alone; it is named, not spelled out.
#[verifier::external_body]
pub(crate) fn duration_label(secs: u64) -> (label: String)
    ensures
        label@ == duration_text(secs),
{
    humantime::format_duration(std::time::Duration::new(secs, 0)).to_string()
}

/// The seconds since 1970 that chrono reads in a timestamp in the relaxed
/// RFC 3339 form, or nothing where it reads none.
pub uninterp spec fn timestamp_of(text: Seq<char>) -> Option<i64>;

/// `str::parse::<chrono::DateTime<chrono::Utc>>`, which goes through
/// chrono's `FromStr`, followed by `DateTime::timestamp`. A text that
/// chrono rejects gives `None`.
#[verifier::external_body]
pub(crate) fn parse_timestamp(text: &str) -> (stamp: Option<i64>)
    ensures
        stamp == timestamp_of(text@),
{
    match text.parse::<chrono::DateTime<chrono::Utc>>() {
        Ok(time) => Some(time.timestamp()),
        Err(_) => None,
    }
}

/// `chrono::Utc::now().timestamp()`: the clock of the machine, of which
/// nothing is promised.
#[verifier::external_body]
pub(crate) fn now_seconds() -> (now: i64) {
    chrono::Utc::now().timestamp()
}

/// The pattern in which the day of the daily series is written.
pub open spec fn date_pattern() -> Seq<char> {
    "%d-%m-%Y"@
}

/// The pattern in which the time of a block is written in full.
pub open spec fn time_pattern() -> Seq<char> {
    "%Y-%m-%d %H:%M:%S UTC"@
}

/// The UTC time of the second `secs` after 1970 as chrono writes it in
/// the pattern `pattern`; nothing where chrono has no such time.
pub uninterp spec fn formatted_time(secs: i64, pattern: Seq<char>) -> Option<Seq<char>>;

/// `chrono::DateTime::from_timestamp(secs, 0)`, written with
/// `DateTime::format` in one of the two patterns of this module. Seconds
/// outside chrono's range give `None`.
#[verifier::external_body]
pub(crate) fn time_label(secs: i64, pattern: &str) -> (label: Option<String>)
    requires
        pattern@ == date_pattern() || pattern@ == time_pattern(),
    ensures
        text_of(label) == formatted_time(secs, pattern@),
{
    match chrono::DateTime::from_timestamp(secs, 0) {
        Some(time) => Some(time.format(pattern).to_string()),
        None => None,
    }
}

/// Seconds from `stamp` to `now`; zero for a stamp in the future.
pub open spec fn age_between(stamp: i64, now: i64) -> u64 {
    if now > stamp {
        (now - stamp) as u64
    } else {
        0
    }
}

/// The age in seconds, at `now`, of something stamped `stamp`.
pub fn age_seconds(stamp: i64, now: i64) -> (age: u64)
    ensures
        age == age_between(stamp, now),
        now > stamp ==> age == now - stamp,
{
    if now > stamp {
        ((now as i128) - (stamp as i128)) as u64
    } else {
        0
    }
}

/// Index of the first space of `s` at or after `from`; the length of `s`
/// where there is none.
pub open spec fn space_from(s: Seq<char>, from: int) -> int
    decreases s.len() - from,
{
    if from >= s.len() {
        s.len() as int
    } else if s[from] == ' ' {
        from
    } else {
        space_from(s, from + 1)
    }
}

/// What stands before the first space of `s`; all of `s` without one.
pub open spec fn first_word(s: Seq<char>) -> Seq<char> {
    s.subrange(0, space_from(s, 0))
}

/// The age shown for a block: the duration in full up to 30 days, and
/// past that its first part followed by ` ago`.
pub open spec fn age_text(duration: Seq<char>, secs: u64) -> Seq<char> {
    if secs > 2592000 {
        first_word(duration) + " ago"@
    } else {
        duration
    }
}

/// The age label made from a duration text and the seconds it stands for.
pub fn relative_age(duration: &str, secs: u64) -> (label: String)
    ensures
        label@ == age_text(duration@, secs),
{
    if secs > LONG_AGO {
        let len = duration.unicode_len();
        let mut end: usize = 0;
        while end < len && duration.get_char(end) != ' '
            invariant
                end <= len,
                len == duration@.len(),
                space_from(duration@, 0) == space_from(duration@, end as int),
            decreases len - end,
        {
            end = end + 1;
        }
        let mut label = String::from_str(duration.substring_char(0, end));
        label.append(" ago");
        label
    } else {
        String::from_str(duration)
    }
}

/// The age label of a block stamped `stamp`, seen at `now`.
pub open spec fn block_age_text(stamp: i64, now: i64) -> Seq<char> {
    age_text(duration_text(age_between(stamp, now)), age_between(stamp, now))
}

/// The age in words of a block stamped `stamp`, seen at `now`.
pub fn block_age(stamp: i64, now: i64) -> (label: String)
    ensures
        label@ == block_age_text(stamp, now),
{
    let secs = age_seconds(stamp, now);
    let duration = duration_label(secs);
    relative_age(duration.as_str(), secs)
}

/// The time of the second `stamp` written in full, as a block's detail
/// shows it; nothing where chrono has no such time.
pub open spec fn full_time_text(stamp: i64) -> Option<Seq<char>> {
    formatted_time(stamp, time_pattern())
}

/// The time of a block stamped `stamp`, written in full.
pub fn full_time(stamp: i64) -> (label: Option<String>)
    ensures
        text_of(label) == full_time_text(stamp),
{
    time_label(stamp, "%Y-%m-%d %H:%M:%S UTC")
}

/// The key of a day in the daily series: the date between double quotes.
pub open spec fn day_key(date: Seq<char>) -> Seq<char> {
    "\""@ + date + "\""@
}

/// The key under which the day of the second `secs` is kept, or nothing
/// where that second has no date.
pub open spec fn day_key_at(secs: i64) -> Option<Seq<char>> {
    match formatted_time(secs, date_pattern()) {
        Some(date) => Some(day_key(date)),
        None => None,
    }
}

/// The series key of the day that holds the second `secs`.
pub fn day_of(secs: i64) -> (key: Option<String>)
    ensures
        text_of(key) == day_key_at(secs),
{
    match time_label(secs, "%d-%m-%Y") {
        Some(date) => {
            let mut key = String::from_str("\"");
            key.append(date.as_str());
            key.append("\"");
            Some(key)
        },
        None => None,
    }
}

/// The series key of the day that the machine's clock shows; `None`
/// where the clock is beyond the dates that chrono knows.
pub fn today() -> (key: Option<String>)
    ensures
        exists|now: i64| text_of(key) == #[trigger] day_key_at(now),
{
    let now = now_seconds();
    day_of(now)
}

} // verus!
