//! Times of day, read from text and from the machine's clock.

use chrono::Timelike;
use vstd::prelude::*;

verus! {

/// The format of the times in a schedule: hours and minutes of a 24-hour clock.
pub const CLOCK_FORMAT: &'static str = "%H:%M";

/// A time of day, in seconds and nanoseconds from midnight. A leap second is
/// counted in the nanoseconds of the second before it.
#[derive(Clone, Copy, Debug, PartialEq, Eq, Structural)]
pub struct TimeOfDay {
    pub seconds: u32,
    pub nanoseconds: u32,
}

impl TimeOfDay {
    /// Whether the value lies within a day.
    pub open spec fn well_formed(self) -> bool {
        self.seconds < 86_400 && self.nanoseconds < 2_000_000_000
    }

    /// Whether this time is `other` or earlier in the day.
    pub open spec fn at_or_before(self, other: TimeOfDay) -> bool {
        ||| self.seconds < other.seconds
        ||| self.seconds == other.seconds && self.nanoseconds <= other.nanoseconds
    }

    /// Whether this time is `other` or earlier in the day.
    pub fn not_after(self, other: TimeOfDay) -> (r: bool)
        ensures
            r == self.at_or_before(other),
    {
        self.seconds < other.seconds || (self.seconds == other.seconds && self.nanoseconds
            <= other.nanoseconds)
    }
}

/// The time of day at the given hour, minute and second.
pub open spec fn clock_time(hour: int, minute: int, second: int) -> TimeOfDay {
    TimeOfDay { seconds: (hour * 3600 + minute * 60 + second) as u32, nanoseconds: 0 }
}

/// The value of a decimal digit.
pub open spec fn digit_value(c: char) -> int {
    c as int - '0' as int
}

/// Whether `c` is a decimal digit.
pub open spec fn is_digit(c: char) -> bool {
    '0' <= c && c <= '9'
}

/// Whether a text is a number of one or two digits.
pub open spec fn is_short_number(text: Seq<char>) -> bool {
    &&& text.len() == 1 || text.len() == 2
    &&& is_digit(text[0])
    &&& is_digit(text.last())
}

/// The value of a number of one or two digits.
pub open spec fn short_number(text: Seq<char>) -> int {
    if text.len() == 1 {
        digit_value(text[0])
    } else {
        digit_value(text[0]) * 10 + digit_value(text[1])
    }
}

/// Whether `c` is white space: whether it has the property White_Space of Unicode.
pub open spec fn is_white(c: char) -> bool {
    let code = c as int;
    ||| 0x9 <= code <= 0xd
    ||| code == 0x20
    ||| code == 0x85
    ||| code == 0xa0
    ||| code == 0x1680
    ||| 0x2000 <= code <= 0x200a
    ||| code == 0x2028
    ||| code == 0x2029
    ||| code == 0x202f
    ||| code == 0x205f
    ||| code == 0x3000
}

/// A text without the white space at its front.
pub open spec fn skip_white(text: Seq<char>) -> Seq<char>
    decreases text.len(),
{
    if text.len() > 0 && is_white(text[0]) {
        skip_white(text.drop_first())
    } else {
        text
    }
}

/// Where the colon stands in a text that starts with an hour: behind one digit or two.
pub open spec fn colon_at(text: Seq<char>) -> int {
    if text.len() > 1 && text[1] == ':' {
        1
    } else {
        2
    }
}

/// The hour in a text: what stands before the colon, but for the white space at its front.
pub open spec fn hour_text(text: Seq<char>) -> Seq<char> {
    let front = skip_white(text);
    front.take(colon_at(front))
}

/// The minute in a text: what stands behind the colon, but for the white space at its front.
pub open spec fn minute_text(text: Seq<char>) -> Seq<char> {
    let front = skip_white(text);
    skip_white(front.skip(colon_at(front) + 1))
}

/// Whether a text is one or two digits, a colon, and one or two digits. White space may
/// stand before either number, and nowhere else.
pub open spec fn is_clock_text(text: Seq<char>) -> bool {
    let front = skip_white(text);
    &&& front.len() > colon_at(front)
    &&& front[colon_at(front)] == ':'
    &&& is_short_number(hour_text(text))
    &&& is_short_number(minute_text(text))
}

/// The time that an hour, a colon and a minute stand for, or nothing where the hour or the
/// minute is out of range.
pub open spec fn clock_text_time(text: Seq<char>) -> Option<TimeOfDay> {
    let hour = short_number(hour_text(text));
    let minute = short_number(minute_text(text));
    if hour < 24 && minute < 60 {
        Some(clock_time(hour, minute, 0))
    } else {
        None
    }
}

/// The time that a schedule's text stands for, or nothing where it stands for none.
pub open spec fn read_time(text: Seq<char>) -> Option<TimeOfDay> {
    if is_clock_text(text) {
        clock_text_time(text)
    } else {
        None
    }
}

/// Calls `chrono::NaiveTime::parse_from_str` with the format [`CLOCK_FORMAT`]. It is claimed
/// that it reads a text of one or two digits, a colon, and one or two digits, in which white
/// space may stand before either number, as that hour and minute with no seconds, and that
/// it refuses every other text, and an hour above 23 or a minute above 59.
#[verifier::external_body]
fn parse_from_str(text: &str, format: &str) -> (time: Option<TimeOfDay>)
    requires
        format@ == CLOCK_FORMAT@,
    ensures
        time == read_time(text@),
{
    match chrono::NaiveTime::parse_from_str(text, format) {
        Ok(time) => Some(
            TimeOfDay { seconds: time.num_seconds_from_midnight(), nanoseconds: time.nanosecond() },
        ),
        Err(_) => None,
    }
}

/// Calls `chrono::NaiveTime::from_hms_opt`, which gives the time at an hour, minute
/// and second, and nothing where one of them is out of range.
#[verifier::external_body]
fn from_hms_opt(hour: u32, minute: u32, second: u32) -> (time: Option<TimeOfDay>)
    ensures
        time == (if hour < 24 && minute < 60 && second < 60 {
            Some(clock_time(hour as int, minute as int, second as int))
        } else {
            None
        }),
{
    match chrono::NaiveTime::from_hms_opt(hour, minute, second) {
        Some(time) => Some(
            TimeOfDay { seconds: time.num_seconds_from_midnight(), nanoseconds: time.nanosecond() },
        ),
        None => None,
    }
}

/// Calls `chrono::Local::now` for the time of day in the machine's time zone. Which
/// time it is rests on the machine: it is claimed only that it lies within a day. The call
/// takes nothing by which to rule out a machine on which it panics: one whose clock stands
/// before the year 1970 or past the years that `chrono` counts, or one whose time zone table
/// gives no usable offset for the time.
#[verifier::external_body]
fn local_now() -> (time: TimeOfDay)
    ensures
        time.well_formed(),
{
    let time = chrono::Local::now().time();
    TimeOfDay { seconds: time.num_seconds_from_midnight(), nanoseconds: time.nanosecond() }
}

/// Reads the time that a schedule's text stands for.
pub fn parse_time(text: &str) -> (time: Option<TimeOfDay>)
    ensures
        time == read_time(text@),
{
    parse_from_str(text, CLOCK_FORMAT)
}

/// Midnight, at which a schedule starts that names no time.
pub fn start_of_day() -> (time: TimeOfDay)
    ensures
        time == clock_time(0, 0, 0),
{
    from_hms_opt(0, 0, 0).unwrap()
}

/// The last full second of the day, at which a schedule ends that names no time.
pub fn end_of_day() -> (time: TimeOfDay)
    ensures
        time == clock_time(23, 59, 59),
{
    from_hms_opt(23, 59, 59).unwrap()
}

/// The time of day that the machine's clock shows.
pub fn now() -> (time: TimeOfDay)
    ensures
        time.well_formed(),
{
    local_now()
}

proof fn skipped_white_is_a_suffix(text: Seq<char>)
    ensures
        forall|c: char| #[trigger] skip_white(text).contains(c) ==> text.contains(c),
    decreases text.len(),
{
    if text.len() > 0 && is_white(text[0]) {
        skipped_white_is_a_suffix(text.drop_first());
        assert forall|c: char| #[trigger] skip_white(text).contains(c) implies text.contains(c) by {
            assert(skip_white(text.drop_first()).contains(c));
            let i = text.drop_first().index_of(c);
            assert(text[i + 1] == c);
        }
    }
}

/// A text without a colon stands for no time.
pub proof fn no_time_without_a_colon(text: Seq<char>)
    requires
        !text.contains(':'),
    ensures
        read_time(text) is None,
{
    skipped_white_is_a_suffix(text);
    let front = skip_white(text);
    if is_clock_text(text) {
        assert(front.contains(front[colon_at(front)]));
    }
}

/// A time that a text stands for is a full minute of the day.
pub proof fn read_times_are_minutes(text: Seq<char>)
    ensures
        read_time(text) matches Some(t) ==> {
            &&& t.well_formed()
            &&& t.seconds % 60 == 0
            &&& t.nanoseconds == 0
        },
{
}

/// The order of times is that of their seconds, and within a second that of their
/// nanoseconds.
pub proof fn times_are_ordered_as_they_pass(a: TimeOfDay, b: TimeOfDay, r: bool)
    requires
        call_ensures(TimeOfDay::not_after, (a, b), r),
    ensures
        !r <==> b.seconds < a.seconds || (b.seconds == a.seconds && b.nanoseconds
            < a.nanoseconds),
{
}

/// Every minute of the day is read from its four digits.
pub proof fn every_minute_is_read(hour: int, minute: int, text: &str, time: Option<TimeOfDay>)
    requires
        0 <= hour < 24,
        0 <= minute < 60,
        text@ == seq![
            (48 + hour / 10) as char,
            (48 + hour % 10) as char,
            ':',
            (48 + minute / 10) as char,
            (48 + minute % 10) as char,
        ],
        call_ensures(parse_time, (text,), time),
    ensures
        time matches Some(t) && t.seconds == hour * 3600 + minute * 60 && t.nanoseconds == 0,
{
    let t = text@;
    assert(skip_white(t) == t);
    assert(t.take(2) =~= seq![t[0], t[1]]);
    assert(t.skip(3) =~= seq![t[3], t[4]]);
    assert(skip_white(t.skip(3)) == t.skip(3));
}

/// Four digits with an hour above 23 or a minute above 59 are no time.
pub proof fn no_time_out_of_range(hour: int, minute: int, text: &str, time: Option<TimeOfDay>)
    requires
        0 <= hour < 100,
        0 <= minute < 100,
        hour >= 24 || minute >= 60,
        text@ == seq![
            (48 + hour / 10) as char,
            (48 + hour % 10) as char,
            ':',
            (48 + minute / 10) as char,
            (48 + minute % 10) as char,
        ],
        call_ensures(parse_time, (text,), time),
    ensures
        time is None,
{
    let t = text@;
    assert(skip_white(t) == t);
    assert(t.take(2) =~= seq![t[0], t[1]]);
    assert(t.skip(3) =~= seq![t[3], t[4]]);
    assert(skip_white(t.skip(3)) == t.skip(3));
}

/// The day runs from its first second to its last, which is the 86399th behind it.
pub proof fn day_has_its_bounds(first: TimeOfDay, last: TimeOfDay)
    requires
        call_ensures(start_of_day, (), first),
        call_ensures(end_of_day, (), last),
    ensures
        first.seconds == 0 && first.nanoseconds == 0,
        last.seconds == 86_399 && last.nanoseconds == 0,
{
}

} // verus!
