//! What a provider's configuration file says, and when it lets the node serve.

use crate::clock::{
    clock_time, end_of_day, now, parse_time, read_time, read_times_are_minutes, start_of_day,
    TimeOfDay,
};
use crate::text::opt_text;
use vstd::prelude::*;

verus! {

/// How many requests a provider takes.
#[derive(Debug, Clone)]
pub struct RateLimitConfig {
    pub requests_per_minute: u32,
}

/// The hours, as texts such as `22:00`, between which a provider serves.
#[derive(Debug, Clone)]
pub struct ScheduleConfig {
    pub start: String,
    pub end: String,
}

/// A configuration file. What it leaves out sets no bound.
#[derive(Debug, Clone)]
pub struct ProviderConfig {
    pub http_port: Option<u16>,
    pub p2p_port: Option<u16>,
    pub bootstrap_nodes: Vec<String>,
    pub local_llm: Option<String>,
    pub local_llm_api_key: Option<String>,
    pub access_key: Option<String>,
    pub models: Vec<String>,
    pub max_context: Option<u32>,
    pub rate_limit: Option<RateLimitConfig>,
    pub schedule: Option<ScheduleConfig>,
}

/// The hours of a schedule, as the texts that name them.
pub struct Hours {
    pub start: Seq<char>,
    pub end: Seq<char>,
}

/// The parts of a configuration that decide whether a request is served, and by whom.
pub struct Policy {
    pub max_context: Option<u32>,
    pub requests_per_minute: Option<u32>,
    pub hours: Option<Hours>,
    pub access_key: Option<Seq<char>>,
    pub local_llm: Option<Seq<char>>,
    pub local_llm_api_key: Option<Seq<char>>,
}

impl View for ScheduleConfig {
    type V = Hours;

    open spec fn view(&self) -> Hours {
        Hours { start: self.start@, end: self.end@ }
    }
}

impl View for ProviderConfig {
    type V = Policy;

    open spec fn view(&self) -> Policy {
        Policy {
            max_context: self.max_context,
            requests_per_minute: match self.rate_limit {
                Some(limit) => Some(limit.requests_per_minute),
                None => None,
            },
            hours: match self.schedule {
                Some(schedule) => Some(schedule@),
                None => None,
            },
            access_key: opt_text(self.access_key),
            local_llm: opt_text(self.local_llm),
            local_llm_api_key: opt_text(self.local_llm_api_key),
        }
    }
}

/// Whether `now` lies in the hours from `start` to `end`, both taken in. Hours that
/// end before they start run over midnight.
pub open spec fn within(start: TimeOfDay, end: TimeOfDay, now: TimeOfDay) -> bool {
    if start.at_or_before(end) {
        start.at_or_before(now) && now.at_or_before(end)
    } else {
        start.at_or_before(now) || now.at_or_before(end)
    }
}

/// Whether `now` lies in the hours between two times, where a missing start stands
/// for midnight and a missing end for the last second of the day.
pub open spec fn within_read(
    start: Option<TimeOfDay>,
    end: Option<TimeOfDay>,
    now: TimeOfDay,
) -> bool {
    within(
        match start {
            Some(time) => time,
            None => clock_time(0, 0, 0),
        },
        match end {
            Some(time) => time,
            None => clock_time(23, 59, 59),
        },
        now,
    )
}

/// Whether a node with these hours serves at `now`.
pub open spec fn open_at(hours: Option<Hours>, now: TimeOfDay) -> bool {
    match hours {
        Some(h) => within_read(read_time(h.start), read_time(h.end), now),
        None => true,
    }
}

/// Decides whether `now` lies in the hours between two times that were read.
pub fn is_within_hours(start: Option<TimeOfDay>, end: Option<TimeOfDay>, now: TimeOfDay) -> (r: bool)
    ensures
        r == within_read(start, end, now),
{
    let start = match start {
        Some(time) => time,
        None => start_of_day(),
    };
    let end = match end {
        Some(time) => time,
        None => end_of_day(),
    };
    if start.not_after(end) {
        start.not_after(now) && now.not_after(end)
    } else {
        start.not_after(now) || now.not_after(end)
    }
}

impl ProviderConfig {
    /// Decides whether the schedule lets the node serve at `now`.
    pub fn is_within_schedule_at(&self, now: TimeOfDay) -> (r: bool)
        ensures
            r == open_at(self@.hours, now),
    {
        match &self.schedule {
            Some(schedule) => {
                let start = parse_time(schedule.start.as_str());
                let end = parse_time(schedule.end.as_str());
                is_within_hours(start, end, now)
            },
            None => true,
        }
    }

    /// Decides whether the schedule lets the node serve at the time that the machine's
    /// clock shows. A node without a schedule always serves.
    pub fn is_within_schedule(&self) -> (r: bool)
        ensures
            self@.hours is None ==> r,
            exists|time: TimeOfDay|
                time.well_formed() && r == #[trigger] open_at(self@.hours, time),
    {
        let time = now();
        self.is_within_schedule_at(time)
    }
}

/// Hours that end before they start, such as from 22:00 to 07:00, are closed exactly
/// strictly between their end and their start.
pub proof fn overnight_hours(start: TimeOfDay, end: TimeOfDay, now: TimeOfDay)
    requires
        !start.at_or_before(end),
    ensures
        within(start, end, now) <==> !(!now.at_or_before(end) && !start.at_or_before(now)),
{
}

/// A node is open at both ends of its hours.
pub proof fn open_at_both_ends(start: TimeOfDay, end: TimeOfDay)
    ensures
        within(start, end, start),
        within(start, end, end),
{
}

/// A schedule whose texts are no times leaves the node open from midnight to the
/// last second of the day.
pub proof fn unreadable_hours(hours: Hours, now: TimeOfDay)
    requires
        read_time(hours.start) is None,
        read_time(hours.end) is None,
    ensures
        open_at(Some(hours), now) <==> now.at_or_before(clock_time(23, 59, 59)),
{
}

/// A schedule of which only the end is a time leaves the node open from midnight to it.
pub proof fn unreadable_start(hours: Hours, end: TimeOfDay, now: TimeOfDay)
    requires
        read_time(hours.start) is None,
        read_time(hours.end) == Some(end),
    ensures
        open_at(Some(hours), now) <==> now.at_or_before(end),
{
}

/// A schedule of which only the start is a time leaves the node open from it to the last
/// second of the day.
pub proof fn unreadable_end(hours: Hours, start: TimeOfDay, now: TimeOfDay)
    requires
        read_time(hours.start) == Some(start),
        read_time(hours.end) is None,
    ensures
        open_at(Some(hours), now) <==> start.at_or_before(now) && now.at_or_before(
            clock_time(23, 59, 59),
        ),
{
    read_times_are_minutes(hours.start);
}

/// Hours within a day are open from their start to their end, both taken in, and closed
/// strictly before their start and strictly after their end.
pub proof fn hours_within_a_day(start: TimeOfDay, end: TimeOfDay, now: TimeOfDay, r: bool)
    requires
        start.seconds < end.seconds || (start.seconds == end.seconds && start.nanoseconds
            <= end.nanoseconds),
        call_ensures(is_within_hours, (Some(start), Some(end), now), r),
    ensures
        now.seconds < start.seconds ==> !r,
        now.seconds == start.seconds && now.nanoseconds < start.nanoseconds ==> !r,
        now.seconds > end.seconds ==> !r,
        now.seconds == end.seconds && now.nanoseconds > end.nanoseconds ==> !r,
        start.seconds < now.seconds < end.seconds ==> r,
        now.seconds == start.seconds < end.seconds ==> r == (start.nanoseconds
            <= now.nanoseconds),
        start.seconds < now.seconds == end.seconds ==> r == (now.nanoseconds
            <= end.nanoseconds),
        now.seconds == start.seconds == end.seconds ==> r == (start.nanoseconds
            <= now.nanoseconds <= end.nanoseconds),
{
}

/// Hours that end before they start are closed strictly between their end and their start,
/// and open at every other time.
pub proof fn hours_over_midnight(start: TimeOfDay, end: TimeOfDay, now: TimeOfDay, r: bool)
    requires
        end.seconds < start.seconds || (end.seconds == start.seconds && end.nanoseconds
            < start.nanoseconds),
        call_ensures(is_within_hours, (Some(start), Some(end), now), r),
    ensures
        end.seconds < now.seconds < start.seconds ==> !r,
        now.seconds < end.seconds || now.seconds > start.seconds ==> r,
        now.seconds == end.seconds < start.seconds ==> r == (now.nanoseconds
            <= end.nanoseconds),
        end.seconds < now.seconds == start.seconds ==> r == (start.nanoseconds
            <= now.nanoseconds),
        now.seconds == end.seconds == start.seconds ==> r == (now.nanoseconds <= end.nanoseconds
            || start.nanoseconds <= now.nanoseconds),
{
}

/// A missing start stands for the first second of the day, and a missing end for the last.
pub proof fn missing_times_stand_for_the_day(
    start: Option<TimeOfDay>,
    end: Option<TimeOfDay>,
    first: TimeOfDay,
    last: TimeOfDay,
    now: TimeOfDay,
    r: bool,
    full: bool,
)
    requires
        start matches Some(time) ==> first == time,
        start is None ==> first.seconds == 0 && first.nanoseconds == 0,
        end matches Some(time) ==> last == time,
        end is None ==> last.seconds == 86_399 && last.nanoseconds == 0,
        call_ensures(is_within_hours, (start, end, now), r),
        call_ensures(is_within_hours, (Some(first), Some(last), now), full),
    ensures
        r == full,
{
}

/// A node serves in the hours between the two times of its schedule, and always where it has
/// no schedule.
pub proof fn schedule_is_kept(
    config: ProviderConfig,
    start_text: &str,
    end_text: &str,
    start: Option<TimeOfDay>,
    end: Option<TimeOfDay>,
    now: TimeOfDay,
    in_hours: bool,
    r: bool,
)
    requires
        config.schedule matches Some(schedule) ==> start_text@ == schedule.start@ && end_text@
            == schedule.end@,
        call_ensures(parse_time, (start_text,), start),
        call_ensures(parse_time, (end_text,), end),
        call_ensures(is_within_hours, (start, end, now), in_hours),
        call_ensures(ProviderConfig::is_within_schedule_at, (&config, now), r),
    ensures
        config.schedule is Some ==> r == in_hours,
        config.schedule is None ==> r,
{
}

/// A node without a schedule serves whatever the clock shows. With a schedule the answer is
/// the one for some time of the day.
pub proof fn schedule_is_kept_by_the_clock(config: ProviderConfig, r: bool)
    requires
        call_ensures(ProviderConfig::is_within_schedule, (&config,), r),
    ensures
        config.schedule is None ==> r,
        exists|time: TimeOfDay|
            #![trigger time.well_formed()]
            time.seconds < 86_400 && time.well_formed() && r == (config.schedule matches Some(
                schedule,
            ) ==> within_read(read_time(schedule.start@), read_time(schedule.end@), time)),
{
    let time = choose|time: TimeOfDay|
        time.well_formed() && r == #[trigger] open_at(config@.hours, time);
    assert(time.well_formed());
}

/// The rules that bind a node are those of its configuration.
pub proof fn policy_is_the_configuration(config: ProviderConfig)
    ensures
        config@.max_context == config.max_context,
        config.rate_limit is None <==> config@.requests_per_minute is None,
        config.rate_limit matches Some(limit) ==> config@.requests_per_minute == Some(
            limit.requests_per_minute,
        ),
        config.schedule is None <==> config@.hours is None,
        config.schedule matches Some(schedule) ==> config@.hours matches Some(hours)
            && hours.start == schedule.start@ && hours.end == schedule.end@,
        config.access_key is None <==> config@.access_key is None,
        config.access_key matches Some(key) ==> config@.access_key == Some(key@),
        config.local_llm is None <==> config@.local_llm is None,
        config.local_llm matches Some(base) ==> config@.local_llm == Some(base@),
        config.local_llm_api_key is None <==> config@.local_llm_api_key is None,
        config.local_llm_api_key matches Some(key) ==> config@.local_llm_api_key == Some(key@),
{
}

} // verus!
