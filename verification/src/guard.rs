//! The rules that every request for inference passes, wherever it comes in: the
//! access key, the schedule, the rate limit and the longest conversation.

use crate::clock::TimeOfDay;
use crate::config::{open_at, Policy, ProviderConfig};
use crate::network::{
    context_bytes, context_is_summed, ChatMessage, InferenceRequest, Request,
};
use crate::text::{append_decimal, decimal, same_text};
use vstd::prelude::*;
use vstd::string::*;

verus! {

/// How many seconds a request counts against the rate limit.
pub const WINDOW_SECONDS: u128 = 60;

/// How many nanoseconds a second has.
pub const NANOSECONDS_PER_SECOND: u128 = 1_000_000_000;

/// Why a request is not served.
#[derive(Clone, Copy, Debug, PartialEq, Eq, Structural)]
pub enum Refusal {
    /// The request shows no access key, or another one than the node asks for.
    AccessKey,
    /// The schedule has the node closed.
    OutOfHours,
    /// As many requests as the limit allows were counted in the last minute.
    RateLimit,
    /// The conversation takes `received` bytes, and the node takes `max`.
    ContextTooLong { received: u64, max: u32 },
}

/// What a node tells the client that it refuses.
pub open spec fn refusal_text(refusal: Refusal) -> Seq<char> {
    match refusal {
        Refusal::AccessKey => "Invalid or missing access key"@,
        Refusal::OutOfHours => "Provider is currently outside of usage hours."@,
        Refusal::RateLimit => "Provider rate limit exceeded."@,
        Refusal::ContextTooLong { received, max } => "Provider max context exceeded. Received "@
            + decimal(received as nat) + ", Max "@ + decimal(max as nat),
    }
}

impl Refusal {
    /// Tells the client why it is refused.
    pub fn reason(&self) -> (text: String)
        ensures
            text@ == refusal_text(*self),
    {
        match self {
            Refusal::AccessKey => "Invalid or missing access key".to_owned(),
            Refusal::OutOfHours => "Provider is currently outside of usage hours.".to_owned(),
            Refusal::RateLimit => "Provider rate limit exceeded.".to_owned(),
            Refusal::ContextTooLong { received, max } => {
                let mut text = "Provider max context exceeded. Received ".to_owned();
                append_decimal(&mut text, *received);
                text.append(", Max ");
                append_decimal(&mut text, *max as u64);
                text
            },
        }
    }
}

/// Whether a request counted at `then` still counts at `now`: whether fewer than
/// sixty full seconds went by. A time that lies ahead counts as no time ago.
pub open spec fn counts(then: u128, now: u128) -> bool {
    then > now || (now - then) / (NANOSECONDS_PER_SECOND as int) < WINDOW_SECONDS
}

/// The times of a log that still count at `now`, in their order.
pub open spec fn recent(log: Seq<u128>, now: u128) -> Seq<u128> {
    log.filter(|then: u128| counts(then, now))
}

/// What the guard finds: the times that are counted from now on, and whether the
/// request is refused.
pub struct Verdict {
    pub log: Seq<u128>,
    pub refusal: Option<Refusal>,
}

/// What the rate limit finds at `now`. A request within the limit is counted.
pub open spec fn rate_verdict(limit: Option<u32>, log: Seq<u128>, now: u128) -> Verdict {
    match limit {
        None => Verdict { log, refusal: None },
        Some(limit) => if recent(log, now).len() >= limit {
            Verdict { log: recent(log, now), refusal: Some(Refusal::RateLimit) }
        } else {
            Verdict { log: recent(log, now).push(now), refusal: None }
        },
    }
}

/// The bytes of a conversation as they are told to the client.
pub open spec fn told_bytes(bytes: nat) -> u64 {
    if bytes <= u64::MAX {
        bytes as u64
    } else {
        u64::MAX
    }
}

/// Whether a conversation is longer than the node takes.
pub open spec fn context_refusal(max_context: Option<u32>, bytes: nat) -> Option<Refusal> {
    match max_context {
        Some(max) => if bytes > max {
            Some(Refusal::ContextTooLong { received: told_bytes(bytes), max })
        } else {
            None
        },
        None => None,
    }
}

/// Whether a client that shows `shown` may use a node that asks for `required`.
pub open spec fn key_fits(required: Option<Seq<char>>, shown: Option<Seq<char>>) -> bool {
    required is Some ==> shown == required
}

/// What the guard finds of a request that comes in at `now`, when the schedule has the
/// node open or not: the access key first, then the schedule, then the rate limit,
/// then the length.
pub open spec fn judge(
    policy: Policy,
    log: Seq<u128>,
    open: bool,
    now: u128,
    request: Request,
) -> Verdict {
    if !key_fits(policy.access_key, request.access_key) {
        Verdict { log, refusal: Some(Refusal::AccessKey) }
    } else if !open {
        Verdict { log, refusal: Some(Refusal::OutOfHours) }
    } else {
        let rated = rate_verdict(policy.requests_per_minute, log, now);
        if rated.refusal is Some {
            rated
        } else {
            Verdict {
                log: rated.log,
                refusal: context_refusal(policy.max_context, context_bytes(request.messages)),
            }
        }
    }
}

/// Decides whether a client that shows `shown` may use a node that asks for `required`.
pub fn key_allows(required: &Option<String>, shown: &Option<String>) -> (r: bool)
    ensures
        r == key_fits(crate::text::opt_text(*required), crate::text::opt_text(*shown)),
{
    match required {
        Some(_) => same_text(shown, required),
        None => true,
    }
}

/// Drops the times from a log that no longer count at `now`.
pub fn forget_old(log: &mut Vec<u128>, now: u128)
    ensures
        final(log)@ == recent(old(log)@, now),
{
    let ghost pred = |then: u128| counts(then, now);
    let ghost all = log@;
    let mut kept: Vec<u128> = Vec::new();
    let mut i: usize = 0;
    proof {
        reveal(Seq::filter);
        assert(all.take(0) =~= Seq::empty());
    }
    while i < log.len()
        invariant
            i <= log.len(),
            all == log@,
            pred == |then: u128| counts(then, now),
            kept@ == all.take(i as int).filter(pred),
        decreases log.len() - i,
    {
        let then: u128 = log[i];
        proof {
            reveal(Seq::filter);
            assert(all.take(i + 1).drop_last() =~= all.take(i as int));
        }
        if then > now || (now - then) / NANOSECONDS_PER_SECOND < WINDOW_SECONDS {
            kept.push(then);
        }
        i = i + 1;
    }
    assert(all.take(i as int) =~= all);
    *log = kept;
}

/// Counts a request at `now` unless the limit is reached, and says whether it is.
pub fn check_rate(limit: Option<u32>, log: &mut Vec<u128>, now: u128) -> (refusal: Option<Refusal>)
    ensures
        rate_verdict(limit, old(log)@, now) == (Verdict { log: final(log)@, refusal }),
{
    match limit {
        None => None,
        Some(limit) => {
            forget_old(log, now);
            if log.len() as u128 >= limit as u128 {
                Some(Refusal::RateLimit)
            } else {
                log.push(now);
                None
            }
        },
    }
}

/// Decides whether a conversation is longer than the node takes.
pub fn check_context(max_context: Option<u32>, request: &InferenceRequest) -> (refusal: Option<
    Refusal,
>)
    ensures
        refusal == context_refusal(max_context, context_bytes(request@.messages)),
{
    match max_context {
        Some(max) => {
            let received: u64 = request.context_length();
            if received > max as u64 {
                Some(Refusal::ContextTooLong { received, max })
            } else {
                None
            }
        },
        None => None,
    }
}

/// A node's rules and the times of the requests that it counts, in nanoseconds since
/// the node started.
pub struct Guard {
    pub config: ProviderConfig,
    pub log: Vec<u128>,
}

impl Guard {
    /// A guard that has counted no request yet.
    pub fn new(config: ProviderConfig) -> (guard: Guard)
        ensures
            guard.config == config,
            guard.log@ == Seq::<u128>::empty(),
    {
        Guard { config, log: Vec::new() }
    }

    /// Judges a request at `now`, given whether the schedule has the node open.
    pub fn validate_request_when(&mut self, request: &InferenceRequest, open: bool, now: u128) -> (refusal:
        Option<Refusal>)
        ensures
            final(self).config == old(self).config,
            judge(old(self).config@, old(self).log@, open, now, request@) == (Verdict {
                log: final(self).log@,
                refusal,
            }),
    {
        if !key_allows(&self.config.access_key, &request.access_key) {
            return Some(Refusal::AccessKey);
        }
        if !open {
            return Some(Refusal::OutOfHours);
        }
        let limit = match &self.config.rate_limit {
            Some(rate_limit) => Some(rate_limit.requests_per_minute),
            None => None,
        };
        let rated = check_rate(limit, &mut self.log, now);
        if rated.is_some() {
            return rated;
        }
        check_context(self.config.max_context, request)
    }

    /// Judges a request at `now`, in nanoseconds since the node started, and at the
    /// time of day that the machine's clock shows.
    pub fn validate_request(&mut self, request: &InferenceRequest, now: u128) -> (refusal: Option<Refusal>)
        ensures
            final(self).config == old(self).config,
            exists|time: TimeOfDay|
                time.well_formed() && judge(
                    old(self).config@,
                    old(self).log@,
                    #[trigger] open_at(old(self).config@.hours, time),
                    now,
                    request@,
                ) == (Verdict { log: final(self).log@, refusal }),
    {
        let open = self.config.is_within_schedule();
        self.validate_request_when(request, open, now)
    }
}

/// A counted time still counts exactly if less than sixty seconds lie behind it.
proof fn counts_for_sixty_seconds(then: u128, now: u128)
    ensures
        counts(then, now) <==> now - then < 60_000_000_000,
{
}

/// The times that still count are those of the last sixty seconds, in their order.
pub proof fn recent_is_the_last_sixty_seconds(log: Seq<u128>, now: u128)
    ensures
        recent(log, now) == log.filter(|then: u128| now - then < 60_000_000_000),
{
    assert forall|then: u128| #[trigger] counts(then, now) == (now - then < 60_000_000_000) by {
        counts_for_sixty_seconds(then, now);
    }
    let kept = |then: u128| counts(then, now);
    let near = |then: u128| now - then < 60_000_000_000;
    assert forall|then: u128| #[trigger] kept(then) == near(then) by {
        assert(counts(then, now) == (now - then < 60_000_000_000));
    }
    assert(kept =~= near);
}

/// A time stays in the log exactly if less than sixty seconds lie between it and `now`,
/// however late it is in the life of the node. The times that stay keep their order.
pub proof fn times_stay_for_sixty_seconds(log: &mut Vec<u128>, now: u128)
    requires
        call_ensures(forget_old, (log, now), ()),
    ensures
        final(log)@ == old(log)@.filter(|then: u128| now - then < 60 * 1_000_000_000),
        forall|then: u128|
            old(log)@.contains(then) && then <= now ==> (#[trigger] final(log)@.contains(then)
                <==> now - then < 60 * 1_000_000_000),
        forall|then: u128| #[trigger]
            final(log)@.contains(then) ==> old(log)@.contains(then) && now - then < 60
                * 1_000_000_000,
{
    recent_is_the_last_sixty_seconds(old(log)@, now);
    let near = |then: u128| now - then < 60_000_000_000;
    let wide = |then: u128| now - then < 60 * 1_000_000_000;
    assert(near =~= wide);
    let all = old(log)@;
    let kept = all.filter(near);
    assert(final(log)@ == kept);
    assert forall|then: u128| all.contains(then) && now - then < 60
        * 1_000_000_000 implies #[trigger] kept.contains(then) by {
        let i = all.index_of(then);
        assert(near(all[i]));
        all.lemma_filter_contains(near, i);
    }
    assert forall|then: u128| #[trigger] kept.contains(then) implies all.contains(then) && now
        - then < 60 * 1_000_000_000 by {
        let i = kept.index_of(then);
        all.lemma_filter_pred(near, i);
        all.lemma_filter_contains_rev(near, then);
    }
}

/// A request is refused for the rate limit exactly if at least as many requests as the limit
/// allows were counted in the last sixty seconds. Otherwise it is counted, once, at its time.
/// Without a limit nothing is refused and nothing counted.
pub proof fn rate_limit_decides(
    limit: Option<u32>,
    log: &mut Vec<u128>,
    now: u128,
    refusal: Option<Refusal>,
)
    requires
        call_ensures(check_rate, (limit, log, now), refusal),
    ensures
        limit is None ==> refusal is None && final(log)@ == old(log)@,
        limit matches Some(most) ==> ({
            let lately = old(log)@.filter(|then: u128| now - then < 60_000_000_000);
            &&& refusal is Some <==> lately.len() >= most
            &&& refusal is Some ==> refusal == Some(Refusal::RateLimit) && final(log)@ == lately
            &&& refusal is None ==> final(log)@ == lately.push(now)
        }),
{
    recent_is_the_last_sixty_seconds(old(log)@, now);
}

/// A conversation is refused for its length exactly if it takes more bytes than the node
/// takes, and the client is told both numbers.
pub proof fn longest_conversation_decides(
    max_context: Option<u32>,
    request: InferenceRequest,
    refusal: Option<Refusal>,
)
    requires
        call_ensures(check_context, (max_context, &request), refusal),
    ensures
        ({
            let bytes = request.messages@.fold_left(
                0int,
                |sum: int, m: ChatMessage| sum + vstd::utf8::encode_utf8(m.content@).len(),
            );
            &&& refusal is Some <==> max_context is Some && bytes > max_context->0
            &&& refusal matches Some(r) ==> (r matches Refusal::ContextTooLong { received, max }
                && Some(max) == max_context && (bytes <= u64::MAX ==> received == bytes) && (bytes
                > u64::MAX ==> received == u64::MAX))
        }),
{
    context_is_summed(request@.messages, request.messages@);
}

/// A client passes exactly if no key is asked for, or it shows the one that is.
pub proof fn only_the_key_opens(required: Option<String>, shown: Option<String>, r: bool)
    requires
        call_ensures(key_allows, (&required, &shown), r),
    ensures
        required is None ==> r,
        required matches Some(key) ==> r == (shown matches Some(given) && given@ == key@),
{
}

/// Each rule refuses exactly the requests that break it and none of the rules before it: the
/// access key, the schedule, the rate limit, the length. A request that passes the first
/// three is counted, and no other.
pub proof fn each_rule_refuses_what_breaks_it(
    guard: &mut Guard,
    request: InferenceRequest,
    open: bool,
    now: u128,
    refusal: Option<Refusal>,
)
    requires
        call_ensures(Guard::validate_request_when, (guard, &request, open, now), refusal),
    ensures
        final(guard).config == old(guard).config,
        ({
            let config = old(guard).config;
            let lately = old(guard).log@.filter(|then: u128| now - then < 60_000_000_000);
            let bytes = request.messages@.fold_left(
                0int,
                |sum: int, m: ChatMessage| sum + vstd::utf8::encode_utf8(m.content@).len(),
            );
            let stranger = config.access_key matches Some(key) && !(
            request.access_key matches Some(shown) && shown@ == key@);
            let full = config.rate_limit matches Some(limit) && lately.len()
                >= limit.requests_per_minute;
            let long = config.max_context matches Some(max) && bytes > max;
            &&& refusal == Some(Refusal::AccessKey) <==> stranger
            &&& refusal == Some(Refusal::OutOfHours) <==> !stranger && !open
            &&& refusal == Some(Refusal::RateLimit) <==> !stranger && open && full
            &&& refusal is Some && refusal->0 is ContextTooLong <==> !stranger && open && !full
                && long
            &&& refusal matches Some(Refusal::ContextTooLong { received, max }) ==> Some(max)
                == config.max_context && (bytes <= u64::MAX ==> received == bytes) && (bytes
                > u64::MAX ==> received == u64::MAX)
            &&& stranger || !open || config.rate_limit is None ==> final(guard).log@ == old(
                guard,
            ).log@
            &&& !stranger && open && config.rate_limit is Some && full ==> final(guard).log@
                == lately
            &&& !stranger && open && config.rate_limit is Some && !full ==> final(guard).log@
                == lately.push(now)
        }),
{
    recent_is_the_last_sixty_seconds(old(guard).log@, now);
    context_is_summed(request@.messages, request.messages@);
}

/// A refused client is told the reason, with both numbers where its conversation is too long.
pub proof fn refusal_names_its_reason(refusal: Refusal, text: String)
    requires
        call_ensures(Refusal::reason, (&refusal,), text),
    ensures
        refusal is AccessKey ==> text@ == "Invalid or missing access key"@,
        refusal is OutOfHours ==> text@ == "Provider is currently outside of usage hours."@,
        refusal is RateLimit ==> text@ == "Provider rate limit exceeded."@,
        refusal matches Refusal::ContextTooLong { received, max } ==> text@
            == "Provider max context exceeded. Received "@ + decimal(received as nat) + ", Max "@
            + decimal(max as nat),
{
}

/// A new guard has counted nothing and keeps the rules that it was given.
pub proof fn new_guard_is_fresh(config: ProviderConfig, guard: Guard)
    requires
        call_ensures(Guard::new, (config,), guard),
    ensures
        guard.config == config,
        guard.log@.len() == 0,
{
}

/// The clock decides nothing but whether the schedule has the node open: a request is judged
/// as in the hours or as out of them, and always as in them where there is no schedule.
pub proof fn clock_decides_the_hours_alone(
    guard: &mut Guard,
    within: &mut Guard,
    without: &mut Guard,
    request: InferenceRequest,
    now: u128,
    refusal: Option<Refusal>,
    in_hours: Option<Refusal>,
    out_of_hours: Option<Refusal>,
)
    requires
        old(within).config == old(guard).config && old(within).log@ == old(guard).log@,
        old(without).config == old(guard).config && old(without).log@ == old(guard).log@,
        call_ensures(Guard::validate_request, (guard, &request, now), refusal),
        call_ensures(Guard::validate_request_when, (within, &request, true, now), in_hours),
        call_ensures(Guard::validate_request_when, (without, &request, false, now), out_of_hours),
    ensures
        final(guard).config == old(guard).config,
        ({
            ||| refusal == in_hours && final(guard).log@ == final(within).log@
            ||| refusal == out_of_hours && final(guard).log@ == final(without).log@
        }),
        old(guard).config.schedule is None ==> refusal == in_hours && final(guard).log@
            == final(within).log@,
{
}

} // verus!
