//! What holds of every run of requests through a guard.

use crate::clock::TimeOfDay;
use crate::config::{open_at, Policy};
use crate::guard::{
    counts, each_rule_refuses_what_breaks_it, judge, key_fits, rate_verdict, recent,
    recent_is_the_last_sixty_seconds, Guard, Refusal, Verdict, NANOSECONDS_PER_SECOND,
    WINDOW_SECONDS,
};
use crate::network::{context_bytes, InferenceRequest, Request};
use vstd::prelude::*;

verus! {

/// A request that comes to a guard.
pub struct Arrival {
    pub request: Request,
    /// Whether the schedule has the node open.
    pub open: bool,
    /// When it comes, in nanoseconds since the node started.
    pub now: u128,
}

/// What a run of requests leaves: the log of the guard, and the times of the requests
/// that were let through.
#[verifier::ext_equal]
pub struct Run {
    pub log: Seq<u128>,
    pub served: Seq<u128>,
}

/// The run of `arrivals` through a guard that has counted nothing yet.
pub open spec fn run(policy: Policy, arrivals: Seq<Arrival>) -> Run
    decreases arrivals.len(),
{
    if arrivals.len() == 0 {
        Run { log: Seq::empty(), served: Seq::empty() }
    } else {
        let before = run(policy, arrivals.drop_last());
        let last = arrivals.last();
        let verdict = judge(policy, before.log, last.open, last.now, last.request);
        Run {
            log: verdict.log,
            served: if verdict.refusal is None {
                before.served.push(last.now)
            } else {
                before.served
            },
        }
    }
}

/// Whether the arrivals come in the order of their times, as they do on a clock that
/// never goes back.
pub open spec fn in_order(arrivals: Seq<Arrival>) -> bool {
    forall|i: int, j: int| 0 <= i <= j < arrivals.len() ==> arrivals[i].now <= arrivals[j].now
}

/// The times from `from` on, for the length of the window.
pub open spec fn in_window(times: Seq<u128>, from: int) -> Seq<u128> {
    times.filter(
        |t: u128| from <= t < from + WINDOW_SECONDS * NANOSECONDS_PER_SECOND,
    )
}

/// The times at which the rate limit counted a request.
spec fn counted(policy: Policy, arrivals: Seq<Arrival>) -> Seq<u128>
    decreases arrivals.len(),
{
    if arrivals.len() == 0 {
        Seq::empty()
    } else {
        let before = counted(policy, arrivals.drop_last());
        let last = arrivals.last();
        let log = run(policy, arrivals.drop_last()).log;
        let verdict = judge(policy, log, last.open, last.now, last.request);
        if counts_now(verdict) {
            before.push(last.now)
        } else {
            before
        }
    }
}

spec fn counts_now(verdict: Verdict) -> bool {
    match verdict.refusal {
        None => true,
        Some(Refusal::ContextTooLong { received, max }) => true,
        _ => false,
    }
}

proof fn filter_narrows(s: Seq<u128>, narrow: spec_fn(u128) -> bool, wide: spec_fn(u128) -> bool)
    requires
        forall|i: int| 0 <= i < s.len() && #[trigger] narrow(s[i]) ==> wide(s[i]),
    ensures
        s.filter(narrow).len() <= s.filter(wide).len(),
    decreases s.len(),
{
    reveal(Seq::filter);
    if s.len() > 0 {
        let rest = s.drop_last();
        assert forall|i: int| 0 <= i < rest.len() && #[trigger] narrow(rest[i]) implies wide(
            rest[i],
        ) by {
            assert(rest[i] == s[i]);
        }
        filter_narrows(rest, narrow, wide);
        assert(s.last() == s[s.len() - 1]);
    }
}

/// Dropping the times that no longer count loses nothing that counts later.
proof fn recent_of_recent(log: Seq<u128>, now: u128, later: u128)
    requires
        now <= later,
    ensures
        recent(recent(log, now), later) == recent(log, later),
    decreases log.len(),
{
    reveal(Seq::filter);
    if log.len() > 0 {
        let rest = log.drop_last();
        recent_of_recent(rest, now, later);
        let t = log.last();
        assert(counts(t, later) ==> counts(t, now)) by {
            if t <= now {
                assert((now - t) / (NANOSECONDS_PER_SECOND as int) <= (later - t) / (
                NANOSECONDS_PER_SECOND as int)) by {
                    vstd::arithmetic::div_mod::lemma_div_is_ordered(
                        now - t,
                        later - t,
                        NANOSECONDS_PER_SECOND as int,
                    );
                }
            }
        }
        let kept = recent(rest, now);
        assert(kept.push(t).drop_last() =~= kept);
    }
}

proof fn recent_of_push(log: Seq<u128>, t: u128, later: u128)
    ensures
        recent(log.push(t), later) == (if counts(t, later) {
            recent(log, later).push(t)
        } else {
            recent(log, later)
        }),
{
    reveal(Seq::filter);
    assert(log.push(t).drop_last() =~= log);
}

/// From the last arrival on, the log counts what was counted.
proof fn log_counts_all(policy: Policy, arrivals: Seq<Arrival>, later: u128)
    requires
        policy.requests_per_minute is Some,
        in_order(arrivals),
        arrivals.len() > 0 ==> arrivals.last().now <= later,
    ensures
        recent(run(policy, arrivals).log, later) == recent(counted(policy, arrivals), later),
    decreases arrivals.len(),
{
    if arrivals.len() > 0 {
        let rest = arrivals.drop_last();
        let last = arrivals.last();
        let before = run(policy, rest);
        assert(in_order(rest));
        assert(rest.len() > 0 ==> rest.last() == arrivals[arrivals.len() - 2]);
        log_counts_all(policy, rest, later);
        log_counts_all(policy, rest, last.now);
        let verdict = judge(policy, before.log, last.open, last.now, last.request);
        recent_of_recent(before.log, last.now, later);
        recent_of_push(recent(before.log, last.now), last.now, later);
        recent_of_push(counted(policy, rest), last.now, later);
    }
}

proof fn counted_in_order(policy: Policy, arrivals: Seq<Arrival>)
    requires
        in_order(arrivals),
    ensures
        forall|i: int|
            0 <= i < counted(policy, arrivals).len() ==> #[trigger] counted(policy, arrivals)[i]
                <= arrivals.last().now,
    decreases arrivals.len(),
{
    if arrivals.len() > 0 {
        let rest = arrivals.drop_last();
        assert(in_order(rest));
        counted_in_order(policy, rest);
        let before = counted(policy, rest);
        let after = counted(policy, arrivals);
        if rest.len() > 0 {
            assert(arrivals[arrivals.len() - 2].now <= arrivals[arrivals.len() - 1].now);
            assert(rest.last() == arrivals[arrivals.len() - 2]);
        } else {
            assert(before.len() == 0);
        }
        assert(after == before || after == before.push(arrivals.last().now));
        assert forall|i: int| 0 <= i < after.len() implies #[trigger] after[i]
            <= arrivals.last().now by {
            if i < before.len() {
                assert(after[i] == before[i]);
                assert(counted(policy, rest)[i] <= rest.last().now);
            }
        }
    }
}

proof fn window_of_push(times: Seq<u128>, t: u128, from: int)
    ensures
        in_window(times.push(t), from) == (if from <= t < from + WINDOW_SECONDS
            * NANOSECONDS_PER_SECOND {
            in_window(times, from).push(t)
        } else {
            in_window(times, from)
        }),
{
    reveal(Seq::filter);
    assert(times.push(t).drop_last() =~= times);
}

proof fn counted_within_limit(policy: Policy, limit: u32, arrivals: Seq<Arrival>, from: int)
    requires
        policy.requests_per_minute == Some(limit),
        in_order(arrivals),
    ensures
        in_window(counted(policy, arrivals), from).len() <= limit,
        in_window(run(policy, arrivals).served, from).len() <= in_window(
            counted(policy, arrivals),
            from,
        ).len(),
    decreases arrivals.len(),
{
    if arrivals.len() == 0 {
        reveal(Seq::filter);
    } else {
        let rest = arrivals.drop_last();
        let last = arrivals.last();
        let before = run(policy, rest);
        assert(in_order(rest));
        counted_within_limit(policy, limit, rest, from);
        let verdict = judge(policy, before.log, last.open, last.now, last.request);
        let old_counted = counted(policy, rest);
        window_of_push(old_counted, last.now, from);
        window_of_push(before.served, last.now, from);
        if counts_now(verdict) && from <= last.now < from + WINDOW_SECONDS
            * NANOSECONDS_PER_SECOND {
            assert(rest.len() > 0 ==> rest.last() == arrivals[arrivals.len() - 2]);
            log_counts_all(policy, rest, last.now);
            counted_in_order(policy, rest);
            assert(rate_verdict(policy.requests_per_minute, before.log, last.now).refusal is None);
            assert(recent(before.log, last.now).len() < limit);
            let narrow = |t: u128| from <= t < from + WINDOW_SECONDS * NANOSECONDS_PER_SECOND;
            let wide = |then: u128| counts(then, last.now);
            assert forall|i: int| 0 <= i < old_counted.len() && #[trigger] narrow(
                old_counted[i],
            ) implies wide(old_counted[i]) by {
                let t = old_counted[i];
                if rest.len() > 0 {
                    assert(t <= rest.last().now <= last.now);
                } else {
                    assert(counted(policy, rest).len() == 0);
                }
                vstd::arithmetic::div_mod::lemma_multiply_divide_lt(
                    last.now - t,
                    NANOSECONDS_PER_SECOND as int,
                    WINDOW_SECONDS as int,
                );
            }
            filter_narrows(old_counted, narrow, wide);
        }
    }
}

/// A node never serves more requests than its limit in any stretch of sixty seconds,
/// whatever the requests are, where they come in the order of their times.
pub proof fn rate_limit_holds(policy: Policy, limit: u32, arrivals: Seq<Arrival>, from: int)
    requires
        policy.requests_per_minute == Some(limit),
        in_order(arrivals),
    ensures
        in_window(run(policy, arrivals).served, from).len() <= limit,
{
    counted_within_limit(policy, limit, arrivals, from);
}

/// The times at which the arrivals came.
pub open spec fn times(arrivals: Seq<Arrival>) -> Seq<u128> {
    arrivals.map_values(|a: Arrival| a.now)
}

proof fn counted_among_times(policy: Policy, arrivals: Seq<Arrival>, pred: spec_fn(u128) -> bool)
    ensures
        counted(policy, arrivals).filter(pred).len() <= times(arrivals).filter(pred).len(),
    decreases arrivals.len(),
{
    reveal(Seq::filter);
    if arrivals.len() > 0 {
        let rest = arrivals.drop_last();
        counted_among_times(policy, rest, pred);
        assert(times(arrivals).drop_last() =~= times(rest));
        let old_counted = counted(policy, rest);
        assert(old_counted.push(arrivals.last().now).drop_last() =~= old_counted);
    }
}

/// The rate limit refuses no request before which fewer than `limit` came in the last
/// sixty seconds.
pub proof fn rate_limit_spares(policy: Policy, limit: u32, arrivals: Seq<Arrival>, next: Arrival)
    requires
        policy.requests_per_minute == Some(limit),
        in_order(arrivals.push(next)),
        recent(times(arrivals), next.now).len() < limit,
    ensures
        judge(policy, run(policy, arrivals).log, next.open, next.now, next.request).refusal != Some(
            Refusal::RateLimit,
        ),
{
    let all = arrivals.push(next);
    assert forall|i: int, j: int| 0 <= i <= j < arrivals.len() implies arrivals[i].now
        <= arrivals[j].now by {
        assert(all[i].now <= all[j].now);
    }
    if arrivals.len() > 0 {
        assert(all[arrivals.len() - 1].now <= all[arrivals.len() as int].now);
    }
    log_counts_all(policy, arrivals, next.now);
    counted_among_times(policy, arrivals, |then: u128| counts(then, next.now));
}

/// A node remembers no more requests than its limit, and none where it has no limit.
pub proof fn memory_is_bounded(policy: Policy, arrivals: Seq<Arrival>)
    ensures
        run(policy, arrivals).log.len() <= (match policy.requests_per_minute {
            Some(limit) => limit as nat,
            None => 0,
        }),
    decreases arrivals.len(),
{
    if arrivals.len() > 0 {
        let rest = arrivals.drop_last();
        memory_is_bounded(policy, rest);
        let log = run(policy, rest).log;
        log.lemma_filter_len(|then: u128| counts(then, arrivals.last().now));
    }
}

/// A request that is served shows the node's access key, comes in the node's hours,
/// finds the rate limit not reached and is no longer than the node takes.
pub proof fn served_keeps_the_rules(policy: Policy, log: Seq<u128>, arrival: Arrival)
    requires
        judge(policy, log, arrival.open, arrival.now, arrival.request).refusal is None,
    ensures
        key_fits(policy.access_key, arrival.request.access_key),
        arrival.open,
        policy.requests_per_minute matches Some(limit) ==> recent(log, arrival.now).len() < limit,
        policy.max_context matches Some(max) ==> context_bytes(arrival.request.messages) <= max,
{
}

/// A node whose configuration sets no bound serves every request, at any time.
pub proof fn unbounded_node_serves_all(
    policy: Policy,
    log: Seq<u128>,
    time: TimeOfDay,
    now: u128,
    request: Request,
)
    requires
        policy.access_key is None,
        policy.hours is None,
        policy.requests_per_minute is None,
        policy.max_context is None,
    ensures
        judge(policy, log, open_at(policy.hours, time), now, request).refusal is None,
{
}

/// The rate limit refuses no request before which fewer than `limit` came in the sixty seconds
/// up to it, however many came before them.
pub proof fn older_requests_do_not_count(
    policy: Policy,
    limit: u32,
    arrivals: Seq<Arrival>,
    next: Arrival,
)
    requires
        policy.requests_per_minute == Some(limit),
        forall|i: int, j: int|
            0 <= i <= j < arrivals.len() ==> (#[trigger] arrivals[i]).now <= (
            #[trigger] arrivals[j]).now,
        forall|i: int| 0 <= i < arrivals.len() ==> (#[trigger] arrivals[i]).now <= next.now,
        arrivals.map_values(|a: Arrival| a.now).filter(
            |t: u128| next.now - 60_000_000_000 < t <= next.now,
        ).len() < limit,
    ensures
        judge(policy, run(policy, arrivals).log, next.open, next.now, next.request).refusal != Some(
            Refusal::RateLimit,
        ),
{
    let came = times(arrivals);
    assert(came =~= arrivals.map_values(|a: Arrival| a.now));
    recent_is_the_last_sixty_seconds(came, next.now);
    let near = |then: u128| next.now - then < 60_000_000_000;
    let stretch = |t: u128| next.now - 60_000_000_000 < t <= next.now;
    assert forall|i: int| 0 <= i < came.len() && #[trigger] near(came[i]) implies stretch(
        came[i],
    ) by {
        assert(came[i] == arrivals[i].now);
    }
    filter_narrows(came, near, stretch);
    let all = arrivals.push(next);
    assert forall|i: int, j: int| 0 <= i <= j < all.len() implies all[i].now <= all[j].now by {
        if j < arrivals.len() {
            assert(arrivals[i].now <= arrivals[j].now);
        } else if i < arrivals.len() {
            assert(arrivals[i].now <= next.now);
        }
    }
    rate_limit_spares(policy, limit, arrivals, next);
}

/// A node serves at most `limit` requests in any stretch of sixty seconds, where they come in
/// the order of their times.
pub proof fn no_minute_serves_more(policy: Policy, limit: u32, arrivals: Seq<Arrival>, from: int)
    requires
        policy.requests_per_minute == Some(limit),
        forall|i: int, j: int|
            0 <= i <= j < arrivals.len() ==> (#[trigger] arrivals[i]).now <= (
            #[trigger] arrivals[j]).now,
    ensures
        run(policy, arrivals).served.filter(|t: u128| from <= t < from + 60_000_000_000).len()
            <= limit,
{
    rate_limit_holds(policy, limit, arrivals, from);
    assert((|t: u128| from <= t < from + WINDOW_SECONDS * NANOSECONDS_PER_SECOND) =~= (|t: u128|
        from <= t < from + 60_000_000_000));
}

/// A node that was full serves again when its last counted request is sixty seconds old: with
/// a limit of at least one, nothing of what came before refuses then.
pub proof fn node_serves_again_after_a_minute(
    guard: &mut Guard,
    request: InferenceRequest,
    now: u128,
    refusal: Option<Refusal>,
)
    requires
        call_ensures(Guard::validate_request_when, (guard, &request, true, now), refusal),
        old(guard).config.rate_limit matches Some(limit) && limit.requests_per_minute > 0,
        forall|i: int|
            0 <= i < old(guard).log@.len() ==> now - (#[trigger] old(guard).log@[i])
                >= 60_000_000_000,
    ensures
        refusal != Some(Refusal::RateLimit),
        refusal is None ==> final(guard).log@ == seq![now],
{
    each_rule_refuses_what_breaks_it(guard, request, true, now, refusal);
    let log = old(guard).log@;
    let near = |then: u128| now - then < 60_000_000_000;
    let lately = log.filter(near);
    if lately.len() > 0 {
        log.lemma_filter_pred(near, 0);
        assert(lately.contains(lately[0]));
        log.lemma_filter_contains_rev(near, lately[0]);
    }
    assert(lately =~= Seq::empty());
    assert(lately.push(now) =~= seq![now]);
}

} // verus!
