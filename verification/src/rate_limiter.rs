//! A per-second budget for normalized events; process lifecycle events are
//! never held back.
use std::time::{Duration, Instant};
use vstd::prelude::*;
use crate::normalize::NormalizedEvent;

verus! {

/// A point in time of the monotonic clock.
#[verifier::external_type_specification]
#[verifier::external_body]
pub struct ExInstant(Instant);

/// Calls `Instant::now`: the current time of the monotonic clock.  Nothing
/// is stated of the value, which depends on when it is called.
#[verifier::external_body]
fn clock_now() -> Instant {
    Instant::now()
}

/// What `Instant::duration_since` gives for two points of the clock: the
/// time from `earlier` to `later`, zero when `earlier` is the later one.
pub uninterp spec fn elapsed(later: Instant, earlier: Instant) -> Duration;

/// What `Duration::as_secs` gives: the whole seconds of a duration.
pub uninterp spec fn secs_of(d: Duration) -> u64;

/// Calls `Instant::duration_since`.  Claimed of it: the result depends on
/// the two points alone (`elapsed`); it saturates at zero rather than
/// failing.  Its value is not stated.
#[verifier::external_body]
fn time_between(later: &Instant, earlier: &Instant) -> (r: Duration)
    ensures
        r == elapsed(*later, *earlier),
{
    later.duration_since(*earlier)
}

/// Calls `Duration::as_secs`.  Claimed of it: the result depends on the
/// duration alone (`secs_of`).  Its value is not stated.
#[verifier::external_body]
fn whole_secs(d: &Duration) -> (r: u64)
    ensures
        r == secs_of(*d),
{
    d.as_secs()
}

/// Process starts, exits and forks: the events never held back.
pub open spec fn lifecycle(event: NormalizedEvent) -> bool {
    ||| event is ProcessStart
    ||| event is ProcessExit
    ||| event is ProcessRelationship
}

/// Whether an event is a process lifecycle event.
pub fn is_process_lifecycle(event: &NormalizedEvent) -> (r: bool)
    ensures
        r == lifecycle(*event),
{
    match event {
        NormalizedEvent::ProcessStart(_) => true,
        NormalizedEvent::ProcessExit(_) => true,
        NormalizedEvent::ProcessRelationship(_) => true,
        _ => false,
    }
}

/// The decision for one event, and the count after it: lifecycle events
/// pass and cost nothing; others pass while the count of the current
/// window, restarted when `new_window`, is under the budget.
pub open spec fn budget_decision(count: u32, max_per_second: u32, is_lifecycle: bool, new_window: bool) -> (
    bool,
    u32,
) {
    if is_lifecycle {
        (true, count)
    } else {
        let c = if new_window { 0 } else { count };
        if c < max_per_second {
            (true, (c + 1) as u32)
        } else {
            (false, c)
        }
    }
}

pub struct RateLimiter {
    max_per_second: u32,
    window_start: Instant,
    count: u32,
}

impl RateLimiter {
    /// The budget per one-second window.
    pub closed spec fn budget(&self) -> u32 {
        self.max_per_second
    }

    /// Events let through in the current window.
    pub closed spec fn used(&self) -> u32 {
        self.count
    }

    /// When the current window started.
    pub closed spec fn window(&self) -> Instant {
        self.window_start
    }

    /// The window never lets more through than the budget.
    pub open spec fn wf(&self) -> bool {
        self.used() <= self.budget()
    }

    pub fn new(max_per_second: u32) -> (r: Self)
        ensures
            r.wf(),
            r.budget() == max_per_second,
            r.used() == 0,
    {
        RateLimiter { max_per_second, window_start: clock_now(), count: 0 }
    }

    /// The decision for an event at time `now`, `elapsed_secs` whole seconds
    /// after the current window started: a window of a second or more is
    /// over, and a new one starts at `now`.
    pub fn allow_at(&mut self, event: &NormalizedEvent, now: Instant, elapsed_secs: u64) -> (r:
        bool)
        requires
            old(self).wf(),
        ensures
            final(self).wf(),
            final(self).budget() == old(self).budget(),
            (r, final(self).used()) == budget_decision(
                old(self).used(),
                old(self).budget(),
                lifecycle(*event),
                elapsed_secs >= 1,
            ),
            final(self).window() == if !lifecycle(*event) && elapsed_secs >= 1 {
                now
            } else {
                old(self).window()
            },
    {
        if is_process_lifecycle(event) {
            return true;
        }
        if elapsed_secs >= 1 {
            self.window_start = now;
            self.count = 0;
        }
        if self.count < self.max_per_second {
            self.count = self.count + 1;
            true
        } else {
            false
        }
    }

    /// Whether an event may pass now.  Lifecycle events always pass and
    /// cost nothing; any other passes while the budget of the current
    /// one-second window lasts, the window being restarted once it is over.
    pub fn allow(&mut self, event: &NormalizedEvent) -> (r: bool)
        requires
            old(self).wf(),
        ensures
            final(self).wf(),
            final(self).budget() == old(self).budget(),
            lifecycle(*event) ==> r && final(self).used() == old(self).used() && final(self).window()
                == old(self).window(),
            exists|new_window: bool|
                (r, final(self).used()) == #[trigger] budget_decision(
                    old(self).used(),
                    old(self).budget(),
                    lifecycle(*event),
                    new_window,
                ),
            !lifecycle(*event) ==> exists|now: Instant|
                {
                    let secs = secs_of(#[trigger] elapsed(now, old(self).window()));
                    &&& (r, final(self).used()) == budget_decision(
                        old(self).used(),
                        old(self).budget(),
                        false,
                        secs >= 1,
                    )
                    &&& final(self).window() == if secs >= 1 {
                        now
                    } else {
                        old(self).window()
                    }
                },
    {
        if is_process_lifecycle(event) {
            assert(budget_decision(self.count, self.max_per_second, true, false) == (true, self.count));
            return true;
        }
        let now = clock_now();
        let since = time_between(&now, &self.window_start);
        let secs = whole_secs(&since);
        let ghost before = *self;
        let r = self.allow_at(event, now, secs);
        assert(budget_decision(before.count, before.max_per_second, false, secs >= 1) == (r, self.count));
        assert(secs == secs_of(elapsed(now, before.window())));
        assert(self.window() == if secs >= 1 { now } else { before.window() });
        r
    }
}

/// Within one window, the non-lifecycle events let through never exceed
/// the budget: whatever the sequence of decisions, the count stays at most
/// the budget and a full window turns every further event away until a new
/// window starts.
pub proof fn law_budget_holds(count: u32, max_per_second: u32, is_lifecycle: bool, new_window: bool)
    requires
        count <= max_per_second,
    ensures
        budget_decision(count, max_per_second, is_lifecycle, new_window).1 <= max_per_second,
        count == max_per_second && !is_lifecycle && !new_window ==> !budget_decision(
            count,
            max_per_second,
            is_lifecycle,
            new_window,
        ).0,
{
}

/// Lifecycle events always pass and leave the budget as it was.
pub proof fn law_lifecycle_is_free(count: u32, max_per_second: u32, new_window: bool)
    ensures
        budget_decision(count, max_per_second, true, new_window) == (true, count),
{
}


/// The decisions for a run of events within one window, starting from
/// `count` let through; each event is given as whether it is a lifecycle
/// event.
pub open spec fn window_decisions(count: u32, max_per_second: u32, events: Seq<bool>) -> Seq<bool>
    decreases events.len(),
{
    if events.len() == 0 {
        Seq::empty()
    } else {
        let (d, c) = budget_decision(count, max_per_second, events[0], false);
        seq![d] + window_decisions(c, max_per_second, events.skip(1))
    }
}

/// How many of `events` are not lifecycle events.
pub open spec fn non_lifecycle_count(events: Seq<bool>) -> int
    decreases events.len(),
{
    if events.len() == 0 {
        0
    } else {
        (if events[0] { 0int } else { 1int }) + non_lifecycle_count(events.skip(1))
    }
}

/// Within one window, every lifecycle event passes, and a non-lifecycle
/// event passes exactly when fewer than the budget have been let through
/// before it: the count it started from plus the non-lifecycle events
/// earlier in the run.  From a fresh window, the first `max_per_second` of
/// them pass and every later one is held back.
pub proof fn law_window_lets_through_the_budget(count: u32, max_per_second: u32, events: Seq<bool>)
    requires
        count <= max_per_second,
    ensures
        window_decisions(count, max_per_second, events).len() == events.len(),
        forall|j: int|
            0 <= j < events.len() ==> (#[trigger] window_decisions(count, max_per_second, events)[j]
                <== events[j]),
        forall|j: int|
            0 <= j < events.len() && !events[j] ==> (#[trigger] window_decisions(
                count,
                max_per_second,
                events,
            )[j] <==> count + non_lifecycle_count(events.take(j)) < max_per_second),
    decreases events.len(),
{
    if events.len() > 0 {
        let (d, c) = budget_decision(count, max_per_second, events[0], false);
        let rest = events.skip(1);
        law_window_lets_through_the_budget(c, max_per_second, rest);
        let ds = window_decisions(count, max_per_second, events);
        assert(ds == seq![d] + window_decisions(c, max_per_second, rest));
        assert forall|j: int| 0 < j < events.len() implies non_lifecycle_count(events.take(j)) == (
        if events[0] {
            0int
        } else {
            1int
        }) + non_lifecycle_count(rest.take(j - 1)) by {
            assert(events.take(j).skip(1) =~= rest.take(j - 1));
            assert(events.take(j)[0] == events[0]);
        }
        assert forall|j: int| 0 <= j < events.len() implies (#[trigger] ds[j] <== events[j]) by {
            if j > 0 {
                assert(ds[j] == window_decisions(c, max_per_second, rest)[j - 1]);
                assert(rest[j - 1] == events[j]);
            }
        }
        assert forall|j: int| 0 <= j < events.len() && !events[j] implies (#[trigger] ds[j] <==> count
            + non_lifecycle_count(events.take(j)) < max_per_second) by {
            if j == 0 {
                assert(events.take(0).len() == 0);
            } else {
                assert(ds[j] == window_decisions(c, max_per_second, rest)[j - 1]);
                assert(rest[j - 1] == events[j]);
                assert(non_lifecycle_count(rest.take(j - 1)) >= 0) by {
                    lemma_non_lifecycle_count_nonneg(rest.take(j - 1));
                }
            }
        }
    }
}

proof fn lemma_non_lifecycle_count_nonneg(events: Seq<bool>)
    ensures
        non_lifecycle_count(events) >= 0,
    decreases events.len(),
{
    if events.len() > 0 {
        lemma_non_lifecycle_count_nonneg(events.skip(1));
    }
}


/// Process starts, exits and relationships (forks) are never held back:
/// whatever the budget, the count and the window, they pass and leave the
/// count as it was.  Every other event is counted against the budget.
pub proof fn law_process_events_always_pass(
    event: NormalizedEvent,
    count: u32,
    max_per_second: u32,
    new_window: bool,
)
    ensures
        (event is ProcessStart || event is ProcessExit || event is ProcessRelationship) ==> budget_decision(
            count,
            max_per_second,
            lifecycle(event),
            new_window,
        ) == (true, count),
        !(event is ProcessStart || event is ProcessExit || event is ProcessRelationship) ==> budget_decision(
            count,
            max_per_second,
            lifecycle(event),
            new_window,
        ) == (if new_window { 0 < max_per_second } else { count < max_per_second }, if new_window {
            if 0 < max_per_second { 1u32 } else { 0u32 }
        } else if count < max_per_second {
            (count + 1) as u32
        } else {
            count
        }),
{
}

} // verus!
