//! Whole runs: what holds of the machine over any sequence of events.

use vstd::prelude::*;
use crate::config::PublishConfig;
use crate::pacing::{achieved_of, lemma_period_is_least_cover, period_of, NANOS_PER_SECOND};
use crate::publisher::{
    report_of, Action, CongestionPolicy, Event, HaltReason, Phase, Publisher, SendOutcome,
};

verus! {

/// The state after every event of `events`, first to last.
pub open spec fn run(start: Publisher, events: Seq<Event>) -> Publisher
    decreases events.len(),
{
    if events.len() == 0 {
        start
    } else {
        run(start, events.drop_last()).next(events.last())
    }
}

/// No event breaks the invariant of a run.
pub proof fn lemma_next_keeps_wf(p: Publisher, event: Event)
    requires
        p.wf(),
    ensures
        p.next(event).wf(),
{
}

/// No sequence of events breaks the invariant of a run.
pub proof fn lemma_run_keeps_wf(start: Publisher, events: Seq<Event>)
    requires
        start.wf(),
    ensures
        run(start, events).wf(),
    decreases events.len(),
{
    if events.len() > 0 {
        lemma_run_keeps_wf(start, events.drop_last());
        lemma_next_keeps_wf(run(start, events.drop_last()), events.last());
    }
}

/// A halted run never leaves its state, whatever it is told.
pub proof fn lemma_halted_is_final(start: Publisher, events: Seq<Event>)
    requires
        start.phase is Halted,
    ensures
        run(start, events) == start,
    decreases events.len(),
{
    if events.len() > 0 {
        lemma_halted_is_final(start, events.drop_last());
    }
}

/// A run whose session cannot be opened halts on that failure and stays
/// there: at no point of it, before or after, is a report pending.
pub proof fn lemma_failed_open_reports_nothing(config: PublishConfig, events: Seq<Event>, k: int)
    requires
        config.wf(),
        events.len() > 0,
        events[0] == (Event::Opened { ok: false }),
        0 <= k <= events.len(),
    ensures
        !(run(Publisher::initial(config), events.take(k)).pending() is Report),
        k >= 1 ==> run(Publisher::initial(config), events.take(k)).pending() == (Action::Halt {
            reason: HaltReason::OpenFailed,
        }),
    decreases k,
{
    let start = Publisher::initial(config);
    if k == 0 {
        assert(events.take(0).len() == 0);
    } else {
        let prefix = events.take(k);
        assert(prefix.drop_last() =~= events.take(k - 1));
        assert(prefix.last() == events[k - 1]);
        if k == 1 {
            assert(events.take(0).len() == 0);
            assert(run(start, events.take(0)) == start);
        } else {
            lemma_failed_open_reports_nothing(config, events, k - 1);
        }
    }
}

/// Congestion is not an error: a dropped send leaves the run exactly where a
/// delivered one does, with the iteration's report pending and the next sleep
/// after it.
pub proof fn lemma_congestion_continues(p: Publisher)
    requires
        p.wf(),
        p.phase is Sending,
    ensures
        p.next(Event::Sent { outcome: SendOutcome::Congested }) == p.next(
            Event::Sent { outcome: SendOutcome::Delivered },
        ),
        p.next(Event::Sent { outcome: SendOutcome::Congested }).pending() is Report,
        p.next(Event::Sent { outcome: SendOutcome::Congested }).next(Event::Reported).pending()
            == (Action::Sleep { nanos: p.period }),
{
}

/// Every send is stamped after a full sleep: a send becomes pending only on a
/// clock reading, a clock reading only on the end of a sleep, and the sleep
/// asked for is never shorter than one second divided by the rate. The send
/// always asks for the dropping policy.
pub proof fn lemma_send_follows_sleep(p: Publisher, event: Event)
    requires
        p.wf(),
    ensures
        p.next(event).pending() is Send && !(p.pending() is Send) ==> p.pending()
            == Action::ReadClock && event is Clock,
        p.next(event).pending() is ReadClock && !(p.pending() is ReadClock) ==> p.pending() == (
        Action::Sleep { nanos: p.period }) && event is Slept,
        p.period * p.config.rate >= NANOS_PER_SECOND,
        p.pending() is Send ==> p.pending() == (Action::Send { policy: CongestionPolicy::Drop }),
{
    lemma_period_is_least_cover(p.config.rate as nat);
}

/// The state after the first `k` events of `events`.
pub open spec fn state_at(start: Publisher, events: Seq<Event>, k: int) -> Publisher
    recommends
        0 <= k <= events.len(),
{
    run(start, events.take(k))
}

/// Whether some sleep was waited out after point `i` and before point `j`.
pub open spec fn slept_between(start: Publisher, events: Seq<Event>, i: int, j: int) -> bool {
    exists|k: int|
        i < k < j && (#[trigger] state_at(start, events, k)).phase is Sleeping
            && events[k] is Slept
}

/// Each event takes the run from one point to the next.
pub proof fn lemma_state_step(start: Publisher, events: Seq<Event>, k: int)
    requires
        0 <= k < events.len(),
    ensures
        state_at(start, events, k + 1) == state_at(start, events, k).next(events[k]),
{
    assert(events.take(k + 1).drop_last() =~= events.take(k));
    assert(events.take(k + 1).last() == events[k]);
}

/// The settings and the period never change during a run.
pub proof fn lemma_run_keeps_settings(start: Publisher, events: Seq<Event>)
    ensures
        run(start, events).config == start.config,
        run(start, events).period == start.period,
    decreases events.len(),
{
    if events.len() > 0 {
        lemma_run_keeps_settings(start, events.drop_last());
    }
}

/// Where a run stands at point `j`, some time after a send was pending at
/// point `i`: the report, the next sleep or a halt; or, once the clock is asked
/// again, a sleep has been waited out in between.
proof fn lemma_after_send(start: Publisher, events: Seq<Event>, i: int, j: int)
    requires
        0 <= i < j <= events.len(),
        state_at(start, events, i).phase is Sending,
    ensures
        match state_at(start, events, j).phase {
            Phase::Reporting { .. } | Phase::Halted { .. } | Phase::Sleeping => true,
            Phase::Timing | Phase::Sending { .. } => slept_between(start, events, i, j),
            _ => false,
        },
    decreases j - i,
{
    lemma_state_step(start, events, j - 1);
    if j > i + 1 {
        lemma_after_send(start, events, i, j - 1);
        let before = state_at(start, events, j - 1);
        if before.phase is Timing || before.phase is Sending {
            let k = choose|k: int|
                i < k < j - 1 && (#[trigger] state_at(start, events, k)).phase is Sleeping
                    && events[k] is Slept;
            assert(i < k < j && state_at(start, events, k).phase is Sleeping && events[k] is Slept);
        } else if before.phase is Sleeping && events[j - 1] is Slept {
            assert(i < j - 1 < j && state_at(start, events, j - 1).phase is Sleeping);
        }
    }
}

/// Between any two send attempts of a run lies a sleep of the full period,
/// waited out to its end, and that period is never shorter than one second
/// divided by the rate.
pub proof fn lemma_sleep_between_sends(start: Publisher, events: Seq<Event>, i: int, j: int)
    requires
        start.wf(),
        0 <= i < j <= events.len(),
        state_at(start, events, i).pending() is Send,
        state_at(start, events, j).pending() is Send,
    ensures
        exists|k: int|
            i < k < j && (#[trigger] state_at(start, events, k)).pending() == (Action::Sleep {
                nanos: start.period,
            }) && events[k] is Slept,
        start.period * start.config.rate >= NANOS_PER_SECOND,
{
    lemma_after_send(start, events, i, j);
    let k = choose|k: int|
        i < k < j && (#[trigger] state_at(start, events, k)).phase is Sleeping
            && events[k] is Slept;
    lemma_run_keeps_settings(start, events.take(k));
    assert(state_at(start, events, k).pending() == (Action::Sleep { nanos: start.period }));
    lemma_period_is_least_cover(start.config.rate as nat);
}

/// Two consecutive iterations stamped `t1 < t2`, neither send failing: the
/// report pending after the second carries `t2`, the positive interval
/// `t2 - t1`, and the rate of one message per that interval.
pub proof fn lemma_second_sample(
    p: Publisher,
    t1: u64,
    t2: u64,
    first: SendOutcome,
    second: SendOutcome,
)
    requires
        p.wf(),
        p.phase is Sleeping,
        t1 < t2,
        !(first is Failed),
        !(second is Failed),
    ensures
        run(
            p,
            seq![
                Event::Slept,
                Event::Clock { now: t1 },
                Event::Sent { outcome: first },
                Event::Reported,
                Event::Slept,
                Event::Clock { now: t2 },
                Event::Sent { outcome: second },
            ],
        ).pending() == (Action::Report { report: report_of(t2, t1, p.config.rate) }),
        report_of(t2, t1, p.config.rate).sample.timestamp == t2,
        report_of(t2, t1, p.config.rate).sample.elapsed == t2 - t1,
        report_of(t2, t1, p.config.rate).sample.elapsed > 0,
        report_of(t2, t1, p.config.rate).achieved == achieved_of(t2 - t1),
        report_of(t2, t1, p.config.rate).achieved is Some,
{
    let events = seq![
        Event::Slept,
        Event::Clock { now: t1 },
        Event::Sent { outcome: first },
        Event::Reported,
        Event::Slept,
        Event::Clock { now: t2 },
        Event::Sent { outcome: second },
    ];
    let e1 = events.take(1);
    let e2 = events.take(2);
    let e3 = events.take(3);
    let e4 = events.take(4);
    let e5 = events.take(5);
    let e6 = events.take(6);
    assert(e1.drop_last() =~= events.take(0));
    assert(e2.drop_last() =~= e1);
    assert(e3.drop_last() =~= e2);
    assert(e4.drop_last() =~= e3);
    assert(e5.drop_last() =~= e4);
    assert(e6.drop_last() =~= e5);
    assert(events.drop_last() =~= e6);
    assert(run(p, events.take(0)) == p);
    assert(run(p, e1) == p.goto(Phase::Timing));
    assert(run(p, e2) == p.goto(Phase::Sending { now: t1 }));
    assert(run(p, e3).phase == (Phase::Reporting {
        report: report_of(t1, p.last, p.config.rate),
    }));
    assert(run(p, e4).phase is Sleeping && run(p, e4).last == t1);
    assert(run(p, e5).phase is Timing && run(p, e5).last == t1);
    assert(run(p, e6).phase == (Phase::Sending { now: t2 }) && run(p, e6).last == t1);
}

} // verus!
