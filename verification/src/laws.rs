//! What holds of every run of a session, whatever the probes report.

use vstd::prelude::*;
use crate::replay::{after_tick, notices, run, tick_notice, Notification, TickObservation};
use crate::session::{Phase, SessionModel};

verus! {

/// The ticks of `ticks` on which the tracked process was both alive and in
/// the foreground.
pub open spec fn active_ticks(ticks: Seq<TickObservation>) -> nat
    decreases ticks.len(),
{
    if ticks.len() == 0 {
        0
    } else {
        active_ticks(ticks.drop_last()) + if ticks.last().alive && ticks.last().foreground {
            1nat
        } else {
            0nat
        }
    }
}

/// The progress notifications among `sent`.
pub open spec fn progress_count(sent: Seq<Notification>) -> nat
    decreases sent.len(),
{
    if sent.len() == 0 {
        0
    } else {
        progress_count(sent.drop_last()) + if sent.last() is Progress {
            1nat
        } else {
            0nat
        }
    }
}

/// A run keeps the session's invariant and its identity: the session id, the
/// original process and the start time never change, the active seconds
/// never go down, and after at least one tick no child search is left open.
/// In particular a session that has ended has counted the threshold of
/// consecutive failed probes.
pub proof fn run_keeps_invariant(s: SessionModel, ticks: Seq<TickObservation>)
    requires
        s.wf(),
    ensures
        run(s, ticks).wf(),
        run(s, ticks).session_id == s.session_id,
        run(s, ticks).original_pid == s.original_pid,
        run(s, ticks).start_time == s.start_time,
        run(s, ticks).accumulated_active_seconds >= s.accumulated_active_seconds,
        run(s, ticks).phase == Phase::Ended ==> run(s, ticks).consecutive_probe_failures >= 2,
        ticks.len() > 0 || s.phase != Phase::SearchingChild ==> run(s, ticks).phase
            != Phase::SearchingChild,
        s.phase == Phase::Ended ==> run(s, ticks) == s,
    decreases ticks.len(),
{
    if ticks.len() > 0 {
        run_keeps_invariant(s, ticks.drop_last());
    }
}

/// A monitoring session ends on a tick exactly when the probe fails, the
/// failure is the second in a row, and either tracking has already moved to
/// a child or the search finds no live child. Once ended it stays as it is.
pub proof fn a_tick_ends_exactly_when(s: SessionModel, t: TickObservation)
    requires
        s.wf(),
    ensures
        s.phase == Phase::Monitoring ==> (after_tick(s, t).phase == Phase::Ended <==> !t.alive
            && s.consecutive_probe_failures == 1 && (s.has_switched_to_child
            || t.live_child is None)),
        s.phase == Phase::Monitoring && after_tick(s, t).phase == Phase::Ended ==> tick_notice(
            s,
            t,
        ) == Some(Notification::Ended(after_tick(s, t).ended_notice(t.now))) && after_tick(
            s,
            t,
        ).tracked_pid == s.tracked_pid && after_tick(s, t).accumulated_active_seconds
            == s.accumulated_active_seconds,
        s.phase == Phase::Ended ==> after_tick(s, t) == s && tick_notice(s, t) is None,
{
}

/// Running over two stretches of ticks, one after the other, is running
/// over their concatenation: what holds of every run from every state holds
/// of every later part of a run.
pub proof fn run_composes(s: SessionModel, first: Seq<TickObservation>, second: Seq<TickObservation>)
    ensures
        run(s, first + second) == run(run(s, first), second),
    decreases second.len(),
{
    if second.len() == 0 {
        assert(first + second == first);
    } else {
        run_composes(s, first, second.drop_last());
        assert((first + second).drop_last() == first + second.drop_last());
        assert((first + second).last() == second.last());
    }
}

/// Debounce, at the tick that ends the session: a session that started
/// monitoring with no failure counted ends only on a tick that is the second
/// of two consecutive failed probes, both made on the process that is
/// tracked at the end.
pub proof fn ends_only_after_two_failed_probes(s: SessionModel, ticks: Seq<TickObservation>)
    requires
        s.wf(),
        s.phase == Phase::Monitoring,
        s.consecutive_probe_failures == 0,
        ticks.len() > 0,
        run(s, ticks.drop_last()).phase != Phase::Ended,
        run(s, ticks).phase == Phase::Ended,
    ensures
        ticks.len() >= 2,
        !ticks[ticks.len() - 1].alive,
        !ticks[ticks.len() - 2].alive,
        run(s, ticks.take(ticks.len() - 2)).tracked_pid == run(s, ticks).tracked_pid,
        run(s, ticks.take(ticks.len() - 1)).tracked_pid == run(s, ticks).tracked_pid,
{
    let n = ticks.len() as int;
    let shorter = ticks.drop_last();
    run_keeps_invariant(s, shorter);
    // the tick before the last left one failure counted, so it was not the start
    assert(run(s, shorter).consecutive_probe_failures == 1);
    let shortest = shorter.drop_last();
    run_keeps_invariant(s, shortest);
    assert(ticks.take(n - 2) == shortest);
    assert(ticks.take(n - 1) == shorter);
}

/// Debounce, for every sequence of ticks: a session that started monitoring
/// with no failure counted and is found ended after `ticks` ended on some
/// tick of them that was the second of two consecutive failed probes.
pub proof fn an_ended_session_saw_two_failed_probes_in_a_row(
    s: SessionModel,
    ticks: Seq<TickObservation>,
)
    requires
        s.wf(),
        s.phase == Phase::Monitoring,
        s.consecutive_probe_failures == 0,
        run(s, ticks).phase == Phase::Ended,
    ensures
        exists|j: int|
            2 <= j <= ticks.len() && !(#[trigger] ticks[j - 1]).alive && !ticks[j - 2].alive && run(
                s,
                ticks.take(j - 1),
            ).phase != Phase::Ended && run(s, ticks.take(j)).phase == Phase::Ended,
    decreases ticks.len(),
{
    let n = ticks.len() as int;
    let shorter = ticks.drop_last();
    if run(s, shorter).phase == Phase::Ended {
        an_ended_session_saw_two_failed_probes_in_a_row(s, shorter);
        let j = choose|j: int|
            2 <= j <= shorter.len() && !(#[trigger] shorter[j - 1]).alive && !shorter[j - 2].alive
                && run(s, shorter.take(j - 1)).phase != Phase::Ended && run(
                s,
                shorter.take(j),
            ).phase == Phase::Ended;
        assert(shorter.take(j - 1) == ticks.take(j - 1));
        assert(shorter.take(j) == ticks.take(j));
        assert(!ticks[j - 1].alive && !ticks[j - 2].alive);
    } else {
        ends_only_after_two_failed_probes(s, ticks);
        assert(ticks.take(n - 1) == shorter);
        assert(ticks.take(n) == ticks);
        assert(!ticks[n - 1].alive && !ticks[n - 2].alive);
    }
}

/// While the session runs, the accumulated active seconds grow by exactly
/// the number of ticks on which the tracked process was alive and in the
/// foreground. The session counts as running over `ticks` when it was
/// monitoring at their start and had not ended before the last of them.
pub proof fn active_seconds_are_the_active_ticks(s: SessionModel, ticks: Seq<TickObservation>)
    requires
        s.wf(),
        s.phase == Phase::Monitoring,
        ticks.len() > 0 ==> run(s, ticks.drop_last()).phase != Phase::Ended,
    ensures
        run(s, ticks).accumulated_active_seconds == s.accumulated_active_seconds + active_ticks(
            ticks,
        ),
    decreases ticks.len(),
{
    if ticks.len() > 0 {
        let shorter = ticks.drop_last();
        run_keeps_invariant(s, shorter);
        if shorter.len() > 0 {
            run_keeps_invariant(s, shorter.drop_last());
        }
        active_seconds_are_the_active_ticks(s, shorter);
    }
}

/// Ticks that follow the end of the session are not counted: if the session
/// ended on the tick at position `end - 1`, the accumulated active seconds
/// after all of `ticks` grew by the active ticks up to and including that one.
pub proof fn active_seconds_stop_at_the_end(
    s: SessionModel,
    ticks: Seq<TickObservation>,
    end: int,
)
    requires
        s.wf(),
        s.phase == Phase::Monitoring,
        0 < end <= ticks.len(),
        run(s, ticks.take(end - 1)).phase != Phase::Ended,
        run(s, ticks.take(end)).phase == Phase::Ended,
    ensures
        run(s, ticks) == run(s, ticks.take(end)),
        run(s, ticks).accumulated_active_seconds == s.accumulated_active_seconds + active_ticks(
            ticks.take(end),
        ),
{
    let counted = ticks.take(end);
    assert(counted.drop_last() == ticks.take(end - 1));
    active_seconds_are_the_active_ticks(s, counted);
    run_keeps_invariant(s, counted);
    assert(counted + ticks.skip(end) == ticks);
    run_composes(s, counted, ticks.skip(end));
    run_keeps_invariant(run(s, counted), ticks.skip(end));
}

/// Ticks never take active seconds away, and a run adds at most one per
/// active tick, whether or not the session ends on the way.
pub proof fn active_seconds_are_bounded_by_the_active_ticks(s: SessionModel, ticks: Seq<TickObservation>)
    requires
        s.wf(),
    ensures
        s.accumulated_active_seconds <= run(s, ticks).accumulated_active_seconds
            <= s.accumulated_active_seconds + active_ticks(ticks),
    decreases ticks.len(),
{
    if ticks.len() > 0 {
        run_keeps_invariant(s, ticks.drop_last());
        active_seconds_are_bounded_by_the_active_ticks(s, ticks.drop_last());
    }
}

/// A tick sends a progress notification if and only if it brings the
/// accumulated active seconds onto a positive multiple of 30; the
/// notification carries that count, its whole minutes, the time of the tick
/// and the tracked process.
pub proof fn progress_is_sent_exactly_on_multiples_of_thirty(s: SessionModel, t: TickObservation)
    requires
        s.wf(),
    ensures
        tick_notice(s, t) is Some && tick_notice(s, t)->Some_0 is Progress <==> after_tick(
            s,
            t,
        ).accumulated_active_seconds == s.accumulated_active_seconds + 1 && after_tick(
            s,
            t,
        ).accumulated_active_seconds % 30 == 0,
        tick_notice(s, t) is Some && tick_notice(s, t)->Some_0 is Progress ==> tick_notice(
            s,
            t,
        ) == Some(Notification::Progress(after_tick(s, t).progress_notice(t.now))),
{
}

/// One progress notification per multiple of 30 reached: over any run, the
/// notifications sent are as many as the multiples of 30 that the
/// accumulated active seconds passed on the way.
pub proof fn one_progress_notice_per_threshold(s: SessionModel, ticks: Seq<TickObservation>)
    requires
        s.wf(),
    ensures
        s.accumulated_active_seconds / 30 + progress_count(notices(s, ticks)) == run(
            s,
            ticks,
        ).accumulated_active_seconds / 30,
    decreases ticks.len(),
{
    if ticks.len() > 0 {
        let shorter = ticks.drop_last();
        let before = run(s, shorter);
        run_keeps_invariant(s, shorter);
        one_progress_notice_per_threshold(s, shorter);
        progress_is_sent_exactly_on_multiples_of_thirty(before, ticks.last());
        let earlier = notices(s, shorter);
        match tick_notice(before, ticks.last()) {
            Some(notice) => {
                assert(earlier.push(notice).drop_last() == earlier);
                assert(earlier.push(notice).last() == notice);
            },
            None => {},
        }
    }
}

/// Child fallback happens at most once: after a switch the session stays
/// switched and tracks the same process through every further tick.
pub proof fn fallback_happens_at_most_once(s: SessionModel, ticks: Seq<TickObservation>)
    requires
        s.wf(),
        s.has_switched_to_child,
    ensures
        run(s, ticks).has_switched_to_child,
        run(s, ticks).tracked_pid == s.tracked_pid,
    decreases ticks.len(),
{
    if ticks.len() > 0 {
        run_keeps_invariant(s, ticks.drop_last());
        fallback_happens_at_most_once(s, ticks.drop_last());
    }
}

/// After a switch, two failed probes in a row end the session on the
/// process it tracks, whatever children a search would find.
pub proof fn second_death_ends_the_session(
    s: SessionModel,
    first: TickObservation,
    second: TickObservation,
)
    requires
        s.wf(),
        s.phase == Phase::Monitoring,
        s.has_switched_to_child,
        !first.alive,
        !second.alive,
    ensures
        after_tick(after_tick(s, first), second).phase == Phase::Ended,
        after_tick(after_tick(s, first), second).tracked_pid == s.tracked_pid,
{
}

/// Until a switch a monitoring session tracks the original process; the
/// switch happens on a tick whose probe failed, and moves tracking to the
/// child that the search found.
pub proof fn switch_moves_to_the_found_child(s: SessionModel, t: TickObservation)
    requires
        s.wf(),
        s.phase == Phase::Monitoring,
        !s.has_switched_to_child,
        after_tick(s, t).has_switched_to_child,
    ensures
        s.tracked_pid == s.original_pid,
        !t.alive,
        t.live_child == Some(after_tick(s, t).tracked_pid),
        after_tick(s, t).phase == Phase::Monitoring,
        after_tick(s, t).consecutive_probe_failures == 0,
{
}

} // verus!
