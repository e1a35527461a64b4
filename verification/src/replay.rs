//! Whole runs of a session: one tick after the other over a recorded
//! sequence of observations, with the notifications that the run sends.

use vstd::prelude::*;
use crate::session::{
    Action, Observation, Phase, SessionEnded, SessionModel, SessionStarted, SessionState,
    TimeUpdate,
};

verus! {

/// Everything one pass of the polling loop can observe: the probe of the
/// tracked process, what a child search would find at that moment (read only
/// if the pass comes to search), and the time of the pass.
#[derive(Clone, Copy, Debug, PartialEq, Eq)]
pub struct TickObservation {
    pub alive: bool,
    pub foreground: bool,
    pub live_child: Option<u32>,
    pub now: u64,
}

/// A notification sent to the host.
#[derive(Clone, Copy, Debug, PartialEq, Eq)]
pub enum Notification {
    Started(SessionStarted),
    Progress(TimeUpdate),
    Ended(SessionEnded),
}

/// What a run hands back: the session as the run left it, and every
/// notification in the order sent.
#[derive(Debug)]
pub struct MonitorReport {
    pub session: SessionState,
    pub notifications: Vec<Notification>,
}

/// The notification that an action asks to send, if it asks for one.
pub open spec fn notice_of(action: Action) -> Option<Notification> {
    match action {
        Action::NotifyProgress(update) => Some(Notification::Progress(update)),
        Action::NotifyEnd(ended) => Some(Notification::Ended(ended)),
        _ => None,
    }
}

/// The probe that a tick reports.
pub open spec fn probe_of(t: TickObservation) -> Observation {
    Observation::Probe { alive: t.alive, foreground: t.foreground }
}

/// The child search that a tick reports.
pub open spec fn search_of(t: TickObservation) -> Observation {
    Observation::ChildSearch { live_child: t.live_child }
}

/// The session after one pass of the loop: the probe, and the child search
/// if the probe led to one.
pub open spec fn after_tick(s: SessionModel, t: TickObservation) -> SessionModel {
    let probed = s.after(probe_of(t));
    if probed.phase == Phase::SearchingChild {
        probed.after(search_of(t))
    } else {
        probed
    }
}

/// The notification that one pass of the loop sends, if any.
pub open spec fn tick_notice(s: SessionModel, t: TickObservation) -> Option<Notification> {
    let probed = s.after(probe_of(t));
    if probed.phase == Phase::SearchingChild {
        notice_of(probed.action_for(search_of(t), t.now))
    } else {
        notice_of(s.action_for(probe_of(t), t.now))
    }
}

/// The session after all of `ticks`, in order.
pub open spec fn run(s: SessionModel, ticks: Seq<TickObservation>) -> SessionModel
    decreases ticks.len(),
{
    if ticks.len() == 0 {
        s
    } else {
        after_tick(run(s, ticks.drop_last()), ticks.last())
    }
}

/// The notifications sent over `ticks`, in order.
pub open spec fn notices(s: SessionModel, ticks: Seq<TickObservation>) -> Seq<Notification>
    decreases ticks.len(),
{
    if ticks.len() == 0 {
        Seq::empty()
    } else {
        let earlier = notices(s, ticks.drop_last());
        match tick_notice(run(s, ticks.drop_last()), ticks.last()) {
            Some(notice) => earlier.push(notice),
            None => earlier,
        }
    }
}

/// The notification that announces a session.
pub open spec fn start_notice(session_id: u32, process_id: u32, start_time: u64) -> Notification {
    Notification::Started(SessionStarted { session_id, process_id, start_time })
}

fn notice_from(action: Action) -> (notice: Option<Notification>)
    ensures
        notice == notice_of(action),
{
    match action {
        Action::NotifyProgress(update) => Some(Notification::Progress(update)),
        Action::NotifyEnd(ended) => Some(Notification::Ended(ended)),
        _ => None,
    }
}

/// One pass of the polling loop on recorded observations.
pub fn tick(session: &mut SessionState, t: &TickObservation) -> (notice: Option<Notification>)
    requires
        old(session)@.wf(),
        old(session).accumulated_active_seconds < u64::MAX,
    ensures
        final(session)@ == after_tick(old(session)@, *t),
        notice == tick_notice(old(session)@, *t),
        final(session)@.wf(),
{
    let first = session.step(Observation::Probe { alive: t.alive, foreground: t.foreground }, t.now);
    match session.phase {
        Phase::SearchingChild => {
            let second = session.step(Observation::ChildSearch { live_child: t.live_child }, t.now);
            notice_from(second)
        },
        _ => notice_from(first),
    }
}

/// Runs a whole session on recorded observations: starts it on `process_id`
/// at `start_time`, then makes one pass of the loop per entry of `ticks`.
/// Entries that follow the end of the session change nothing and send
/// nothing.
pub fn run_game_monitor(
    session_id: u32,
    process_id: u32,
    start_time: u64,
    ticks: &Vec<TickObservation>,
) -> (report: MonitorReport)
    ensures
        report.session@ == run(SessionModel::started(session_id, process_id, start_time), ticks@),
        report.notifications@ == seq![start_notice(session_id, process_id, start_time)] + notices(
            SessionModel::started(session_id, process_id, start_time),
            ticks@,
        ),
{
    let ghost start = SessionModel::started(session_id, process_id, start_time);
    let ghost announced = seq![start_notice(session_id, process_id, start_time)];
    let mut session = SessionState::start(session_id, process_id, start_time);
    let mut notifications: Vec<Notification> = Vec::new();
    notifications.push(Notification::Started(session.started_notice()));
    proof {
        assert(notifications@ =~= announced + notices(start, ticks@.take(0)));
    }
    let mut i: usize = 0;
    while i < ticks.len()
        invariant
            i <= ticks.len(),
            start == SessionModel::started(session_id, process_id, start_time),
            announced == seq![start_notice(session_id, process_id, start_time)],
            session@ == run(start, ticks@.take(i as int)),
            session@.wf(),
            session.accumulated_active_seconds <= i,
            notifications@ == announced + notices(start, ticks@.take(i as int)),
        decreases ticks.len() - i,
    {
        let ghost earlier = notices(start, ticks@.take(i as int));
        proof {
            assert(ticks@.take(i + 1).drop_last() == ticks@.take(i as int));
            assert(ticks@.take(i + 1).last() == ticks@[i as int]);
        }
        let notice = tick(&mut session, &ticks[i]);
        match notice {
            Some(n) => {
                notifications.push(n);
                proof {
                    assert(notifications@ =~= announced + earlier.push(n));
                }
            },
            None => {},
        }
        i = i + 1;
    }
    proof {
        assert(ticks@.take(i as int) == ticks@);
    }
    MonitorReport { session, notifications }
}

} // verus!
