//! The session state machine: one tracked process, polled once per second.
//!
//! The machine itself performs no probing, sleeping or sending. Its caller
//! hands it what a probe observed and carries out the [`Action`] it answers
//! with. Contracts are stated over [`SessionModel`], the mathematical view of
//! a [`SessionState`].

use vstd::prelude::*;
use crate::rounding::{elapsed_minutes, final_minutes, rounded_minutes, whole_minutes};

verus! {

/// Consecutive failed liveness probes after which the tracked process counts as gone.
pub const FAILURE_THRESHOLD: u32 = 2;

/// Active seconds between two progress notifications.
pub const UPDATE_INTERVAL: u64 = 30;

/// Seconds from one tick to the next.
pub const TICK_SECONDS: u64 = 1;

/// Where a session stands.
#[derive(Clone, Copy, Debug, PartialEq, Eq)]
pub enum Phase {
    /// The tracked process is probed once per tick.
    Monitoring,
    /// The tracked process is confirmed gone; the children of the original
    /// process are being looked at.
    SearchingChild,
    /// Terminal: the end notification has been handed out.
    Ended,
}

/// Payload of the notification sent when monitoring begins.
#[derive(Clone, Copy, Debug, PartialEq, Eq)]
pub struct SessionStarted {
    pub session_id: u32,
    pub process_id: u32,
    pub start_time: u64,
}

/// Payload of the periodic progress notification.
#[derive(Clone, Copy, Debug, PartialEq, Eq)]
pub struct TimeUpdate {
    pub session_id: u32,
    pub total_minutes: u64,
    pub total_seconds: u64,
    pub start_time: u64,
    pub current_time: u64,
    pub process_id: u32,
}

/// Payload of the notification sent when the session ends.
#[derive(Clone, Copy, Debug, PartialEq, Eq)]
pub struct SessionEnded {
    pub session_id: u32,
    pub start_time: u64,
    pub end_time: u64,
    pub total_minutes: u64,
    pub total_seconds: u64,
    pub process_id: u32,
}

/// What the caller reports to the machine.
#[derive(Clone, Copy, Debug, PartialEq, Eq)]
pub enum Observation {
    /// Result of probing the tracked process. `foreground` is read only when
    /// `alive` holds.
    Probe { alive: bool, foreground: bool },
    /// Result of a child search: the first child of the original process that
    /// probed alive, if any did.
    ChildSearch { live_child: Option<u32> },
}

/// What the caller has to do next.
#[derive(Clone, Copy, Debug, PartialEq, Eq)]
pub enum Action {
    /// Sleep for [`TICK_SECONDS`], then probe the tracked process.
    Wait,
    /// Send the progress notification, then do as for `Wait`.
    NotifyProgress(TimeUpdate),
    /// List the children of `parent_pid`, probe them, and report a `ChildSearch`.
    SearchChildren { parent_pid: u32 },
    /// Tracking moved to a child: probe it at once, without sleeping.
    ProbeAgain,
    /// Send the end notification and stop.
    NotifyEnd(SessionEnded),
    /// The observation does not belong to the current phase; nothing changed.
    Ignore,
}

/// The mutable state of one monitoring run.
#[derive(Clone, Copy, Debug, PartialEq, Eq)]
pub struct SessionState {
    pub session_id: u32,
    pub tracked_pid: u32,
    pub original_pid: u32,
    pub start_time: u64,
    pub accumulated_active_seconds: u64,
    pub consecutive_probe_failures: u32,
    pub has_switched_to_child: bool,
    pub phase: Phase,
}

/// Mathematical view of a [`SessionState`]: the counters are unbounded.
pub ghost struct SessionModel {
    pub session_id: u32,
    pub tracked_pid: u32,
    pub original_pid: u32,
    pub start_time: u64,
    pub accumulated_active_seconds: nat,
    pub consecutive_probe_failures: nat,
    pub has_switched_to_child: bool,
    pub phase: Phase,
}

impl View for SessionState {
    type V = SessionModel;

    open spec fn view(&self) -> SessionModel {
        SessionModel {
            session_id: self.session_id,
            tracked_pid: self.tracked_pid,
            original_pid: self.original_pid,
            start_time: self.start_time,
            accumulated_active_seconds: self.accumulated_active_seconds as nat,
            consecutive_probe_failures: self.consecutive_probe_failures as nat,
            has_switched_to_child: self.has_switched_to_child,
            phase: self.phase,
        }
    }
}

impl SessionModel {
    /// The session as it stands right after creation.
    pub open spec fn started(session_id: u32, process_id: u32, start_time: u64) -> SessionModel {
        SessionModel {
            session_id,
            tracked_pid: process_id,
            original_pid: process_id,
            start_time,
            accumulated_active_seconds: 0,
            consecutive_probe_failures: 0,
            has_switched_to_child: false,
            phase: Phase::Monitoring,
        }
    }

    /// The invariant of a session: the failure counter stays under the
    /// threshold while monitoring and has reached it in the other phases, a
    /// child search happens only before any switch, and the tracked process
    /// is the original one until a switch.
    pub open spec fn wf(self) -> bool {
        &&& self.phase == Phase::Monitoring ==> self.consecutive_probe_failures < FAILURE_THRESHOLD
        &&& self.phase == Phase::SearchingChild ==> self.consecutive_probe_failures
            == FAILURE_THRESHOLD && !self.has_switched_to_child
        &&& self.phase == Phase::Ended ==> self.consecutive_probe_failures == FAILURE_THRESHOLD
        &&& !self.has_switched_to_child ==> self.tracked_pid == self.original_pid
    }

    /// The end notification for this session at time `now`.
    pub open spec fn ended_notice(self, now: u64) -> SessionEnded {
        SessionEnded {
            session_id: self.session_id,
            start_time: self.start_time,
            end_time: now,
            total_minutes: rounded_minutes(self.accumulated_active_seconds) as u64,
            total_seconds: self.accumulated_active_seconds as u64,
            process_id: self.tracked_pid,
        }
    }

    /// The progress notification for this session at time `now`.
    pub open spec fn progress_notice(self, now: u64) -> TimeUpdate {
        TimeUpdate {
            session_id: self.session_id,
            total_minutes: whole_minutes(self.accumulated_active_seconds) as u64,
            total_seconds: self.accumulated_active_seconds as u64,
            start_time: self.start_time,
            current_time: now,
            process_id: self.tracked_pid,
        }
    }

    /// The session after one observation.
    pub open spec fn after(self, obs: Observation) -> SessionModel {
        match (self.phase, obs) {
            (Phase::Monitoring, Observation::Probe { alive: true, foreground }) => SessionModel {
                consecutive_probe_failures: 0,
                accumulated_active_seconds: if foreground {
                    self.accumulated_active_seconds + 1
                } else {
                    self.accumulated_active_seconds
                },
                ..self
            },
            (Phase::Monitoring, Observation::Probe { alive: false, foreground }) => SessionModel {
                consecutive_probe_failures: self.consecutive_probe_failures + 1,
                phase: if self.consecutive_probe_failures + 1 < FAILURE_THRESHOLD {
                    Phase::Monitoring
                } else if self.has_switched_to_child {
                    Phase::Ended
                } else {
                    Phase::SearchingChild
                },
                ..self
            },
            (Phase::SearchingChild, Observation::ChildSearch { live_child: Some(child) }) => SessionModel {
                tracked_pid: child,
                has_switched_to_child: true,
                consecutive_probe_failures: 0,
                phase: Phase::Monitoring,
                ..self
            },
            (Phase::SearchingChild, Observation::ChildSearch { live_child: None }) => SessionModel {
                phase: Phase::Ended,
                ..self
            },
            _ => self,
        }
    }

    /// What the caller is told to do for one observation made at time `now`.
    pub open spec fn action_for(self, obs: Observation, now: u64) -> Action {
        let next = self.after(obs);
        match (self.phase, obs) {
            (Phase::Monitoring, Observation::Probe { alive: true, foreground }) => {
                if foreground && next.accumulated_active_seconds % (UPDATE_INTERVAL as nat) == 0 {
                    Action::NotifyProgress(next.progress_notice(now))
                } else {
                    Action::Wait
                }
            },
            (Phase::Monitoring, Observation::Probe { alive: false, foreground }) => {
                match next.phase {
                    Phase::Monitoring => Action::Wait,
                    Phase::SearchingChild => Action::SearchChildren { parent_pid: self.original_pid },
                    Phase::Ended => Action::NotifyEnd(next.ended_notice(now)),
                }
            },
            (Phase::SearchingChild, Observation::ChildSearch { live_child: Some(child) }) => Action::ProbeAgain,
            (Phase::SearchingChild, Observation::ChildSearch { live_child: None }) => Action::NotifyEnd(
                next.ended_notice(now),
            ),
            _ => Action::Ignore,
        }
    }
}

impl SessionState {
    /// Begins a session on `process_id`, created at `start_time`.
    pub fn start(session_id: u32, process_id: u32, start_time: u64) -> (session: SessionState)
        ensures
            session@ == SessionModel::started(session_id, process_id, start_time),
            session@.wf(),
    {
        SessionState {
            session_id,
            tracked_pid: process_id,
            original_pid: process_id,
            start_time,
            accumulated_active_seconds: 0,
            consecutive_probe_failures: 0,
            has_switched_to_child: false,
            phase: Phase::Monitoring,
        }
    }

    /// The notification that announces the session.
    pub fn started_notice(&self) -> (notice: SessionStarted)
        ensures
            notice == (SessionStarted {
                session_id: self.session_id,
                process_id: self.tracked_pid,
                start_time: self.start_time,
            }),
    {
        SessionStarted {
            session_id: self.session_id,
            process_id: self.tracked_pid,
            start_time: self.start_time,
        }
    }

    /// Whether the session has reached its terminal phase.
    pub fn is_ended(&self) -> (ended: bool)
        ensures
            ended == (self@.phase == Phase::Ended),
    {
        match self.phase {
            Phase::Ended => true,
            _ => false,
        }
    }

    /// Whether [`SessionState::step`] may be called: the session's invariant
    /// holds and the active seconds are below the largest number they can
    /// hold.
    pub fn can_step(&self) -> (ok: bool)
        ensures
            ok == (self@.wf() && self.accumulated_active_seconds < u64::MAX),
    {
        let counted = match self.phase {
            Phase::Monitoring => self.consecutive_probe_failures < FAILURE_THRESHOLD,
            Phase::SearchingChild => self.consecutive_probe_failures == FAILURE_THRESHOLD
                && !self.has_switched_to_child,
            Phase::Ended => self.consecutive_probe_failures == FAILURE_THRESHOLD,
        };
        counted && (self.has_switched_to_child || self.tracked_pid == self.original_pid)
            && self.accumulated_active_seconds < u64::MAX
    }

    fn end_notice(&self, now: u64) -> (notice: SessionEnded)
        ensures
            notice == self@.ended_notice(now),
    {
        SessionEnded {
            session_id: self.session_id,
            start_time: self.start_time,
            end_time: now,
            total_minutes: final_minutes(self.accumulated_active_seconds),
            total_seconds: self.accumulated_active_seconds,
            process_id: self.tracked_pid,
        }
    }

    /// Takes one observation, made at time `now`, and answers with what the
    /// caller has to do next.
    ///
    /// A live probe clears the failure counter and, in the foreground, adds
    /// one active second; every thirtieth active second asks for a progress
    /// notification. A failed probe counts up; at the threshold the session
    /// either asks once for a child search or ends. A child search that found
    /// a live child moves tracking to it; one that found none ends the
    /// session.
    pub fn step(&mut self, obs: Observation, now: u64) -> (action: Action)
        requires
            old(self)@.wf(),
            old(self).accumulated_active_seconds < u64::MAX,
        ensures
            final(self)@ == old(self)@.after(obs),
            action == old(self)@.action_for(obs, now),
            final(self)@.wf(),
    {
        match self.phase {
            Phase::Ended => Action::Ignore,
            Phase::SearchingChild => match obs {
                Observation::ChildSearch { live_child } => match live_child {
                    Some(child) => {
                        self.tracked_pid = child;
                        self.has_switched_to_child = true;
                        self.consecutive_probe_failures = 0;
                        self.phase = Phase::Monitoring;
                        Action::ProbeAgain
                    },
                    None => {
                        self.phase = Phase::Ended;
                        Action::NotifyEnd(self.end_notice(now))
                    },
                },
                Observation::Probe { .. } => Action::Ignore,
            },
            Phase::Monitoring => match obs {
                Observation::Probe { alive, foreground } => {
                    if alive {
                        self.consecutive_probe_failures = 0;
                        if foreground {
                            self.accumulated_active_seconds = self.accumulated_active_seconds + 1;
                            if self.accumulated_active_seconds % UPDATE_INTERVAL == 0 {
                                Action::NotifyProgress(
                                    TimeUpdate {
                                        session_id: self.session_id,
                                        total_minutes: elapsed_minutes(self.accumulated_active_seconds),
                                        total_seconds: self.accumulated_active_seconds,
                                        start_time: self.start_time,
                                        current_time: now,
                                        process_id: self.tracked_pid,
                                    },
                                )
                            } else {
                                Action::Wait
                            }
                        } else {
                            Action::Wait
                        }
                    } else {
                        self.consecutive_probe_failures = self.consecutive_probe_failures + 1;
                        if self.consecutive_probe_failures < FAILURE_THRESHOLD {
                            Action::Wait
                        } else if self.has_switched_to_child {
                            self.phase = Phase::Ended;
                            Action::NotifyEnd(self.end_notice(now))
                        } else {
                            self.phase = Phase::SearchingChild;
                            Action::SearchChildren { parent_pid: self.original_pid }
                        }
                    }
                },
                Observation::ChildSearch { .. } => Action::Ignore,
            },
        }
    }
}

} // verus!
