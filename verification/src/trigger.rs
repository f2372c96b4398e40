//! When a backup fires: on a fixed cadence, or on filesystem changes with a
//! minimum time between two backups.
//!
//! The engine is a state machine. The driver performs the action that the
//! engine names and reports the outcome as the next event.

use vstd::prelude::*;
use std::time::Duration;
use crate::kinds::{
    batch_has_requested, batch_matches, copy_kinds, default_kinds, watch_bits, watch_mask,
    ChangeKind, CLOSE_NOWRITE, CLOSE_WRITE, CREATE, DELETE, MODIFY,
};
use crate::pipeline::BackupError;

verus! {

/// The window of the default trigger: one second, in nanoseconds.
pub const DEBOUNCE_WINDOW: u64 = 1_000_000_000;

/// `Duration::clone` returns the duration it is given: the type is `Copy`.
pub assume_specification[ <std::time::Duration as std::clone::Clone>::clone ](
    duration: &std::time::Duration,
) -> (r: std::time::Duration)
    ensures
        r == *duration,
;

/// What makes a backup fire.
#[derive(Clone, Debug)]
pub enum BackupTrigger {
    /// A backup after every period.
    Interval(Duration),
    /// A backup when a change of one of these kinds is seen, unless the last
    /// backup ended less than the window ago. The window is in nanoseconds.
    EventMasks(Vec<ChangeKind>, u64),
}

impl Default for BackupTrigger {
    fn default() -> (r: Self)
        ensures
            r matches BackupTrigger::EventMasks(kinds, window) && kinds@ == default_kinds()
                && window == DEBOUNCE_WINDOW,
    {
        let mut kinds: Vec<ChangeKind> = Vec::new();
        kinds.push(ChangeKind { bits: CLOSE_WRITE });
        kinds.push(ChangeKind { bits: CREATE });
        kinds.push(ChangeKind { bits: DELETE });
        kinds.push(ChangeKind { bits: MODIFY });
        kinds.push(ChangeKind { bits: CLOSE_NOWRITE });
        proof {
            assert(kinds@ =~= default_kinds());
        }
        BackupTrigger::EventMasks(kinds, DEBOUNCE_WINDOW)
    }
}

/// Why change notifications stopped.
#[derive(Debug)]
pub enum WatchError {
    /// The subscription to the directory's changes could not be made.
    Subscribe(String),
    /// The stream of notifications broke.
    Read(String),
}

/// Why the engine stopped. Every error is final.
#[derive(Debug)]
pub enum TriggerError {
    Backup(BackupError),
    Watch(WatchError),
    /// An event that the engine was not waiting for, or any event after it
    /// has stopped.
    OutOfTurn,
}

/// What the engine is waiting for.
#[derive(Clone, Copy, Debug, PartialEq, Eq, Structural)]
pub enum Phase {
    /// For the period to pass.
    Sleeping,
    /// For the subscription to the directory's changes.
    Subscribing,
    /// For the next batch of notifications.
    Idle,
    /// For the backup in flight to end.
    Firing,
    /// For nothing: the engine has stopped.
    Failed,
}

/// What the driver reports. Times are readings of one monotonic clock, in
/// nanoseconds.
#[derive(Debug)]
pub enum Event {
    /// The period has passed.
    Woke,
    /// The subscription stands.
    Subscribed { now: u64 },
    SubscribeFailed(String),
    /// A batch of notifications, each with the kinds it carries, read at `now`.
    Batch { kinds: Vec<ChangeKind>, now: u64 },
    ReadFailed(String),
    /// The backup ended well; `now` is read after its end.
    BackupSucceeded { now: u64 },
    BackupFailed(BackupError),
}

/// What the driver does next.
#[derive(Debug)]
pub enum Action {
    /// Sleep for the period, then report `Woke`.
    Sleep(Duration),
    /// Subscribe to the directory's changes with this mask.
    Subscribe { watch_mask: u32 },
    /// Wait for the next batch of notifications.
    AwaitBatch,
    /// Run one backup attempt to its end.
    RunBackup,
    /// Stop, and report the error.
    Stop(TriggerError),
}

/// The time from `since` to `now`; zero where the clock went back.
pub open spec fn elapsed(now: u64, since: u64) -> u64 {
    if now >= since {
        (now - since) as u64
    } else {
        0
    }
}

/// A batch read at `now` fires a backup: it carries a requested kind, and the
/// window since the last backup has passed.
pub open spec fn fires(requested: Seq<ChangeKind>, batch: Seq<ChangeKind>, now: u64, last_fired_at: u64, window: u64) -> bool {
    batch_matches(batch, requested) && elapsed(now, last_fired_at) >= window
}

/// The state of one running trigger policy.
#[derive(Debug)]
pub struct TriggerEngine {
    pub trigger: BackupTrigger,
    pub phase: Phase,
    /// When the last backup ended, or when the subscription was made.
    pub last_fired_at: u64,
}

/// `engine` and `action` are the start of the policy of `trigger`: under the
/// interval policy a sleep of one period, under the change policy a
/// subscription to the union of the requested kinds.
pub open spec fn starts(trigger: BackupTrigger, engine: TriggerEngine, action: Action) -> bool {
    &&& engine.last_fired_at == 0
    &&& match trigger {
        BackupTrigger::Interval(period) => {
            &&& engine.trigger == BackupTrigger::Interval(period)
            &&& engine.phase == Phase::Sleeping
            &&& action == Action::Sleep(period)
        },
        BackupTrigger::EventMasks(masks, window) => {
            &&& engine.trigger is EventMasks
            &&& engine.requested() == masks@
            &&& engine.window() == window
            &&& engine.phase == Phase::Subscribing
            &&& action == (Action::Subscribe { watch_mask: watch_bits(masks@) })
        },
    }
}

impl TriggerEngine {
    /// The phase is one that the trigger's policy passes through.
    pub open spec fn wf(self) -> bool {
        match self.trigger {
            BackupTrigger::Interval(_) => self.phase != Phase::Subscribing && self.phase
                != Phase::Idle,
            BackupTrigger::EventMasks(_, _) => self.phase != Phase::Sleeping,
        }
    }

    /// The kinds that the policy asks for; none under the interval policy.
    pub open spec fn requested(self) -> Seq<ChangeKind> {
        match self.trigger {
            BackupTrigger::Interval(_) => Seq::empty(),
            BackupTrigger::EventMasks(kinds, _) => kinds@,
        }
    }

    /// The minimum time between two backups that changes trigger, which is
    /// the policy's own; none under the interval policy.
    pub open spec fn window(self) -> u64 {
        match self.trigger {
            BackupTrigger::Interval(_) => 0,
            BackupTrigger::EventMasks(_, window) => window,
        }
    }

    pub open spec fn in_phase(self, phase: Phase) -> TriggerEngine {
        TriggerEngine { phase, ..self }
    }

    /// The engine after a backup that ended at `now`.
    pub open spec fn fired(self, now: u64) -> TriggerEngine {
        match self.trigger {
            BackupTrigger::Interval(_) => self.in_phase(Phase::Sleeping),
            BackupTrigger::EventMasks(_, _) => TriggerEngine {
                phase: Phase::Idle,
                last_fired_at: now,
                ..self
            },
        }
    }

    /// What follows a backup that ended well.
    pub open spec fn after_fire(self) -> Action {
        match self.trigger {
            BackupTrigger::Interval(period) => Action::Sleep(period),
            BackupTrigger::EventMasks(_, _) => Action::AwaitBatch,
        }
    }

    /// The engine stopped with an error.
    pub open spec fn stopped(self, error: TriggerError) -> (TriggerEngine, Action) {
        (self.in_phase(Phase::Failed), Action::Stop(error))
    }

    /// The engine and the action after a batch read at `now`.
    pub open spec fn after_batch(self, batch: Seq<ChangeKind>, now: u64) -> (TriggerEngine, Action) {
        if fires(self.requested(), batch, now, self.last_fired_at, self.window()) {
            (self.in_phase(Phase::Firing), Action::RunBackup)
        } else {
            (self, Action::AwaitBatch)
        }
    }

    /// The transition function: the engine and the action after `event`.
    pub open spec fn next(self, event: Event) -> (TriggerEngine, Action) {
        match self.phase {
            Phase::Sleeping => match event {
                Event::Woke => (self.in_phase(Phase::Firing), Action::RunBackup),
                _ => self.stopped(TriggerError::OutOfTurn),
            },
            Phase::Subscribing => match event {
                Event::Subscribed { now } => (
                    TriggerEngine { phase: Phase::Idle, last_fired_at: now, ..self },
                    Action::AwaitBatch,
                ),
                Event::SubscribeFailed(message) => self.stopped(
                    TriggerError::Watch(WatchError::Subscribe(message)),
                ),
                _ => self.stopped(TriggerError::OutOfTurn),
            },
            Phase::Idle => match event {
                Event::Batch { kinds, now } => self.after_batch(kinds@, now),
                Event::ReadFailed(message) => self.stopped(
                    TriggerError::Watch(WatchError::Read(message)),
                ),
                _ => self.stopped(TriggerError::OutOfTurn),
            },
            Phase::Firing => match event {
                Event::BackupSucceeded { now } => (self.fired(now), self.after_fire()),
                Event::BackupFailed(error) => self.stopped(TriggerError::Backup(error)),
                _ => self.stopped(TriggerError::OutOfTurn),
            },
            Phase::Failed => self.stopped(TriggerError::OutOfTurn),
        }
    }

    /// Starts the interval policy: the engine sleeps first.
    pub fn handle_interval_trigger(period: Duration) -> (r: (TriggerEngine, Action))
        ensures
            r.0 == (TriggerEngine {
                trigger: BackupTrigger::Interval(period),
                phase: Phase::Sleeping,
                last_fired_at: 0,
            }),
            r.1 == Action::Sleep(period),
    {
        let engine = TriggerEngine {
            trigger: BackupTrigger::Interval(period),
            phase: Phase::Sleeping,
            last_fired_at: 0,
        };
        (engine, Action::Sleep(period))
    }

    /// Starts the change policy with the policy's own window: the engine asks
    /// for a subscription to the union of the requested kinds.
    pub fn handle_event_mask_trigger(masks: &Vec<ChangeKind>, window: u64) -> (r: (
        TriggerEngine,
        Action,
    ))
        ensures
            r.0.trigger matches BackupTrigger::EventMasks(kinds, w) && kinds@ == masks@ && w
                == window,
            r.0.phase == Phase::Subscribing,
            r.0.last_fired_at == 0,
            r.1 == (Action::Subscribe { watch_mask: watch_bits(masks@) }),
    {
        let watch_mask: u32 = watch_mask(masks);
        let engine = TriggerEngine {
            trigger: BackupTrigger::EventMasks(copy_kinds(masks), window),
            phase: Phase::Subscribing,
            last_fired_at: 0,
        };
        (engine, Action::Subscribe { watch_mask })
    }

    /// Selects the policy of `trigger` and starts it.
    pub fn start(trigger: &BackupTrigger) -> (r: (TriggerEngine, Action))
        ensures
            starts(*trigger, r.0, r.1),
            r.0.wf(),
    {
        match trigger {
            BackupTrigger::Interval(period) => Self::handle_interval_trigger(*period),
            BackupTrigger::EventMasks(masks, window) => Self::handle_event_mask_trigger(
                masks,
                *window,
            ),
        }
    }

    /// The decision on one batch of notifications read at `now`: a backup
    /// fires when the batch carries a requested kind and the policy's window
    /// has passed since the last backup; otherwise the batch is dropped, and
    /// nothing is kept of it.
    pub fn process_events_and_backup(&mut self, batch: &Vec<ChangeKind>, now: u64) -> (action: Action)
        ensures
            (*final(self), action) == old(self).after_batch(batch@, now),
    {
        let (matched, window): (bool, u64) = match &self.trigger {
            BackupTrigger::Interval(_) => (false, 0),
            BackupTrigger::EventMasks(masks, window) => (
                batch_has_requested(batch, masks),
                *window,
            ),
        };
        proof {
            if self.trigger is Interval {
                assert(!batch_matches(batch@, Seq::<ChangeKind>::empty()));
            }
        }
        let waited: u64 = if now >= self.last_fired_at {
            now - self.last_fired_at
        } else {
            0
        };
        if matched && waited >= window {
            self.phase = Phase::Firing;
            Action::RunBackup
        } else {
            Action::AwaitBatch
        }
    }

    fn stop(&mut self, error: TriggerError) -> (action: Action)
        ensures
            (*final(self), action) == old(self).stopped(error),
    {
        self.phase = Phase::Failed;
        Action::Stop(error)
    }

    /// Takes the outcome of the last action and names the next one.
    pub fn step(&mut self, event: Event) -> (action: Action)
        ensures
            (*final(self), action) == old(self).next(event),
            old(self).wf() ==> final(self).wf(),
    {
        match self.phase {
            Phase::Sleeping => match event {
                Event::Woke => {
                    self.phase = Phase::Firing;
                    Action::RunBackup
                },
                _ => self.stop(TriggerError::OutOfTurn),
            },
            Phase::Subscribing => match event {
                Event::Subscribed { now } => {
                    self.phase = Phase::Idle;
                    self.last_fired_at = now;
                    Action::AwaitBatch
                },
                Event::SubscribeFailed(message) => self.stop(
                    TriggerError::Watch(WatchError::Subscribe(message)),
                ),
                _ => self.stop(TriggerError::OutOfTurn),
            },
            Phase::Idle => match event {
                Event::Batch { kinds, now } => self.process_events_and_backup(&kinds, now),
                Event::ReadFailed(message) => self.stop(
                    TriggerError::Watch(WatchError::Read(message)),
                ),
                _ => self.stop(TriggerError::OutOfTurn),
            },
            Phase::Firing => match event {
                Event::BackupSucceeded { now } => {
                    let period = match &self.trigger {
                        BackupTrigger::Interval(period) => Some(*period),
                        BackupTrigger::EventMasks(_, _) => None,
                    };
                    match period {
                        Some(period) => {
                            self.phase = Phase::Sleeping;
                            Action::Sleep(period)
                        },
                        None => {
                            self.phase = Phase::Idle;
                            self.last_fired_at = now;
                            Action::AwaitBatch
                        },
                    }
                },
                Event::BackupFailed(error) => self.stop(TriggerError::Backup(error)),
                _ => self.stop(TriggerError::OutOfTurn),
            },
            Phase::Failed => self.stop(TriggerError::OutOfTurn),
        }
    }
}

} // verus!
