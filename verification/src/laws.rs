//! What holds of every run of the trigger engine.

use vstd::prelude::*;
use crate::kinds::{batch_matches, ChangeKind};
use crate::pipeline::BackupError;
use crate::trigger::{elapsed, Action, BackupTrigger, Event, Phase, TriggerEngine, TriggerError};

verus! {

/// The engine after a sequence of events, each handed to it in turn.
pub open spec fn run(engine: TriggerEngine, events: Seq<Event>) -> TriggerEngine
    decreases events.len(),
{
    if events.len() == 0 {
        engine
    } else {
        run(engine, events.drop_last()).next(events.last()).0
    }
}

/// How many backups the engine starts while it takes `events` in turn.
pub open spec fn backups_started(engine: TriggerEngine, events: Seq<Event>) -> nat
    decreases events.len(),
{
    if events.len() == 0 {
        0
    } else {
        let before = run(engine, events.drop_last());
        let started: nat = if before.next(events.last()).1 is RunBackup {
            1
        } else {
            0
        };
        backups_started(engine, events.drop_last()) + started
    }
}

/// How many times `events` reports the end of a sleep.
pub open spec fn wakes(events: Seq<Event>) -> nat
    decreases events.len(),
{
    if events.len() == 0 {
        0
    } else {
        let woke: nat = if events.last() is Woke {
            1
        } else {
            0
        };
        wakes(events.drop_last()) + woke
    }
}

/// A step keeps the engine's trigger, and with it the window, and its phase
/// within those of its policy.
pub proof fn lemma_step_keeps_policy(engine: TriggerEngine, event: Event)
    ensures
        engine.next(event).0.trigger == engine.trigger,
        engine.next(event).0.window() == engine.window(),
        engine.wf() ==> engine.next(event).0.wf(),
{
}

/// Under the interval policy a backup runs when the sleep ends and at no
/// other time: waking is answered with a backup, and a backup that ended
/// well with a sleep of one period.
pub proof fn lemma_interval_cadence(engine: TriggerEngine, period: std::time::Duration, now: u64)
    requires
        engine.trigger == BackupTrigger::Interval(period),
        engine.phase == Phase::Sleeping,
    ensures
        engine.next(Event::Woke) == (engine.in_phase(Phase::Firing), Action::RunBackup),
        engine.in_phase(Phase::Firing).next(Event::BackupSucceeded { now }) == (
            engine,
            Action::Sleep(period),
        ),
        forall|event: Event| !(event is Woke) ==> !(#[trigger] engine.next(event).1 is RunBackup),
{
}

/// Under the interval policy no backup runs between two ticks: whatever the
/// engine is told, it starts at most one backup for each sleep that ended.
pub proof fn lemma_interval_never_fires_between_ticks(engine: TriggerEngine, events: Seq<Event>)
    requires
        engine.trigger is Interval,
        engine.wf(),
    ensures
        run(engine, events).trigger == engine.trigger,
        run(engine, events).wf(),
        backups_started(engine, events) <= wakes(events),
    decreases events.len(),
{
    if events.len() > 0 {
        lemma_interval_never_fires_between_ticks(engine, events.drop_last());
    }
}

/// A backup is started only by waking from a sleep or by a batch of
/// notifications that carries a requested kind, read when the window since
/// the last backup has passed.
pub proof fn lemma_backup_only_when_due(engine: TriggerEngine, event: Event)
    requires
        engine.next(event).1 is RunBackup,
    ensures
        engine.next(event).0.phase == Phase::Firing,
        engine.phase == Phase::Sleeping || engine.phase == Phase::Idle,
        engine.phase == Phase::Sleeping ==> event is Woke,
        engine.phase == Phase::Idle ==> (event matches Event::Batch { kinds, now }
            && batch_matches(kinds@, engine.requested()) && elapsed(now, engine.last_fired_at)
            >= engine.window()),
{
}

/// A batch that carries a requested kind fires a backup exactly when the
/// window has passed; one that comes sooner is dropped and leaves no trace.
pub proof fn lemma_debounce(engine: TriggerEngine, kinds: Vec<ChangeKind>, now: u64)
    requires
        engine.phase == Phase::Idle,
        batch_matches(kinds@, engine.requested()),
    ensures
        elapsed(now, engine.last_fired_at) >= engine.window() ==> engine.next(
            Event::Batch { kinds, now },
        ) == (engine.in_phase(Phase::Firing), Action::RunBackup),
        elapsed(now, engine.last_fired_at) < engine.window() ==> engine.next(
            Event::Batch { kinds, now },
        ) == (engine, Action::AwaitBatch),
{
}

/// The window that decides is the policy's own: under a policy with window
/// `window`, a batch that carries a requested kind starts a backup exactly
/// when `window` or more has passed since the last one.
pub proof fn lemma_policy_window_decides(
    engine: TriggerEngine,
    masks: Vec<ChangeKind>,
    window: u64,
    kinds: Vec<ChangeKind>,
    now: u64,
)
    requires
        engine.trigger == BackupTrigger::EventMasks(masks, window),
        engine.phase == Phase::Idle,
        batch_matches(kinds@, masks@),
    ensures
        engine.next(Event::Batch { kinds, now }).1 is RunBackup <==> elapsed(
            now,
            engine.last_fired_at,
        ) >= window,
{
}

/// A batch that carries none of the requested kinds starts no backup and
/// changes nothing, the time of the last backup included.
pub proof fn lemma_unrequested_batch_is_ignored(engine: TriggerEngine, kinds: Vec<ChangeKind>, now: u64)
    requires
        engine.phase == Phase::Idle,
        !batch_matches(kinds@, engine.requested()),
    ensures
        engine.next(Event::Batch { kinds, now }) == (engine, Action::AwaitBatch),
{
}

/// Only the end of a backup, or the subscription, moves the time of the last
/// backup.
pub proof fn lemma_last_fired_moves_only_after_backup(engine: TriggerEngine, event: Event)
    requires
        engine.next(event).0.last_fired_at != engine.last_fired_at,
    ensures
        (engine.phase == Phase::Firing && event is BackupSucceeded) || (engine.phase
            == Phase::Subscribing && event is Subscribed),
{
}

/// A failed backup stops the engine with that error, and no backup is
/// started again: whatever events follow, the engine stays stopped.
pub proof fn lemma_failure_is_final(engine: TriggerEngine, error: BackupError, later: Seq<Event>)
    requires
        engine.phase == Phase::Firing,
    ensures
        engine.next(Event::BackupFailed(error)) == (
            engine.in_phase(Phase::Failed),
            Action::Stop(TriggerError::Backup(error)),
        ),
        run(engine.in_phase(Phase::Failed), later) == engine.in_phase(Phase::Failed),
        backups_started(engine.in_phase(Phase::Failed), later) == 0,
        forall|event: Event| #[trigger]
            engine.in_phase(Phase::Failed).next(event).1 == Action::Stop(TriggerError::OutOfTurn),
    decreases later.len(),
{
    if later.len() > 0 {
        lemma_failure_is_final(engine, error, later.drop_last());
    }
}

/// After a backup that ended at `fired_at`, a batch that carries a requested
/// kind and is read a window or more later starts the next backup: every
/// backup is a new attempt, whatever the earlier ones did.
pub proof fn lemma_fires_again_after_window(engine: TriggerEngine, fired_at: u64, kinds: Vec<ChangeKind>, now: u64)
    requires
        engine.trigger is EventMasks,
        engine.phase == Phase::Firing,
        batch_matches(kinds@, engine.requested()),
        elapsed(now, fired_at) >= engine.window(),
    ensures
        engine.next(Event::BackupSucceeded { now: fired_at }).1 == Action::AwaitBatch,
        engine.next(Event::BackupSucceeded { now: fired_at }).0.next(
            Event::Batch { kinds, now },
        ).1 == Action::RunBackup,
{
}

/// The engine, and the times at which backups started, after batches read at
/// `times` that each hold the notifications `kinds`, where every backup ends
/// well at the moment it started.
pub open spec fn burst(engine: TriggerEngine, kinds: Vec<ChangeKind>, times: Seq<u64>) -> (
    TriggerEngine,
    Seq<u64>,
)
    decreases times.len(),
{
    if times.len() == 0 {
        (engine, Seq::empty())
    } else {
        let (before, fired) = burst(engine, kinds, times.drop_last());
        let now = times.last();
        let (after, action) = before.next(Event::Batch { kinds, now });
        if action is RunBackup {
            (after.next(Event::BackupSucceeded { now }).0, fired.push(now))
        } else {
            (after, fired)
        }
    }
}

/// However fast notifications come, two backups in a row are a window or
/// more apart, and the first is a window or more after the subscription or
/// the backup before the burst. The engine remembers the last of them.
pub proof fn lemma_burst_is_rate_limited(engine: TriggerEngine, kinds: Vec<ChangeKind>, times: Seq<u64>)
    requires
        engine.trigger is EventMasks,
        engine.phase == Phase::Idle,
    ensures
        ({
            let (after, fired) = burst(engine, kinds, times);
            &&& after.phase == Phase::Idle
            &&& after.trigger == engine.trigger
            &&& fired.len() <= times.len()
            &&& after.last_fired_at == if fired.len() == 0 {
                engine.last_fired_at
            } else {
                fired.last()
            }
            &&& fired.len() > 0 ==> elapsed(fired[0], engine.last_fired_at) >= engine.window()
            &&& forall|i: int|
                0 < i < fired.len() ==> elapsed(#[trigger] fired[i], fired[i - 1]) >= engine.window()
        }),
    decreases times.len(),
{
    if times.len() > 0 {
        lemma_burst_is_rate_limited(engine, kinds, times.drop_last());
    }
}

/// A burst in which no batch carries a requested kind starts no backup and
/// leaves the engine as it was.
pub proof fn lemma_unrequested_burst_is_ignored(engine: TriggerEngine, kinds: Vec<ChangeKind>, times: Seq<u64>)
    requires
        engine.phase == Phase::Idle,
        !batch_matches(kinds@, engine.requested()),
    ensures
        burst(engine, kinds, times) == (engine, Seq::<u64>::empty()),
    decreases times.len(),
{
    if times.len() > 0 {
        lemma_unrequested_burst_is_ignored(engine, kinds, times.drop_last());
    }
}

} // verus!
