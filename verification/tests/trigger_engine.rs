use std::time::Duration;

use backuplit::kinds::{ChangeKind, CLOSE_NOWRITE, CLOSE_WRITE, CREATE, DELETE, MODIFY};
use backuplit::pipeline::BackupError;
use backuplit::trigger::{
    Action, BackupTrigger, Event, Phase, TriggerEngine, TriggerError, WatchError, DEBOUNCE_WINDOW,
};

const SECOND: u64 = 1_000_000_000;
const TENTH: u64 = 100_000_000;

fn kinds(bits: &[u32]) -> Vec<ChangeKind> {
    bits.iter().map(|b| ChangeKind::new(*b)).collect()
}

fn idle_engine(subscribed_at: u64) -> TriggerEngine {
    let (mut engine, action) = TriggerEngine::start(&BackupTrigger::default());
    assert!(matches!(action, Action::Subscribe { .. }));
    let action = engine.step(Event::Subscribed { now: subscribed_at });
    assert!(matches!(action, Action::AwaitBatch));
    assert_eq!(engine.phase, Phase::Idle);
    engine
}

/// Feeds batches of one matching notification each, read at the given times;
/// every backup ends well at the moment it started. Returns when backups ran.
fn fire_times(engine: &mut TriggerEngine, times: &[u64]) -> Vec<u64> {
    let mut fired = Vec::new();
    for now in times {
        let action = engine.step(Event::Batch { kinds: kinds(&[MODIFY]), now: *now });
        match action {
            Action::RunBackup => {
                fired.push(*now);
                let next = engine.step(Event::BackupSucceeded { now: *now });
                assert!(matches!(next, Action::AwaitBatch));
            }
            Action::AwaitBatch => {}
            other => panic!("unexpected action {:?}", other),
        }
    }
    fired
}

#[test]
fn default_trigger_watches_the_five_kinds_in_order() {
    match BackupTrigger::default() {
        BackupTrigger::EventMasks(masks, window) => {
            assert_eq!(window, DEBOUNCE_WINDOW);
            let bits: Vec<u32> = masks.iter().map(|m| m.bits()).collect();
            assert_eq!(bits, vec![CLOSE_WRITE, CREATE, DELETE, MODIFY, CLOSE_NOWRITE]);
        }
        BackupTrigger::Interval(_) => panic!("the default trigger is the change policy"),
    }
}

#[test]
fn debounce_window_is_one_second() {
    assert_eq!(DEBOUNCE_WINDOW, 1_000_000_000);
    let mut engine = idle_engine(0);
    let fired = fire_times(&mut engine, &[SECOND - 1, SECOND]);
    assert_eq!(fired, vec![SECOND]);
}

#[test]
fn interval_policy_fires_at_every_second_tick() {
    let (mut engine, mut action) =
        TriggerEngine::start(&BackupTrigger::Interval(Duration::from_secs(2)));
    assert_eq!(engine.phase, Phase::Sleeping);
    let mut clock: u64 = 0;
    let mut fired: Vec<u64> = Vec::new();
    while fired.len() < 4 {
        let event = match action {
            Action::Sleep(period) => {
                assert_eq!(period, Duration::from_secs(2));
                clock += period.as_secs();
                Event::Woke
            }
            Action::RunBackup => {
                fired.push(clock);
                Event::BackupSucceeded { now: clock * SECOND }
            }
            other => panic!("unexpected action {:?}", other),
        };
        action = engine.step(event);
    }
    assert_eq!(fired, vec![2, 4, 6, 8]);
}

#[test]
fn interval_policy_runs_nothing_before_the_first_tick() {
    let (engine, action) = TriggerEngine::start(&BackupTrigger::Interval(Duration::from_secs(2)));
    assert!(matches!(action, Action::Sleep(_)));
    assert_eq!(engine.phase, Phase::Sleeping);
}

#[test]
fn burst_of_five_fires_two_backups() {
    // The engine has been subscribed for longer than a window when the burst starts.
    let zero: u64 = 10 * SECOND;
    let mut engine = idle_engine(0);
    let times = [
        zero + TENTH,
        zero + 2 * TENTH,
        zero + 3 * TENTH,
        zero + 12 * TENTH,
        zero + 13 * TENTH,
    ];
    let fired = fire_times(&mut engine, &times);
    assert_eq!(fired, vec![zero + TENTH, zero + 12 * TENTH]);
    assert_eq!(engine.last_fired_at, zero + 12 * TENTH);
}

#[test]
fn window_reopens_exactly_one_window_after_a_backup() {
    let mut engine = idle_engine(0);
    let fired = fire_times(&mut engine, &[5 * SECOND, 6 * SECOND - 1, 6 * SECOND]);
    assert_eq!(fired, vec![5 * SECOND, 6 * SECOND]);
}

#[test]
fn change_within_a_window_of_the_subscription_is_dropped() {
    let mut engine = idle_engine(3 * SECOND);
    let fired = fire_times(&mut engine, &[3 * SECOND + TENTH]);
    assert!(fired.is_empty());
    assert_eq!(engine.last_fired_at, 3 * SECOND);
    assert_eq!(engine.phase, Phase::Idle);
}

#[test]
fn clock_that_went_back_counts_as_no_time_passed() {
    let mut engine = idle_engine(5 * SECOND);
    let action = engine.step(Event::Batch { kinds: kinds(&[MODIFY]), now: SECOND });
    assert!(matches!(action, Action::AwaitBatch));
    assert_eq!(engine.last_fired_at, 5 * SECOND);
}

#[test]
fn unrequested_batch_never_fires() {
    let mut engine = idle_engine(0);
    // access and open are not among the default kinds
    let action = engine.step(Event::Batch { kinds: kinds(&[0x1, 0x20]), now: 50 * SECOND });
    assert!(matches!(action, Action::AwaitBatch));
    assert_eq!(engine.phase, Phase::Idle);
    assert_eq!(engine.last_fired_at, 0);
    let action = engine.step(Event::Batch { kinds: Vec::new(), now: 60 * SECOND });
    assert!(matches!(action, Action::AwaitBatch));
    assert_eq!(engine.last_fired_at, 0);
}

#[test]
fn one_matching_notification_in_a_batch_is_enough() {
    let mut engine = idle_engine(0);
    let action =
        engine.step(Event::Batch { kinds: kinds(&[0x1, 0x20, CREATE | 0x4000_0000]), now: 2 * SECOND });
    assert!(matches!(action, Action::RunBackup));
    assert_eq!(engine.phase, Phase::Firing);
    // the time of the last backup moves only when the backup has ended
    assert_eq!(engine.last_fired_at, 0);
    let action = engine.step(Event::BackupSucceeded { now: 3 * SECOND });
    assert!(matches!(action, Action::AwaitBatch));
    assert_eq!(engine.last_fired_at, 3 * SECOND);
}

#[test]
fn requested_mask_of_two_bits_needs_both() {
    let trigger = BackupTrigger::EventMasks(kinds(&[CREATE | DELETE]), SECOND);
    let (mut engine, _) = TriggerEngine::start(&trigger);
    engine.step(Event::Subscribed { now: 0 });
    let action = engine.step(Event::Batch { kinds: kinds(&[CREATE]), now: 2 * SECOND });
    assert!(matches!(action, Action::AwaitBatch));
    let action = engine.step(Event::Batch { kinds: kinds(&[CREATE | DELETE]), now: 2 * SECOND });
    assert!(matches!(action, Action::RunBackup));
}

#[test]
fn failed_upload_stops_the_engine_without_retry() {
    let mut engine = idle_engine(0);
    let action = engine.step(Event::Batch { kinds: kinds(&[MODIFY]), now: 2 * SECOND });
    assert!(matches!(action, Action::RunBackup));
    let action =
        engine.step(Event::BackupFailed(BackupError::Upload(String::from("rejected"))));
    match action {
        Action::Stop(TriggerError::Backup(BackupError::Upload(message))) => {
            assert_eq!(message, "rejected")
        }
        other => panic!("unexpected action {:?}", other),
    }
    assert_eq!(engine.phase, Phase::Failed);
    let later = vec![
        Event::Batch { kinds: kinds(&[MODIFY]), now: 100 * SECOND },
        Event::Woke,
        Event::BackupSucceeded { now: 101 * SECOND },
        Event::Subscribed { now: 102 * SECOND },
    ];
    for event in later {
        let action = engine.step(event);
        assert!(matches!(action, Action::Stop(TriggerError::OutOfTurn)));
        assert_eq!(engine.phase, Phase::Failed);
    }
}

#[test]
fn failed_backup_stops_the_interval_policy() {
    let (mut engine, _) = TriggerEngine::start(&BackupTrigger::Interval(Duration::from_secs(2)));
    assert!(matches!(engine.step(Event::Woke), Action::RunBackup));
    let action = engine.step(Event::BackupFailed(BackupError::Archive(String::from("gone"))));
    match action {
        Action::Stop(TriggerError::Backup(BackupError::Archive(message))) => {
            assert_eq!(message, "gone")
        }
        other => panic!("unexpected action {:?}", other),
    }
    assert!(matches!(engine.step(Event::Woke), Action::Stop(TriggerError::OutOfTurn)));
}

#[test]
fn failed_subscription_stops_before_any_backup() {
    let (mut engine, _) = TriggerEngine::start(&BackupTrigger::default());
    let action = engine.step(Event::SubscribeFailed(String::from("no such directory")));
    match action {
        Action::Stop(TriggerError::Watch(WatchError::Subscribe(message))) => {
            assert_eq!(message, "no such directory")
        }
        other => panic!("unexpected action {:?}", other),
    }
    assert_eq!(engine.phase, Phase::Failed);
}

#[test]
fn broken_notification_stream_stops_the_engine() {
    let mut engine = idle_engine(0);
    let action = engine.step(Event::ReadFailed(String::from("closed")));
    match action {
        Action::Stop(TriggerError::Watch(WatchError::Read(message))) => {
            assert_eq!(message, "closed")
        }
        other => panic!("unexpected action {:?}", other),
    }
    assert_eq!(engine.phase, Phase::Failed);
}

#[test]
fn event_out_of_turn_stops_the_engine() {
    let mut engine = idle_engine(0);
    let action = engine.step(Event::Woke);
    assert!(matches!(action, Action::Stop(TriggerError::OutOfTurn)));
    assert_eq!(engine.phase, Phase::Failed);
}

#[test]
fn two_backups_outside_the_window_both_run() {
    let mut engine = idle_engine(0);
    let fired = fire_times(&mut engine, &[2 * SECOND, 4 * SECOND]);
    assert_eq!(fired, vec![2 * SECOND, 4 * SECOND]);
}

#[test]
fn decision_on_a_batch_by_itself() {
    let mut engine = idle_engine(0);
    let action = engine.process_events_and_backup(&kinds(&[DELETE]), SECOND - 1);
    assert!(matches!(action, Action::AwaitBatch));
    assert_eq!(engine.phase, Phase::Idle);
    let action = engine.process_events_and_backup(&kinds(&[DELETE]), SECOND);
    assert!(matches!(action, Action::RunBackup));
    assert_eq!(engine.phase, Phase::Firing);
}

#[test]
fn policy_window_of_five_seconds_skips_a_change_after_two() {
    let trigger = BackupTrigger::EventMasks(kinds(&[MODIFY]), 5 * SECOND);
    let (mut engine, _) = TriggerEngine::start(&trigger);
    assert!(matches!(engine.step(Event::Subscribed { now: 0 }), Action::AwaitBatch));
    let fired = fire_times(
        &mut engine,
        &[2 * SECOND, 5 * SECOND, 7 * SECOND, 10 * SECOND - 1, 10 * SECOND],
    );
    assert_eq!(fired, vec![5 * SECOND, 10 * SECOND]);
}

#[test]
fn policy_without_a_window_fires_on_every_matching_batch() {
    let trigger = BackupTrigger::EventMasks(kinds(&[MODIFY]), 0);
    let (mut engine, _) = TriggerEngine::start(&trigger);
    assert!(matches!(engine.step(Event::Subscribed { now: 7 }), Action::AwaitBatch));
    let fired = fire_times(&mut engine, &[7, 8, 8, 9]);
    assert_eq!(fired, vec![7, 8, 8, 9]);
}

#[test]
fn start_keeps_the_window_of_the_policy() {
    let trigger = BackupTrigger::EventMasks(kinds(&[MODIFY]), 3 * SECOND);
    let (engine, _) = TriggerEngine::start(&trigger);
    match engine.trigger {
        BackupTrigger::EventMasks(masks, window) => {
            assert_eq!(masks, kinds(&[MODIFY]));
            assert_eq!(window, 3 * SECOND);
        }
        BackupTrigger::Interval(_) => panic!("the policy is the change policy"),
    }
    let (engine, action) = TriggerEngine::handle_event_mask_trigger(&kinds(&[CREATE]), 9);
    assert!(matches!(action, Action::Subscribe { watch_mask: 0x100 }));
    assert!(matches!(engine.trigger, BackupTrigger::EventMasks(_, 9)));
}
