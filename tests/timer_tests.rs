use countdown::manager::{
    pause_time_task, resume_time_task, start_time_task, stop_time_task, tick_time_task,
    LoopAction, TaskError, TimeManager,
};
use countdown::timer::{TimeData, TimeStatus};

/// Steps the loop of `key` until it stops, collecting the events it reports.
fn drain(manager: &mut TimeManager, key: u64) -> Vec<LoopAction> {
    let mut events = Vec::new();
    loop {
        let action = tick_time_task(manager, key);
        match action {
            LoopAction::Emit(_) => events.push(action),
            LoopAction::Finish(_) => {
                events.push(action);
                break;
            }
            LoopAction::Backoff => panic!("unexpected backoff"),
            LoopAction::Exit => break,
        }
    }
    events
}

fn running(key: u64, seconds: u32) -> LoopAction {
    LoopAction::Emit(TimeData { key, seconds, status: TimeStatus::Running })
}

fn finished(key: u64) -> LoopAction {
    LoopAction::Finish(TimeData { key, seconds: 0, status: TimeStatus::Finished })
}

#[test]
fn status_from_code() {
    assert_eq!(TimeStatus::from(0u8), TimeStatus::Paused);
    assert_eq!(TimeStatus::from(1u8), TimeStatus::Running);
    assert_eq!(TimeStatus::from(2u8), TimeStatus::Finished);
    assert_eq!(TimeStatus::from(200u8), TimeStatus::Finished);
}

#[test]
fn status_code_round_trip() {
    for s in [TimeStatus::Paused, TimeStatus::Running, TimeStatus::Finished] {
        assert_eq!(TimeStatus::from(s.code()), s);
    }
    assert_eq!(TimeStatus::Running.code(), 1);
}

#[test]
fn time_data_accessors() {
    let mut d = TimeData::new(7);
    assert_eq!(d, TimeData { key: 7, seconds: 0, status: TimeStatus::Paused });
    d.set_seconds(42);
    d.set_status(TimeStatus::Running);
    assert_eq!(d.get_seconds(), 42);
    assert_eq!(d.get_status(), TimeStatus::Running);
    assert_eq!(d.key, 7);
}

#[test]
fn new_manager_is_empty() {
    let m = TimeManager::new();
    assert_eq!(m.next_key(), 0);
    assert!(m.has_free_key());
    assert_eq!(m.get(0), None);
}

#[test]
fn start_registers_running_timer() {
    let mut m = TimeManager::new();
    let key = start_time_task(&mut m, 10);
    assert_eq!(m.get(key), Some(TimeData { key, seconds: 10, status: TimeStatus::Running }));
    assert_eq!(m.next_key(), key + 1);
}

#[test]
fn start_keys_are_distinct() {
    let mut m = TimeManager::new();
    let mut keys = Vec::new();
    for i in 0..20u32 {
        keys.push(start_time_task(&mut m, i));
        if i % 3 == 0 {
            let k = keys[keys.len() - 1];
            stop_time_task(&mut m, k).unwrap();
        }
    }
    for i in 0..keys.len() {
        for j in 0..keys.len() {
            if i != j {
                assert_ne!(keys[i], keys[j]);
            }
        }
    }
}

#[test]
fn remove_is_tolerant() {
    let mut m = TimeManager::new();
    let key = start_time_task(&mut m, 3);
    m.remove(key);
    assert_eq!(m.get(key), None);
    m.remove(key);
    assert_eq!(m.get(key), None);
}

#[test]
fn pause_only_from_running() {
    let mut m = TimeManager::new();
    let key = start_time_task(&mut m, 5);
    assert_eq!(pause_time_task(&mut m, key), Ok(()));
    assert_eq!(m.get(key).unwrap().status, TimeStatus::Paused);
    assert_eq!(pause_time_task(&mut m, key), Err(TaskError::InvalidTransition));
    assert_eq!(m.get(key).unwrap().status, TimeStatus::Paused);
    assert_eq!(pause_time_task(&mut m, key + 1), Err(TaskError::TaskNotFound));
}

#[test]
fn resume_only_from_paused() {
    let mut m = TimeManager::new();
    let key = start_time_task(&mut m, 5);
    assert_eq!(resume_time_task(&mut m, key), Err(TaskError::InvalidTransition));
    assert_eq!(m.get(key).unwrap().status, TimeStatus::Running);
    pause_time_task(&mut m, key).unwrap();
    assert_eq!(resume_time_task(&mut m, key), Ok(()));
    assert_eq!(m.get(key).unwrap().status, TimeStatus::Running);
    assert_eq!(resume_time_task(&mut m, 99), Err(TaskError::TaskNotFound));
}

#[test]
fn stop_is_final() {
    let mut m = TimeManager::new();
    let key = start_time_task(&mut m, 5);
    pause_time_task(&mut m, key).unwrap();
    assert_eq!(stop_time_task(&mut m, key), Ok(()));
    assert_eq!(m.get(key), None);
    assert_eq!(stop_time_task(&mut m, key), Err(TaskError::TaskNotFound));
    assert_eq!(pause_time_task(&mut m, key), Err(TaskError::TaskNotFound));
    assert_eq!(resume_time_task(&mut m, key), Err(TaskError::TaskNotFound));
    let other = start_time_task(&mut m, 1);
    assert_ne!(other, key);
    assert_eq!(m.get(key), None);
}

#[test]
fn paused_timer_keeps_its_seconds() {
    let mut m = TimeManager::new();
    let key = start_time_task(&mut m, 4);
    assert_eq!(tick_time_task(&mut m, key), running(key, 4));
    pause_time_task(&mut m, key).unwrap();
    let before = m.get(key).unwrap().seconds;
    for _ in 0..50 {
        assert_eq!(tick_time_task(&mut m, key), LoopAction::Backoff);
    }
    assert_eq!(m.get(key).unwrap().seconds, before);
    assert_eq!(before, 3);
}

#[test]
fn countdown_of_three() {
    let mut m = TimeManager::new();
    let key = start_time_task(&mut m, 3);
    let events = drain(&mut m, key);
    assert_eq!(events, vec![running(key, 3), running(key, 2), running(key, 1), finished(key)]);
    assert_eq!(m.get(key), None);
}

#[test]
fn countdown_with_pause() {
    let mut m = TimeManager::new();
    let key = start_time_task(&mut m, 5);
    let mut events = Vec::new();
    events.push(tick_time_task(&mut m, key));
    assert_eq!(pause_time_task(&mut m, key), Ok(()));
    // Two seconds at the backoff interval.
    for _ in 0..20 {
        assert_eq!(tick_time_task(&mut m, key), LoopAction::Backoff);
    }
    assert_eq!(resume_time_task(&mut m, key), Ok(()));
    events.extend(drain(&mut m, key));
    assert_eq!(events.len(), 6);
    assert_eq!(
        events,
        vec![
            running(key, 5),
            running(key, 4),
            running(key, 3),
            running(key, 2),
            running(key, 1),
            finished(key)
        ]
    );
    assert_eq!(m.get(key), None);
}

#[test]
fn stop_right_after_start() {
    let mut m = TimeManager::new();
    let key = start_time_task(&mut m, 8);
    assert_eq!(stop_time_task(&mut m, key), Ok(()));
    assert_eq!(m.get(key), None);
    for _ in 0..3 {
        assert_eq!(tick_time_task(&mut m, key), LoopAction::Exit);
    }
}

#[test]
fn unpaused_timer_emits_n_plus_one_events() {
    for n in [0u32, 1, 7, 30] {
        let mut m = TimeManager::new();
        let key = start_time_task(&mut m, n);
        let events = drain(&mut m, key);
        assert_eq!(events.len(), n as usize + 1);
        assert_eq!(events[n as usize], finished(key));
        assert_eq!(m.get(key), None);
    }
}

#[test]
fn zero_second_timer_finishes_at_once() {
    let mut m = TimeManager::new();
    let key = start_time_task(&mut m, 0);
    assert_eq!(tick_time_task(&mut m, key), finished(key));
    assert_eq!(tick_time_task(&mut m, key), LoopAction::Exit);
}

#[test]
fn timers_are_independent() {
    let mut m = TimeManager::new();
    let a = start_time_task(&mut m, 2);
    let b = start_time_task(&mut m, 2);
    pause_time_task(&mut m, a).unwrap();
    assert_eq!(tick_time_task(&mut m, b), running(b, 2));
    assert_eq!(tick_time_task(&mut m, a), LoopAction::Backoff);
    assert_eq!(m.get(a).unwrap().seconds, 2);
    assert_eq!(m.get(b).unwrap().seconds, 1);
}

#[test]
fn interleaved_commands_keep_valid_statuses() {
    let mut m = TimeManager::new();
    let key = start_time_task(&mut m, 3);
    let mut still_present = true;
    for i in 0..30u32 {
        let _ = match i % 4 {
            0 => pause_time_task(&mut m, key),
            1 => resume_time_task(&mut m, key),
            2 => {
                tick_time_task(&mut m, key);
                Ok(())
            }
            _ => pause_time_task(&mut m, key),
        };
        if let Some(d) = m.get(key) {
            assert!(d.status == TimeStatus::Running || d.status == TimeStatus::Paused);
            assert!(d.seconds <= 3);
        } else {
            still_present = false;
        }
    }
    // The fourth tick ran the timer out, so it is gone by now.
    assert!(!still_present);
    assert_eq!(stop_time_task(&mut m, key), Err(TaskError::TaskNotFound));
}
