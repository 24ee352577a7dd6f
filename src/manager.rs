use vstd::prelude::*;
use std::collections::HashMap;
use crate::timer::{TimeData, TimeStatus};

verus! {

broadcast use vstd::std_specs::hash::group_hash_axioms;

/// Why a control command on a timer was refused.
#[derive(Debug, Clone, Copy, PartialEq, Eq, Structural)]
pub enum TaskError {
    /// No timer is registered under the key: it never existed, finished, or was stopped.
    TaskNotFound,
    /// The timer is not in the status that the command starts from.
    InvalidTransition,
}

/// What a timer's background loop does after one step.
#[derive(Debug, Clone, Copy, PartialEq, Eq, Structural)]
pub enum LoopAction {
    /// Report this tick, then wait one tick interval and step again.
    Emit(TimeData),
    /// Report this terminal event and stop looping.
    Finish(TimeData),
    /// The timer is paused: wait the short backoff interval and step again.
    Backoff,
    /// The timer is gone from the registry: stop looping without reporting.
    Exit,
}

/// The abstract registry: the next key to hand out and the live timers by key.
pub struct ManagerView {
    pub next: u64,
    pub tasks: Map<u64, TimeData>,
}

/// Every registered timer is stored under its own key, that key was handed
/// out already, and no registered timer is finished.
pub open spec fn inv(v: ManagerView) -> bool {
    forall|k: u64| #[trigger]
        v.tasks.contains_key(k) ==> k < v.next && v.tasks[k].key == k && v.tasks[k].status
            != TimeStatus::Finished
}

/// The status that the registry gives a key: an absent key is finished.
pub open spec fn status_of(v: ManagerView, key: u64) -> TimeStatus {
    if v.tasks.contains_key(key) {
        v.tasks[key].status
    } else {
        TimeStatus::Finished
    }
}

/// The registry after a timer of `seconds` seconds is started under the next key.
pub open spec fn started(v: ManagerView, seconds: u32) -> ManagerView {
    ManagerView {
        next: (v.next + 1) as u64,
        tasks: v.tasks.insert(v.next, TimeData { key: v.next, seconds, status: TimeStatus::Running }),
    }
}

/// The registry with the timer under `key` put into `status`.
pub open spec fn with_status(v: ManagerView, key: u64, status: TimeStatus) -> ManagerView {
    ManagerView { next: v.next, tasks: v.tasks.insert(key, TimeData { status, ..v.tasks[key] }) }
}

/// The registry with `key` taken out.
pub open spec fn without(v: ManagerView, key: u64) -> ManagerView {
    ManagerView { next: v.next, tasks: v.tasks.remove(key) }
}

/// The answer to a command that is allowed only from status `from`.
pub open spec fn transition_outcome(v: ManagerView, key: u64, from: TimeStatus) -> Result<
    (),
    TaskError,
> {
    if !v.tasks.contains_key(key) {
        Err(TaskError::TaskNotFound)
    } else if v.tasks[key].status != from {
        Err(TaskError::InvalidTransition)
    } else {
        Ok(())
    }
}

/// The registry after a command that moves `key` from status `from` to `to`.
pub open spec fn transitioned(v: ManagerView, key: u64, from: TimeStatus, to: TimeStatus) -> ManagerView {
    if transition_outcome(v, key, from) is Ok {
        with_status(v, key, to)
    } else {
        v
    }
}

/// The answer to pause: allowed only on a running timer.
pub open spec fn pause_outcome(v: ManagerView, key: u64) -> Result<(), TaskError> {
    transition_outcome(v, key, TimeStatus::Running)
}

/// The registry after pause: the running timer under `key` is paused.
pub open spec fn paused(v: ManagerView, key: u64) -> ManagerView {
    transitioned(v, key, TimeStatus::Running, TimeStatus::Paused)
}

/// The answer to resume: allowed only on a paused timer.
pub open spec fn resume_outcome(v: ManagerView, key: u64) -> Result<(), TaskError> {
    transition_outcome(v, key, TimeStatus::Paused)
}

/// The registry after resume: the paused timer under `key` runs again.
pub open spec fn resumed(v: ManagerView, key: u64) -> ManagerView {
    transitioned(v, key, TimeStatus::Paused, TimeStatus::Running)
}

/// The answer to stop: allowed on any registered timer.
pub open spec fn stop_outcome(v: ManagerView, key: u64) -> Result<(), TaskError> {
    if v.tasks.contains_key(key) {
        Ok(())
    } else {
        Err(TaskError::TaskNotFound)
    }
}

/// The registry after stop: the timer under `key` is finished and deregistered.
pub open spec fn stopped(v: ManagerView, key: u64) -> ManagerView {
    without(v, key)
}

/// What one step of the background loop of `key` does: a running timer with
/// seconds left reports them; one at zero reports a terminal event; a paused
/// one waits; an absent or finished one stops.
pub open spec fn step_action(v: ManagerView, key: u64) -> LoopAction {
    if !v.tasks.contains_key(key) {
        LoopAction::Exit
    } else {
        let d = v.tasks[key];
        match d.status {
            TimeStatus::Paused => LoopAction::Backoff,
            TimeStatus::Running => if d.seconds == 0 {
                LoopAction::Finish(TimeData { seconds: 0, status: TimeStatus::Finished, ..d })
            } else {
                LoopAction::Emit(d)
            },
            TimeStatus::Finished => LoopAction::Exit,
        }
    }
}

/// The registry after one step of the background loop of `key`: a running
/// timer loses one second, or is deregistered at zero; a finished one is
/// deregistered; otherwise nothing changes.
pub open spec fn stepped(v: ManagerView, key: u64) -> ManagerView {
    if !v.tasks.contains_key(key) {
        v
    } else {
        let d = v.tasks[key];
        match d.status {
            TimeStatus::Paused => v,
            TimeStatus::Running => if d.seconds == 0 {
                without(v, key)
            } else {
                ManagerView {
                    next: v.next,
                    tasks: v.tasks.insert(key, TimeData { seconds: (d.seconds - 1) as u32, ..d }),
                }
            },
            TimeStatus::Finished => without(v, key),
        }
    }
}

/// The registry of live timers, with the counter that keys are drawn from.
pub struct TimeManager {
    id: u64,
    state: HashMap<u64, TimeData>,
}

impl View for TimeManager {
    type V = ManagerView;

    closed spec fn view(&self) -> ManagerView {
        ManagerView { next: self.id, tasks: self.state@ }
    }
}

impl TimeManager {
    /// The registry satisfies its invariant.
    pub open spec fn wf(&self) -> bool {
        inv(self@)
    }

    /// An empty registry whose first key is 0.
    pub fn new() -> (r: TimeManager)
        ensures
            r@ == (ManagerView { next: 0, tasks: Map::empty() }),
            r.wf(),
    {
        TimeManager { id: 0, state: HashMap::new() }
    }

    /// The key that the next start hands out.
    pub fn next_key(&self) -> (r: u64)
        ensures
            r == self@.next,
    {
        self.id
    }

    /// Whether a start can still hand out a key that was never used.
    pub fn has_free_key(&self) -> (r: bool)
        ensures
            r == (self@.next < u64::MAX),
    {
        self.id < u64::MAX
    }

    /// Deregisters `key`; an absent key is left absent.
    pub fn remove(&mut self, key: u64)
        ensures
            final(self)@ == without(old(self)@, key),
            old(self).wf() ==> final(self).wf(),
    {
        self.state.remove(&key);
    }

    /// A copy of the timer registered under `key`, if any.
    pub fn get(&self, key: u64) -> (r: Option<TimeData>)
        ensures
            r == (if self@.tasks.contains_key(key) {
                Some(self@.tasks[key])
            } else {
                None
            }),
    {
        match self.state.get(&key) {
            Some(d) => Some(*d),
            None => None,
        }
    }

    /// Registers `data` under its own key.
    fn put(&mut self, data: TimeData)
        ensures
            final(self)@ == (ManagerView { next: old(self)@.next, tasks: old(self)@.tasks.insert(data.key, data) }),
    {
        self.state.insert(data.key, data);
    }
}

/// Starts a countdown of `seconds` seconds under a fresh key, running, and
/// returns the key.
pub fn start_time_task(manager: &mut TimeManager, seconds: u32) -> (key: u64)
    requires
        old(manager).wf(),
        old(manager)@.next < u64::MAX,
    ensures
        key == old(manager)@.next,
        !old(manager)@.tasks.contains_key(key),
        final(manager)@ == started(old(manager)@, seconds),
        final(manager).wf(),
{
    let key = manager.id;
    let mut data = TimeData::new(key);
    data.set_seconds(seconds);
    data.set_status(TimeStatus::Running);
    manager.id = manager.id + 1;
    manager.put(data);
    key
}

/// Pauses the running timer under `key`.
pub fn pause_time_task(manager: &mut TimeManager, key: u64) -> (r: Result<(), TaskError>)
    requires
        old(manager).wf(),
    ensures
        r == pause_outcome(old(manager)@, key),
        final(manager)@ == paused(old(manager)@, key),
        final(manager).wf(),
{
    move_status(manager, key, TimeStatus::Running, TimeStatus::Paused)
}

/// Resumes the paused timer under `key`.
pub fn resume_time_task(manager: &mut TimeManager, key: u64) -> (r: Result<(), TaskError>)
    requires
        old(manager).wf(),
    ensures
        r == resume_outcome(old(manager)@, key),
        final(manager)@ == resumed(old(manager)@, key),
        final(manager).wf(),
{
    move_status(manager, key, TimeStatus::Paused, TimeStatus::Running)
}

fn move_status(manager: &mut TimeManager, key: u64, from: TimeStatus, to: TimeStatus) -> (r: Result<
    (),
    TaskError,
>)
    requires
        old(manager).wf(),
        to != TimeStatus::Finished,
    ensures
        r == transition_outcome(old(manager)@, key, from),
        final(manager)@ == transitioned(old(manager)@, key, from, to),
        final(manager).wf(),
{
    match manager.get(key) {
        Some(mut data) => {
            if data.get_status() == from {
                data.set_status(to);
                manager.put(data);
                Ok(())
            } else {
                Err(TaskError::InvalidTransition)
            }
        },
        None => Err(TaskError::TaskNotFound),
    }
}

/// Stops the timer under `key`: it is finished and deregistered at once.
pub fn stop_time_task(manager: &mut TimeManager, key: u64) -> (r: Result<(), TaskError>)
    requires
        old(manager).wf(),
    ensures
        r == stop_outcome(old(manager)@, key),
        final(manager)@ == stopped(old(manager)@, key),
        status_of(final(manager)@, key) == TimeStatus::Finished,
        final(manager).wf(),
{
    match manager.get(key) {
        Some(_) => {
            manager.remove(key);
            Ok(())
        },
        None => {
            assert(manager@.tasks.remove(key) =~= manager@.tasks);
            Err(TaskError::TaskNotFound)
        },
    }
}

/// One step of the background loop that drives the timer under `key`.
pub fn tick_time_task(manager: &mut TimeManager, key: u64) -> (r: LoopAction)
    requires
        old(manager).wf(),
    ensures
        r == step_action(old(manager)@, key),
        final(manager)@ == stepped(old(manager)@, key),
        final(manager).wf(),
{
    match manager.get(key) {
        None => LoopAction::Exit,
        Some(mut data) => {
            let status = data.get_status();
            if status == TimeStatus::Paused {
                LoopAction::Backoff
            } else if status == TimeStatus::Running {
                let seconds = data.get_seconds();
                if seconds == 0 {
                    data.set_status(TimeStatus::Finished);
                    manager.remove(key);
                    LoopAction::Finish(data)
                } else {
                    let event = data;
                    data.set_seconds(seconds - 1);
                    manager.put(data);
                    LoopAction::Emit(event)
                }
            } else {
                manager.remove(key);
                LoopAction::Exit
            }
        },
    }
}

} // verus!
