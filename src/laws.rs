use vstd::prelude::*;
use crate::timer::{TimeData, TimeStatus};
use crate::manager::{
    inv, paused, pause_outcome, resumed, resume_outcome, started, status_of, step_action,
    stepped, stop_outcome, stopped, without, LoopAction, ManagerView, TaskError,
};

verus! {

/// One transition of the registry: a control command from a caller, or one
/// step of the background loop of a timer.
pub enum Command {
    Start(u32),
    Pause(u64),
    Resume(u64),
    Stop(u64),
    Tick(u64),
}

/// The registry after one transition.
pub open spec fn apply(v: ManagerView, c: Command) -> ManagerView {
    match c {
        Command::Start(seconds) => started(v, seconds),
        Command::Pause(key) => paused(v, key),
        Command::Resume(key) => resumed(v, key),
        Command::Stop(key) => stopped(v, key),
        Command::Tick(key) => stepped(v, key),
    }
}

/// The registry after a run of transitions, in order.
pub open spec fn run_commands(v: ManagerView, cs: Seq<Command>) -> ManagerView
    decreases cs.len(),
{
    if cs.len() == 0 {
        v
    } else {
        run_commands(apply(v, cs[0]), cs.drop_first())
    }
}

/// Every start of the run happens while the counter still has a fresh key.
pub open spec fn fits(v: ManagerView, cs: Seq<Command>) -> bool
    decreases cs.len(),
{
    if cs.len() == 0 {
        true
    } else {
        (cs[0] is Start ==> v.next < u64::MAX) && fits(apply(v, cs[0]), cs.drop_first())
    }
}

/// The keys that the starts of the run hand out, in order.
pub open spec fn issued(v: ManagerView, cs: Seq<Command>) -> Seq<u64>
    decreases cs.len(),
{
    if cs.len() == 0 {
        Seq::empty()
    } else if cs[0] is Start {
        seq![v.next] + issued(apply(v, cs[0]), cs.drop_first())
    } else {
        issued(apply(v, cs[0]), cs.drop_first())
    }
}

/// What the background loop of `key` does over `steps` steps with no other
/// transition in between, and the registry it leaves.
pub open spec fn loop_run(v: ManagerView, key: u64, steps: nat) -> (ManagerView, Seq<LoopAction>)
    decreases steps,
{
    if steps == 0 {
        (v, Seq::empty())
    } else {
        let rest = loop_run(stepped(v, key), key, (steps - 1) as nat);
        (rest.0, seq![step_action(v, key)] + rest.1)
    }
}

/// The events of a full countdown of `d` from `n` seconds: one tick for each
/// of n, n - 1, ..., 1, then a terminal event at zero.
pub open spec fn countdown_events(d: TimeData, n: nat) -> Seq<LoopAction> {
    Seq::new(
        n + 1,
        |i: int|
            if i < n {
                LoopAction::Emit(TimeData { seconds: (n - i) as u32, status: TimeStatus::Running, ..d })
            } else {
                LoopAction::Finish(TimeData { seconds: 0, status: TimeStatus::Finished, ..d })
            },
    )
}

proof fn lemma_apply_keeps_counter(v: ManagerView, c: Command)
    ensures
        apply(v, c).next == if c is Start {
            (v.next + 1) as u64
        } else {
            v.next
        },
{
}

proof fn lemma_issued_above(v: ManagerView, cs: Seq<Command>)
    requires
        fits(v, cs),
    ensures
        forall|i: int| 0 <= i < issued(v, cs).len() ==> v.next <= #[trigger] issued(v, cs)[i],
        forall|i: int, j: int|
            0 <= i < j < issued(v, cs).len() ==> #[trigger] issued(v, cs)[i] < #[trigger] issued(
                v,
                cs,
            )[j],
    decreases cs.len(),
{
    if cs.len() > 0 {
        let w = apply(v, cs[0]);
        lemma_apply_keeps_counter(v, cs[0]);
        lemma_issued_above(w, cs.drop_first());
        let tail = issued(w, cs.drop_first());
        if cs[0] is Start {
            let all = seq![v.next] + tail;
            assert(issued(v, cs) == all);
            assert forall|i: int, j: int| 0 <= i < j < all.len() implies all[i] < all[j] by {
                if i == 0 {
                    assert(all[j] == tail[j - 1]);
                } else {
                    assert(all[i] == tail[i - 1] && all[j] == tail[j - 1]);
                }
            }
            assert forall|i: int| 0 <= i < all.len() implies v.next <= all[i] by {
                if i > 0 {
                    assert(all[i] == tail[i - 1]);
                }
            }
        }
    }
}

/// Keys are never handed out twice: whatever commands and loop steps come
/// between them, the starts of a run hand out pairwise distinct keys, none of
/// which was handed out before the run.
pub proof fn lemma_start_keys_distinct(v: ManagerView, cs: Seq<Command>)
    requires
        fits(v, cs),
    ensures
        forall|i: int, j: int|
            0 <= i < issued(v, cs).len() && 0 <= j < issued(v, cs).len() && i != j
                ==> #[trigger] issued(v, cs)[i] != #[trigger] issued(v, cs)[j],
        forall|i: int| 0 <= i < issued(v, cs).len() ==> v.next <= #[trigger] issued(v, cs)[i],
{
    lemma_issued_above(v, cs);
    assert forall|i: int, j: int|
        0 <= i < issued(v, cs).len() && 0 <= j < issued(v, cs).len() && i != j
            implies #[trigger] issued(v, cs)[i] != #[trigger] issued(v, cs)[j] by {
        if i > j {
            assert(issued(v, cs)[j] < issued(v, cs)[i]);
        }
    }
}

proof fn lemma_apply_keeps_inv(v: ManagerView, c: Command)
    requires
        inv(v),
        c is Start ==> v.next < u64::MAX,
    ensures
        inv(apply(v, c)),
{
    let w = apply(v, c);
    assert forall|k: u64| #[trigger] w.tasks.contains_key(k) implies k < w.next && w.tasks[k].key
        == k && w.tasks[k].status != TimeStatus::Finished by {
        assert(v.tasks.contains_key(k) || (c is Start && k == v.next));
    }
}

/// Whatever interleaving of commands and loop steps reaches the registry, it
/// stays well formed: every timer in it is live, under its own key, with a
/// status that is paused or running.
pub proof fn lemma_commands_keep_invariant(v: ManagerView, cs: Seq<Command>)
    requires
        inv(v),
        fits(v, cs),
    ensures
        inv(run_commands(v, cs)),
        forall|k: u64|
            #[trigger] status_of(run_commands(v, cs), k) == TimeStatus::Paused || status_of(
                run_commands(v, cs),
                k,
            ) == TimeStatus::Running || status_of(run_commands(v, cs), k) == TimeStatus::Finished,
    decreases cs.len(),
{
    if cs.len() > 0 {
        lemma_apply_keeps_inv(v, cs[0]);
        lemma_commands_keep_invariant(apply(v, cs[0]), cs.drop_first());
    }
}

proof fn lemma_apply_keeps_gone(v: ManagerView, c: Command, key: u64)
    requires
        key < v.next,
        !v.tasks.contains_key(key),
        c is Start ==> v.next < u64::MAX,
    ensures
        key < apply(v, c).next,
        !apply(v, c).tasks.contains_key(key),
{
}

proof fn lemma_gone_stays_gone(v: ManagerView, cs: Seq<Command>, key: u64)
    requires
        key < v.next,
        !v.tasks.contains_key(key),
        fits(v, cs),
    ensures
        !run_commands(v, cs).tasks.contains_key(key),
    decreases cs.len(),
{
    if cs.len() > 0 {
        lemma_apply_keeps_gone(v, cs[0], key);
        lemma_gone_stays_gone(apply(v, cs[0]), cs.drop_first(), key);
    }
}

/// Stop is final: after a successful stop the key is finished and absent,
/// and after any later run of commands and loop steps it is still absent, so
/// pause, resume and stop on it answer that the task is not found and its
/// loop stops without reporting anything more.
pub proof fn lemma_stop_is_final(v: ManagerView, key: u64, cs: Seq<Command>)
    requires
        inv(v),
        stop_outcome(v, key) is Ok,
        fits(stopped(v, key), cs),
    ensures
        status_of(stopped(v, key), key) == TimeStatus::Finished,
        ({
            let w = run_commands(stopped(v, key), cs);
            &&& !w.tasks.contains_key(key)
            &&& status_of(w, key) == TimeStatus::Finished
            &&& pause_outcome(w, key) == Err::<(), TaskError>(TaskError::TaskNotFound)
            &&& resume_outcome(w, key) == Err::<(), TaskError>(TaskError::TaskNotFound)
            &&& stop_outcome(w, key) == Err::<(), TaskError>(TaskError::TaskNotFound)
            &&& step_action(w, key) == LoopAction::Exit
        }),
{
    lemma_gone_stays_gone(stopped(v, key), cs, key);
}

/// A paused timer stands still: any number of loop steps only back off, and
/// the registry, the timer's remaining seconds included, is unchanged.
pub proof fn lemma_paused_stands_still(v: ManagerView, key: u64, steps: nat)
    requires
        v.tasks.contains_key(key),
        v.tasks[key].status == TimeStatus::Paused,
    ensures
        loop_run(v, key, steps).0 == v,
        loop_run(v, key, steps).1 == Seq::new(steps, |i: int| LoopAction::Backoff),
    decreases steps,
{
    if steps > 0 {
        lemma_paused_stands_still(v, key, (steps - 1) as nat);
        assert(loop_run(v, key, steps).1 =~= Seq::new(steps, |i: int| LoopAction::Backoff));
    }
}

/// A running timer with n seconds left, left alone, reports n, n - 1, ...,
/// 1 and then a terminal event at zero, n + 1 events in all, with one tick
/// interval after each of the first n; it is then gone from the registry,
/// which is otherwise unchanged, and its loop stops.
pub proof fn lemma_countdown_runs_out(v: ManagerView, key: u64)
    requires
        v.tasks.contains_key(key),
        v.tasks[key].status == TimeStatus::Running,
    ensures
        ({
            let n = v.tasks[key].seconds as nat;
            let r = loop_run(v, key, n + 1);
            &&& r.1 == countdown_events(v.tasks[key], n)
            &&& r.1.len() == n + 1
            &&& r.0 == without(v, key)
            &&& step_action(r.0, key) == LoopAction::Exit
        }),
    decreases v.tasks[key].seconds,
{
    let d = v.tasks[key];
    let n = d.seconds as nat;
    if n == 0 {
        let w = stepped(v, key);
        assert(loop_run(w, key, 0) == (w, Seq::<LoopAction>::empty()));
        assert(loop_run(v, key, 1).1 =~= countdown_events(d, 0));
    } else {
        let w = stepped(v, key);
        let d2 = w.tasks[key];
        lemma_countdown_runs_out(w, key);
        assert(without(w, key).tasks =~= without(v, key).tasks);
        let tail = countdown_events(d2, (n - 1) as nat);
        assert(loop_run(v, key, n + 1).1 =~= seq![LoopAction::Emit(d)] + tail);
        assert(countdown_events(d, n) =~= seq![LoopAction::Emit(d)] + tail);
    }
}

} // verus!
