use crate::model::{Drain, SetView, Sweep};
use crate::processset::{polls, waits, WaitAnyResult, WaitStep};
use crate::signal::{SignalHandler, Wake};
use vstd::prelude::*;

verus! {

/// The key that a step reports, if it reports one.
pub open spec fn reported_key<K, H, S>(step: WaitStep<K, H, S>) -> Option<K> {
    match step {
        WaitStep::Report(WaitAnyResult::Subprocess(key, _)) => Some(key),
        _ => None,
    }
}

/// A polling step drops no key in silence and reports none twice: the key
/// that it reports was registered and is gone afterwards, and every other
/// key stays registered.
pub proof fn law_poll_keeps_or_reports<K, C, H, S>(
    pre: SetView<K, C, H>,
    step: WaitStep<K, H, S>,
    post: SetView<K, C, H>,
)
    requires
        pre.wf(),
        pre.at_rest(),
        polls(pre, step, post),
    ensures
        match reported_key(step) {
            Some(key) => pre.holds(key) && !post.holds(key) && post.keys() == pre.keys().remove(
                key,
            ),
            None => post.keys() == pre.keys(),
        },
{
    if pre.errored.len() > 0 {
        let key = reported_key(step)->0;
        assert(post.keys() =~= pre.keys().remove(key));
    } else if pre.running.len() == 0 {
        assert(post.keys() =~= pre.keys());
    } else {
        match step.handed() {
            Some(handle) => {
                let key = post.examining->0;
                assert(post.keys() =~= pre.keys());
            },
            None => {
                assert(post.keys() =~= pre.keys());
            },
        }
    }
}

/// A step of a blocking wait drops no key in silence either: a termination
/// signal leaves the set as it was, so what a child did in the meantime is
/// there for the next poll to find.
pub proof fn law_wait_keeps_or_reports<K, C, H, S>(
    pre: SetView<K, C, H>,
    wake: Option<Wake>,
    step: WaitStep<K, H, S>,
    post: SetView<K, C, H>,
)
    requires
        pre.wf(),
        pre.at_rest(),
        waits(pre, wake, step, post),
    ensures
        match reported_key(step) {
            Some(key) => pre.holds(key) && !post.holds(key) && post.keys() == pre.keys().remove(
                key,
            ),
            None => post.keys() == pre.keys(),
        },
{
    match wake {
        Some(Wake::Termination(_)) => {},
        Some(Wake::Nothing) => {},
        _ => {
            law_poll_keeps_or_reports(pre, step, post);
        },
    }
}

/// The handle that comes back from its examination takes its key with it when
/// the process is reported, and keeps it registered when it runs on.
pub proof fn law_examined_keeps_or_reports<K, C, H>(pre: SetView<K, C, H>, handle: H)
    requires
        pre.wf(),
        pre.examining is Some,
    ensures
        pre.put_back(handle).keys() == pre.keys(),
        pre.reaped().keys() == pre.keys().remove(pre.examining->0),
        !pre.reaped().holds(pre.examining->0),
{
    assert(pre.put_back(handle).keys() =~= pre.keys());
    assert(pre.reaped().keys() =~= pre.keys().remove(pre.examining->0));
}

/// The spawn step moves keys and loses none: a key whose command is handed
/// out, has started or has failed to start is registered as before.
pub proof fn law_spawn_step_keeps_keys<K, C, H>(
    pre: SetView<K, C, H>,
    key: K,
    handle: H,
    error: std::io::Error,
)
    requires
        pre.wf(),
        pre.at_rest(),
        pre.queued.contains_key(key),
    ensures
        pre.starting_on(key).keys() == pre.keys(),
        pre.starting_on(key).started(handle).keys() == pre.keys(),
        pre.starting_on(key).start_failed(error).keys() == pre.keys(),
        pre.starting_on(key).started(handle).running.contains_key(key),
        pre.starting_on(key).start_failed(error).errored.contains_key(key),
{
    assert(pre.starting_on(key).keys() =~= pre.keys());
    assert(pre.starting_on(key).started(handle).keys() =~= pre.keys());
    assert(pre.starting_on(key).start_failed(error).keys() =~= pre.keys());
}

/// Registering a key adds that key and no other, and starts nothing.
pub proof fn law_registration_adds_one_key<K, C, H>(pre: SetView<K, C, H>, key: K, command: C)
    requires
        pre.wf(),
        !pre.holds(key),
    ensures
        pre.registered(key, command).wf(),
        pre.registered(key, command).keys() == pre.keys().insert(key),
        pre.registered(key, command).queued.contains_key(key),
        pre.registered(key, command).running == pre.running,
        pre.registered(key, command).errored == pre.errored,
{
    assert(pre.registered(key, command).keys() =~= pre.keys().insert(key));
}

/// Once the spawn step has run to its end, a set that may run anything at all
/// and that has nothing running and no failure to report has no key left:
/// "no processes running" then means that every registered key was reported.
pub proof fn law_idle_set_is_empty<K, C, H>(set: SetView<K, C, H>)
    requires
        set.wf(),
        set.settled(),
        set.limit != Some(0usize),
        set.running.len() == 0,
        set.errored.len() == 0,
    ensures
        set.keys() == Set::<K>::empty(),
        forall|key: K| !set.holds(key),
{
    set.queued.dom().lemma_len0_is_empty();
    set.running.dom().lemma_len0_is_empty();
    set.errored.dom().lemma_len0_is_empty();
    assert(set.keys() =~= Set::<K>::empty());
}

/// A poll that answers "no processes running", once the spawn step has run to
/// its end on a set that may run anything at all, finds the set empty: no key
/// was dropped on the way.
pub proof fn law_nothing_running_means_all_reported<K, C, H, S>(
    pre: SetView<K, C, H>,
    step: WaitStep<K, H, S>,
    post: SetView<K, C, H>,
)
    requires
        pre.wf(),
        pre.settled(),
        pre.limit != Some(0usize),
        polls(pre, step, post),
        step matches WaitStep::Report(WaitAnyResult::NoProcessesRunning),
    ensures
        pre.keys() == Set::<K>::empty(),
        post.keys() == Set::<K>::empty(),
{
    law_idle_set_is_empty(pre);
    law_poll_keeps_or_reports(pre, step, post);
}

/// Over any run of wait calls that each report one key, from a set to the
/// empty set, every key of the first set is reported, and each exactly once.
///
/// `sets[i]` is the set before the wait call that reports `reports[i]`; by the
/// laws above each such call, with the spawn step after it, removes the key
/// that it reports and no other.
pub proof fn law_every_key_is_reported_once<K, C, H>(sets: Seq<SetView<K, C, H>>, reports: Seq<K>)
    requires
        sets.len() == reports.len() + 1,
        forall|i: int|
            0 <= i < reports.len() ==> (#[trigger] sets[i]).holds(reports[i]) && sets[i + 1].keys()
                == sets[i].keys().remove(reports[i]),
        sets.last().keys() == Set::<K>::empty(),
    ensures
        reports.no_duplicates(),
        reports.to_set() == sets[0].keys(),
    decreases reports.len(),
{
    if reports.len() == 0 {
        assert(reports.to_set() =~= Set::<K>::empty());
    } else {
        let first = reports[0];
        let later_sets = sets.drop_first();
        let later = reports.drop_first();
        assert forall|i: int| 0 <= i < later.len() implies (#[trigger] later_sets[i]).holds(
            later[i],
        ) && later_sets[i + 1].keys() == later_sets[i].keys().remove(later[i]) by {
            assert(sets[i + 1].holds(reports[i + 1]));
        }
        assert(later_sets.last() == sets.last());
        law_every_key_is_reported_once(later_sets, later);
        assert(sets[0].holds(first));
        assert(later.to_set() == sets[0].keys().remove(first));
        assert forall|i: int, j: int| 0 <= i < reports.len() && 0 <= j < reports.len() && i
            != j implies reports[i] != reports[j] by {
            if i > 0 && j > 0 {
                assert(later[i - 1] != later[j - 1]);
            } else if i == 0 {
                assert(later[j - 1] == reports[j]);
                assert(later.to_set().contains(reports[j]));
            } else {
                assert(later[i - 1] == reports[i]);
                assert(later.to_set().contains(reports[i]));
            }
        }
        assert(reports.to_set() =~= sets[0].keys()) by {
            assert forall|key: K| reports.to_set().contains(key) <==> sets[0].keys().contains(
                key,
            ) by {
                if reports.contains(key) {
                    let i = choose|i: int| 0 <= i < reports.len() && reports[i] == key;
                    if i > 0 {
                        assert(later[i - 1] == key);
                        assert(later.to_set().contains(key));
                    }
                }
                if sets[0].keys().contains(key) {
                    if key == first {
                        assert(reports[0] == key);
                    } else {
                        assert(later.to_set().contains(key));
                        let i = choose|i: int| 0 <= i < later.len() && later[i] == key;
                        assert(reports[i + 1] == key);
                    }
                }
            }
        }
    }
}

/// While the set is not empty, a poll never answers "no processes running"
/// without cause: something is running, or a failure is reported first.
pub proof fn law_registered_key_is_waited_for<K, C, H, S>(
    pre: SetView<K, C, H>,
    key: K,
    step: WaitStep<K, H, S>,
    post: SetView<K, C, H>,
)
    requires
        pre.wf(),
        pre.settled(),
        pre.limit != Some(0usize),
        pre.holds(key),
        polls(pre, step, post),
    ensures
        !(step matches WaitStep::Report(WaitAnyResult::NoProcessesRunning)),
{
    if step matches WaitStep::Report(WaitAnyResult::NoProcessesRunning) {
        law_nothing_running_means_all_reported(pre, step, post);
        assert(pre.keys().contains(key));
    }
}

/// A command stays queued for want of a free slot only: once the spawn step
/// has run to its end, a queued command means that the limit is reached.
pub proof fn law_queue_waits_for_room_only<K, C, H>(set: SetView<K, C, H>, waiting: K)
    requires
        set.wf(),
        set.settled(),
        set.queued.contains_key(waiting),
    ensures
        set.limit matches Some(limit) && set.running.len() == limit,
{
    assert(set.queued.len() > 0) by {
        if set.queued.len() == 0 {
            set.queued.dom().lemma_len0_is_empty();
        }
    }
}

/// A pass that starts anew has every running process on its list, each once:
/// the one whose handle it hands out first, and the rest still to visit.
pub proof fn law_new_pass_lists_every_process<K, C, H>(
    pre: SetView<K, C, H>,
    kind: Sweep,
    handle: H,
    post: SetView<K, C, H>,
    key: K,
)
    requires
        pre.wf(),
        pre.at_rest(),
        pre.sweep != kind,
        pre.hands_out(kind, Some(handle), post),
        pre.running.contains_key(key),
    ensures
        post.examining == Some(key) <==> !post.unvisited.contains(key),
        post.unvisited.len() + 1 == pre.running.len(),
        post.unvisited.no_duplicates(),
{
    let first = post.examining->0;
    let todo = post.unvisited.push(first);
    assert(todo.drop_last() == post.unvisited);
    assert(todo.last() == first);
    todo.unique_seq_to_set();
    assert(todo.to_set().contains(key));
    let at = choose|i: int| 0 <= i < todo.len() && todo[i] == key;
    if at < post.unvisited.len() {
        assert(post.unvisited[at] == key);
        assert(todo[todo.len() - 1] == first);
    } else {
        if post.unvisited.contains(key) {
            let other = choose|i: int| 0 <= i < post.unvisited.len() && post.unvisited[i] == key;
            assert(todo[other] == key);
        }
    }
    assert forall|i: int, j: int|
        0 <= i < post.unvisited.len() && 0 <= j < post.unvisited.len() && i != j implies
        post.unvisited[i] != post.unvisited[j] by {
        assert(todo[i] == post.unvisited[i]);
        assert(todo[j] == post.unvisited[j]);
    }
}

/// A pass goes on where it stood: after a handle came back, the next step
/// hands out a process that the pass has not visited yet, and the pass ends
/// when none is left. No process is visited twice.
pub proof fn law_pass_visits_each_process_once<K, C, H>(
    pre: SetView<K, C, H>,
    kind: Sweep,
    handle: H,
    post: SetView<K, C, H>,
)
    requires
        pre.wf(),
        pre.at_rest(),
        pre.sweep == kind,
        pre.hands_out(kind, Some(handle), post),
    ensures
        post.examining matches Some(key) && pre.unvisited.last() == key
            && !post.unvisited.contains(key),
        post.unvisited == pre.unvisited.drop_last(),
        post.put_back(handle).running == pre.running,
        post.put_back(handle).more_to_visit(kind) <==> pre.unvisited.len() > 1,
{
    let key = post.examining->0;
    let todo = pre.unvisited;
    assert(todo == post.unvisited.push(key));
    assert(todo.last() == key);
    assert(todo.drop_last() == post.unvisited);
    if post.unvisited.contains(key) {
        let i = choose|i: int| 0 <= i < post.unvisited.len() && post.unvisited[i] == key;
        assert(todo[i] == key);
        assert(todo[todo.len() - 1] == key);
    }
    assert(post.put_back(handle).running =~= pre.running);
}

/// A drain ends only when nothing runs any more, and a termination signal in
/// between always calls for another interrupt.
pub proof fn law_drain_ends_when_nothing_runs<K, C, H>(set: SetView<K, C, H>, terminated: bool)
    ensures
        set.drain_step(terminated) == Drain::Done <==> !terminated && set.running.len() == 0,
        set.drain_step(terminated) == Drain::Interrupt <==> terminated,
{
}

/// Under a limit the running processes never outnumber it, nor do they
/// together with the one that is being started or examined.
pub proof fn law_limit_bounds_running<K, C, H>(set: SetView<K, C, H>, limit: usize)
    requires
        set.wf(),
        set.limit == Some(limit),
    ensures
        set.running.len() <= limit,
        set.occupied() <= limit,
{
}

/// With every slot taken and commands queued, a process that is reported
/// frees one slot, and the spawn step fills it with exactly one command: after
/// that start no further command is handed out.
pub proof fn law_one_promotion_per_exit<K, C, H>(
    full: SetView<K, C, H>,
    limit: usize,
    next: K,
    handle: H,
)
    requires
        full.wf(),
        full.limit == Some(limit),
        full.examining is Some,
        full.occupied() == limit,
        full.queued.contains_key(next),
    ensures
        full.reaped().can_start(),
        full.reaped().occupied() == limit - 1,
        !full.reaped().starting_on(next).can_start(),
        !full.reaped().starting_on(next).started(handle).can_start(),
        full.reaped().starting_on(next).started(handle).occupied() == limit,
        full.reaped().starting_on(next).started(handle).queued == full.queued.remove(next),
{
    let promoted = full.reaped().starting_on(next).started(handle);
    assert(!full.running.contains_key(next));
    assert(full.queued.len() > 0) by {
        if full.queued.len() == 0 {
            full.queued.dom().lemma_len0_is_empty();
        }
    }
}

/// A command that fails to start takes no slot: the spawn step goes on with
/// the rest of the queue.
pub proof fn law_failed_start_blocks_nothing<K, C, H>(
    pre: SetView<K, C, H>,
    bad: K,
    error: std::io::Error,
)
    requires
        pre.wf(),
        pre.can_start(),
        pre.queued.contains_key(bad),
    ensures
        pre.starting_on(bad).start_failed(error).wf(),
        pre.starting_on(bad).start_failed(error).has_room(),
        pre.starting_on(bad).start_failed(error).running == pre.running,
        pre.starting_on(bad).start_failed(error).can_start() <==> pre.queued.remove(bad).len()
            > 0,
{
}

/// A batch that holds a termination signal is read as termination, whether
/// or not a child changed state in the same batch; the signal reported is one
/// of the batch's termination signals.
pub proof fn law_termination_comes_first(handler: SignalHandler, batch: Seq<i32>, at: int)
    requires
        0 <= at < batch.len(),
        handler.stops(batch[at]),
    ensures
        handler.wake_of(batch) matches Wake::Termination(signal) && handler.stops(signal)
            && batch.contains(signal),
    decreases batch.len(),
{
    if !handler.stops(batch.last()) {
        law_termination_comes_first(handler, batch.drop_last(), at);
        let signal = handler.last_stop(batch.drop_last())->0;
        let i = choose|i: int| 0 <= i < batch.drop_last().len() && batch.drop_last()[i] == signal;
        assert(batch[i] == signal);
    } else {
        assert(batch[batch.len() - 1] == batch.last());
    }
}

/// A batch without a termination signal is read by whether the child-state
/// signal is in it.
pub proof fn law_no_termination_no_report(handler: SignalHandler, batch: Seq<i32>)
    requires
        forall|i: int| 0 <= i < batch.len() ==> !handler.stops(#[trigger] batch[i]),
    ensures
        handler.wake_of(batch) == (if batch.contains(handler.child()) {
            Wake::ChildChanged
        } else {
            Wake::Nothing
        }),
    decreases batch.len(),
{
    if batch.len() > 0 {
        assert(!handler.stops(batch[batch.len() - 1]));
        law_no_termination_no_report(handler, batch.drop_last());
    }
}

/// A termination signal ends a step of a blocking wait with its report and
/// leaves the set untouched, even where a process has exited and a failure
/// waits to be reported.
pub proof fn law_termination_before_completion<K, C, H, S>(
    pre: SetView<K, C, H>,
    handler: SignalHandler,
    batch: Seq<i32>,
    at: int,
    step: WaitStep<K, H, S>,
    post: SetView<K, C, H>,
)
    requires
        0 <= at < batch.len(),
        handler.stops(batch[at]),
        waits(pre, Some(handler.wake_of(batch)), step, post),
    ensures
        step matches WaitStep::Report(WaitAnyResult::ReceivedTerminationSignal(signal))
            && handler.stops(signal) && batch.contains(signal),
        post == pre,
{
    law_termination_comes_first(handler, batch, at);
}

} // verus!
