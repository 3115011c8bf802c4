use crate::errors::Error;
use crate::keyed::{key_list, key_model, remove_all, take_one_from_hashmap};
use crate::model::{Drain, SetView, Sweep};
use crate::signal::{SignalHandler, Wake};
use std::collections::HashMap;
use std::hash::Hash;
use vstd::prelude::*;

verus! {

/// What one wait call reports.
pub enum WaitAnyResult<K, H, S> {
    /// The process under this key is done: its handle and exit status, or
    /// the reason why there is none.
    Subprocess(K, Result<(H, S), Error>),
    /// A termination signal arrived; its number is carried.
    ReceivedTerminationSignal(i32),
    /// Nothing is running and nothing is left to report.
    NoProcessesRunning,
}

/// One step of a wait call: a report to return, a handle to ask the operating
/// system about, or nothing for the moment.
pub enum WaitStep<K, H, S> {
    /// The wait call ends with this report.
    Report(WaitAnyResult<K, H, S>),
    /// The caller asks this handle whether its process has exited and brings
    /// the answer to [`ProcessSet::examined`].
    Examine(H),
    /// No process has finished. A call that polls returns empty-handed; a call
    /// that blocks sleeps until signals arrive.
    Pending,
}

impl<K, H, S> WaitStep<K, H, S> {
    /// The handle that the step hands out, if it does.
    pub open spec fn handed(self) -> Option<H> {
        match self {
            WaitStep::Examine(handle) => Some(handle),
            _ => None,
        }
    }
}

/// Whether one polling step takes the set from `pre` to `post` with `step` as
/// its answer. A failure that waits to be reported comes first; then, with
/// nothing running, the report of that; then the pass over the running
/// processes.
pub open spec fn polls<K, C, H, S>(
    pre: SetView<K, C, H>,
    step: WaitStep<K, H, S>,
    post: SetView<K, C, H>,
) -> bool {
    if pre.errored.len() > 0 {
        &&& step matches WaitStep::Report(WaitAnyResult::Subprocess(key, Err(error)))
        &&& pre.errored.contains_key(key)
        &&& pre.errored[key] == error
        &&& post == pre.error_reported(key)
    } else if pre.running.len() == 0 {
        &&& step matches WaitStep::Report(WaitAnyResult::NoProcessesRunning)
        &&& post == pre.without_sweep()
    } else {
        &&& !(step is Report)
        &&& pre.hands_out(Sweep::Poll, step.handed(), post)
    }
}

/// Whether one step of a blocking wait takes the set from `pre` to `post`
/// with `step` as its answer. `wake` is what the signals that woke the caller
/// mean, `None` where the caller has not slept since its last step.
///
/// A termination signal is reported at once, whatever any child has done. A
/// child's change of state, or no sleep yet, leads to a polling step. Other
/// signals send the caller back to sleep.
pub open spec fn waits<K, C, H, S>(
    pre: SetView<K, C, H>,
    wake: Option<Wake>,
    step: WaitStep<K, H, S>,
    post: SetView<K, C, H>,
) -> bool {
    match wake {
        Some(Wake::Termination(signal)) => {
            &&& step == WaitStep::<K, H, S>::Report(
                WaitAnyResult::ReceivedTerminationSignal(signal),
            )
            &&& post == pre
        },
        Some(Wake::Nothing) => step is Pending && post == pre,
        _ => polls(pre, step, post),
    }
}

/// What the batch of signals that woke the caller means to `handler`.
pub open spec fn wake_read(handler: SignalHandler, delivered: Option<&[i32]>) -> Option<Wake> {
    match delivered {
        Some(batch) => Some(handler.wake_of(batch@)),
        None => None,
    }
}

/// The process id as the call that sends a signal takes it; `None` where it
/// does not fit.
pub fn signal_target(pid: u32) -> (target: Option<i32>)
    ensures
        pid <= i32::MAX ==> target == Some(pid as i32),
        pid > i32::MAX ==> target is None,
{
    if pid <= 0x7fff_ffff {
        Some(pid as i32)
    } else {
        None
    }
}

/// A set of child processes, each under a key of the caller's choosing.
///
/// The set decides; the caller acts. Whatever touches the operating system
/// (starting a command, asking a handle whether its process has exited,
/// sending a signal) happens outside: the set hands the command or the handle
/// out, and takes it back with the outcome.
#[derive(Debug)]
pub struct ProcessSet<K, C, H> {
    concurrency_limit: Option<usize>,
    queued_keys: HashMap<K, C>,
    running_keys: HashMap<K, H>,
    errored_keys: HashMap<K, Error>,
    starting: Option<K>,
    examining: Option<K>,
    sweep: Sweep,
    unvisited: Vec<K>,
    exited: Vec<K>,
}

impl<K, C, H> View for ProcessSet<K, C, H> {
    type V = SetView<K, C, H>;

    closed spec fn view(&self) -> SetView<K, C, H> {
        SetView {
            limit: self.concurrency_limit,
            queued: self.queued_keys@,
            running: self.running_keys@,
            errored: self.errored_keys@,
            starting: self.starting,
            examining: self.examining,
            sweep: self.sweep,
            unvisited: self.unvisited@,
            exited: self.exited@,
        }
    }
}

impl<K: Hash + Eq + Clone, C, H> ProcessSet<K, C, H> {
    /// Whether the set is one that its own operations can have made, over a
    /// key type that behaves as a key.
    pub open spec fn wf(&self) -> bool {
        key_model::<K>() && self@.wf()
    }

    /// An empty set without a concurrency limit.
    pub fn new() -> (set: Self)
        requires
            key_model::<K>(),
        ensures
            set.wf(),
            set@ == SetView::<K, C, H>::empty(None),
    {
        ProcessSet {
            concurrency_limit: None,
            queued_keys: HashMap::new(),
            running_keys: HashMap::new(),
            errored_keys: HashMap::new(),
            starting: None,
            examining: None,
            sweep: Sweep::Idle,
            unvisited: Vec::new(),
            exited: Vec::new(),
        }
    }

    /// An empty set that runs at most `limit` processes at once.
    pub fn with_concurrency_limit(limit: usize) -> (set: Self)
        requires
            key_model::<K>(),
        ensures
            set.wf(),
            set@ == SetView::<K, C, H>::empty(Some(limit)),
    {
        let mut n = Self::new();
        n.concurrency_limit = Some(limit);
        n
    }

    /// Whether `key` is queued, running or errored.
    pub fn contains_key(&self, key: &K) -> (found: bool)
        requires
            self.wf(),
        ensures
            found == self@.stored(*key),
    {
        self.queued_keys.contains_key(key) || self.running_keys.contains_key(key)
            || self.errored_keys.contains_key(key)
    }

    /// Registers `command` under `key`, queued until the spawn step starts it.
    ///
    /// A key can be registered once only, until a wait call has reported it.
    pub fn add_command(&mut self, key: K, command: C)
        requires
            old(self).wf(),
            !old(self)@.holds(key),
        ensures
            final(self).wf(),
            final(self)@ == old(self)@.registered(key, command),
    {
        self.queued_keys.insert(key, command);
    }

    /// The spawn step: hands out the next command to start, if one is queued
    /// and a slot is free. Its outcome goes to [`ProcessSet::spawned`].
    ///
    /// Which of the queued commands comes next is not specified.
    pub fn spawn_processes(&mut self) -> (next: Option<C>)
        requires
            old(self).wf(),
            old(self)@.at_rest(),
        ensures
            final(self).wf(),
            next is Some <==> old(self)@.can_start(),
            next is None ==> final(self)@ == old(self)@,
            next matches Some(command) ==> {
                &&& final(self)@.starting matches Some(key)
                &&& old(self)@.queued.contains_key(key)
                &&& old(self)@.queued[key] == command
                &&& final(self)@ == old(self)@.starting_on(key)
            },
    {
        if self.queued_keys.len() == 0 {
            return None;
        }
        let room = match self.concurrency_limit {
            Some(limit) => self.running_keys.len() < limit,
            None => true,
        };
        if !room {
            return None;
        }
        match take_one_from_hashmap(&mut self.queued_keys) {
            Some((key, command)) => {
                self.starting = Some(key);
                Some(command)
            },
            None => None,
        }
    }

    /// Takes the outcome of starting the command that
    /// [`ProcessSet::spawn_processes`] handed out: the process runs, or its key
    /// is errored, to be reported by the next wait call.
    pub fn spawned(&mut self, outcome: Result<H, std::io::Error>)
        requires
            old(self).wf(),
            old(self)@.starting is Some,
        ensures
            final(self).wf(),
            final(self)@ == (match outcome {
                Ok(handle) => old(self)@.started(handle),
                Err(error) => old(self)@.start_failed(error),
            }),
    {
        let key = self.starting.take();
        match key {
            Some(key) => {
                match outcome {
                    Ok(handle) => {
                        self.running_keys.insert(key, handle);
                    },
                    Err(error) => {
                        self.errored_keys.insert(key, Error::UnableToSpawnProcess(error));
                    },
                }
            },
            None => {},
        }
    }

    /// Hands out the handle of the next process that a pass of `kind` has to
    /// visit, starting the pass if it is not under way.
    fn visit_next(&mut self, kind: Sweep) -> (handed: Option<H>)
        requires
            old(self).wf(),
            old(self)@.at_rest(),
        ensures
            final(self).wf(),
            handed is Some <==> old(self)@.more_to_visit(kind),
            handed is Some ==> old(self)@.hands_out(kind, handed, final(self)@),
            handed is None ==> final(self)@ == (SetView {
                sweep: kind,
                unvisited: Seq::empty(),
                exited: old(self)@.noted(kind),
                ..old(self)@
            }),
    {
        if self.sweep != kind {
            self.unvisited = key_list(&self.running_keys);
            self.exited = Vec::new();
            self.sweep = kind;
            proof {
                self.unvisited@.unique_seq_to_set();
            }
        }
        let ghost todo = self.unvisited@;
        match self.unvisited.pop() {
            Some(key) => {
                assert(todo == self.unvisited@.push(key));
                assert(self.running_keys@.contains_key(todo[todo.len() - 1]));
                let handle = self.running_keys.remove(&key);
                self.examining = Some(key);
                handle
            },
            None => {
                assert(self.unvisited@ == Seq::<K>::empty());
                None
            },
        }
    }

    /// One step of a poll for a finished process.
    ///
    /// A failure that waits to be reported is reported first, whatever else
    /// holds. With nothing running the answer is the report of that. Else the
    /// step visits the running processes one by one: it hands out a handle
    /// for the caller to examine, and when none is left that the pass has not
    /// seen, the answer is `Pending`.
    pub fn try_wait_any<S>(&mut self) -> (step: WaitStep<K, H, S>)
        requires
            old(self).wf(),
            old(self)@.at_rest(),
        ensures
            final(self).wf(),
            polls(old(self)@, step, final(self)@),
    {
        match take_one_from_hashmap(&mut self.errored_keys) {
            Some((key, error)) => {
                self.end_sweep();
                return WaitStep::Report(WaitAnyResult::Subprocess(key, Err(error)));
            },
            None => {},
        }
        if self.running_keys.len() == 0 {
            self.end_sweep();
            return WaitStep::Report(WaitAnyResult::NoProcessesRunning);
        }
        match self.visit_next(Sweep::Poll) {
            Some(handle) => WaitStep::Examine(handle),
            None => {
                self.end_sweep();
                WaitStep::Pending
            },
        }
    }

    /// Forgets the pass under way.
    fn end_sweep(&mut self)
        ensures
            final(self)@ == old(self)@.without_sweep(),
    {
        self.sweep = Sweep::Idle;
        self.unvisited = Vec::new();
        self.exited = Vec::new();
    }

    /// Takes back the handle that a poll handed out, with what the operating
    /// system said of its process.
    ///
    /// A process that still runs goes back among the running. One that has
    /// exited is reported with its handle and status. One whose check failed
    /// is reported with the failure, and its handle is dropped. A report ends
    /// the pass and frees a slot: the spawn step is due after it.
    pub fn examined<S>(
        &mut self,
        handle: H,
        outcome: Result<Option<S>, std::io::Error>,
    ) -> (report: Option<WaitAnyResult<K, H, S>>)
        requires
            old(self).wf(),
            old(self)@.examining is Some,
        ensures
            final(self).wf(),
            match outcome {
                Ok(None) => report is None && final(self)@ == old(self)@.put_back(handle),
                Ok(Some(status)) => report == Some(
                    WaitAnyResult::Subprocess(old(self)@.examining->0, Ok((handle, status))),
                ) && final(self)@ == old(self)@.reaped(),
                Err(error) => report == Some(
                    WaitAnyResult::<K, H, S>::Subprocess(
                        old(self)@.examining->0,
                        Err(Error::WaitFailed(error)),
                    ),
                ) && final(self)@ == old(self)@.reaped(),
            },
    {
        let key = self.examining.take();
        match key {
            Some(key) => {
                match outcome {
                    Ok(None) => {
                        self.running_keys.insert(key, handle);
                        None
                    },
                    Ok(Some(status)) => {
                        self.end_sweep();
                        Some(WaitAnyResult::Subprocess(key, Ok((handle, status))))
                    },
                    Err(error) => {
                        self.end_sweep();
                        Some(WaitAnyResult::Subprocess(key, Err(Error::WaitFailed(error))))
                    },
                }
            },
            None => None,
        }
    }

    /// One step of a blocking wait.
    ///
    /// `delivered` is the batch of signals that woke the caller, `None` where
    /// it has not slept since its last step: at the start of a wait call, and
    /// after a handle came back from its examination with nothing to report.
    /// On `Pending` the caller sleeps until signals arrive and comes back with
    /// them.
    pub fn wait_any<S>(
        &mut self,
        signal_handler: &SignalHandler,
        delivered: Option<&[i32]>,
    ) -> (step: WaitStep<K, H, S>)
        requires
            old(self).wf(),
            old(self)@.at_rest(),
        ensures
            final(self).wf(),
            waits(old(self)@, wake_read(*signal_handler, delivered), step, final(self)@),
    {
        match delivered {
            Some(batch) => {
                match signal_handler.wake(batch) {
                    Wake::Termination(signal) => WaitStep::Report(
                        WaitAnyResult::ReceivedTerminationSignal(signal),
                    ),
                    Wake::ChildChanged => self.try_wait_any(),
                    Wake::Nothing => WaitStep::Pending,
                }
            },
            None => self.try_wait_any(),
        }
    }

    /// One step of killing every running process: hands out the next handle
    /// to kill and to wait for, whose outcome goes to [`ProcessSet::killed`].
    /// When every process has been visited, none is running any more.
    pub fn sigkill_all(&mut self) -> (next: Option<H>)
        requires
            old(self).wf(),
            old(self)@.at_rest(),
        ensures
            final(self).wf(),
            old(self)@.hands_out(Sweep::Kill, next, final(self)@),
    {
        match self.visit_next(Sweep::Kill) {
            Some(handle) => Some(handle),
            None => {
                self.running_keys.clear();
                self.end_sweep();
                None
            },
        }
    }

    /// Takes back the handle that [`ProcessSet::sigkill_all`] handed out. A
    /// failure ends the pass where it stands and is handed on.
    pub fn killed(&mut self, handle: H, outcome: Result<(), std::io::Error>) -> (result: Result<
        (),
        std::io::Error,
    >)
        requires
            old(self).wf(),
            old(self)@.examining is Some,
        ensures
            final(self).wf(),
            result == outcome,
            outcome is Ok ==> final(self)@ == old(self)@.put_back(handle),
            outcome is Err ==> final(self)@ == old(self)@.put_back(handle).without_sweep(),
    {
        self.take_back(handle);
        if outcome.is_err() {
            self.end_sweep();
        }
        outcome
    }

    /// Puts the handle that was out back among the running.
    fn take_back(&mut self, handle: H)
        requires
            old(self).wf(),
            old(self)@.examining is Some,
        ensures
            final(self).wf(),
            final(self)@ == old(self)@.put_back(handle),
    {
        let key = self.examining.take();
        match key {
            Some(key) => {
                self.running_keys.insert(key, handle);
            },
            None => {},
        }
    }

    /// One step of interrupting every running process: hands out the next
    /// handle to look at, whose state goes to [`ProcessSet::sigint_examined`].
    /// When every process has been visited, those found exited are dropped
    /// from the running.
    pub fn sigint_all(&mut self) -> (next: Option<H>)
        requires
            old(self).wf(),
            old(self)@.at_rest(),
        ensures
            final(self).wf(),
            old(self)@.hands_out(Sweep::Interrupt, next, final(self)@),
    {
        match self.visit_next(Sweep::Interrupt) {
            Some(handle) => Some(handle),
            None => {
                let ghost before = self.running_keys@;
                remove_all(&mut self.running_keys, &self.exited);
                proof {
                    vstd::set_lib::lemma_len_subset(self.running_keys@.dom(), before.dom());
                }
                self.end_sweep();
                None
            },
        }
    }

    /// Takes back the handle that [`ProcessSet::sigint_all`] handed out, with
    /// what the operating system said of its process, and says whether the
    /// interrupt is to be sent to it.
    ///
    /// A process that still runs gets the signal. One that has exited gets
    /// none and is noted, to be dropped at the end of the pass. A failed check
    /// ends the pass where it stands and is handed on.
    pub fn sigint_examined<S>(
        &mut self,
        handle: H,
        outcome: Result<Option<S>, std::io::Error>,
    ) -> (send: Result<bool, std::io::Error>)
        requires
            old(self).wf(),
            old(self)@.examining is Some,
        ensures
            final(self).wf(),
            match outcome {
                Ok(None) => send == Ok::<bool, std::io::Error>(true) && final(self)@ == old(
                    self,
                )@.put_back(handle),
                Ok(Some(_)) => send == Ok::<bool, std::io::Error>(false) && final(self)@ == old(
                    self,
                )@.put_back_exited(handle),
                Err(error) => send == Err::<bool, std::io::Error>(error) && final(self)@ == old(
                    self,
                )@.put_back(handle).without_sweep(),
            },
    {
        match outcome {
            Ok(None) => {
                self.take_back(handle);
                Ok(true)
            },
            Ok(Some(_)) => {
                match &self.examining {
                    Some(key) => {
                        let mark = key.clone();
                        self.exited.push(mark);
                    },
                    None => {},
                }
                self.take_back(handle);
                Ok(false)
            },
            Err(error) => {
                self.take_back(handle);
                self.end_sweep();
                Err(error)
            },
        }
    }

    /// Takes the outcome of sending the interrupt that
    /// [`ProcessSet::sigint_examined`] asked for. A failure ends the pass where
    /// it stands and is handed on.
    pub fn sigint_sent(&mut self, outcome: Result<(), std::io::Error>) -> (result: Result<
        (),
        std::io::Error,
    >)
        requires
            old(self).wf(),
        ensures
            final(self).wf(),
            result == outcome,
            outcome is Ok ==> final(self)@ == old(self)@,
            outcome is Err ==> final(self)@ == old(self)@.without_sweep(),
    {
        if outcome.is_err() {
            self.end_sweep();
        }
        outcome
    }

    /// What a drain does next: after the first interrupt of every running
    /// process, the caller waits until nothing runs, and interrupts them all
    /// again whenever a wait call ends on another termination signal.
    ///
    /// `last` is what the wait call before reported, `None` right after an
    /// interrupt pass.
    pub fn sigint_all_and_wait<S>(&self, last: Option<&WaitAnyResult<K, H, S>>) -> (next: Drain)
        requires
            self.wf(),
        ensures
            next == self@.drain_step(
                last matches Some(WaitAnyResult::ReceivedTerminationSignal(_)),
            ),
    {
        match last {
            Some(WaitAnyResult::ReceivedTerminationSignal(_)) => Drain::Interrupt,
            _ => if self.running_keys.len() == 0 {
                Drain::Done
            } else {
                Drain::Wait
            },
        }
    }

    /// The concurrency limit, if the set has one.
    pub fn concurrency_limit(&self) -> (limit: Option<usize>)
        ensures
            limit == self@.limit,
    {
        self.concurrency_limit
    }

    /// How many commands wait to be started.
    pub fn queued_len(&self) -> (count: usize)
        requires
            self.wf(),
        ensures
            count == self@.queued.len(),
    {
        self.queued_keys.len()
    }

    /// How many processes are running, the one under examination not counted.
    pub fn running_len(&self) -> (count: usize)
        requires
            self.wf(),
        ensures
            count == self@.running.len(),
    {
        self.running_keys.len()
    }

    /// How many failures wait to be reported.
    pub fn errored_len(&self) -> (count: usize)
        requires
            self.wf(),
        ensures
            count == self@.errored.len(),
    {
        self.errored_keys.len()
    }

    /// Whether a command is out to be started.
    pub fn is_starting(&self) -> (out: bool)
        ensures
            out == (self@.starting is Some),
    {
        self.starting.is_some()
    }

    /// Whether a handle is out to be examined.
    pub fn is_examining(&self) -> (out: bool)
        ensures
            out == (self@.examining is Some),
    {
        self.examining.is_some()
    }

    /// Whether neither a command nor a handle is out.
    pub fn is_at_rest(&self) -> (rest: bool)
        ensures
            rest == self@.at_rest(),
    {
        self.starting.is_none() && self.examining.is_none()
    }
}

impl<K: Hash + Eq + Clone, C, H> Default for ProcessSet<K, C, H> {
    fn default() -> (set: Self)
        ensures
            key_model::<K>() ==> set.wf(),
            set@ == SetView::<K, C, H>::empty(None),
    {
        ProcessSet {
            concurrency_limit: None,
            queued_keys: HashMap::new(),
            running_keys: HashMap::new(),
            errored_keys: HashMap::new(),
            starting: None,
            examining: None,
            sweep: Sweep::Idle,
            unvisited: Vec::new(),
            exited: Vec::new(),
        }
    }
}

} // verus!
