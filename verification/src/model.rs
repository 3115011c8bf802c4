use crate::errors::Error;
use crate::keyed::lists_keys;
use vstd::prelude::*;

verus! {

/// Which pass over the running processes is under way.
#[derive(Debug, Clone, Copy, PartialEq, Eq, Structural)]
pub enum Sweep {
    /// No pass is under way.
    Idle,
    /// Looking for a process that has exited.
    Poll,
    /// Interrupting every process that is still alive.
    Interrupt,
    /// Killing every process.
    Kill,
}

/// What comes next while the set is drained after a termination signal.
#[derive(Debug, Clone, Copy, PartialEq, Eq, Structural)]
pub enum Drain {
    /// Interrupt every running process (again).
    Interrupt,
    /// Wait for the next report or signal.
    Wait,
    /// Nothing runs any more.
    Done,
}

/// A process set as the contracts see it.
///
/// Every registered key is in exactly one place: queued with its command,
/// running with its handle, errored with its failure, or out with the caller,
/// who is starting its command (`starting`) or asking the operating system
/// about its handle (`examining`).
#[verifier::reject_recursive_types(K)]
pub struct SetView<K, C, H> {
    /// How many processes may run at once; `None` sets no bound.
    pub limit: Option<usize>,
    /// Commands that were registered and not yet started.
    pub queued: Map<K, C>,
    /// Handles of started processes.
    pub running: Map<K, H>,
    /// Failures that no wait call has reported yet.
    pub errored: Map<K, Error>,
    /// The key whose command the caller is starting.
    pub starting: Option<K>,
    /// The key whose handle the caller holds.
    pub examining: Option<K>,
    /// The pass under way.
    pub sweep: Sweep,
    /// Running keys that the pass has still to visit; the last comes first.
    pub unvisited: Seq<K>,
    /// Keys that an interrupt pass found exited, to be dropped when it ends.
    pub exited: Seq<K>,
}

impl<K, C, H> SetView<K, C, H> {
    /// The empty set with the given limit.
    pub open spec fn empty(limit: Option<usize>) -> Self {
        SetView {
            limit,
            queued: Map::empty(),
            running: Map::empty(),
            errored: Map::empty(),
            starting: None,
            examining: None,
            sweep: Sweep::Idle,
            unvisited: Seq::empty(),
            exited: Seq::empty(),
        }
    }

    /// Whether the key is queued, running or errored.
    pub open spec fn stored(self, key: K) -> bool {
        self.queued.contains_key(key) || self.running.contains_key(key)
            || self.errored.contains_key(key)
    }

    /// Whether the key is registered: stored, or out with the caller.
    pub open spec fn holds(self, key: K) -> bool {
        self.stored(key) || self.starting == Some(key) || self.examining == Some(key)
    }

    /// All registered keys.
    pub open spec fn keys(self) -> Set<K> {
        Set::new(|key: K| self.holds(key))
    }

    /// Whether nothing is out with the caller.
    pub open spec fn at_rest(self) -> bool {
        self.starting is None && self.examining is None
    }

    /// How many keys are out with the caller.
    pub open spec fn in_flight(self) -> nat {
        (if self.starting is Some { 1nat } else { 0nat }) + (if self.examining is Some {
            1nat
        } else {
            0nat
        })
    }

    /// How many processes count against the limit: the running ones, the one
    /// being started and the one being examined.
    pub open spec fn occupied(self) -> nat {
        self.running.len() + self.in_flight()
    }

    /// Whether one more process may be started.
    pub open spec fn has_room(self) -> bool {
        match self.limit {
            Some(limit) => self.occupied() < limit,
            None => true,
        }
    }

    /// Whether the spawn step has a command to hand out.
    pub open spec fn can_start(self) -> bool {
        self.at_rest() && self.queued.len() > 0 && self.has_room()
    }

    /// Whether the spawn step has run to its end: the queue is empty, or no
    /// slot is free.
    pub open spec fn settled(self) -> bool {
        self.at_rest() && !self.can_start()
    }

    /// The invariant of a process set.
    pub open spec fn wf(self) -> bool {
        &&& self.queued.dom().finite()
        &&& self.running.dom().finite()
        &&& self.errored.dom().finite()
        &&& forall|key: K| !(self.queued.contains_key(key) && self.running.contains_key(key))
        &&& forall|key: K| !(self.queued.contains_key(key) && self.errored.contains_key(key))
        &&& forall|key: K| !(self.running.contains_key(key) && self.errored.contains_key(key))
        &&& self.starting matches Some(key) ==> !self.stored(key)
        &&& self.examining matches Some(key) ==> !self.stored(key)
        &&& !(self.starting is Some && self.examining is Some)
        &&& self.limit matches Some(limit) ==> self.occupied() <= limit
        &&& self.unvisited.no_duplicates()
        &&& forall|i: int|
            0 <= i < self.unvisited.len() ==> self.running.contains_key(
                #[trigger] self.unvisited[i],
            )
    }

    /// The set with no pass under way.
    pub open spec fn without_sweep(self) -> Self {
        SetView { sweep: Sweep::Idle, unvisited: Seq::empty(), exited: Seq::empty(), ..self }
    }

    /// The set after `key` was registered with `command`.
    pub open spec fn registered(self, key: K, command: C) -> Self {
        SetView { queued: self.queued.insert(key, command), ..self }
    }

    /// The set after the command under `key` was handed out to be started.
    pub open spec fn starting_on(self, key: K) -> Self {
        SetView { queued: self.queued.remove(key), starting: Some(key), ..self }
    }

    /// The set after the command that was out has started.
    pub open spec fn started(self, handle: H) -> Self {
        SetView {
            running: self.running.insert(self.starting->0, handle),
            starting: None,
            ..self
        }
    }

    /// The set after the command that was out has failed to start.
    pub open spec fn start_failed(self, error: std::io::Error) -> Self {
        SetView {
            errored: self.errored.insert(self.starting->0, Error::UnableToSpawnProcess(error)),
            starting: None,
            ..self
        }
    }

    /// Whether `todo` is what a pass of `kind` has to visit from here: what is
    /// left of that pass if it is under way, else every running key once, in
    /// an order that is not specified.
    pub open spec fn to_visit(self, kind: Sweep, todo: Seq<K>) -> bool {
        if self.sweep == kind {
            todo == self.unvisited
        } else {
            lists_keys(todo, self.running)
        }
    }

    /// Whether a pass of `kind` has a process to visit from here.
    pub open spec fn more_to_visit(self, kind: Sweep) -> bool {
        if self.sweep == kind {
            self.unvisited.len() > 0
        } else {
            self.running.len() > 0
        }
    }

    /// The exited keys that a pass of `kind` has noted so far.
    pub open spec fn noted(self, kind: Sweep) -> Seq<K> {
        if self.sweep == kind {
            self.exited
        } else {
            Seq::empty()
        }
    }

    /// The set after a pass of `kind` with `todo` before it handed out the
    /// handle of the last key of `todo`.
    pub open spec fn visiting(self, kind: Sweep, todo: Seq<K>) -> Self {
        SetView {
            running: self.running.remove(todo.last()),
            examining: Some(todo.last()),
            sweep: kind,
            unvisited: todo.drop_last(),
            exited: self.noted(kind),
            ..self
        }
    }

    /// The set after a pass of `kind` has visited every process: a poll leaves
    /// the processes as they are, an interrupt pass drops the exited ones, a
    /// kill pass drops them all.
    pub open spec fn finished(self, kind: Sweep) -> Self {
        let running = match kind {
            Sweep::Interrupt => self.running.remove_keys(self.noted(kind).to_set()),
            Sweep::Kill => Map::empty(),
            _ => self.running,
        };
        SetView { running, ..self }.without_sweep()
    }

    /// Whether a pass of `kind` takes the set from `self` to `next` with
    /// `handed` as the handle it hands out: that of a key still to visit, or
    /// none when the pass is over.
    pub open spec fn hands_out(self, kind: Sweep, handed: Option<H>, next: Self) -> bool {
        match handed {
            Some(handle) => {
                &&& self.more_to_visit(kind)
                &&& next.examining matches Some(key)
                &&& self.to_visit(kind, next.unvisited.push(key))
                &&& self.running.contains_key(key)
                &&& self.running[key] == handle
                &&& next == self.visiting(kind, next.unvisited.push(key))
            },
            None => !self.more_to_visit(kind) && next == self.finished(kind),
        }
    }

    /// The set after the handle that was out came back unchanged in standing.
    pub open spec fn put_back(self, handle: H) -> Self {
        SetView {
            running: self.running.insert(self.examining->0, handle),
            examining: None,
            ..self
        }
    }

    /// The set after the handle that was out came back and its key was noted
    /// as exited.
    pub open spec fn put_back_exited(self, handle: H) -> Self {
        SetView { exited: self.exited.push(self.examining->0), ..self.put_back(handle) }
    }

    /// The set after the key that was out was reported: it is gone, and the
    /// pass is over.
    pub open spec fn reaped(self) -> Self {
        SetView { examining: None, ..self }.without_sweep()
    }

    /// The set after the failure under `key` was reported.
    pub open spec fn error_reported(self, key: K) -> Self {
        SetView { errored: self.errored.remove(key), ..self }.without_sweep()
    }

    /// What a drain does next. `terminated` says that the wait call before
    /// ended on a termination signal: the interrupt is then sent again. Else
    /// the drain waits on while anything runs.
    pub open spec fn drain_step(self, terminated: bool) -> Drain {
        if terminated {
            Drain::Interrupt
        } else if self.running.len() == 0 {
            Drain::Done
        } else {
            Drain::Wait
        }
    }
}

} // verus!
