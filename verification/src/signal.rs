use vstd::prelude::*;

verus! {

/// The interrupt signal's number, `signal_hook::consts::SIGINT`: 2 on every
/// platform that the signal crates know.
#[verifier::external_body]
fn interrupt_signal() -> (signal: i32)
    ensures
        signal == 2,
{
    signal_hook::consts::SIGINT
}

/// The terminate-request signal's number, `signal_hook::consts::SIGTERM`: 15
/// on every platform that the signal crates know.
#[verifier::external_body]
fn terminate_signal() -> (signal: i32)
    ensures
        signal == 15,
{
    signal_hook::consts::SIGTERM
}

/// The number of the signal that tells of a child's change of state,
/// `signal_hook::consts::SIGCHLD`. It differs between platforms, so nothing
/// is claimed of it.
#[verifier::external_body]
fn child_state_signal() -> (signal: i32) {
    signal_hook::consts::SIGCHLD
}

/// What one batch of delivered signals asks of a waiting supervisor.
#[derive(Debug, Clone, Copy, PartialEq, Eq, Structural)]
pub enum Wake {
    /// A termination signal is in the batch; its number is carried.
    Termination(i32),
    /// No termination signal, but some child changed state.
    ChildChanged,
    /// Nothing in the batch concerns the supervisor.
    Nothing,
}

/// Which signals a supervisor watches, and which of them ask it to stop.
///
/// The watched signals are the termination signals and the child-state signal;
/// the registration with the operating system is the caller's to make, from
/// [`SignalHandler::watched`].
#[derive(Debug)]
pub struct SignalHandler {
    termination_signals: Vec<i32>,
    child_signal: i32,
}

impl SignalHandler {
    /// The termination signals, in the order in which they were given.
    pub closed spec fn termination(&self) -> Seq<i32> {
        self.termination_signals@
    }

    /// The number that stands for "a child changed state".
    pub closed spec fn child(&self) -> i32 {
        self.child_signal
    }

    /// The signals to watch, in registration order: the termination signals,
    /// then the child-state signal.
    pub open spec fn watch_list(&self) -> Seq<i32> {
        self.termination().push(self.child())
    }

    /// Whether a delivered signal counts as a termination request while
    /// waiting. The child-state signal never does, listed or not.
    pub open spec fn stops(&self, signal: i32) -> bool {
        signal != self.child() && self.termination().contains(signal)
    }

    /// The last termination request in a batch, if there is one.
    pub open spec fn last_stop(&self, batch: Seq<i32>) -> Option<i32>
        decreases batch.len(),
    {
        if batch.len() == 0 {
            None
        } else if self.stops(batch.last()) {
            Some(batch.last())
        } else {
            self.last_stop(batch.drop_last())
        }
    }

    /// What a batch of delivered signals means: termination before anything
    /// else, then a child's change of state, then nothing.
    pub open spec fn wake_of(&self, batch: Seq<i32>) -> Wake {
        match self.last_stop(batch) {
            Some(signal) => Wake::Termination(signal),
            None => if batch.contains(self.child()) {
                Wake::ChildChanged
            } else {
                Wake::Nothing
            },
        }
    }

    /// A handler with the given termination signals in place of the default
    /// ones. The child-state signal is watched in any case.
    pub fn with_termination_signals(termination_signals: &[i32]) -> (handler: Self)
        ensures
            handler.termination() == termination_signals@,
    {
        SignalHandler {
            termination_signals: vstd::slice::slice_to_vec(termination_signals),
            child_signal: child_state_signal(),
        }
    }

    /// Makes `signal` a termination signal too, and with that a watched one.
    pub fn add_termination_signal(&mut self, signal: i32)
        ensures
            final(self).termination() == old(self).termination().push(signal),
            final(self).child() == old(self).child(),
    {
        self.termination_signals.push(signal);
    }

    /// The termination signals, in the order in which they were given.
    pub fn termination_signals(&self) -> (signals: &[i32])
        ensures
            signals@ == self.termination(),
    {
        self.termination_signals.as_slice()
    }

    /// The number that stands for "a child changed state".
    pub fn child_signal(&self) -> (signal: i32)
        ensures
            signal == self.child(),
    {
        self.child_signal
    }

    /// The signals to register with the operating system.
    pub fn watched(&self) -> (signals: Vec<i32>)
        ensures
            signals@ == self.watch_list(),
    {
        let mut signals = self.termination_signals.clone();
        signals.push(self.child_signal);
        signals
    }

    /// Whether `signal` is listed as a termination signal.
    pub fn is_termination_signal(&self, signal: i32) -> (listed: bool)
        ensures
            listed == self.termination().contains(signal),
    {
        let mut i: usize = 0;
        while i < self.termination_signals.len()
            invariant
                i <= self.termination_signals.len(),
                forall|j: int| 0 <= j < i ==> self.termination_signals@[j] != signal,
            decreases self.termination_signals.len() - i,
        {
            if self.termination_signals[i] == signal {
                return true;
            }
            i += 1;
        }
        false
    }

    /// Whether any of the signals that were pending, and that the caller has
    /// just taken from the queue, is a termination signal.
    pub fn termination_pending(&self, pending: &[i32]) -> (found: bool)
        ensures
            found == exists|i: int|
                0 <= i < pending@.len() && self.termination().contains(#[trigger] pending@[i]),
    {
        let mut i: usize = 0;
        while i < pending.len()
            invariant
                i <= pending.len(),
                forall|j: int|
                    0 <= j < i ==> !self.termination().contains(#[trigger] pending@[j]),
            decreases pending.len() - i,
        {
            if self.is_termination_signal(pending[i]) {
                return true;
            }
            i += 1;
        }
        false
    }

    /// Reads one batch of delivered signals as a waiting supervisor does.
    ///
    /// A termination signal wins over a child's change of state in the same
    /// batch; of several termination signals the last one is reported.
    pub fn wake(&self, batch: &[i32]) -> (wake: Wake)
        ensures
            wake == self.wake_of(batch@),
    {
        let mut has_sigchld = false;
        let mut has_term: Option<i32> = None;
        let mut i: usize = 0;
        while i < batch.len()
            invariant
                i <= batch.len(),
                has_term == self.last_stop(batch@.take(i as int)),
                has_sigchld == batch@.take(i as int).contains(self.child()),
            decreases batch.len() - i,
        {
            let sig = batch[i];
            proof {
                let before = batch@.take(i as int);
                let after = batch@.take(i + 1);
                assert(after.drop_last() == before);
                assert(after.last() == sig);
                assert(after == before.push(sig));
                if before.contains(self.child()) {
                    let j = choose|j: int| 0 <= j < before.len() && before[j] == self.child();
                    assert(after[j] == self.child());
                }
                if sig == self.child() {
                    assert(after[i as int] == self.child());
                }
            }
            if sig == self.child_signal {
                has_sigchld = true;
            } else if self.is_termination_signal(sig) {
                has_term = Some(sig);
            }
            i += 1;
        }
        assert(batch@.take(batch.len() as int) == batch@);
        match has_term {
            Some(sig) => Wake::Termination(sig),
            None => if has_sigchld {
                Wake::ChildChanged
            } else {
                Wake::Nothing
            },
        }
    }
}

impl Default for SignalHandler {
    /// The default handler: terminate-request and interrupt ask to stop.
    fn default() -> (handler: Self)
        ensures
            handler.termination() == seq![15i32, 2i32],
    {
        let mut termination_signals: Vec<i32> = Vec::new();
        termination_signals.push(terminate_signal());
        termination_signals.push(interrupt_signal());
        proof {
            assert(termination_signals@ =~= seq![15i32, 2i32]);
        }
        SignalHandler { termination_signals, child_signal: child_state_signal() }
    }
}

} // verus!
