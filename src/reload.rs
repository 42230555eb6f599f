//! The decisions of the background reload task.
//!
//! The task waits for a change signal or for cancellation. A change signal
//! asks for the file to be read again; a successful read delivers the previous
//! and the new value as one update, a failed one is absorbed and changes
//! nothing. Cancellation stops the directory watch, and once that is done the
//! delivery channel closes, for good.
use crate::error::Error;
use vstd::prelude::*;

verus! {

/// One completed reload: the last value read before it, and the value read now.
#[derive(Debug)]
pub struct UpdateEvent<T>(pub T, pub T);

/// Where the reload task is in its life.
#[derive(PartialEq, Eq, Structural, Clone, Copy, Debug)]
pub enum Stage {
    /// The watch is open and change signals are acted on.
    Running,
    /// Cancellation was seen; the watch is being stopped.
    Draining,
    /// The watch is stopped and the delivery channel closed.
    Stopped,
}

/// The mathematical form of a [`ReloadLoop`]: its stage, whether a read was
/// asked for and not yet answered, and the last value read successfully.
pub struct LoopState<T> {
    pub stage: Stage,
    pub pending: bool,
    pub last: T,
}

/// The state after a change signal, and whether the file must be read now.
/// Only a running task with no read outstanding asks for one; a signal that
/// comes while a read is outstanding is covered by that read, since it reads
/// the file as it is then.
pub open spec fn change_step<T>(s: LoopState<T>) -> (LoopState<T>, bool) {
    if s.stage == Stage::Running && !s.pending {
        (LoopState { stage: s.stage, pending: true, last: s.last }, true)
    } else {
        (s, false)
    }
}

/// The state after a cancellation, and whether the watch must be stopped now.
pub open spec fn cancel_step<T>(s: LoopState<T>) -> (LoopState<T>, bool) {
    if s.stage == Stage::Running {
        (LoopState { stage: Stage::Draining, pending: s.pending, last: s.last }, true)
    } else {
        (s, false)
    }
}

/// The state once the watch has stopped, and whether the channel must close now.
pub open spec fn watch_stopped_step<T>(s: LoopState<T>) -> (LoopState<T>, bool) {
    if s.stage == Stage::Draining {
        (LoopState { stage: Stage::Stopped, pending: false, last: s.last }, true)
    } else {
        (s, false)
    }
}

/// How an answered read moves the task from `s` to `next` and what it delivers.
/// A successful answer to an outstanding read delivers the last value and the
/// value read, which becomes the last one (kept as a clone); a failed one
/// delivers nothing and keeps the last value. An answer that nothing asked
/// for, or that comes after the channel closed, changes nothing.
pub open spec fn reload_answered<T: Clone>(
    s: LoopState<T>,
    read: Result<T, Error>,
    next: LoopState<T>,
    out: Option<UpdateEvent<T>>,
) -> bool {
    if s.pending && s.stage != Stage::Stopped {
        match read {
            Ok(v) => {
                &&& out == Some(UpdateEvent(s.last, v))
                &&& next.stage == s.stage
                &&& !next.pending
                &&& cloned(v, next.last)
            },
            Err(_) => {
                &&& out is None
                &&& next == (LoopState { stage: s.stage, pending: false, last: s.last })
            },
        }
    } else {
        out is None && next == s
    }
}

/// The state reached after `n` change signals, and how many reads they asked for.
pub open spec fn changes<T>(s: LoopState<T>, n: nat) -> (LoopState<T>, nat)
    decreases n,
{
    if n == 0 {
        (s, 0)
    } else {
        let (s1, asked) = changes(s, (n - 1) as nat);
        let (s2, read_now) = change_step(s1);
        (s2, if read_now { asked + 1 } else { asked })
    }
}

/// The state reached after `n` cancellations.
pub open spec fn cancels<T>(s: LoopState<T>, n: nat) -> LoopState<T>
    decreases n,
{
    if n == 0 {
        s
    } else {
        cancel_step(cancels(s, (n - 1) as nat)).0
    }
}

proof fn lemma_changes_while_idle<T>(s: LoopState<T>, n: nat)
    requires
        s.stage == Stage::Running,
        !s.pending,
        n >= 1,
    ensures
        changes(s, n) == (LoopState { stage: Stage::Running, pending: true, last: s.last }, 1nat),
    decreases n,
{
    if n > 1 {
        lemma_changes_while_idle(s, (n - 1) as nat);
    } else {
        assert(changes(s, 0) == (s, 0nat));
    }
}

/// One window, one update at most: however many change signals reach a running
/// task before its read is answered, they ask for exactly one read, and the
/// answer delivers one update carrying the previous value and the value read
/// when the read succeeds, and nothing, with the last value kept, when it fails.
pub proof fn lemma_one_update_per_window<T: Clone>(
    s: LoopState<T>,
    n: nat,
    read: Result<T, Error>,
    next: LoopState<T>,
    out: Option<UpdateEvent<T>>,
)
    requires
        s.stage == Stage::Running,
        !s.pending,
        n >= 1,
        reload_answered(changes(s, n).0, read, next, out),
    ensures
        changes(s, n).1 == 1,
        read matches Ok(v) ==> out == Some(UpdateEvent(s.last, v)) && cloned(v, next.last),
        read is Err ==> out is None && next.last == s.last,
        next.stage == Stage::Running,
        !next.pending,
{
    lemma_changes_while_idle(s, n);
}

/// Cancelling is idempotent: from any state, any positive number of
/// cancellations leaves the task where one leaves it, and none after the first
/// asks for anything.
pub proof fn lemma_cancel_idempotent<T>(s: LoopState<T>, n: nat)
    requires
        n >= 1,
    ensures
        cancels(s, n) == cancel_step(s).0,
        cancel_step(cancels(s, n)) == (cancels(s, n), false),
    decreases n,
{
    if n > 1 {
        lemma_cancel_idempotent(s, (n - 1) as nat);
    } else {
        assert(cancels(s, 0) == s);
    }
}

/// Cancellation leads to closure: a task that has not stopped, once cancelled
/// and its watch stopped, reaches the stopped stage, and the end of the watch
/// asks for the channel to close exactly then.
pub proof fn lemma_cancel_leads_to_close<T>(s: LoopState<T>)
    requires
        s.stage != Stage::Stopped,
    ensures
        watch_stopped_step(cancel_step(s).0).0.stage == Stage::Stopped,
        watch_stopped_step(cancel_step(s).0).1,
        watch_stopped_step(watch_stopped_step(cancel_step(s).0).0).1 == false,
{
}

/// The stopped stage is final: from it no signal, cancellation, end of watch or
/// answered read changes the state, asks for anything or delivers anything.
pub proof fn lemma_stopped_is_final<T: Clone>(
    s: LoopState<T>,
    read: Result<T, Error>,
    next: LoopState<T>,
    out: Option<UpdateEvent<T>>,
)
    requires
        s.stage == Stage::Stopped,
        reload_answered(s, read, next, out),
    ensures
        change_step(s) == (s, false),
        cancel_step(s) == (s, false),
        watch_stopped_step(s) == (s, false),
        next == s,
        out is None,
{
}

/// The reload task's state machine; the task performs what each step asks for.
pub struct ReloadLoop<T> {
    stage: Stage,
    pending: bool,
    last: T,
}

impl<T> View for ReloadLoop<T> {
    type V = LoopState<T>;

    closed spec fn view(&self) -> LoopState<T> {
        LoopState { stage: self.stage, pending: self.pending, last: self.last }
    }
}

impl<T: Clone> ReloadLoop<T> {
    /// A running task whose last value is the one read at construction.
    pub fn new(initial: T) -> (r: ReloadLoop<T>)
        ensures
            r@ == (LoopState { stage: Stage::Running, pending: false, last: initial }),
    {
        ReloadLoop { stage: Stage::Running, pending: false, last: initial }
    }

    pub fn stage(&self) -> (r: Stage)
        ensures
            r == self@.stage,
    {
        self.stage
    }

    /// The last value read successfully.
    pub fn last(&self) -> (r: &T)
        ensures
            *r == self@.last,
    {
        &self.last
    }

    /// A relevant change was detected; returns whether to read the file now.
    pub fn on_change(&mut self) -> (read_now: bool)
        ensures
            (final(self)@, read_now) == change_step(old(self)@),
    {
        if self.stage == Stage::Running && !self.pending {
            self.pending = true;
            true
        } else {
            false
        }
    }

    /// The outstanding read was answered; returns the update to deliver, if any.
    pub fn on_loaded(&mut self, read: Result<T, Error>) -> (out: Option<UpdateEvent<T>>)
        ensures
            reload_answered(old(self)@, read, final(self)@, out),
    {
        if !self.pending || self.stage == Stage::Stopped {
            return None;
        }
        self.pending = false;
        match read {
            Ok(v) => {
                let mut previous = v.clone();
                core::mem::swap(&mut self.last, &mut previous);
                Some(UpdateEvent(previous, v))
            },
            Err(_) => None,
        }
    }

    /// Cancellation was observed; returns whether to stop the watch now.
    pub fn on_cancel(&mut self) -> (stop_watch: bool)
        ensures
            (final(self)@, stop_watch) == cancel_step(old(self)@),
    {
        if self.stage == Stage::Running {
            self.stage = Stage::Draining;
            true
        } else {
            false
        }
    }

    /// The watch has stopped; returns whether to close the delivery channel now.
    pub fn on_watch_stopped(&mut self) -> (close: bool)
        ensures
            (final(self)@, close) == watch_stopped_step(old(self)@),
    {
        if self.stage == Stage::Draining {
            self.stage = Stage::Stopped;
            self.pending = false;
            true
        } else {
            false
        }
    }
}

} // verus!
