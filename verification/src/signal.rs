//! The decisions of a one-waiter wake-up signal.
//!
//! A signal is `Empty`, `Waiting` (a waiter is blocked on it) or `Notified`
//! (a wake-up arrived while nobody waited). The caller keeps a `Signal` under
//! a lock, asks it what to do on `wait` and `notify`, and does the blocking
//! and waking itself.
use vstd::prelude::*;

verus! {

/// The state of a signal.
#[derive(Clone, Copy, Debug, PartialEq, Eq, Structural)]
pub enum State {
    Empty,
    Waiting,
    Notified,
}

/// What a waiter does after announcing that it waits.
#[derive(Clone, Copy, Debug, PartialEq, Eq, Structural)]
pub enum WaitStep {
    /// A wake-up was already there: return at once.
    Proceed,
    /// Block until the state leaves `Waiting`.
    Block,
}

/// The state after `wait` is called in state `s` (with no waiter blocked).
pub open spec fn wait_next(s: State) -> State {
    match s {
        State::Notified => State::Empty,
        _ => State::Waiting,
    }
}

/// What `wait` decides in state `s` (with no waiter blocked).
pub open spec fn wait_step(s: State) -> WaitStep {
    match s {
        State::Notified => WaitStep::Proceed,
        _ => WaitStep::Block,
    }
}

/// The state after `notify` is called in state `s`.
pub open spec fn notify_next(s: State) -> State {
    match s {
        State::Notified => State::Notified,
        State::Waiting => State::Empty,
        State::Empty => State::Notified,
    }
}

/// Whether `notify` in state `s` must wake the blocked waiter.
pub open spec fn notify_wakes(s: State) -> bool {
    s == State::Waiting
}

/// A wake-up signal for a single waiter.
pub struct Signal {
    state: State,
}

impl Signal {
    /// The current state.
    pub closed spec fn state(&self) -> State {
        self.state
    }

    /// A signal with nothing pending.
    pub fn new() -> (s: Signal)
        ensures
            s.state() == State::Empty,
    {
        Signal { state: State::Empty }
    }

    /// Announces a waiter: consumes a pending wake-up (`Proceed`), or moves to
    /// `Waiting` (`Block`). A second waiter while one is blocked is a usage
    /// error, which `requires` leaves out.
    pub fn wait(&mut self) -> (r: WaitStep)
        requires
            old(self).state() != State::Waiting,
        ensures
            r == wait_step(old(self).state()),
            final(self).state() == wait_next(old(self).state()),
    {
        match self.state {
            State::Notified => {
                self.state = State::Empty;
                WaitStep::Proceed
            },
            _ => {
                self.state = State::Waiting;
                WaitStep::Block
            },
        }
    }

    /// Whether a blocked waiter must keep blocking.
    pub fn is_waiting(&self) -> (r: bool)
        ensures
            r == (self.state() == State::Waiting),
    {
        match self.state {
            State::Waiting => true,
            _ => false,
        }
    }

    /// Delivers a wake-up: a blocked waiter is released (the result is `true`
    /// and the caller must wake it), otherwise the wake-up is kept pending.
    pub fn notify(&mut self) -> (r: bool)
        ensures
            r == notify_wakes(old(self).state()),
            final(self).state() == notify_next(old(self).state()),
    {
        match self.state {
            State::Notified => false,
            State::Waiting => {
                self.state = State::Empty;
                true
            },
            State::Empty => {
                self.state = State::Notified;
                false
            },
        }
    }
}

/// A wake-up is never lost: when no waiter is blocked, a `notify` makes the
/// next `wait` return at once and leaves nothing pending; when a waiter is
/// blocked, the `notify` wakes it and it stops blocking.
pub proof fn law_notify_not_lost(s: State)
    ensures
        s != State::Waiting ==> wait_step(notify_next(s)) == WaitStep::Proceed && wait_next(
            notify_next(s),
        ) == State::Empty,
        s == State::Waiting ==> notify_wakes(s) && notify_next(s) != State::Waiting,
{
}

/// Wake-ups do not pile up: with no waiter blocked, notifying twice leaves
/// the state that notifying once leaves (one pending wake-up), and a second
/// `notify` never wakes a waiter.
pub proof fn law_notify_idempotent(s: State)
    ensures
        s != State::Waiting ==> notify_next(notify_next(s)) == notify_next(s) && notify_next(s)
            == State::Notified,
        !notify_wakes(notify_next(s)),
{
}

/// A waiter that found nothing pending blocks, and the next `notify`
/// releases it, leaving the signal empty.
pub proof fn law_wait_then_notify(s: State)
    requires
        s == State::Empty,
    ensures
        wait_step(s) == WaitStep::Block,
        notify_wakes(wait_next(s)),
        notify_next(wait_next(s)) == State::Empty,
{
}

} // verus!
