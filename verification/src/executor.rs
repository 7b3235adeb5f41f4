//! The run queue of an executor and the decisions of its `block_on` loop.
//!
//! The loop polls the main future, runs the queued tasks, and sleeps on a
//! signal until woken. Polling, running and sleeping are the caller's work;
//! [`BlockOn::step`] says, after each of them, what comes next.
use vstd::prelude::*;
use std::collections::VecDeque;

verus! {

/// The number of tasks that [`TaskQueue::new`] makes room for.
pub const DEFAULT_TASK_QUEUE_SIZE: usize = 4096;

/// A first-in first-out queue of tasks.
pub struct TaskQueue<T> {
    queue: VecDeque<T>,
}

impl<T> View for TaskQueue<T> {
    type V = Seq<T>;

    closed spec fn view(&self) -> Seq<T> {
        self.queue@
    }
}

/// The queue and the task that a pop on `q` gives.
pub open spec fn pop_spec<T>(q: Seq<T>) -> (Seq<T>, Option<T>) {
    if q.len() == 0 {
        (q, None)
    } else {
        (q.drop_first(), Some(q[0]))
    }
}

impl<T> TaskQueue<T> {
    /// An empty queue with room for [`DEFAULT_TASK_QUEUE_SIZE`] tasks.
    pub fn new() -> (q: Self)
        ensures
            q@ == Seq::<T>::empty(),
    {
        Self::new_with_capacity(DEFAULT_TASK_QUEUE_SIZE)
    }

    /// An empty queue with room for `capacity` tasks.
    pub fn new_with_capacity(capacity: usize) -> (q: Self)
        ensures
            q@ == Seq::<T>::empty(),
    {
        TaskQueue { queue: VecDeque::with_capacity(capacity) }
    }

    /// Adds a task at the back.
    pub fn push(&mut self, runnable: T)
        ensures
            final(self)@ == old(self)@.push(runnable),
    {
        self.queue.push_back(runnable);
    }

    /// Takes the task at the front, if any.
    pub fn pop(&mut self) -> (r: Option<T>)
        ensures
            (final(self)@, r) == pop_spec(old(self)@),
    {
        let r = self.queue.pop_front();
        proof {
            if old(self)@.len() > 0 {
                assert(self@ =~= old(self)@.drop_first());
            }
        }
        r
    }
}

/// Tasks leave in the order they came: a pop after a push gives the pushed
/// task when the queue was empty, and otherwise the front task, with the
/// pushed one kept at the back.
pub proof fn law_fifo<T>(q: Seq<T>, x: T)
    ensures
        pop_spec(q.push(x)) == (if q.len() == 0 {
            (Seq::<T>::empty(), Some(x))
        } else {
            (q.drop_first().push(x), Some(q[0]))
        }),
{
    if q.len() == 0 {
        assert(q.push(x).drop_first() =~= Seq::<T>::empty());
    } else {
        assert(q.push(x).drop_first() =~= q.drop_first().push(x));
    }
}

/// Where the `block_on` loop stands.
#[derive(Clone, Copy, Debug, PartialEq, Eq, Structural)]
pub enum Phase {
    /// The main future is about to be polled.
    PollMain,
    /// Queued tasks are being taken and run.
    Drain,
    /// The main future is polled again after the queue ran empty.
    Recheck,
    /// The loop sleeps until the signal wakes it.
    Parked,
    /// The main future completed.
    Finished,
}

/// What the caller reports after doing the last action.
#[derive(Clone, Copy, Debug, PartialEq, Eq, Structural)]
pub enum Event {
    /// The main future returned its output.
    MainReady,
    /// The main future is not ready yet.
    MainPending,
    /// A queued task was taken and run.
    TaskRun,
    /// The queue held no task.
    QueueEmpty,
    /// The signal woke the loop.
    Woken,
}

/// What the caller does next.
#[derive(Clone, Copy, Debug, PartialEq, Eq, Structural)]
pub enum Action {
    /// Poll the main future.
    PollMain,
    /// Take the next queued task and run it.
    NextTask,
    /// Sleep on the signal.
    Wait,
    /// Return the main future's output.
    Return,
}

/// Whether `e` can follow the action that was asked for in phase `p`.
pub open spec fn accepts(p: Phase, e: Event) -> bool {
    match p {
        Phase::PollMain | Phase::Recheck => e == Event::MainReady || e == Event::MainPending,
        Phase::Drain => e == Event::TaskRun || e == Event::QueueEmpty,
        Phase::Parked => e == Event::Woken,
        Phase::Finished => false,
    }
}

/// The next phase and action after event `e` in phase `p`; with `recheck`
/// the main future is polled once more when the queue ran empty, before
/// the loop sleeps.
pub open spec fn step_spec(recheck: bool, p: Phase, e: Event) -> (Phase, Action)
    recommends
        accepts(p, e),
{
    match (p, e) {
        (Phase::PollMain, Event::MainReady) => (Phase::Finished, Action::Return),
        (Phase::PollMain, _) => (Phase::Drain, Action::NextTask),
        (Phase::Drain, Event::TaskRun) => (Phase::Drain, Action::NextTask),
        (Phase::Drain, _) => if recheck {
            (Phase::Recheck, Action::PollMain)
        } else {
            (Phase::Parked, Action::Wait)
        },
        (Phase::Recheck, Event::MainReady) => (Phase::Finished, Action::Return),
        (Phase::Recheck, _) => (Phase::Parked, Action::Wait),
        (_, _) => (Phase::PollMain, Action::PollMain),
    }
}

/// The decisions of one `block_on` run.
pub struct BlockOn {
    phase: Phase,
    recheck: bool,
}

impl BlockOn {
    /// The current phase.
    pub closed spec fn phase(&self) -> Phase {
        self.phase
    }

    /// Whether the main future is polled again when the queue runs empty.
    pub closed spec fn rechecks(&self) -> bool {
        self.recheck
    }

    /// A run that starts by polling the main future.
    pub fn new(recheck_after_drain: bool) -> (b: BlockOn)
        ensures
            b.phase() == Phase::PollMain,
            b.rechecks() == recheck_after_drain,
    {
        BlockOn { phase: Phase::PollMain, recheck: recheck_after_drain }
    }

    /// Takes the outcome of the last action and says what to do next;
    /// `None`, with nothing changed, when the event cannot follow it.
    pub fn step(&mut self, e: Event) -> (r: Option<Action>)
        ensures
            final(self).rechecks() == old(self).rechecks(),
            accepts(old(self).phase(), e) ==> {
                let (p, a) = step_spec(old(self).rechecks(), old(self).phase(), e);
                final(self).phase() == p && r == Some(a)
            },
            !accepts(old(self).phase(), e) ==> r is None && final(self).phase() == old(
                self,
            ).phase(),
    {
        let (p, a) = match (self.phase, e) {
            (Phase::PollMain, Event::MainReady) => (Phase::Finished, Action::Return),
            (Phase::PollMain, Event::MainPending) => (Phase::Drain, Action::NextTask),
            (Phase::Drain, Event::TaskRun) => (Phase::Drain, Action::NextTask),
            (Phase::Drain, Event::QueueEmpty) => {
                if self.recheck {
                    (Phase::Recheck, Action::PollMain)
                } else {
                    (Phase::Parked, Action::Wait)
                }
            },
            (Phase::Recheck, Event::MainReady) => (Phase::Finished, Action::Return),
            (Phase::Recheck, Event::MainPending) => (Phase::Parked, Action::Wait),
            (Phase::Parked, Event::Woken) => (Phase::PollMain, Action::PollMain),
            _ => {
                return None;
            },
        };
        self.phase = p;
        Some(a)
    }
}

/// A run that does not recheck never enters the recheck phase.
pub proof fn law_recheck_phase_only_when_rechecking(p: Phase, e: Event)
    requires
        accepts(p, e),
    ensures
        step_spec(false, p, e).0 != Phase::Recheck,
{
}

/// The loop returns only right after the main future reported its output,
/// and once finished it takes no further event.
pub proof fn law_return_only_when_ready(recheck: bool, p: Phase, e: Event)
    requires
        accepts(p, e),
    ensures
        step_spec(recheck, p, e).1 == Action::Return <==> e == Event::MainReady,
        step_spec(recheck, p, e).1 == Action::Return ==> !accepts(
            step_spec(recheck, p, e).0,
            e,
        ),
{
}

/// The loop sleeps only once the queue was found empty (and, in a run that
/// rechecks, once the main future was polled again after that and was still
/// pending); a wake-up always leads to polling the main future.
pub proof fn law_sleep_only_when_idle(recheck: bool, p: Phase, e: Event)
    requires
        accepts(p, e),
    ensures
        step_spec(recheck, p, e).1 == Action::Wait ==> (!recheck && p == Phase::Drain && e
            == Event::QueueEmpty) || (p == Phase::Recheck && e == Event::MainPending),
        p == Phase::Parked ==> step_spec(recheck, p, e) == (Phase::PollMain, Action::PollMain),
{
}

} // verus!
