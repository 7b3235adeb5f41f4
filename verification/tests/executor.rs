use rust_hw::executor::{Action, BlockOn, Event, TaskQueue};

#[test]
fn task_queue_is_first_in_first_out() {
    let mut q = TaskQueue::new();
    q.push(1);
    q.push(2);
    q.push(3);
    assert_eq!(q.pop(), Some(1));
    q.push(4);
    assert_eq!(q.pop(), Some(2));
    assert_eq!(q.pop(), Some(3));
    assert_eq!(q.pop(), Some(4));
    assert_eq!(q.pop(), None);
}

#[test]
fn task_queue_with_capacity_starts_empty() {
    let mut q: TaskQueue<&str> = TaskQueue::new_with_capacity(2);
    assert_eq!(q.pop(), None);
    q.push("a");
    assert_eq!(q.pop(), Some("a"));
    assert_eq!(q.pop(), None);
}

#[test]
fn block_on_with_recheck() {
    let mut b = BlockOn::new(true);
    assert_eq!(b.step(Event::MainPending), Some(Action::NextTask));
    assert_eq!(b.step(Event::TaskRun), Some(Action::NextTask));
    assert_eq!(b.step(Event::QueueEmpty), Some(Action::PollMain));
    assert_eq!(b.step(Event::MainPending), Some(Action::Wait));
    assert_eq!(b.step(Event::Woken), Some(Action::PollMain));
    assert_eq!(b.step(Event::MainReady), Some(Action::Return));
    assert_eq!(b.step(Event::Woken), None);
}

#[test]
fn block_on_without_recheck_sleeps_after_drain() {
    let mut b = BlockOn::new(false);
    assert_eq!(b.step(Event::MainPending), Some(Action::NextTask));
    assert_eq!(b.step(Event::QueueEmpty), Some(Action::Wait));
    assert_eq!(b.step(Event::MainReady), None);
    assert_eq!(b.step(Event::Woken), Some(Action::PollMain));
}

#[test]
fn block_on_ready_at_first_poll() {
    let mut b = BlockOn::new(true);
    assert_eq!(b.step(Event::MainReady), Some(Action::Return));
}
