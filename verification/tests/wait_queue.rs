use scull::wait::{WaitOutcome, WaitQueue, WaitStart, WaitStep, WakeEvent};

fn register(q: &mut WaitQueue, interruptible: bool) -> scull::wait::WaiterHandle {
    match q.prepare_wait(false, interruptible) {
        WaitStart::Registered(h) => h,
        WaitStart::Ready => panic!("a false condition must register a waiter"),
    }
}

#[test]
fn new_queue_is_empty() {
    let q = WaitQueue::try_new("test queue").unwrap();
    assert_eq!(q.len(), 0);
}

#[test]
fn fast_path_registers_nothing() {
    let mut q = WaitQueue::try_new("test queue").unwrap();
    match q.prepare_wait(true, true) {
        WaitStart::Ready => {}
        WaitStart::Registered(_) => panic!("a true condition must not register a waiter"),
    }
    assert_eq!(q.len(), 0);
}

#[test]
fn completed_wait_leaves_no_entry() {
    let mut q = WaitQueue::try_new("test queue").unwrap();
    let before = q.len();
    let h = register(&mut q, true);
    assert_eq!(q.len(), 1);
    match q.wait_step(h, true, WakeEvent::Woken) {
        WaitStep::Finish(WaitOutcome::Completed) => {}
        _ => panic!("a true condition must complete the wait"),
    }
    assert_eq!(q.len(), before);
}

#[test]
fn interrupted_wait_leaves_no_entry() {
    let mut q = WaitQueue::try_new("test queue").unwrap();
    let before = q.len();
    let h = register(&mut q, true);
    match q.wait_step(h, false, WakeEvent::Interruption) {
        WaitStep::Finish(WaitOutcome::Interrupted) => {}
        _ => panic!("an interruption of an interruptible wait must finish it"),
    }
    assert_eq!(q.len(), before);
}

#[test]
fn spurious_wake_blocks_again_without_leaving() {
    let mut q = WaitQueue::try_new("test queue").unwrap();
    let h = register(&mut q, true);
    let h = match q.wait_step(h, false, WakeEvent::Woken) {
        WaitStep::Block(h) => h,
        WaitStep::Finish(_) => panic!("a wake with a false condition must block again"),
    };
    assert_eq!(q.len(), 1);
    match q.wait_step(h, true, WakeEvent::Woken) {
        WaitStep::Finish(WaitOutcome::Completed) => {}
        _ => panic!("a true condition must complete the wait"),
    }
    assert_eq!(q.len(), 0);
}

#[test]
fn uninterruptible_wait_ignores_interruption() {
    let mut q = WaitQueue::try_new("test queue").unwrap();
    let h = register(&mut q, false);
    let h = match q.wait_step(h, false, WakeEvent::Interruption) {
        WaitStep::Block(h) => h,
        WaitStep::Finish(_) => panic!("an uninterruptible wait must ignore the interruption"),
    };
    match q.wait_step(h, true, WakeEvent::Woken) {
        WaitStep::Finish(WaitOutcome::Completed) => {}
        _ => panic!("a true condition must complete the wait"),
    }
}

#[test]
fn notify_on_empty_queue_is_a_noop() {
    let mut q = WaitQueue::try_new("test queue").unwrap();
    assert_eq!(q.notify(1), 0);
    assert_eq!(q.notify(0), 0);
    assert_eq!(q.len(), 0);
}

#[test]
fn notify_one_wakes_at_most_one_of_two() {
    let mut q = WaitQueue::try_new("test queue").unwrap();
    let h1 = register(&mut q, true);
    let h2 = register(&mut q, true);
    // One wake signals exactly one of the two suspended waiters ...
    assert_eq!(q.notify(1), 1);
    // ... so a second single wake still finds the other one suspended.
    assert_eq!(q.notify(1), 1);
    // And with both already runnable there is nothing left to signal.
    assert_eq!(q.notify(1), 0);
    assert_eq!(q.len(), 2);
    match q.wait_step(h1, true, WakeEvent::Woken) {
        WaitStep::Finish(WaitOutcome::Completed) => {}
        _ => panic!("a true condition must complete the wait"),
    }
    match q.wait_step(h2, true, WakeEvent::Woken) {
        WaitStep::Finish(WaitOutcome::Completed) => {}
        _ => panic!("a true condition must complete the wait"),
    }
    assert_eq!(q.len(), 0);
}

#[test]
fn notify_counts_only_suspended_waiters() {
    let mut q = WaitQueue::try_new("test queue").unwrap();
    let h1 = register(&mut q, true);
    let h2 = register(&mut q, true);
    let h3 = register(&mut q, true);
    assert_eq!(q.notify(2), 2);
    // Two of three are already runnable: a broad wake signals only the third.
    assert_eq!(q.notify(5), 1);
    for h in [h1, h2, h3] {
        match q.wait_step(h, true, WakeEvent::Woken) {
            WaitStep::Finish(WaitOutcome::Completed) => {}
            _ => panic!("a true condition must complete the wait"),
        }
    }
    assert_eq!(q.len(), 0);
}

#[test]
fn try_wake_signals_one() {
    let mut q = WaitQueue::try_new("test queue").unwrap();
    let h = register(&mut q, true);
    assert_eq!(q.try_wake(), 1);
    assert_eq!(q.try_wake(), 0);
    match q.wait_step(h, false, WakeEvent::Woken) {
        WaitStep::Block(h) => {
            // Re-blocking marks the entry suspended again, so it can be
            // signaled by a later wake.
            assert_eq!(q.try_wake(), 1);
            match q.wait_step(h, true, WakeEvent::Woken) {
                WaitStep::Finish(WaitOutcome::Completed) => {}
                _ => panic!("a true condition must complete the wait"),
            }
        }
        WaitStep::Finish(_) => panic!("a wake with a false condition must block again"),
    }
}
