use syncprims::mutex::lock_contended;
use syncprims::mutex::LockAction;
use syncprims::mutex::Mutex;
use syncprims::mutex::SPIN_LIMIT;

#[test]
fn mutex_one_thread_should_work() {
    let mut l = Mutex::new(vec![]);
    let guard = l.lock();
    l.get_mut(&guard).push(1);
    let _ = l.unlock(guard);

    let guard = l.lock();
    assert_eq!(l.get(&guard)[0], 1);
}

#[test]
fn mutex_counter_reaches_n_times_m() {
    // Ten rounds of a thousand protected increments each: the counter ends
    // at exactly their product.
    let mut l = Mutex::new(0i64);
    for _round in 0..10i32 {
        for _step in 0..1000i32 {
            let guard = l.lock();
            *l.get_mut(&guard) += 1;
            let _ = l.unlock(guard);
        }
    }
    let guard = l.lock();
    assert_eq!(*l.get(&guard), 10 * 1000);
}

#[test]
fn contended_unlock_wakes_one_waiter() {
    let mut l = Mutex::new(0i32);
    let guard = l.lock();
    assert_eq!(l.observe(), 1);

    // A contender that gives up spinning marks the word.
    l.mark_contended();
    assert_eq!(l.observe(), 2);

    // Releasing from the contended word owes one wakeup.
    let wake = l.unlock(guard);
    assert!(wake);

    // Releasing from the quiet word owes none.
    let guard = l.lock();
    let wake = l.unlock(guard);
    assert!(!wake);
}

#[test]
fn mark_contended_needs_a_holder() {
    // The best-effort swap from 1 to 2 leaves an unlocked word alone.
    let mut l = Mutex::new(0i32);
    assert_eq!(l.observe(), 0);
    l.mark_contended();
    assert_eq!(l.observe(), 0);
}

#[test]
fn lock_contended_decision_table() {
    assert_eq!(lock_contended(1, 0), LockAction::Spin);
    assert_eq!(lock_contended(1, SPIN_LIMIT - 1), LockAction::Spin);
    assert_eq!(lock_contended(1, SPIN_LIMIT), LockAction::MarkContendedAndWait);
    assert_eq!(lock_contended(2, 0), LockAction::Wait);
    assert_eq!(lock_contended(2, SPIN_LIMIT), LockAction::Wait);
}
