use syncprims::rwlock::read_step;
use syncprims::rwlock::write_step;
use syncprims::rwlock::ReadAction;
use syncprims::rwlock::RwLock;
use syncprims::rwlock::WriteAction;
use syncprims::rwmutex::RwMutex;

#[test]
fn rwlock_one_thread_should_work() {
    let mut rwl = RwLock::new(vec![1i32, 2, 3]);

    let r1 = rwl.read();
    assert_eq!(rwl.get(&r1).len(), 3);

    let r2 = rwl.read();
    assert_eq!(rwl.get(&r2).len(), 3);

    let _ = rwl.unlock_read(r1);
    let _ = rwl.unlock_read(r2);

    let w = rwl.write();
    rwl.get_mut(&w).push(4);
    rwl.unlock_write(w);

    let r3 = rwl.read();
    assert_eq!(rwl.get(&r3).len(), 4);
}

#[test]
fn rwlock_remutex_should_work() {
    let mut rw = RwLock::new(0i32);
    {
        let rg = rw.read();
        assert_eq!(*rw.get(&rg), 0);

        let rg2 = rw.read();
        assert_eq!(*rw.get(&rg2), 0);

        let _ = rw.unlock_read(rg);
        let _ = rw.unlock_read(rg2);
    }

    let wg = rw.write();
    *rw.get_mut(&wg) += 1;

    rw.unlock_write(wg);

    let rg3 = rw.read();
    assert_eq!(*rw.get(&rg3), 1)
}

#[test]
fn rwmutex_remutex_should_work() {
    let mut rw = RwMutex::new(0i32);
    {
        let rg = rw.read();
        assert_eq!(*rw.get(&rg), 0);

        let rg2 = rw.read();
        assert_eq!(*rw.get(&rg2), 0);

        let _ = rw.unlock_read(rg);
        let _ = rw.unlock_read(rg2);
    }

    let wg = rw.write();
    *rw.get_mut(&wg) += 1;

    rw.unlock_write(wg);

    let rg3 = rw.read();
    assert_eq!(*rw.get(&rg3), 1)
}

#[test]
fn late_reader_yields_to_waiting_writer() {
    let mut rwl = RwLock::new(vec![1i32]);

    // A reader holds the lock when a writer arrives and sets the low bit.
    let r1 = rwl.read();
    assert_eq!(rwl.observe(), 2);
    rwl.mark_writer_waiting();
    let s = rwl.observe();
    assert_eq!(s % 2, 1);

    // A reader arriving after the writer finds the word odd and must wait.
    assert_eq!(read_step(s), ReadAction::Wait);

    // The last reader leaving a word of exactly 3 wakes the writer.
    let wake_writer = rwl.unlock_read(r1);
    assert!(wake_writer);

    // The writer takes the lock and publishes its change.
    let w = rwl.write();
    rwl.get_mut(&w).push(2);
    rwl.unlock_write(w);

    // The late reader now acquires and observes the post-writer state.
    let r2 = rwl.read();
    assert_eq!(rwl.get(&r2).len(), 2);
}

#[test]
fn reader_departure_without_waiting_writer_wakes_nobody() {
    let mut rwl = RwLock::new(0i32);
    let r1 = rwl.read();
    let r2 = rwl.read();
    assert!(!rwl.unlock_read(r2));
    assert!(!rwl.unlock_read(r1));
}

#[test]
fn wake_counter_bump_is_undone_by_the_writer() {
    let mut rwl = RwLock::new(0i32);
    assert_eq!(rwl.observe_wake_counter(), 0);

    // A reader holds the lock, a writer marks itself waiting, and the last
    // reader's departure bumps the wake counter for it.
    let r = rwl.read();
    rwl.mark_writer_waiting();
    let wake = rwl.unlock_read(r);
    assert!(wake);
    assert_eq!(rwl.observe_wake_counter(), 1);

    // The writer's release undoes the pending bump.
    let w = rwl.write();
    rwl.unlock_write(w);
    assert_eq!(rwl.observe_wake_counter(), 0);
}

#[test]
fn read_step_decision_table() {
    assert_eq!(read_step(0), ReadAction::TryAcquire);
    assert_eq!(read_step(6), ReadAction::TryAcquire);
    assert_eq!(read_step(1), ReadAction::Wait);
    assert_eq!(read_step(7), ReadAction::Wait);
}

#[test]
fn write_step_decision_table() {
    assert_eq!(write_step(0), WriteAction::TryAcquire);
    assert_eq!(write_step(1), WriteAction::TryAcquire);
    assert_eq!(write_step(4), WriteAction::MarkWaiting);
    assert_eq!(write_step(5), WriteAction::CheckWakeCounterAndWait);
    assert_eq!(write_step(u32::MAX), WriteAction::CheckWakeCounterAndWait);
}
