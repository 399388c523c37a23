use syncprims::spinlock::SpinLock;

#[test]
fn spinlock_one_thread_should_work() {
    let mut spinlock = SpinLock::new(0i32);
    let a = spinlock.lock();
    *spinlock.get_mut(&a) += 1;
    spinlock.unlock(a);

    let b = spinlock.lock();
    assert_eq!(*spinlock.get(&b), 1);
}

#[test]
fn spinlock_protects_a_vector() {
    let mut spinlock = SpinLock::new(vec![1i32, 2]);
    let g = spinlock.lock();
    spinlock.get_mut(&g).push(3);
    assert_eq!(spinlock.get(&g).len(), 3);
    spinlock.unlock(g);
}
