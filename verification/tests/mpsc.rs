use syncprims::mpsc::unbounded;
use syncprims::mpsc::RecvError;
use syncprims::mpsc::SendError;

#[test]
fn channel_should_work() {
    let (mut sh, s, mut r) = unbounded();
    s.send(&mut sh, "hello world!".to_string()).unwrap();
    let msg = r.recv(&mut sh).unwrap();
    assert_eq!(msg, "hello world!");
}

#[test]
fn receiver_drop_should_error_when_send() {
    let (mut sh, s, r) = unbounded();
    let s1 = s.clone(&mut sh);
    let s2 = s.clone(&mut sh);
    let _ = s.close(&mut sh);
    r.close(&mut sh);

    assert!(s1.send(&mut sh, 1).is_err());
    assert!(s2.send(&mut sh, 2).is_err());
}

#[test]
fn channel_fast_path_should_work() {
    let (mut sh, s, mut r) = unbounded::<usize>();
    for i in 0..10usize {
        s.send(&mut sh, i).unwrap();
    }

    assert_eq!(r.total_cached_items(), 0);
    assert_eq!(0, r.recv(&mut sh).unwrap());
    // The remainder was swapped into the receiver's cache in one move.
    assert_eq!(9, r.total_cached_items());
    assert_eq!(0, s.total_queued_items(&mut sh));
    for idx in 0..9usize {
        let i = r.recv(&mut sh).unwrap();
        assert_eq!(idx + 1, i);
    }
}

#[test]
fn three_senders_lose_and_duplicate_nothing() {
    let (mut sh, s, mut r) = unbounded::<i32>();
    let s1 = s.clone(&mut sh);
    let s2 = s.clone(&mut sh);

    s.send(&mut sh, 1).unwrap();
    s1.send(&mut sh, 2).unwrap();
    s2.send(&mut sh, 3).unwrap();

    let mut result = [
        r.recv(&mut sh).unwrap(),
        r.recv(&mut sh).unwrap(),
        r.recv(&mut sh).unwrap(),
    ];
    // No order is promised across senders; the set must be exact.
    result.sort();
    assert_eq!(result, [1, 2, 3]);
}

#[test]
fn recv_reports_closure_once_senders_are_gone() {
    let (mut sh, s, mut r) = unbounded::<i32>();
    s.send(&mut sh, 1).unwrap();
    let wake = s.close(&mut sh);
    assert!(!wake);

    // Queued items are still drained after the last sender left.
    assert_eq!(r.recv(&mut sh).unwrap(), 1);
    assert_eq!(r.recv(&mut sh), Err(RecvError::NoSender));
}

#[test]
fn send_reports_closure_once_receiver_is_gone() {
    let (mut sh, s, r) = unbounded::<i32>();
    r.close(&mut sh);
    assert_eq!(s.send(&mut sh, 9), Err(SendError::NoReceiver));
}

#[test]
fn liveness_counts_follow_clone_and_close() {
    let (mut sh, s, r) = unbounded::<i32>();
    assert_eq!(s.total_receivers(&sh), 1);
    assert_eq!(r.total_senders(&sh), 1);

    let s2 = s.clone(&mut sh);
    assert_eq!(r.total_senders(&sh), 2);

    let _ = s2.close(&mut sh);
    assert_eq!(r.total_senders(&sh), 1);
}
