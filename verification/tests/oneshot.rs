use syncprims::oneshot::Channel;

#[test]
fn oneshot_one_thread_should_work() {
    let mut channel = Channel::new();
    let (sender, receiver) = channel.split();
    sender.send(&mut channel, 1);
    assert!(receiver.is_ready(&channel));
    assert_eq!(receiver.receive(&mut channel), 1);
}

#[test]
fn oneshot_not_ready_before_send() {
    let mut channel = Channel::new();
    let (sender, receiver) = channel.split();
    assert!(!receiver.is_ready(&channel));
    sender.send(&mut channel, 5i32);
    assert!(receiver.is_ready(&channel));
}

#[test]
fn oneshot_split_resets_an_unread_message() {
    let mut channel = Channel::new();
    let (sender, _receiver) = channel.split();
    sender.send(&mut channel, 5i32);

    // A new round: the reset destroys the unread message, exactly as
    // teardown would, and a fresh exchange succeeds.
    let (sender2, receiver2) = channel.split();
    assert!(!receiver2.is_ready(&channel));
    sender2.send(&mut channel, 7);
    assert_eq!(receiver2.receive(&mut channel), 7);
}

#[test]
fn oneshot_message_is_taken_out_exactly_once() {
    let mut channel = Channel::new();
    let (sender, receiver) = channel.split();
    sender.send(&mut channel, String::from("once"));
    let got = receiver.receive(&mut channel);
    assert_eq!(got, "once");

    // The cell is empty again: a later round starts from scratch.
    let (_s, r) = channel.split();
    assert!(!r.is_ready(&channel));
}
