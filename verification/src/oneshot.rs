use vstd::prelude::*;

verus! {

use core::marker::PhantomData;

/// A channel that transfers exactly one value.
///
/// The channel is a storage cell for one message plus a readiness flag. The
/// sender writes the message and then publishes the flag (release ordering
/// in a running implementation); the receiver checks the flag (acquire) and
/// takes the message out exactly once. The flag gates both access and
/// destruction: on teardown the cell still owns the message only if it was
/// written but never read, which holding it as an optional value makes
/// literal here.
pub struct Channel<T> {
    message: Option<T>,
    ready: bool,
}

/// The sending side. It is consumed by [`Sender::send`], so each side can
/// send at most once per [`Channel::split`].
pub struct Sender<T> {
    _marker: PhantomData<T>,
}

/// The receiving side. It is consumed by [`Receiver::receive`], so the
/// message is taken out at most once.
pub struct Receiver<T> {
    _marker: PhantomData<T>,
}

impl<T> Channel<T> {
    /// The message cell.
    pub closed spec fn message(&self) -> Option<T> {
        self.message
    }

    /// The readiness flag.
    pub closed spec fn ready(&self) -> bool {
        self.ready
    }

    /// The flag mirrors the cell: a message is stored exactly while the
    /// channel is ready.
    pub open spec fn wf(&self) -> bool {
        self.ready() <==> self.message() is Some
    }

    pub fn new() -> (r: Self)
        ensures
            r.wf(),
            !r.ready(),
            r.message() is None,
    {
        Channel { message: None, ready: false }
    }

    /// Reset the channel and hand out the two sides. An unread message from
    /// an earlier round is destroyed here, exactly as teardown would
    /// destroy it.
    pub fn split(&mut self) -> (r: (Sender<T>, Receiver<T>))
        ensures
            final(self).wf(),
            !final(self).ready(),
            final(self).message() is None,
    {
        self.message = None;
        self.ready = false;
        (Sender { _marker: PhantomData }, Receiver { _marker: PhantomData })
    }
}

impl<T> Sender<T> {
    /// Send the one message: store it, then publish readiness. A second
    /// send on the same channel is a caller fault that a running
    /// implementation traps on, so the transition is only enabled while
    /// the cell is empty; this sender is consumed either way.
    pub fn send(self, ch: &mut Channel<T>, message: T)
        requires
            old(ch).wf(),
            !old(ch).ready(),
        ensures
            final(ch).wf(),
            final(ch).ready(),
            final(ch).message() == Some(message),
    {
        ch.message = Some(message);
        ch.ready = true;
    }
}

impl<T> Receiver<T> {
    /// Whether the message has been sent. Advisory only: a relaxed read in
    /// a running implementation, not a synchronization point.
    pub fn is_ready(&self, ch: &Channel<T>) -> (r: bool)
        ensures
            r == ch.ready(),
    {
        ch.ready
    }

    /// Take the message out, exactly once; the receiver is consumed.
    /// Receiving before readiness is a caller fault that a running polling
    /// implementation traps on, so the transition is only enabled once the
    /// channel is ready.
    pub fn receive(self, ch: &mut Channel<T>) -> (message: T)
        requires
            old(ch).wf(),
            old(ch).ready(),
        ensures
            final(ch).wf(),
            !final(ch).ready(),
            final(ch).message() is None,
            Some(message) == old(ch).message(),
    {
        ch.ready = false;
        match ch.message.take() {
            Some(message) => message,
            None => unreached(),
        }
    }
}

impl<T> Default for Channel<T> {
    fn default() -> (r: Self)
        ensures
            r.wf(),
            !r.ready(),
            r.message() is None,
    {
        Channel::new()
    }
}

} // verus!
