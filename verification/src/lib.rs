//! Shared-memory concurrency primitives, written as explicit verified state
//! machines: an atomically reference-counted pointer with weak references, a
//! spin lock, a blocking mutex, a condition variable, a reader-writer lock
//! with writer-starvation avoidance, an unbounded multi-producer /
//! single-consumer channel, and a one-shot channel.
//!
//! Each primitive is a small state machine over one or two integer words, the
//! same words a running implementation manipulates with atomic operations.
//! The state transitions, their enabling conditions, and the wakeup decisions
//! are verified here; the blocking itself (a futex-style wait/wake service)
//! is an external collaborator that a runtime shell drives using the decision
//! functions exported by these modules.

pub mod arc;
pub mod channel;
pub mod condvar;
pub mod mpsc;
pub mod mutex;
pub mod oneshot;
pub mod rwlock;
pub mod rwmutex;
pub mod spinlock;

pub use arc::Arc;
pub use arc::ArcData;
pub use arc::Weak;
pub use condvar::Condvar;
pub use mpsc::unbounded;
pub use mpsc::Receiver as MPSCReceiver;
pub use mpsc::Sender as MPSCSender;
pub use mutex::Mutex;
pub use mutex::MutexGuard;
pub use oneshot::Channel;
pub use oneshot::Receiver as OneShotReceiver;
pub use oneshot::Sender as OneShotSender;
pub use rwlock::ReadGuard;
pub use rwlock::RwLock;
pub use rwlock::WriteGuard;
pub use spinlock::Guard;
pub use spinlock::SpinLock;
