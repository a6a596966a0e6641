//! The blocking beam: the cell sits behind a `parking_lot` mutex, and a
//! receiver that has to wait sleeps on a condition variable.
//!
//! The two handles share one block. Each holds a stake in it, recorded in the
//! cell's status word, and gives the stake up when it is dropped, which every
//! handle is after its one operation.

use crate::shared::share;
use crate::state::ThreadBeamState;
use parking_lot::lock_api::Mutex;
use parking_lot::{Condvar, MutexGuard, RawMutex};
use std::sync::Arc;
use vstd::prelude::*;

verus! {

/// `lock_api::Mutex`, the type behind `parking_lot::Mutex`. Opaque here.
#[verifier::external_type_specification]
#[verifier::external_body]
#[verifier::reject_recursive_types(R)]
#[verifier::reject_recursive_types(T)]
pub struct ExMutex<R, T: ?Sized>(Mutex<R, T>);

/// `parking_lot::RawMutex`. Opaque here.
#[verifier::external_type_specification]
#[verifier::external_body]
pub struct ExRawMutex(RawMutex);

/// `parking_lot::Condvar`. Opaque here.
#[verifier::external_type_specification]
#[verifier::external_body]
pub struct ExCondvar(Condvar);

/// The block that the two handles of a beam share.
#[verifier::reject_recursive_types(T)]
pub struct ThreadBeamInner<T> {
    lock: Mutex<RawMutex, ThreadBeamState<T>>,
    cvar: Condvar,
}

/// A block's lock, held: a `parking_lot::MutexGuard` on the block's mutex
/// together with the block's own condition variable. The lock is given back
/// when the value is dropped. Only [`lock`] makes one, so the guard and the
/// condition variable always belong to one block.
#[verifier::external_body]
#[verifier::reject_recursive_types(T)]
pub struct Locked<'a, T> {
    guard: MutexGuard<'a, ThreadBeamState<T>>,
    cvar: &'a Condvar,
}

/// `lock_api::Mutex::new`: a mutex around `state`. Nothing is claimed of the
/// result: what a mutex holds is not visible to a proof.
#[verifier::external_body]
fn new_mutex<T>(state: ThreadBeamState<T>) -> Mutex<RawMutex, ThreadBeamState<T>> {
    Mutex::new(state)
}

/// `parking_lot::Condvar::new`: a condition variable with nobody waiting.
#[verifier::external_body]
fn new_condvar() -> Condvar {
    Condvar::new()
}

/// `lock_api::Mutex::lock`: blocks until the block's mutex is acquired. It
/// does not unwind: a `parking_lot` mutex is never poisoned. It would not
/// return on a thread that holds the lock already; every function here gives
/// the lock back before it ends, and none takes it twice. Nothing is claimed
/// of the cell that is found, which other threads may have changed.
#[verifier::external_body]
fn lock<'a, T>(inner: &'a ThreadBeamInner<T>) -> Locked<'a, T>
    opens_invariants none
    no_unwind
{
    Locked { guard: inner.lock.lock(), cvar: &inner.cvar }
}

/// `DerefMut::deref_mut` of the guard: the cell behind the held lock.
#[verifier::external_body]
fn state_mut<'a, 'b, T>(held: &'b mut Locked<'a, T>) -> &'b mut ThreadBeamState<T>
    opens_invariants none
    no_unwind
{
    &mut *held.guard
}

/// `parking_lot::Condvar::wait_while`: as long as
/// [`ThreadBeamState::must_wait`] says so, gives the lock back, sleeps until
/// notified and takes the lock again. It panics only when the condition
/// variable is in use with another mutex, which a [`Locked`] rules out.
/// Nothing is claimed of the cell that is found on return.
#[verifier::external_body]
fn wait_for_change<'a, T>(held: &mut Locked<'a, T>) {
    held.cvar.wait_while(&mut held.guard, |cell| cell.must_wait());
}

/// `parking_lot::Condvar::notify_all`: wakes every thread that waits on the
/// block's condition variable. It does not unwind.
#[verifier::external_body]
fn notify_all<T>(inner: &ThreadBeamInner<T>)
    opens_invariants none
    no_unwind
{
    inner.cvar.notify_all();
}

/// The sending side of a thread beam.
#[verifier::reject_recursive_types(T)]
pub struct ThreadBeamTx<T: Send> {
    inner: Arc<ThreadBeamInner<T>>,
}

/// The receiving side of a thread beam.
#[verifier::reject_recursive_types(T)]
pub struct ThreadBeamRx<T: Send> {
    inner: Arc<ThreadBeamInner<T>>,
}

impl<T: Send> ThreadBeamTx<T> {
    /// Whether this handle and `rx` hold their stakes in one and the same
    /// block.
    pub closed spec fn paired_with(self, rx: ThreadBeamRx<T>) -> bool {
        self.inner == rx.inner
    }

    /// Send a value to the receiving side of the thread beam.
    ///
    /// Never blocks beyond taking the lock and cannot fail. If the receiving
    /// side is gone already, the value is stored all the same and destroyed
    /// with the block.
    pub fn send(self, value: T) {
        let mut held = lock(&*self.inner);
        let cell = state_mut(&mut held);
        cell.put(value);
        notify_all(&*self.inner);
    }
}

impl<T: Send> Drop for ThreadBeamTx<T> {
    /// Gives up the sending side's stake and wakes a receiver that waits, so
    /// that it learns that nothing will come. The last holder tears the cell
    /// down.
    fn drop(&mut self)
        opens_invariants none
        no_unwind
    {
        let mut held = lock(&*self.inner);
        let cell = state_mut(&mut held);
        cell.close_tx();
        notify_all(&*self.inner);
    }
}

impl<T: Send> ThreadBeamRx<T> {
    /// Receive the value sent by the sending side of the thread beam.
    ///
    /// Blocks until a value is there or the sending side has been dropped.
    /// Returns `None` if the sending side of the thread beam has been dropped
    /// without sending.
    pub fn recv(self) -> Option<T> {
        let mut held = lock(&*self.inner);
        wait_for_change(&mut held);
        let cell = state_mut(&mut held);
        cell.take_data()
    }
}

impl<T: Send> Drop for ThreadBeamRx<T> {
    /// Gives up the receiving side's stake. The last holder tears the cell
    /// down.
    fn drop(&mut self)
        opens_invariants none
        no_unwind
    {
        let mut held = lock(&*self.inner);
        let cell = state_mut(&mut held);
        cell.close_rx();
    }
}

/// Creates a new thread beam channel pair: one block with both sides open
/// and an empty slot, and the two handles that share it.
pub fn channel<T: Send>() -> (pair: (ThreadBeamTx<T>, ThreadBeamRx<T>))
    ensures
        pair.0.paired_with(pair.1),
{
    let inner = Arc::new(
        ThreadBeamInner { lock: new_mutex(ThreadBeamState::new()), cvar: new_condvar() },
    );
    let other = share(&inner);
    (ThreadBeamTx { inner }, ThreadBeamRx { inner: other })
}

} // verus!
