//! The spinning beam, for targets without a blocking primitive: the cell
//! sits behind a `spin` mutex, and a receiver that has to wait looks again.
//!
//! Receiving is offered as one look at the cell, [`ThreadBeamRx::try_recv`].
//! A caller that wants to wait calls it again, with a spin hint in between,
//! until it gets an answer.

use crate::shared::share;
use crate::state::{RecvStep, ThreadBeamState};
use spin::mutex::{Mutex, MutexGuard};
use spin::relax::Spin;
use std::sync::Arc;
use vstd::prelude::*;

verus! {

/// `spin::mutex::Mutex`. Opaque here.
#[verifier::external_type_specification]
#[verifier::external_body]
#[verifier::reject_recursive_types(T)]
#[verifier::reject_recursive_types(R)]
pub struct ExMutex<T: ?Sized, R>(Mutex<T, R>);

/// `spin::mutex::MutexGuard`. Opaque here.
#[verifier::external_type_specification]
#[verifier::external_body]
#[verifier::reject_recursive_types(T)]
pub struct ExMutexGuard<'a, T: 'a + ?Sized>(MutexGuard<'a, T>);

/// `spin::relax::Spin`, the strategy by which a contended lock is retried.
/// Opaque here.
#[verifier::external_type_specification]
#[verifier::external_body]
pub struct ExSpin(Spin);

/// The block that the two handles of a beam share.
#[verifier::reject_recursive_types(T)]
pub struct ThreadBeamInner<T> {
    lock: Mutex<ThreadBeamState<T>, Spin>,
}

/// `spin::mutex::Mutex::new`: a mutex around `state`. Nothing is claimed of
/// the result: what a mutex holds is not visible to a proof.
#[verifier::external_body]
fn new_mutex<T>(state: ThreadBeamState<T>) -> Mutex<ThreadBeamState<T>, Spin> {
    Mutex::new(state)
}

/// `spin::mutex::Mutex::lock`: spins until the block's mutex is acquired.
/// It does not unwind. It would not return on a thread that holds the lock
/// already; every function here gives the lock back before it ends, and none
/// takes it twice. Nothing is claimed of the cell that is found, which other
/// threads may have changed.
#[verifier::external_body]
fn lock<'a, T>(inner: &'a ThreadBeamInner<T>) -> MutexGuard<'a, ThreadBeamState<T>>
    opens_invariants none
    no_unwind
{
    inner.lock.lock()
}

/// `DerefMut::deref_mut` of the guard: the cell behind the held lock.
#[verifier::external_body]
fn state_mut<'a, 'b, T>(held: &'b mut MutexGuard<'a, ThreadBeamState<T>>) -> &'b mut ThreadBeamState<T>
    opens_invariants none
    no_unwind
{
    &mut **held
}

/// The sending side of a thread beam.
#[verifier::reject_recursive_types(T)]
pub struct ThreadBeamTx<T: Send> {
    inner: Arc<ThreadBeamInner<T>>,
}

/// The receiving side of a thread beam.
#[verifier::reject_recursive_types(T)]
pub struct ThreadBeamRx<T: Send> {
    inner: Arc<ThreadBeamInner<T>>,
}

impl<T: Send> ThreadBeamTx<T> {
    /// Whether this handle and `rx` hold their stakes in one and the same
    /// block.
    pub closed spec fn paired_with(self, rx: ThreadBeamRx<T>) -> bool {
        self.inner == rx.inner
    }

    /// Send a value to the receiving side of the thread beam.
    ///
    /// Cannot fail. If the receiving side is gone already, the value is
    /// stored all the same and destroyed with the block.
    pub fn send(self, value: T) {
        let mut held = lock(&*self.inner);
        let cell = state_mut(&mut held);
        cell.put(value);
    }
}

impl<T: Send> Drop for ThreadBeamTx<T> {
    /// Gives up the sending side's stake. The last holder tears the cell
    /// down.
    fn drop(&mut self)
        opens_invariants none
        no_unwind
    {
        let mut held = lock(&*self.inner);
        let cell = state_mut(&mut held);
        cell.close_tx();
    }
}

impl<T: Send> ThreadBeamRx<T> {
    /// One look at the cell, without waiting. `Ok` holds the answer: the
    /// value that was sent, or `None` if the sending side has been dropped
    /// without sending. `Err` gives the handle back: nothing has been sent
    /// yet and the sending side is still there.
    pub fn try_recv(self) -> (out: Result<Option<T>, ThreadBeamRx<T>>)
        ensures
            out is Err ==> out == Err::<Option<T>, ThreadBeamRx<T>>(self),
    {
        let step = {
            let mut held = lock(&*self.inner);
            let cell = state_mut(&mut held);
            cell.poll()
        };
        recv_outcome(step, self)
    }
}

impl<T: Send> Drop for ThreadBeamRx<T> {
    /// Gives up the receiving side's stake. The last holder tears the cell
    /// down.
    fn drop(&mut self)
        opens_invariants none
        no_unwind
    {
        let mut held = lock(&*self.inner);
        let cell = state_mut(&mut held);
        cell.close_rx();
    }
}

/// What a look at the cell means to the caller: a value or a hang-up ends
/// the receiving, and on a wait the handle goes back for another look.
pub fn recv_outcome<T: Send>(step: RecvStep<T>, rx: ThreadBeamRx<T>) -> (out: Result<
    Option<T>,
    ThreadBeamRx<T>,
>)
    ensures
        out == match step {
            RecvStep::Value(value) => Ok::<Option<T>, ThreadBeamRx<T>>(Some(value)),
            RecvStep::HungUp => Ok(None),
            RecvStep::Wait => Err(rx),
        },
{
    match step {
        RecvStep::Value(value) => Ok(Some(value)),
        RecvStep::HungUp => Ok(None),
        RecvStep::Wait => Err(rx),
    }
}

/// Creates a new thread beam channel pair: one block with both sides open
/// and an empty slot, and the two handles that share it.
pub fn channel<T: Send>() -> (pair: (ThreadBeamTx<T>, ThreadBeamRx<T>))
    ensures
        pair.0.paired_with(pair.1),
{
    let inner = Arc::new(ThreadBeamInner { lock: new_mutex(ThreadBeamState::new()) });
    let other = share(&inner);
    (ThreadBeamTx { inner }, ThreadBeamRx { inner: other })
}

} // verus!
