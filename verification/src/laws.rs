//! What holds of a beam's cell whatever the two sides do, stated over
//! [`BeamView`] and proved from the transitions alone.

use crate::state::{BeamView, RecvStep};
use vstd::prelude::*;

verus! {

/// The receiving side of a fresh beam has to wait: nothing was sent and
/// nobody has hung up.
pub proof fn lemma_fresh_beam_waits<T>()
    ensures
        BeamView::<T>::initial().recv_step() is Wait,
{
}

/// A value sent into the empty slot is what a receiving side that still
/// holds its stake finds, whether the sending side is still there or has
/// closed after sending.
pub proof fn lemma_sent_value_is_received<T>(cell: BeamView<T>, value: T)
    requires
        cell.data is None,
        cell.rx_open,
    ensures
        cell.put(value).data == Some(value),
        cell.put(value).recv_step() == RecvStep::Value(value),
        cell.put(value).close_tx().data == Some(value),
        cell.put(value).close_tx().recv_step() == RecvStep::Value(value),
{
}

/// The receiving side waits exactly while the slot is empty and both sides
/// hold their stake. Whatever the cell was, it stops waiting once the sending
/// side has sent or has closed.
pub proof fn lemma_receiver_waits_only_for_an_open_sender<T>(cell: BeamView<T>, value: T)
    ensures
        cell.recv_step() is Wait <==> cell.data is None && cell.tx_open && cell.rx_open,
        !(cell.put(value).recv_step() is Wait),
        !(cell.close_tx().recv_step() is Wait),
{
}

/// Once the slot has been emptied, no value is found again, whether or not
/// the sending side closes in the meantime: what was sent is received once.
pub proof fn lemma_value_is_received_once<T>(cell: BeamView<T>)
    ensures
        !(cell.without_data().recv_step() is Value),
        !(cell.without_data().close_tx().recv_step() is Value),
{
}

/// A sending side that closes without having sent leaves a hang-up and no
/// value for the receiving side. This holds of every cell with an empty slot
/// whose receiving side is open, so both for a receiver that looks after the
/// close and for one that was waiting when it happened.
pub proof fn lemma_closed_sender_hangs_up<T>(cell: BeamView<T>)
    requires
        cell.data is None,
        cell.rx_open,
    ensures
        cell.close_tx().recv_step() is HungUp,
        cell.close_tx().data is None,
{
}

/// Sending after the receiving side has closed stores the value all the
/// same, and the sending side, which then closes as the last holder,
/// destroys it with the cell.
pub proof fn lemma_send_after_receiver_closed<T>(cell: BeamView<T>, value: T)
    requires
        cell.data is None,
        cell.tx_open,
    ensures
        cell.close_rx().put(value).data == Some(value),
        cell.close_rx().put(value).tx_is_last(),
        cell.close_rx().put(value).close_tx() == (BeamView::<T> {
            data: None,
            tx_open: false,
            rx_open: false,
        }),
{
}

/// Of the two releases exactly the second finds the other side gone, in
/// either order: one side tears the cell down, and only one.
pub proof fn lemma_last_release_is_second<T>(cell: BeamView<T>)
    requires
        cell.tx_open,
        cell.rx_open,
    ensures
        !cell.tx_is_last() && cell.release_tx().rx_is_last(),
        !cell.rx_is_last() && cell.release_rx().tx_is_last(),
{
}

/// Once both sides have closed, in either order, both stakes are released
/// and nothing is left in the slot: a value that was sent and never received
/// does not outlive the beam.
pub proof fn lemma_closed_beam_is_empty<T>(cell: BeamView<T>)
    ensures
        cell.close_tx().close_rx() == (BeamView::<T> {
            data: None,
            tx_open: false,
            rx_open: false,
        }),
        cell.close_rx().close_tx() == (BeamView::<T> {
            data: None,
            tx_open: false,
            rx_open: false,
        }),
{
}

/// A side that closes while the other still holds its stake leaves the slot
/// as it is: a pending value stays for the receiving side.
pub proof fn lemma_first_close_keeps_data<T>(cell: BeamView<T>)
    ensures
        cell.rx_open ==> cell.close_tx().data == cell.data,
        cell.tx_open ==> cell.close_rx().data == cell.data,
{
}

} // verus!
