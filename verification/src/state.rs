//! The shared cell of a beam: one value slot and a packed status word.
//!
//! Every function here assumes that the caller holds the lock that guards
//! the cell; none of them blocks.

use vstd::prelude::*;

verus! {

/// Status bit: the slot holds a value that was sent and not yet received.
pub const HAS_DATA: u8 = 0b1000_0000;

/// Status bit: the sending side still holds its stake in the cell.
pub const TX: u8 = 0b0100_0000;

/// Status bit: the receiving side still holds its stake in the cell.
pub const RX: u8 = 0b0010_0000;

/// What the receiving side finds when it looks at the cell.
pub enum RecvStep<T> {
    /// A value was pending.
    Value(T),
    /// Nothing is pending and a side has released its stake: nothing will
    /// arrive any more.
    HungUp,
    /// Nothing is pending and both sides are open: the value may still come.
    Wait,
}

/// What a shared cell holds, as a plain value.
pub struct BeamView<T> {
    /// The value in the slot, if one is pending.
    pub data: Option<T>,
    /// Whether the sending side has not yet released its stake.
    pub tx_open: bool,
    /// Whether the receiving side has not yet released its stake.
    pub rx_open: bool,
}

impl<T> BeamView<T> {
    /// The cell of a freshly created beam: both sides open, nothing in the slot.
    pub open spec fn initial() -> Self {
        BeamView { data: None, tx_open: true, rx_open: true }
    }

    /// At least one side has released its stake.
    pub open spec fn hung_up(self) -> bool {
        !(self.tx_open && self.rx_open)
    }

    /// The cell after `value` was stored in the slot.
    pub open spec fn with_data(self, value: T) -> Self {
        BeamView { data: Some(value), ..self }
    }

    /// The cell after the slot was emptied.
    pub open spec fn without_data(self) -> Self {
        BeamView { data: None, ..self }
    }

    /// The cell after the sending side released its stake.
    pub open spec fn release_tx(self) -> Self {
        BeamView { tx_open: false, ..self }
    }

    /// The cell after the receiving side released its stake.
    pub open spec fn release_rx(self) -> Self {
        BeamView { rx_open: false, ..self }
    }

    /// Whether the sending side, releasing its stake now, is the last holder
    /// of the cell.
    pub open spec fn tx_is_last(self) -> bool {
        !self.rx_open
    }

    /// Whether the receiving side, releasing its stake now, is the last
    /// holder of the cell.
    pub open spec fn rx_is_last(self) -> bool {
        !self.tx_open
    }

    /// The cell after the sending side's critical section: the value goes
    /// into an empty slot. A slot that is full already keeps what it holds.
    pub open spec fn put(self, value: T) -> Self {
        if self.data is None {
            self.with_data(value)
        } else {
            self
        }
    }

    /// The cell after the sending side has closed: its stake is released,
    /// and if the receiving side was gone before, the cell is torn down.
    pub open spec fn close_tx(self) -> Self {
        if self.tx_is_last() {
            self.release_tx().without_data()
        } else {
            self.release_tx()
        }
    }

    /// The cell after the receiving side has closed: its stake is released,
    /// and if the sending side was gone before, the cell is torn down.
    pub open spec fn close_rx(self) -> Self {
        if self.rx_is_last() {
            self.release_rx().without_data()
        } else {
            self.release_rx()
        }
    }

    /// What the receiving side finds in this cell: a pending value comes
    /// first, then a hang-up, and only an open, empty cell makes it wait.
    pub open spec fn recv_step(self) -> RecvStep<T> {
        match self.data {
            Some(value) => RecvStep::Value(value),
            None => if self.hung_up() {
                RecvStep::HungUp
            } else {
                RecvStep::Wait
            },
        }
    }
}

/// The shared cell: the value slot and the status word that guards it.
pub struct ThreadBeamState<T> {
    data: Option<T>,
    flags: u8,
}

impl<T> View for ThreadBeamState<T> {
    type V = BeamView<T>;

    closed spec fn view(&self) -> BeamView<T> {
        BeamView { data: self.data, tx_open: self.flags & TX != 0, rx_open: self.flags & RX != 0 }
    }
}

impl<T> ThreadBeamState<T> {
    /// The status word holds no bit besides the three defined ones, and
    /// `HAS_DATA` is set exactly when the slot holds a value.
    #[verifier::type_invariant]
    spec fn well_formed(self) -> bool {
        &&& self.flags & !(HAS_DATA | TX | RX) == 0
        &&& (self.flags & HAS_DATA != 0) == self.data.is_some()
    }

    /// A cell with both sides open and an empty slot.
    pub fn new() -> (s: Self)
        ensures
            s@ == BeamView::<T>::initial(),
    {
        let flags: u8 = TX | RX;
        assert(flags & !(HAS_DATA | TX | RX) == 0 && flags & HAS_DATA == 0 && flags & TX != 0
            && flags & RX != 0) by (bit_vector)
            requires
                flags == TX | RX,
        ;
        ThreadBeamState { data: None, flags }
    }

    /// Stores `value` in the empty slot and marks it present.
    pub fn set_data(&mut self, value: T)
        requires
            old(self)@.data is None,
        ensures
            final(self)@ == old(self)@.with_data(value),
    {
        proof {
            use_type_invariant(&*self);
        }
        let before: u8 = self.flags;
        let flags: u8 = before | HAS_DATA;
        assert(flags & !(HAS_DATA | TX | RX) == 0 && flags & HAS_DATA != 0 && (flags & TX != 0) == (
        before & TX != 0) && (flags & RX != 0) == (before & RX != 0)) by (bit_vector)
            requires
                flags == before | HAS_DATA,
                before & !(HAS_DATA | TX | RX) == 0,
        ;
        *self = ThreadBeamState { data: Some(value), flags };
    }

    /// Whether the slot holds a value.
    pub fn has_data(&self) -> (b: bool)
        ensures
            b == self@.data.is_some(),
        opens_invariants none
        no_unwind
    {
        proof {
            use_type_invariant(self);
        }
        self.flags & HAS_DATA != 0
    }

    /// Whether at least one side has released its stake.
    pub fn hung_up(&self) -> (b: bool)
        ensures
            b == self@.hung_up(),
    {
        let flags: u8 = self.flags;
        assert((flags & (TX | RX) != TX | RX) == !(flags & TX != 0 && flags & RX != 0))
            by (bit_vector);
        flags & (TX | RX) != TX | RX
    }

    /// Releases the sending side's stake. The result says whether the
    /// receiving side had already released its own, so that the caller is the
    /// last holder of the cell and has to tear it down.
    #[must_use]
    pub fn drop_tx(&mut self) -> (last: bool)
        ensures
            final(self)@ == old(self)@.release_tx(),
            last == old(self)@.tx_is_last(),
        opens_invariants none
        no_unwind
    {
        proof {
            use_type_invariant(&*self);
        }
        let before: u8 = self.flags;
        let flags: u8 = before & !TX;
        assert(flags & !(HAS_DATA | TX | RX) == 0 && flags & TX == 0 && (flags & HAS_DATA != 0) == (
        before & HAS_DATA != 0) && (flags & RX != 0) == (before & RX != 0)) by (bit_vector)
            requires
                flags == before & !TX,
                before & !(HAS_DATA | TX | RX) == 0,
        ;
        self.flags = flags;
        flags & RX == 0
    }

    /// Releases the receiving side's stake. The result says whether the
    /// sending side had already released its own, so that the caller is the
    /// last holder of the cell and has to tear it down.
    #[must_use]
    pub fn drop_rx(&mut self) -> (last: bool)
        ensures
            final(self)@ == old(self)@.release_rx(),
            last == old(self)@.rx_is_last(),
        opens_invariants none
        no_unwind
    {
        proof {
            use_type_invariant(&*self);
        }
        let before: u8 = self.flags;
        let flags: u8 = before & !RX;
        assert(flags & !(HAS_DATA | TX | RX) == 0 && flags & RX == 0 && (flags & HAS_DATA != 0) == (
        before & HAS_DATA != 0) && (flags & TX != 0) == (before & TX != 0)) by (bit_vector)
            requires
                flags == before & !RX,
                before & !(HAS_DATA | TX | RX) == 0,
        ;
        self.flags = flags;
        flags & TX == 0
    }

    /// Empties the slot and hands out what it held.
    pub fn take_data(&mut self) -> (value: Option<T>)
        ensures
            value == old(self)@.data,
            final(self)@ == old(self)@.without_data(),
        opens_invariants none
        no_unwind
    {
        proof {
            use_type_invariant(&*self);
        }
        let before: u8 = self.flags;
        let flags: u8 = before & !HAS_DATA;
        assert(flags & !(HAS_DATA | TX | RX) == 0 && flags & HAS_DATA == 0 && (flags & TX != 0) == (
        before & TX != 0) && (flags & RX != 0) == (before & RX != 0)) by (bit_vector)
            requires
                flags == before & !HAS_DATA,
                before & !(HAS_DATA | TX | RX) == 0,
        ;
        let mut held = ThreadBeamState { data: None, flags };
        core::mem::swap(self, &mut held);
        held.data
    }

    /// Tears the cell down: a value that was sent and never received is
    /// destroyed here, and the slot is left empty.
    pub fn clear(&mut self)
        ensures
            final(self)@ == old(self)@.without_data(),
        opens_invariants none
        no_unwind
    {
        if self.has_data() {
            let _ = self.take_data();
        }
    }

    /// Whether the receiving side has to wait: nothing is pending and no
    /// side has hung up.
    pub fn must_wait(&self) -> (b: bool)
        ensures
            b == (self@.recv_step() is Wait),
    {
        !self.has_data() && !self.hung_up()
    }

    /// One look at the cell by the receiving side. A pending value is moved
    /// out of the slot; otherwise the cell is left as it was.
    pub fn poll(&mut self) -> (step: RecvStep<T>)
        ensures
            step == old(self)@.recv_step(),
            final(self)@ == old(self)@.without_data(),
    {
        match self.take_data() {
            Some(value) => RecvStep::Value(value),
            None => if self.hung_up() {
                RecvStep::HungUp
            } else {
                RecvStep::Wait
            },
        }
    }

    /// The sending side's critical section: stores `value` if the slot is
    /// empty. A beam carries one value, so a full slot keeps what it holds
    /// and `value` is destroyed.
    pub fn put(&mut self, value: T)
        ensures
            final(self)@ == old(self)@.put(value),
    {
        if !self.has_data() {
            self.set_data(value);
        }
    }

    /// The critical section that ends the sending side: releases its stake
    /// and, as the last holder, tears the cell down.
    pub fn close_tx(&mut self)
        ensures
            final(self)@ == old(self)@.close_tx(),
        opens_invariants none
        no_unwind
    {
        if self.drop_tx() {
            self.clear();
        }
    }

    /// The critical section that ends the receiving side: releases its stake
    /// and, as the last holder, tears the cell down.
    pub fn close_rx(&mut self)
        ensures
            final(self)@ == old(self)@.close_rx(),
        opens_invariants none
        no_unwind
    {
        if self.drop_rx() {
            self.clear();
        }
    }
}

} // verus!
