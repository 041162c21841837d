use vstd::prelude::*;
use core::task::Waker;
use embassy_sync::waitqueue::AtomicWaker;
use crate::interrupt::InterruptResponse;

verus! {

#[verifier::external_type_specification]
#[verifier::external_body]
pub struct ExWaker(Waker);

#[verifier::external_type_specification]
#[verifier::external_body]
pub struct ExAtomicWaker(AtomicWaker);

/// Relies on embassy_sync's AtomicWaker::new: a slot with no waker registered.
#[verifier::external_body]
fn new_atomic_waker() -> (r: AtomicWaker) {
    AtomicWaker::new()
}

/// Relies on embassy_sync's AtomicWaker::register: stores the waker, replacing
/// any earlier one.
#[verifier::external_body]
fn register_waker(slot: &AtomicWaker, w: &Waker) {
    slot.register(w)
}

/// Relies on embassy_sync's AtomicWaker::wake: wakes the registered waker, if
/// any.
#[verifier::external_body]
fn wake_waker(slot: &AtomicWaker) {
    slot.wake()
}

/// One of the three wake-signal slots of a controller instance.
#[derive(Clone, Copy, Debug, PartialEq, Eq, Structural)]
pub enum WakeSlot {
    Tx,
    Error,
    Rx,
}

/// Receipt of a registration: the slots a task was registered in, in
/// order. Only [`State`] makes one, and only by registering.
#[derive(Debug)]
pub struct Registration {
    slots: Vec<WakeSlot>,
}

impl View for Registration {
    type V = Seq<WakeSlot>;

    closed spec fn view(&self) -> Seq<WakeSlot> {
        self.slots@
    }
}

impl Registration {
    /// The slots registered, in order.
    pub fn slots(&self) -> (r: &[WakeSlot])
        ensures
            r@ == self@,
    {
        self.slots.as_slice()
    }
}

/// Wake-signal slots of one controller instance, shared between the tasks
/// and the interrupt handler.
pub struct State {
    pub tx_waker: AtomicWaker,
    pub err_waker: AtomicWaker,
    pub rx_waker: AtomicWaker,
}

impl State {
    /// Creates the three slots, none registered.
    pub fn new() -> (r: State) {
        State { tx_waker: new_atomic_waker(), err_waker: new_atomic_waker(), rx_waker: new_atomic_waker() }
    }

    /// Registers a task that waits for a transmit slot or a completed
    /// transmission.
    pub fn register_tx(&self, w: &Waker) -> (r: Registration)
        ensures
            r@ == seq![WakeSlot::Tx],
    {
        register_waker(&self.tx_waker, w);
        Registration { slots: vec![WakeSlot::Tx] }
    }

    /// Registers a task that waits for a received frame or a bus error.
    pub fn register_rx(&self, w: &Waker) -> (r: Registration)
        ensures
            r@ == seq![WakeSlot::Error, WakeSlot::Rx],
    {
        register_waker(&self.err_waker, w);
        let mut slots = vec![WakeSlot::Error];
        register_waker(&self.rx_waker, w);
        slots.push(WakeSlot::Rx);
        Registration { slots }
    }

    /// Signals the transmit side that there is work for it.
    pub fn wake_tx(&self) {
        wake_waker(&self.tx_waker);
    }

    /// Fires the wake signals of an interrupt response (see
    /// [`on_interrupt`](crate::interrupt::on_interrupt)), once the flags it
    /// clears have been written back.
    pub fn signal(&self, response: &InterruptResponse) {
        let mut i: u8 = 0;
        while i < response.tx_wakes
            invariant
                i <= response.tx_wakes,
            decreases response.tx_wakes - i,
        {
            wake_waker(&self.tx_waker);
            i += 1;
        }
        let mut j: u8 = 0;
        while j < response.rx_wakes
            invariant
                j <= response.rx_wakes,
            decreases response.rx_wakes - j,
        {
            wake_waker(&self.rx_waker);
            j += 1;
        }
    }
}

} // verus!
