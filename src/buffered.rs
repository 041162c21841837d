use vstd::prelude::*;
use core::task::{Context, Poll};
use embassy_sync::channel::{
    DynamicReceiveFuture, SendDynamicReceiver, SendDynamicSender, TryReceiveError, TrySendError,
};
use crate::error::BusError;
use crate::guard::{GuardCounts, RxGuard, TxGuard};
use crate::state::State;

verus! {

#[verifier::external_type_specification]
#[verifier::external_body]
pub struct ExContext<'a>(Context<'a>);

#[verifier::external_type_specification]
#[verifier::external_body]
#[verifier::reject_recursive_types(T)]
pub struct ExPoll<T>(Poll<T>);

#[verifier::external_type_specification]
#[verifier::external_body]
#[verifier::reject_recursive_types(T)]
pub struct ExSendDynamicSender<'ch, T>(SendDynamicSender<'ch, T>);

#[verifier::external_type_specification]
#[verifier::external_body]
#[verifier::reject_recursive_types(T)]
pub struct ExSendDynamicReceiver<'ch, T>(SendDynamicReceiver<'ch, T>);

#[verifier::external_type_specification]
#[verifier::external_body]
#[verifier::reject_recursive_types(T)]
pub struct ExDynamicReceiveFuture<'ch, T>(DynamicReceiveFuture<'ch, T>);

#[verifier::external_type_specification]
#[verifier::reject_recursive_types(T)]
pub struct ExTrySendError<T>(TrySendError<T>);

#[verifier::external_type_specification]
#[verifier::external_body]
pub struct ExTryReceiveError(TryReceiveError);

/// Relies on embassy_sync's SendDynamicSender::try_send: queues the frame if
/// there is room, else hands it back in the error.
#[verifier::external_body]
fn channel_try_send<'ch, T>(tx: &SendDynamicSender<'ch, T>, frame: T) -> (r: Result<(), TrySendError<T>>)
    ensures
        r matches Err(TrySendError::Full(f)) ==> f == frame,
{
    tx.try_send(frame)
}

/// Relies on embassy_sync's SendDynamicSender::poll_ready_to_send: ready once
/// the queue has room, else registers the task to be woken.
#[verifier::external_body]
fn channel_poll_ready_to_send<'ch, T>(tx: &SendDynamicSender<'ch, T>, cx: &mut Context<'_>) -> (r: Poll<()>) {
    tx.poll_ready_to_send(cx)
}

/// Relies on embassy_sync's SendDynamicReceiver::receive: a future for the
/// next item.
#[verifier::external_body]
fn channel_receive<'a, 'ch, T>(rx: &'a SendDynamicReceiver<'ch, T>) -> (r: DynamicReceiveFuture<'a, T>) {
    rx.receive()
}

/// Relies on embassy_sync's SendDynamicReceiver::try_receive: the next item,
/// or an error when the queue is empty.
#[verifier::external_body]
fn channel_try_receive<'ch, T>(rx: &SendDynamicReceiver<'ch, T>) -> (r: Result<T, TryReceiveError>) {
    rx.try_receive()
}

/// Relies on embassy_sync's SendDynamicReceiver::poll_ready_to_receive: ready
/// once an item is queued, else registers the task to be woken.
#[verifier::external_body]
fn channel_poll_ready_to_receive<'ch, T>(rx: &SendDynamicReceiver<'ch, T>, cx: &mut Context<'_>) -> (r: Poll<()>) {
    rx.poll_ready_to_receive(cx)
}

/// Relies on embassy_sync's SendDynamicReceiver::poll_receive: the next item
/// when one is queued, else registers the task to be woken.
#[verifier::external_body]
fn channel_poll_receive<'ch, T>(rx: &SendDynamicReceiver<'ch, T>, cx: &mut Context<'_>) -> (r: Poll<T>) {
    rx.poll_receive(cx)
}

/// Sender of frames into the transmit queue of a controller. Each sender,
/// clones included, holds its own guard, so the count of live senders is
/// exact.
#[verifier::reject_recursive_types(FRAME)]
pub struct BufferedSender<'ch, FRAME> {
    pub tx_buf: SendDynamicSender<'ch, FRAME>,
    pub tx_guard: TxGuard<'ch>,
}

impl<'ch, FRAME> BufferedSender<'ch, FRAME> {
    /// Makes a sender over `tx_buf`, counting it.
    pub fn new(tx_buf: SendDynamicSender<'ch, FRAME>, info: &'ch State, counts: &mut GuardCounts) -> (r: Self)
        requires
            old(counts)@.0 < u32::MAX,
        ensures
            final(counts)@ == ((old(counts)@.0 + 1) as nat, old(counts)@.1),
            r.tx_guard.spec_info() == info,
    {
        BufferedSender { tx_buf, tx_guard: TxGuard::new(info, counts) }
    }

    /// Queues a frame without waiting and, when it was queued, signals the
    /// transmit side; a full queue hands the frame back in the error.
    pub fn try_write(&mut self, frame: FRAME) -> (r: Result<(), TrySendError<FRAME>>)
        ensures
            r matches Err(TrySendError::Full(f)) ==> f == frame,
            final(self).tx_buf == old(self).tx_buf,
            final(self).tx_guard.spec_info() == old(self).tx_guard.spec_info(),
    {
        let r = channel_try_send(&self.tx_buf, frame);
        if r.is_ok() {
            self.tx_guard.info().wake_tx();
        }
        r
    }

    /// Polls until the queue has room for a frame.
    pub fn poll_ready_to_send(&self, cx: &mut Context<'_>) -> (r: Poll<()>) {
        channel_poll_ready_to_send(&self.tx_buf, cx)
    }

    /// A second sender over the same queue, with a guard of its own.
    pub fn clone(&self, counts: &mut GuardCounts) -> (r: Self)
        requires
            old(counts)@.0 < u32::MAX,
        ensures
            final(counts)@ == ((old(counts)@.0 + 1) as nat, old(counts)@.1),
            r.tx_buf == self.tx_buf,
            r.tx_guard.spec_info() == self.tx_guard.spec_info(),
    {
        BufferedSender { tx_buf: self.tx_buf, tx_guard: TxGuard::new(self.tx_guard.info(), counts) }
    }

    /// Drops the sender, counting it out.
    pub fn release(self, counts: &mut GuardCounts)
        requires
            old(counts)@.0 > 0,
        ensures
            final(counts)@ == ((old(counts)@.0 - 1) as nat, old(counts)@.1),
    {
        self.tx_guard.release(counts);
    }
}

/// Receiver of frames and bus errors from the receive queue of a
/// controller. Each item goes to exactly one receiver.
#[verifier::reject_recursive_types(ENVELOPE)]
pub struct BufferedReceiver<'ch, ENVELOPE> {
    pub rx_buf: SendDynamicReceiver<'ch, Result<ENVELOPE, BusError>>,
    pub rx_guard: RxGuard<'ch>,
}

impl<'ch, ENVELOPE> BufferedReceiver<'ch, ENVELOPE> {
    /// Makes a receiver over `rx_buf`, counting it.
    pub fn new(
        rx_buf: SendDynamicReceiver<'ch, Result<ENVELOPE, BusError>>,
        info: &'ch State,
        counts: &mut GuardCounts,
    ) -> (r: Self)
        requires
            old(counts)@.1 < u32::MAX,
        ensures
            final(counts)@ == (old(counts)@.0, (old(counts)@.1 + 1) as nat),
            r.rx_guard.spec_info() == info,
    {
        BufferedReceiver { rx_buf, rx_guard: RxGuard::new(info, counts) }
    }

    /// A future for the next frame or bus error.
    pub fn receive(&self) -> (r: DynamicReceiveFuture<'_, Result<ENVELOPE, BusError>>) {
        channel_receive(&self.rx_buf)
    }

    /// The next frame or bus error, if one is queued.
    pub fn try_receive(&self) -> (r: Result<Result<ENVELOPE, BusError>, TryReceiveError>) {
        channel_try_receive(&self.rx_buf)
    }

    /// Polls until an item is queued.
    pub fn poll_ready_to_receive(&self, cx: &mut Context<'_>) -> (r: Poll<()>) {
        channel_poll_ready_to_receive(&self.rx_buf, cx)
    }

    /// Polls for the next item.
    pub fn poll_receive(&self, cx: &mut Context<'_>) -> (r: Poll<Result<ENVELOPE, BusError>>) {
        channel_poll_receive(&self.rx_buf, cx)
    }

    /// A second receiver over the same queue, with a guard of its own.
    pub fn clone(&self, counts: &mut GuardCounts) -> (r: Self)
        requires
            old(counts)@.1 < u32::MAX,
        ensures
            final(counts)@ == (old(counts)@.0, (old(counts)@.1 + 1) as nat),
            r.rx_buf == self.rx_buf,
            r.rx_guard.spec_info() == self.rx_guard.spec_info(),
    {
        BufferedReceiver { rx_buf: self.rx_buf, rx_guard: RxGuard::new(self.rx_guard.info(), counts) }
    }

    /// Drops the receiver, counting it out.
    pub fn release(self, counts: &mut GuardCounts)
        requires
            old(counts)@.1 > 0,
        ensures
            final(counts)@ == (old(counts)@.0, (old(counts)@.1 - 1) as nat),
    {
        self.rx_guard.release(counts);
    }
}

} // verus!
