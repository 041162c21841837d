use vstd::prelude::*;
use crate::error::{curr_error, spec_classify, BusError, ProtocolStatus};
use crate::frame::{RxFrame, TxFrame};
use crate::mode::{Fdcan, Receive, Transmit};
use crate::state::{Registration, State, WakeSlot};
use core::task::Waker;

verus! {

/// Outcome of one poll of a suspended operation.
#[derive(Debug, PartialEq, Eq, Structural)]
pub enum Step<T> {
    /// The operation has finished with this value.
    Ready(T),
    /// Wait for the registered wake signal, then poll again from scratch.
    Pending,
}

/// What the controller did with a frame handed to it for transmission.
#[derive(Clone, Copy, Debug)]
pub enum TransmitResult {
    /// Placed in a free mailbox.
    Queued,
    /// Placed in the mailbox of a lower-priority frame, which was taken out;
    /// carries that frame as rebuilt from the mailbox.
    Replaced(Option<TxFrame>),
    /// Every mailbox holds a frame of equal or higher priority.
    Full,
}

/// A transmit mailbox.
#[allow(non_camel_case_types)]
#[derive(Clone, Copy, Debug, PartialEq, Eq, Structural)]
pub enum Mailbox {
    _0,
    _1,
    _2,
}

/// Index of a mailbox.
pub open spec fn spec_mailbox_index(mb: Mailbox) -> u32 {
    match mb {
        Mailbox::_0 => 0,
        Mailbox::_1 => 1,
        Mailbox::_2 => 2,
    }
}

impl Mailbox {
    /// Returns the index of the mailbox.
    pub fn index(&self) -> (r: u32)
        ensures
            r == spec_mailbox_index(*self),
    {
        match self {
            Mailbox::_0 => 0,
            Mailbox::_1 => 1,
            Mailbox::_2 => 2,
        }
    }
}

/// Result of a write poll for a transmit outcome.
pub open spec fn spec_write_step(attempt: TransmitResult) -> Step<Option<TxFrame>> {
    match attempt {
        TransmitResult::Queued => Step::Ready(None),
        TransmitResult::Replaced(evicted) => Step::Ready(evicted),
        TransmitResult::Full => Step::Pending,
    }
}

/// Result of a read poll: a frame wins; else the status is classified; a
/// status read with nothing to report, or none read, means waiting.
pub open spec fn spec_read_step(received: Option<RxFrame>, status: Option<ProtocolStatus>) -> Step<
    Result<RxFrame, BusError>,
> {
    match received {
        Some(f) => Step::Ready(Ok(f)),
        None => match status {
            Some(s) => match spec_classify(s) {
                Some(e) => Step::Ready(Err(e)),
                None => Step::Pending,
            },
            None => Step::Pending,
        },
    }
}

/// Whether the pending-request flag of a mailbox is set in the transmit
/// request register.
pub open spec fn spec_request_pending(pending: u32, mb: Mailbox) -> bool {
    (pending >> spec_mailbox_index(mb)) & 1 == 1
}

/// One write poll, after the transmit wake signal was registered and the
/// frame was offered to the controller: done when the frame was placed,
/// with the frame it replaced if any; waiting when every mailbox was taken.
pub fn write_step(attempt: TransmitResult) -> (r: Step<Option<TxFrame>>)
    ensures
        r == spec_write_step(attempt),
{
    match attempt {
        TransmitResult::Queued => Step::Ready(None),
        TransmitResult::Replaced(evicted) => Step::Ready(evicted),
        TransmitResult::Full => Step::Pending,
    }
}

/// One read poll, after the error and receive wake signals were registered:
/// `received` is what receive queue 0 gave; `status` is the protocol status,
/// read only when no frame came.
pub fn read_step(received: Option<RxFrame>, status: Option<ProtocolStatus>) -> (r: Step<
    Result<RxFrame, BusError>,
>)
    ensures
        r == spec_read_step(received, status),
{
    match received {
        Some(f) => Step::Ready(Ok(f)),
        None => match status {
            Some(s) => match curr_error(s) {
                Some(e) => Step::Ready(Err(e)),
                None => Step::Pending,
            },
            None => Step::Pending,
        },
    }
}

/// One flush poll: done once the mailbox's pending-request flag is clear.
pub fn flush_step(pending: u32, mb: Mailbox) -> (r: Step<()>)
    ensures
        r == (if spec_request_pending(pending, mb) {
            Step::Pending
        } else {
            Step::Ready(())
        }),
{
    let idx = mb.index();
    if (pending >> idx) & 1 == 1 {
        Step::Pending
    } else {
        Step::Ready(())
    }
}

impl<M: Transmit + Receive> Fdcan<M> {
    /// One poll of a write: registers for the transmit wake signal, then
    /// hands the registration and the frame to `transmit`, which offers the
    /// frame to the controller; then decides (see [`write_step`]).
    pub fn poll_write<F: FnOnce(Registration, TxFrame) -> TransmitResult>(
        &mut self,
        state: &State,
        waker: &Waker,
        frame: &TxFrame,
        transmit: F,
    ) -> (r: Step<Option<TxFrame>>)
        requires
            forall|reg: Registration, f: TxFrame| #[trigger] transmit.requires((reg, f)),
        ensures
            exists|reg: Registration, a: TransmitResult|
                reg@ == seq![WakeSlot::Tx] && transmit.ensures((reg, *frame), a) && r
                    == spec_write_step(a),
            *final(self) == *old(self),
    {
        poll_write(state, waker, frame, transmit)
    }

    /// One poll of a flush: registers for the transmit wake signal, then
    /// hands the registration to `pending`, which reads the transmit request
    /// register; then decides (see [`flush_step`]).
    pub fn poll_flush<F: FnOnce(Registration) -> u32>(
        &self,
        state: &State,
        waker: &Waker,
        mb: Mailbox,
        pending: F,
    ) -> (r: Step<()>)
        requires
            forall|reg: Registration| #[trigger] pending.requires((reg,)),
        ensures
            exists|reg: Registration, p: u32|
                reg@ == seq![WakeSlot::Tx] && pending.ensures((reg,), p) && r == (if spec_request_pending(
                    p,
                    mb,
                ) {
                    Step::Pending
                } else {
                    Step::Ready(())
                }),
    {
        let reg = state.register_tx(waker);
        let p = pending(reg);
        flush_step(p, mb)
    }

    /// One poll of a read: registers for the error and receive wake signals,
    /// then hands the registration to `receive`, which takes a frame from
    /// receive queue 0; only when none came reads the protocol status through
    /// `status`; then decides (see [`read_step`]).
    pub fn poll_read<F: FnOnce(Registration) -> Option<RxFrame>, G: FnOnce() -> ProtocolStatus>(
        &mut self,
        state: &State,
        waker: &Waker,
        receive: F,
        status: G,
    ) -> (r: Step<Result<RxFrame, BusError>>)
        requires
            forall|reg: Registration| #[trigger] receive.requires((reg,)),
            status.requires(()),
        ensures
            exists|reg: Registration, f: Option<RxFrame>, s: Option<ProtocolStatus>|
                reg@ == seq![WakeSlot::Error, WakeSlot::Rx] && receive.ensures((reg,), f) && (s matches Some(
                    v,
                ) ==> status.ensures((), v)) && (f is None <==> s is Some) && r == spec_read_step(
                    f,
                    s,
                ),
            *final(self) == *old(self),
    {
        poll_read(state, waker, receive, status)
    }

    /// Splits the handle into a transmit side and a receive side that share
    /// the controller.
    pub fn split(&self) -> (r: (FdcanTx<'_, M>, FdcanRx<'_, M>))
        ensures
            *r.0.can == *self,
            *r.1.can == *self,
    {
        (FdcanTx { can: self }, FdcanRx { can: self })
    }
}

fn poll_write<F: FnOnce(Registration, TxFrame) -> TransmitResult>(
    state: &State,
    waker: &Waker,
    frame: &TxFrame,
    transmit: F,
) -> (r: Step<Option<TxFrame>>)
    requires
        forall|reg: Registration, f: TxFrame| #[trigger] transmit.requires((reg, f)),
    ensures
        exists|reg: Registration, a: TransmitResult|
            reg@ == seq![WakeSlot::Tx] && transmit.ensures((reg, *frame), a) && r == spec_write_step(a),
{
    let reg = state.register_tx(waker);
    let ghost g = reg;
    let a = transmit(reg, *frame);
    let r = write_step(a);
    assert(g@ == seq![WakeSlot::Tx] && transmit.ensures((g, *frame), a) && r == spec_write_step(a));
    r
}

fn poll_read<F: FnOnce(Registration) -> Option<RxFrame>, G: FnOnce() -> ProtocolStatus>(
    state: &State,
    waker: &Waker,
    receive: F,
    status: G,
) -> (r: Step<Result<RxFrame, BusError>>)
    requires
        forall|reg: Registration| #[trigger] receive.requires((reg,)),
        status.requires(()),
    ensures
        exists|reg: Registration, f: Option<RxFrame>, s: Option<ProtocolStatus>|
            reg@ == seq![WakeSlot::Error, WakeSlot::Rx] && receive.ensures((reg,), f) && (s matches Some(
                v,
            ) ==> status.ensures((), v)) && (f is None <==> s is Some) && r == spec_read_step(f, s),
{
    let reg = state.register_rx(waker);
    let ghost g = reg;
    let f = receive(reg);
    match f {
        Some(frame) => {
            let r = read_step(Some(frame), None);
            assert(g@ == seq![WakeSlot::Error, WakeSlot::Rx] && receive.ensures((g,), f) && r
                == spec_read_step(f, None::<ProtocolStatus>));
            r
        },
        None => {
            let v = status();
            let r = read_step(None, Some(v));
            assert(g@ == seq![WakeSlot::Error, WakeSlot::Rx] && receive.ensures((g,), f)
                && status.ensures((), v) && r == spec_read_step(f, Some(v)));
            r
        },
    }
}

/// Transmit side of a split handle.
pub struct FdcanTx<'c, M: Transmit> {
    pub can: &'c Fdcan<M>,
}

impl<'c, M: Transmit> FdcanTx<'c, M> {
    /// One poll of a write; see [`Fdcan::poll_write`].
    pub fn poll_write<F: FnOnce(Registration, TxFrame) -> TransmitResult>(
        &mut self,
        state: &State,
        waker: &Waker,
        frame: &TxFrame,
        transmit: F,
    ) -> (r: Step<Option<TxFrame>>)
        requires
            forall|reg: Registration, f: TxFrame| #[trigger] transmit.requires((reg, f)),
        ensures
            exists|reg: Registration, a: TransmitResult|
                reg@ == seq![WakeSlot::Tx] && transmit.ensures((reg, *frame), a) && r
                    == spec_write_step(a),
    {
        poll_write(state, waker, frame, transmit)
    }
}

/// Receive side of a split handle.
pub struct FdcanRx<'c, M: Receive> {
    pub can: &'c Fdcan<M>,
}

impl<'c, M: Receive> FdcanRx<'c, M> {
    /// One poll of a read; see [`Fdcan::poll_read`].
    pub fn poll_read<F: FnOnce(Registration) -> Option<RxFrame>, G: FnOnce() -> ProtocolStatus>(
        &mut self,
        state: &State,
        waker: &Waker,
        receive: F,
        status: G,
    ) -> (r: Step<Result<RxFrame, BusError>>)
        requires
            forall|reg: Registration| #[trigger] receive.requires((reg,)),
            status.requires(()),
        ensures
            exists|reg: Registration, f: Option<RxFrame>, s: Option<ProtocolStatus>|
                reg@ == seq![WakeSlot::Error, WakeSlot::Rx] && receive.ensures((reg,), f) && (s matches Some(
                    v,
                ) ==> status.ensures((), v)) && (f is None <==> s is Some) && r == spec_read_step(
                    f,
                    s,
                ),
    {
        poll_read(state, waker, receive, status)
    }
}

} // verus!
