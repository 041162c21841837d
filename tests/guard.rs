use embassy_sync::blocking_mutex::raw::CriticalSectionRawMutex;
use embassy_sync::channel::{Channel, SendDynamicReceiver, SendDynamicSender};
use fdcan_driver::buffered::{BufferedReceiver, BufferedSender};
use fdcan_driver::error::BusError;
use fdcan_driver::guard::{GuardCounts, Guards, InternalOperation, RxGuard, TxGuard};
use fdcan_driver::state::State;

#[test]
fn counts_follow_notifications() {
    let mut c = GuardCounts::new();
    assert_eq!((c.senders(), c.receivers()), (0, 0));
    assert!(!c.buffered_io_needed());
    c.internal_operation(InternalOperation::NotifySenderCreated);
    c.internal_operation(InternalOperation::NotifyReceiverCreated);
    c.internal_operation(InternalOperation::NotifyReceiverCreated);
    assert_eq!((c.senders(), c.receivers()), (1, 2));
    assert!(c.buffered_io_needed());
    c.internal_operation(InternalOperation::NotifyReceiverDestroyed);
    c.internal_operation(InternalOperation::NotifySenderDestroyed);
    assert_eq!((c.senders(), c.receivers()), (0, 1));
}

#[test]
fn guards_count_both_sides() {
    let state = State::new();
    let mut c = GuardCounts::new();
    let g = Guards::new(&state, &mut c);
    let t = TxGuard::new(&state, &mut c);
    let r = RxGuard::new(&state, &mut c);
    assert_eq!((c.senders(), c.receivers()), (2, 2));
    assert!(core::ptr::eq(t.info(), &state));
    assert!(core::ptr::eq(r.info(), &state));
    g.release(&mut c);
    t.release(&mut c);
    r.release(&mut c);
    assert_eq!((c.senders(), c.receivers()), (0, 0));
}

#[test]
fn senders_and_clones_return_count_to_zero() {
    let state = State::new();
    let ch: Channel<CriticalSectionRawMutex, u32, 4> = Channel::new();
    let mut c = GuardCounts::new();
    let tx: SendDynamicSender<'_, u32> = ch.sender().into();
    let a = BufferedSender::new(tx, &state, &mut c);
    let b = a.clone(&mut c);
    a.release(&mut c);
    let d = b.clone(&mut c);
    let e = d.clone(&mut c);
    assert_eq!(c.senders(), 3);
    e.release(&mut c);
    b.release(&mut c);
    d.release(&mut c);
    assert_eq!(c.senders(), 0);
    assert_eq!(c.receivers(), 0);
}

#[test]
fn buffered_sender_queues_until_full() {
    let state = State::new();
    let ch: Channel<CriticalSectionRawMutex, u32, 2> = Channel::new();
    let mut c = GuardCounts::new();
    let mut s = BufferedSender::new(ch.sender().into(), &state, &mut c);
    assert!(s.try_write(1).is_ok());
    assert!(s.try_write(2).is_ok());
    match s.try_write(3) {
        Err(embassy_sync::channel::TrySendError::Full(f)) => assert_eq!(f, 3),
        Ok(()) => panic!("the queue holds two frames"),
    }
    assert_eq!(ch.try_receive().ok(), Some(1));
    assert_eq!(ch.try_receive().ok(), Some(2));
    s.release(&mut c);
}

#[test]
fn buffered_receiver_takes_each_item_once() {
    let state = State::new();
    let ch: Channel<CriticalSectionRawMutex, Result<u32, BusError>, 4> = Channel::new();
    let mut c = GuardCounts::new();
    let rx: SendDynamicReceiver<'_, Result<u32, BusError>> = ch.receiver().into();
    let r1 = BufferedReceiver::new(rx, &state, &mut c);
    let r2 = r1.clone(&mut c);
    assert_eq!(c.receivers(), 2);
    ch.try_send(Ok(7)).unwrap();
    ch.try_send(Err(BusError::Crc)).unwrap();
    assert_eq!(r1.try_receive().ok(), Some(Ok(7)));
    assert_eq!(r2.try_receive().ok(), Some(Err(BusError::Crc)));
    assert!(r1.try_receive().is_err());
    assert!(r2.try_receive().is_err());
    r1.release(&mut c);
    r2.release(&mut c);
    assert_eq!(c.receivers(), 0);
}
