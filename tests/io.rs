use fdcan_driver::error::{BusError, ProtocolStatus};
use fdcan_driver::frame::{FrameFormat, Id, RxFrame, RxFrameInfo, StandardId, TxFrame, TxFrameHeader};
use fdcan_driver::io::{flush_step, read_step, write_step, Mailbox, Step, TransmitResult};
use fdcan_driver::mode::Fdcan;
use fdcan_driver::state::{State, WakeSlot};

fn header(len: u8) -> TxFrameHeader {
    TxFrameHeader {
        len,
        frame_format: FrameFormat::Standard,
        id: Id::Standard(StandardId::new(0x123).unwrap()),
        bit_rate_switching: false,
        marker: None,
    }
}

fn rx_info(len: u8, time_stamp: u16) -> RxFrameInfo {
    RxFrameInfo {
        len,
        frame_format: FrameFormat::Standard,
        id: Id::Standard(StandardId::new(0x123).unwrap()),
        rtr: false,
        filter_match: None,
        bit_rate_switching: false,
        time_stamp,
    }
}

fn quiet() -> ProtocolStatus {
    ProtocolStatus { bus_off: false, error_passive: false, error_warning: false, last_error_code: 7 }
}

#[test]
fn write_step_outcomes() {
    assert_eq!(step_kind(&write_step(TransmitResult::Queued)), "ready-none");
    assert_eq!(step_kind(&write_step(TransmitResult::Full)), "pending");
    let evicted = TxFrame::new(header(1), &[3]).unwrap();
    match write_step(TransmitResult::Replaced(Some(evicted))) {
        Step::Ready(Some(f)) => assert_eq!(f.data(), &[3]),
        _ => panic!("expected the evicted frame"),
    }
}

fn step_kind(s: &Step<Option<TxFrame>>) -> &'static str {
    match s {
        Step::Ready(None) => "ready-none",
        Step::Ready(Some(_)) => "ready-some",
        Step::Pending => "pending",
    }
}

#[test]
fn read_step_prefers_frame_then_error() {
    let f = RxFrame::new(rx_info(1, 0), &[9]);
    match read_step(Some(f), None) {
        Step::Ready(Ok(g)) => assert_eq!(g.data(), &[9]),
        _ => panic!("expected the frame"),
    }
    let off = ProtocolStatus { bus_off: true, last_error_code: 1, ..quiet() };
    assert!(matches!(read_step(None, Some(off)), Step::Ready(Err(BusError::BusOff))));
    let stuff = ProtocolStatus { last_error_code: 1, ..quiet() };
    assert!(matches!(read_step(None, Some(stuff)), Step::Ready(Err(BusError::Stuff))));
    assert!(matches!(read_step(None, Some(quiet())), Step::Pending));
    assert!(matches!(read_step(None, None), Step::Pending));
}

#[test]
fn flush_step_waits_for_pending_flag() {
    assert_eq!(flush_step(0b010, Mailbox::_1), Step::Pending);
    assert_eq!(flush_step(0b010, Mailbox::_0), Step::Ready(()));
    assert_eq!(flush_step(0b101, Mailbox::_2), Step::Pending);
    assert_eq!(flush_step(0b011, Mailbox::_2), Step::Ready(()));
    assert_eq!(Mailbox::_2.index(), 2);
}

#[test]
fn poll_read_reads_status_only_without_frame() {
    let state = State::new();
    let waker = core::task::Waker::noop();
    let mut can = Fdcan::new(170_000_000).into_normal_mode();
    let mut status_read = false;
    let mut slots = Vec::new();
    let r = can.poll_read(&state, waker, |reg| {
        slots = reg.slots().to_vec();
        Some(RxFrame::new(rx_info(1, 0), &[1]))
    }, || {
        status_read = true;
        quiet()
    });
    assert!(matches!(r, Step::Ready(Ok(_))));
    assert!(!status_read);
    assert_eq!(slots, vec![WakeSlot::Error, WakeSlot::Rx]);
    let r = can.poll_read(&state, waker, |_| None, || ProtocolStatus { error_warning: true, ..quiet() });
    assert!(matches!(r, Step::Ready(Err(BusError::BusWarning))));
}

#[test]
fn internal_loopback_round_trip() {
    let state = State::new();
    let waker = core::task::Waker::noop();
    let mut can = Fdcan::new(170_000_000);
    can.set_bitrate(250_000);
    let mut can = can.into_internal_loopback_mode();

    let tx_frame = TxFrame::new(header(1), &[5]).unwrap();
    // The controller loops the frame back into receive queue 0.
    let mut looped: Option<(RxFrameInfo, [u8; 64])> = None;
    let written = can.poll_write(&state, waker, &tx_frame, |reg, f| {
        assert_eq!(reg.slots(), &[WakeSlot::Tx]);
        let mut buf = [0u8; 64];
        buf[..1].copy_from_slice(f.data());
        looped = Some((rx_info(f.header.len, 10), buf));
        TransmitResult::Queued
    });
    assert!(matches!(written, Step::Ready(None)));

    let (info, buf) = looped.unwrap();
    let read = can.poll_read(&state, waker, |_| Some(RxFrame::new(info, &buf)), quiet);
    match read {
        Step::Ready(Ok(frame)) => {
            assert_eq!(frame.data()[0], 5);
            assert_eq!(frame.data().len(), 1);
        }
        _ => panic!("expected the looped-back frame"),
    }
}

#[test]
fn split_halves_poll_independently() {
    let state = State::new();
    let waker = core::task::Waker::noop();
    let can = Fdcan::new(170_000_000).into_external_loopback_mode();
    let (mut tx, mut rx) = can.split();
    let frame = TxFrame::new(header(2), &[1, 2]).unwrap();
    assert!(matches!(tx.poll_write(&state, waker, &frame, |_, _| TransmitResult::Full), Step::Pending));
    assert!(matches!(rx.poll_read(&state, waker, |_| None, quiet), Step::Pending));
    let evicting = tx.poll_write(&state, waker, &frame, |_, f| TransmitResult::Replaced(TxFrame::new(header(1), &f.data()[..1])));
    match evicting {
        Step::Ready(Some(e)) => assert_eq!(e.data(), &[1]),
        _ => panic!("expected the evicted frame"),
    }
}

#[test]
fn poll_flush_registers_then_reads_register() {
    let state = State::new();
    let waker = core::task::Waker::noop();
    let can = Fdcan::new(170_000_000).into_normal_mode();
    let r = can.poll_flush(&state, waker, Mailbox::_1, |reg| {
        assert_eq!(reg.slots(), &[WakeSlot::Tx]);
        0b010
    });
    assert_eq!(r, Step::Pending);
    assert_eq!(can.poll_flush(&state, waker, Mailbox::_1, |_| 0b101), Step::Ready(()));
}
