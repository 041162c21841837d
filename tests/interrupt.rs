use fdcan_driver::interrupt::{on_interrupt, InterruptFlags, InterruptResponse};
use fdcan_driver::state::State;

fn none() -> InterruptFlags {
    InterruptFlags {
        tx_complete: false,
        tx_event_fifo_new: false,
        rx_fifo0_new: false,
        rx_fifo1_new: false,
        protocol_error_data: false,
        protocol_error_arbitration: false,
    }
}

#[test]
fn interrupt_with_no_flags_does_nothing() {
    assert_eq!(on_interrupt(none()), InterruptResponse { clear: none(), tx_wakes: 0, rx_wakes: 0 });
}

#[test]
fn interrupt_transmit_flags_wake_transmit() {
    let ir = InterruptFlags { tx_complete: true, tx_event_fifo_new: true, ..none() };
    assert_eq!(on_interrupt(ir), InterruptResponse { clear: ir, tx_wakes: 2, rx_wakes: 0 });
}

#[test]
fn interrupt_receive_flags_wake_receive() {
    let ir = InterruptFlags { rx_fifo1_new: true, ..none() };
    assert_eq!(on_interrupt(ir), InterruptResponse { clear: ir, tx_wakes: 0, rx_wakes: 1 });
    let both = InterruptFlags { rx_fifo0_new: true, rx_fifo1_new: true, ..none() };
    assert_eq!(on_interrupt(both).rx_wakes, 2);
}

#[test]
fn interrupt_error_flags_clear_without_waking() {
    let ir = InterruptFlags { protocol_error_arbitration: true, ..none() };
    let r = on_interrupt(ir);
    assert!(r.clear.protocol_error_arbitration);
    assert!(!r.clear.protocol_error_data);
    assert_eq!(r.clear, ir);
    let both = InterruptFlags { protocol_error_arbitration: true, protocol_error_data: true, ..none() };
    assert_eq!(on_interrupt(both).clear, both);
    assert_eq!((r.tx_wakes, r.rx_wakes), (0, 0));
}

#[test]
fn state_on_interrupt_fires_wakers() {
    let state = State::new();
    let waker = core::task::Waker::noop();
    state.register_tx(waker);
    state.register_rx(waker);
    let ir = InterruptFlags { tx_complete: true, rx_fifo0_new: true, ..none() };
    let r = on_interrupt(ir);
    assert_eq!((r.tx_wakes, r.rx_wakes), (1, 1));
    state.signal(&r);
    state.wake_tx();
}
