use vstd::prelude::*;

verus! {

/// The interrupt flags that the dispatcher handles, as read from the
/// interrupt register.
#[derive(Clone, Copy, Debug, PartialEq, Eq, Structural)]
pub struct InterruptFlags {
    /// Transmission completed.
    pub tx_complete: bool,
    /// New entry in the transmit event queue.
    pub tx_event_fifo_new: bool,
    /// New message in receive queue 0.
    pub rx_fifo0_new: bool,
    /// New message in receive queue 1.
    pub rx_fifo1_new: bool,
    /// Protocol error in the data phase.
    pub protocol_error_data: bool,
    /// Protocol error in the arbitration phase.
    pub protocol_error_arbitration: bool,
}

/// What one run of the interrupt handler does: the flags it writes back to
/// clear them, and the wake signals it fires.
#[derive(Clone, Copy, Debug, PartialEq, Eq, Structural)]
pub struct InterruptResponse {
    /// Flags to clear by writing them back.
    pub clear: InterruptFlags,
    /// Times the transmit wake signal fires.
    pub tx_wakes: u8,
    /// Times the receive wake signal fires.
    pub rx_wakes: u8,
}

/// The response to a set of flags: each handled flag that is set is cleared;
/// no flag that is not set is written; every transmit
/// flag wakes the transmit side and every receive flag the receive side.
/// Error flags wake nobody: errors are read on the next receive poll.
pub open spec fn spec_response(ir: InterruptFlags) -> InterruptResponse {
    InterruptResponse {
        clear: InterruptFlags {
            tx_complete: ir.tx_complete,
            tx_event_fifo_new: ir.tx_event_fifo_new,
            rx_fifo0_new: ir.rx_fifo0_new,
            rx_fifo1_new: ir.rx_fifo1_new,
            protocol_error_data: ir.protocol_error_data,
            protocol_error_arbitration: ir.protocol_error_arbitration,
        },
        tx_wakes: ((if ir.tx_complete { 1int } else { 0 }) + (if ir.tx_event_fifo_new {
            1int
        } else {
            0
        })) as u8,
        rx_wakes: ((if ir.rx_fifo0_new { 1int } else { 0 }) + (if ir.rx_fifo1_new {
            1int
        } else {
            0
        })) as u8,
    }
}

/// Decides what the interrupt handler does for the flags read once from the
/// interrupt register.
pub fn on_interrupt(ir: InterruptFlags) -> (r: InterruptResponse)
    ensures
        r == spec_response(ir),
{
    let mut clear = InterruptFlags {
        tx_complete: false,
        tx_event_fifo_new: false,
        rx_fifo0_new: false,
        rx_fifo1_new: false,
        protocol_error_data: false,
        protocol_error_arbitration: false,
    };
    let mut tx_wakes: u8 = 0;
    let mut rx_wakes: u8 = 0;
    if ir.tx_complete {
        clear.tx_complete = true;
        tx_wakes += 1;
    }
    if ir.tx_event_fifo_new {
        clear.tx_event_fifo_new = true;
        tx_wakes += 1;
    }
    if ir.protocol_error_data {
        clear.protocol_error_data = true;
    }
    if ir.protocol_error_arbitration {
        clear.protocol_error_arbitration = true;
    }
    if ir.rx_fifo0_new {
        clear.rx_fifo0_new = true;
        rx_wakes += 1;
    }
    if ir.rx_fifo1_new {
        clear.rx_fifo1_new = true;
        rx_wakes += 1;
    }
    InterruptResponse { clear, tx_wakes, rx_wakes }
}

} // verus!
