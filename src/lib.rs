//! Driver logic for a CAN FD controller: bit timing, payload and frame
//! validation, bus error classification, interrupt dispatch, the typed
//! operating-mode state machine, the poll steps of the async operations, and
//! the counting guards of the buffered channel handles.

pub mod buffered;
pub mod error;
pub mod frame;
pub mod guard;
pub mod interrupt;
pub mod io;
pub mod mode;
pub mod state;
pub mod timing;
