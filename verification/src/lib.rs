//! Device-side USB control-transfer engine for an FPGA-based peripheral
//! controller, modelled against an in-memory image of its register file.
//!
//! The crate covers the interrupt-to-event translation layer, the bounded
//! event queue that bridges interrupt context and the main loop, SETUP
//! packet decode, the three-stage control-transfer state machine, and the
//! byte-level endpoint FIFO read/write protocol.

pub mod control;
pub mod dispatch;
pub mod error;
pub mod event;
pub mod loopback;
pub mod queue;
pub mod regs;
pub mod setup;
pub mod speed_test;
