use vstd::prelude::*;

verus! {

/// Errors surfaced by the firmware library.
///
/// `FailedConversion` reports a value outside a decode table.  The two
/// overflow variants are fatal by design: a full queue means the main loop
/// is not keeping up with interrupt arrival, and dropping events would
/// desynchronize the protocol, so the caller is expected to abort.
#[derive(Clone, Copy, Debug, PartialEq, Eq, Structural)]
pub enum FirmwareError {
    FailedConversion,
    EventQueueOverflow,
    PacketQueueOverflow,
}

} // verus!
