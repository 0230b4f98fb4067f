//! The interrupt dispatcher: the single entry point run once per hardware
//! interrupt.
//!
//! For each port the pending causes are checked in fixed priority order —
//! controller bus reset, then control endpoint, then OUT endpoint, then IN
//! endpoint.  Only register-safe immediate actions happen here (the bus
//! reset itself, clearing the pending-TX-ack flag); everything else is
//! translated into a typed event and pushed onto the bounded event queue
//! for the main loop.  The dispatcher never blocks and never allocates
//! beyond the queue slot; a full queue is fatal and reported to the
//! caller, which is expected to abort.
use vstd::prelude::*;

use heapless::mpmc::MpMcQueue;

use crate::error::FirmwareError;
use crate::event::{spec_encode_event, InterruptEvent, UsbEvent, UsbInterface};
use crate::control::byte_buffer;
use crate::queue::{
    dispatch_event, dispatch_receive_packet, event_queue_contents, packet_queue_contents,
};
use crate::regs::{EpControlRegs, EpInRegs, EpOutRegs, TxAckFlag, UsbInterrupt, UsbRegisters};

verus! {

/// Largest packet a bulk endpoint can carry at high speed, and so the size
/// of every receive buffer.
pub const EP_MAX_PACKET_SIZE: usize = 512;

/// The event the dispatcher emits for a register state, following the
/// fixed priority order of the four interrupt sources.
pub open spec fn spec_pending_event(regs: UsbRegisters, interface: UsbInterface) -> InterruptEvent {
    if regs.controller.ev_pending {
        InterruptEvent::Usb(interface, UsbEvent::BusReset)
    } else if regs.ep_control.ev_pending {
        InterruptEvent::Usb(interface, UsbEvent::ReceiveControl(regs.ep_control.epno))
    } else if regs.ep_out.ev_pending {
        InterruptEvent::Usb(interface, UsbEvent::ReceivePacket(regs.ep_out.data_ep))
    } else if regs.ep_in.ev_pending {
        InterruptEvent::Usb(interface, UsbEvent::SendComplete(regs.ep_in.epno))
    } else {
        InterruptEvent::UnknownInterrupt(0)
    }
}

/// The dispatcher answered a pending bus reset in interrupt context: the
/// pending bit is acknowledged; the address registers read zero; all three
/// FIFOs are empty; the controller, control-endpoint and IN-endpoint
/// sources end re-enabled while the OUT enable, the other pending bits,
/// the stall and toggle state and the latched endpoint numbers are
/// preserved; nothing reached the wire.
pub open spec fn spec_bus_reset_step(pre: UsbRegisters, post: UsbRegisters) -> bool {
    &&& post.controller.ev_enable == true
    &&& post.controller.ev_pending == false
    &&& post.controller.connect == pre.controller.connect
    &&& post.controller.speed == pre.controller.speed
    &&& post.ep_control.ev_enable == true
    &&& post.ep_control.ev_pending == pre.ep_control.ev_pending
    &&& post.ep_control.address == 0
    &&& post.ep_control.epno == pre.ep_control.epno
    &&& post.ep_control.fifo@ == Seq::<u8>::empty()
    &&& post.ep_in.ev_enable == true
    &&& post.ep_in.ev_pending == pre.ep_in.ev_pending
    &&& post.ep_in.epno == pre.ep_in.epno
    &&& post.ep_in.fifo@ == Seq::<u8>::empty()
    &&& post.ep_in.stall == pre.ep_in.stall
    &&& post.ep_in.pid == pre.ep_in.pid
    &&& post.ep_out.ev_enable == pre.ep_out.ev_enable
    &&& post.ep_out.ev_pending == pre.ep_out.ev_pending
    &&& post.ep_out.address == 0
    &&& post.ep_out.data_ep == pre.ep_out.data_ep
    &&& post.ep_out.epno == pre.ep_out.epno
    &&& post.ep_out.primed == false
    &&& post.ep_out.enabled == pre.ep_out.enabled
    &&& post.ep_out.fifo@ == Seq::<u8>::empty()
    &&& post.ep_out.stall == pre.ep_out.stall
    &&& post.ep_out.pid == pre.ep_out.pid
    &&& post.sent == pre.sent
}

/// Handles one interrupt on one port: acknowledges the highest-priority
/// pending cause, performs its immediate action, and queues the matching
/// event.
///
/// A bus reset is handled in place — address and FIFOs reset — before its
/// event is queued.  A completed IN transmission clears the pending-TX-ack
/// flag, which is what lets the control engine know it is now safe to
/// program a deferred device address.  An interrupt with no recognized
/// cause queues an `UnknownInterrupt` marker: reported, not fatal.
pub fn machine_external(
    usb: &mut UsbRegisters,
    tx_ack: &mut TxAckFlag,
    interface: UsbInterface,
    queue: &mut MpMcQueue<u64, 32>,
) -> (r: Result<(), FirmwareError>)
    requires
        old(usb).wf(),
    ensures
        final(usb).wf(),
        // the queued event, or the overflow that is fatal by design
        match r {
            Ok(()) => event_queue_contents(*old(queue)).len() < 32 && event_queue_contents(
                *final(queue),
            ) == event_queue_contents(*old(queue)).push(
                spec_encode_event(spec_pending_event(*old(usb), interface)),
            ),
            Err(e) => e == FirmwareError::EventQueueOverflow && event_queue_contents(*old(queue)).len()
                == 32 && event_queue_contents(*final(queue)) == event_queue_contents(*old(queue)),
        },
        // bus reset: immediate in-place reset, pending bit acknowledged,
        // and the controller, control and IN sources re-enabled
        old(usb).controller.ev_pending ==> spec_bus_reset_step(*old(usb), *final(usb)) && *final(tx_ack) == *old(tx_ack),
        // control endpoint: acknowledge only
        !old(usb).controller.ev_pending && old(usb).ep_control.ev_pending ==> *final(usb) == (
        UsbRegisters {
            ep_control: (EpControlRegs { ev_pending: false, ..old(usb).ep_control }),
            ..*old(usb)
        }) && *final(tx_ack) == *old(tx_ack),
        // OUT endpoint: acknowledge only
        !old(usb).controller.ev_pending && !old(usb).ep_control.ev_pending && old(usb).ep_out.ev_pending ==> *final(usb) == (UsbRegisters {
            ep_out: (EpOutRegs { ev_pending: false, ..old(usb).ep_out }),
            ..*old(usb)
        }) && *final(tx_ack) == *old(tx_ack),
        // IN endpoint: acknowledge and clear the pending-TX-ack flag
        !old(usb).controller.ev_pending && !old(usb).ep_control.ev_pending && !old(usb).ep_out.ev_pending && old(usb).ep_in.ev_pending ==> *final(usb) == (UsbRegisters {
            ep_in: (EpInRegs { ev_pending: false, ..old(usb).ep_in }),
            ..*old(usb)
        }) && final(tx_ack).active == false,
        // no recognized cause: hardware untouched
        !old(usb).controller.ev_pending && !old(usb).ep_control.ev_pending && !old(usb).ep_out.ev_pending && !old(usb).ep_in.ev_pending ==> *final(usb) == *old(usb) && *final(tx_ack) == *old(tx_ack),
{
    if usb.is_pending(UsbInterrupt::Controller) {
        usb.clear_pending(UsbInterrupt::Controller);
        let _speed = usb.bus_reset();
        dispatch_event(queue, InterruptEvent::Usb(interface, UsbEvent::BusReset))
    } else if usb.is_pending(UsbInterrupt::EpControl) {
        let endpoint = usb.ep_control.epno;
        usb.clear_pending(UsbInterrupt::EpControl);
        dispatch_event(queue, InterruptEvent::Usb(interface, UsbEvent::ReceiveControl(endpoint)))
    } else if usb.is_pending(UsbInterrupt::EpOut) {
        let endpoint = usb.ep_out.data_ep;
        usb.clear_pending(UsbInterrupt::EpOut);
        dispatch_event(queue, InterruptEvent::Usb(interface, UsbEvent::ReceivePacket(endpoint)))
    } else if usb.is_pending(UsbInterrupt::EpIn) {
        let endpoint = usb.ep_in.epno;
        usb.clear_pending(UsbInterrupt::EpIn);
        tx_ack.clear_tx_ack_active();
        dispatch_event(queue, InterruptEvent::Usb(interface, UsbEvent::SendComplete(endpoint)))
    } else {
        dispatch_event(queue, InterruptEvent::UnknownInterrupt(0))
    }
}

/// The data-bearing dispatcher variant: OUT packets are read synchronously
/// inside the handler and queued with their bytes, which removes the race
/// where the main loop would read after the FIFO has been re-primed.  All
/// other causes behave as in [`machine_external`].
pub fn machine_external_reading(
    usb: &mut UsbRegisters,
    tx_ack: &mut TxAckFlag,
    interface: UsbInterface,
    queue: &mut MpMcQueue<u64, 32>,
    packets: &mut MpMcQueue<(u8, u8, Vec<u8>), 16>,
) -> (r: Result<(), FirmwareError>)
    requires
        old(usb).wf(),
    ensures
        final(usb).wf(),
        // the OUT case drains the FIFO into the packet queue
        !old(usb).controller.ev_pending && !old(usb).ep_control.ev_pending && old(usb).ep_out.ev_pending ==> final(usb).ep_out.ev_pending == false && final(usb).ep_out.fifo@
            == Seq::<u8>::empty() && final(usb).ep_out.ev_enable == old(usb).ep_out.ev_enable
            && final(usb).ep_out.address == old(usb).ep_out.address && final(usb).ep_out.data_ep
            == old(usb).ep_out.data_ep && final(usb).ep_out.epno == old(usb).ep_out.epno && final(usb).ep_out.primed == old(usb).ep_out.primed && final(usb).ep_out.enabled == old(usb).ep_out.enabled && final(usb).ep_out.stall == old(usb).ep_out.stall && final(usb).ep_out.pid
            == old(usb).ep_out.pid && final(usb).controller == old(usb).controller && final(usb).ep_control == old(usb).ep_control && final(usb).ep_in == old(usb).ep_in && final(usb).sent == old(usb).sent && *final(tx_ack) == *old(tx_ack) && event_queue_contents(*final(queue)) == event_queue_contents(*old(queue)) && (match r {
            Ok(()) => packet_queue_contents(*old(packets)).len() < 16 && packet_queue_contents(
                *final(packets),
            ) == packet_queue_contents(*old(packets)).push(
                (
                    crate::event::spec_interface_code(interface),
                    old(usb).ep_out.data_ep,
                    if old(usb).ep_out.fifo@.len() <= 512 {
                        old(usb).ep_out.fifo@
                    } else {
                        old(usb).ep_out.fifo@.take(512)
                    },
                ),
            ),
            Err(e) => e == FirmwareError::PacketQueueOverflow && packet_queue_contents(
                *old(packets),
            ).len() == 16 && packet_queue_contents(*final(packets)) == packet_queue_contents(
                *old(packets),
            ),
        }),
        // every other cause leaves the packet queue alone and behaves as
        // the event-only dispatcher does
        old(usb).controller.ev_pending || old(usb).ep_control.ev_pending || !old(usb).ep_out.ev_pending ==> packet_queue_contents(*final(packets)) == packet_queue_contents(
            *old(packets),
        ) && (match r {
            Ok(()) => event_queue_contents(*final(queue)) == event_queue_contents(
                *old(queue),
            ).push(spec_encode_event(spec_pending_event(*old(usb), interface))),
            Err(e) => e == FirmwareError::EventQueueOverflow && event_queue_contents(
                *final(queue),
            ) == event_queue_contents(*old(queue)),
        }),
        // the remaining causes touch the registers exactly as the
        // event-only dispatcher does
        old(usb).controller.ev_pending ==> spec_bus_reset_step(*old(usb), *final(usb)) && *final(tx_ack) == *old(tx_ack),
        !old(usb).controller.ev_pending && old(usb).ep_control.ev_pending ==> *final(usb) == (
        UsbRegisters {
            ep_control: (EpControlRegs { ev_pending: false, ..old(usb).ep_control }),
            ..*old(usb)
        }) && *final(tx_ack) == *old(tx_ack),
        !old(usb).controller.ev_pending && !old(usb).ep_control.ev_pending && !old(usb).ep_out.ev_pending && old(usb).ep_in.ev_pending ==> *final(usb) == (UsbRegisters {
            ep_in: (EpInRegs { ev_pending: false, ..old(usb).ep_in }),
            ..*old(usb)
        }) && final(tx_ack).active == false,
        !old(usb).controller.ev_pending && !old(usb).ep_control.ev_pending && !old(usb).ep_out.ev_pending && !old(usb).ep_in.ev_pending ==> *final(usb) == *old(usb) && *final(tx_ack) == *old(tx_ack),
{
    if usb.is_pending(UsbInterrupt::Controller) {
        usb.clear_pending(UsbInterrupt::Controller);
        let _speed = usb.bus_reset();
        dispatch_event(queue, InterruptEvent::Usb(interface, UsbEvent::BusReset))
    } else if usb.is_pending(UsbInterrupt::EpControl) {
        let endpoint = usb.ep_control.epno;
        usb.clear_pending(UsbInterrupt::EpControl);
        dispatch_event(queue, InterruptEvent::Usb(interface, UsbEvent::ReceiveControl(endpoint)))
    } else if usb.is_pending(UsbInterrupt::EpOut) {
        let endpoint = usb.ep_out.data_ep;
        let mut buffer = byte_buffer(EP_MAX_PACKET_SIZE);
        let (bytes_read, _overflow) = usb.read(endpoint, &mut buffer);
        buffer.truncate(bytes_read);
        usb.clear_pending(UsbInterrupt::EpOut);
        proof {
            if old(usb).ep_out.fifo@.len() <= 512 {
                assert(buffer@ =~= old(usb).ep_out.fifo@);
            } else {
                assert(buffer@ =~= old(usb).ep_out.fifo@.take(512));
            }
        }
        dispatch_receive_packet(packets, (interface.code(), endpoint, buffer))
    } else if usb.is_pending(UsbInterrupt::EpIn) {
        let endpoint = usb.ep_in.epno;
        usb.clear_pending(UsbInterrupt::EpIn);
        tx_ack.clear_tx_ack_active();
        dispatch_event(queue, InterruptEvent::Usb(interface, UsbEvent::SendComplete(endpoint)))
    } else {
        dispatch_event(queue, InterruptEvent::UnknownInterrupt(0))
    }
}

} // verus!
