//! Serial-loopback routing between the two ports, and the spoofed
//! class/vendor and string handlers its control pipe uses.
use vstd::prelude::*;

use crate::control::{
    spec_address_commit_transition, spec_bus_reset_transition, spec_dropped_setup_transition,
    spec_engine_fields_eq, spec_is_class_or_vendor, spec_is_string_overflow,
    spec_out_drain_transition, spec_setup_outcome, spec_status_zlp_transition, spec_std_in,
    ControlResult, PipeState, UsbDevice,
};
use crate::event::{UsbEvent, UsbInterface};
use crate::regs::{TxAckFlag, UsbRegisters};
use crate::setup::{spec_direction, spec_setup_from_bytes, Direction, Recipient, Request,
    SetupPacket};

verus! {

/// The UsbDataPacket struct represents a single packet of data received
/// from a USB port: which port and endpoint it arrived on, and its bytes
/// in the front of a fixed receive buffer.
pub struct UsbDataPacket {
    pub interface: UsbInterface,
    pub endpoint: u8,
    pub bytes_read: usize,
    pub buffer: Vec<u8>,
}

impl UsbDataPacket {
    /// Well-formedness: the valid bytes fit in the buffer.
    pub open spec fn wf(self) -> bool {
        self.bytes_read <= self.buffer@.len()
    }

    /// The valid bytes of the packet.
    pub open spec fn data(self) -> Seq<u8> {
        self.buffer@.take(self.bytes_read as int)
    }

    /// Rebuilds a packet from the plain form the packet queue carries.
    pub fn from_queued(queued: (u8, u8, Vec<u8>)) -> (r: UsbDataPacket)
        ensures
            r.wf(),
            queued.0 == 0 ==> r.interface == UsbInterface::Target,
            queued.0 != 0 ==> r.interface == UsbInterface::Aux,
            r.endpoint == queued.1,
            r.bytes_read == queued.2@.len(),
            r.data() == queued.2@,
    {
        let (interface_code, endpoint, data) = queued;
        let bytes_read = data.len();
        let packet = UsbDataPacket {
            interface: UsbInterface::from_code(interface_code),
            endpoint,
            bytes_read,
            buffer: data,
        };
        proof {
            assert(packet.buffer@.take(packet.bytes_read as int) =~= packet.buffer@);
        }
        packet
    }
}

/// Services a delegated class/vendor request.  This device can spoof every
/// vendor request of its serial protocol: it answers with two zero bytes
/// on the control endpoint.
///
/// Relies on nothing outside the engine: the response is data-stage bytes;
/// the caller still acknowledges the status stage.
pub fn handle_vendor_request(device: &mut UsbDevice, _setup_packet: &SetupPacket, _request: u8)
    requires
        old(device).wf(),
    ensures
        final(device).wf(),
        // the one effect: a single two-byte packet committed on endpoint
        // zero, independent of the packet and the request code
        final(device).hal_driver.sent_view() == old(device).hal_driver.sent_view().push(
            (0u8, seq![0u8, 0u8]),
        ),
        final(device).state == old(device).state,
        spec_engine_fields_eq(*old(device), *final(device)),
        final(device).hal_driver.controller == old(device).hal_driver.controller,
        final(device).hal_driver.ep_control == old(device).hal_driver.ep_control,
        final(device).hal_driver.ep_out == old(device).hal_driver.ep_out,
        final(device).hal_driver.ep_in.ev_enable == old(device).hal_driver.ep_in.ev_enable,
        final(device).hal_driver.ep_in.ev_pending == true,
        final(device).hal_driver.ep_in.epno == 0,
        final(device).hal_driver.ep_in.fifo@ == Seq::<u8>::empty(),
        final(device).hal_driver.ep_in.stall == old(device).hal_driver.ep_in.stall,
        final(device).hal_driver.ep_in.pid == old(device).hal_driver.ep_in.pid,
{
    let response: [u8; 2] = [0, 0];
    proof {
        assert(0u8 & 0xf == 0) by (bit_vector);
        assert(response@ =~= seq![0u8, 0u8]);
    }
    let _did_reset = device.hal_driver.write(0, response.as_slice());
}

/// Services a delegated string-descriptor request.  The indices beyond
/// the table carry nothing this device needs to report, so it answers
/// with a zero-length packet.
pub fn handle_string_request(device: &mut UsbDevice, _setup_packet: &SetupPacket, _index: u8)
    requires
        old(device).wf(),
    ensures
        final(device).wf(),
        // the one effect: a single zero-length packet committed on
        // endpoint zero, independent of the packet and the index
        final(device).hal_driver.sent_view() == old(device).hal_driver.sent_view().push(
            (0u8, Seq::<u8>::empty()),
        ),
        final(device).state == old(device).state,
        spec_engine_fields_eq(*old(device), *final(device)),
        final(device).hal_driver.controller == old(device).hal_driver.controller,
        final(device).hal_driver.ep_control == old(device).hal_driver.ep_control,
        final(device).hal_driver.ep_out == old(device).hal_driver.ep_out,
        final(device).hal_driver.ep_in.ev_enable == old(device).hal_driver.ep_in.ev_enable,
        final(device).hal_driver.ep_in.ev_pending == true,
        final(device).hal_driver.ep_in.epno == 0,
        final(device).hal_driver.ep_in.fifo@ == Seq::<u8>::empty(),
        final(device).hal_driver.ep_in.stall == old(device).hal_driver.ep_in.stall,
        final(device).hal_driver.ep_in.pid == old(device).hal_driver.ep_in.pid,
{
    let response: [u8; 0] = [];
    proof {
        assert(0u8 & 0xf == 0) by (bit_vector);
        assert(response@ =~= Seq::<u8>::empty());
    }
    let _did_reset = device.hal_driver.write(0, response.as_slice());
}

/// The engine will delegate this packet to the class/vendor handler.
pub open spec fn spec_delegates_vendor(pre: UsbDevice, packet: SetupPacket) -> bool {
    spec_is_class_or_vendor(packet) && pre.cb_vendor_request
}

/// The engine will delegate this packet to the string handler.
pub open spec fn spec_delegates_string(pre: UsbDevice, packet: SetupPacket) -> bool {
    &&& spec_std_in(packet, Recipient::Device, Request::GetDescriptor)
    &&& spec_is_string_overflow(pre, packet.value)
    &&& pre.cb_string_request
}

/// A delegated class/vendor request was serviced in place: the spoofed
/// two-byte response went out on endpoint zero and then the generic status
/// stage was acknowledged in the direction opposite to the packet's data
/// direction — an OUT prime for device-to-host requests, a second,
/// zero-length packet for host-to-device ones.
pub open spec fn spec_vendor_serviced_transition(
    pre: UsbDevice,
    post: UsbDevice,
    packet: SetupPacket,
) -> bool {
    &&& post.state == pre.state
    &&& spec_engine_fields_eq(pre, post)
    &&& post.hal_driver.controller == pre.hal_driver.controller
    &&& post.hal_driver.ep_control.address == pre.hal_driver.ep_control.address
    &&& post.hal_driver.ep_control.ev_enable == pre.hal_driver.ep_control.ev_enable
    &&& post.hal_driver.ep_in.stall == pre.hal_driver.ep_in.stall
    &&& post.hal_driver.ep_in.pid == pre.hal_driver.ep_in.pid
    &&& post.hal_driver.ep_in.ev_enable == pre.hal_driver.ep_in.ev_enable
    &&& post.hal_driver.ep_in.fifo@ == Seq::<u8>::empty()
    &&& (spec_direction(packet.request_type) == Direction::DeviceToHost
        ==> post.hal_driver.sent_view() == pre.hal_driver.sent_view().push((0u8, seq![0u8, 0u8]))
        && post.hal_driver.ep_out.primed == true && post.hal_driver.ep_out.epno == 0
        && post.hal_driver.ep_out.enabled == true && post.hal_driver.ep_out.fifo@
        == Seq::<u8>::empty() && post.hal_driver.ep_out.address == pre.hal_driver.ep_out.address
        && post.hal_driver.ep_out.stall == pre.hal_driver.ep_out.stall
        && post.hal_driver.ep_out.pid == pre.hal_driver.ep_out.pid)
    &&& (spec_direction(packet.request_type) == Direction::HostToDevice
        ==> post.hal_driver.sent_view() == pre.hal_driver.sent_view().push(
        (0u8, seq![0u8, 0u8]),
    ).push((0u8, Seq::<u8>::empty())) && post.hal_driver.ep_out == pre.hal_driver.ep_out)
}

/// A delegated string request was serviced in place: the spoofed
/// zero-length response went out on endpoint zero, then the status stage
/// was acknowledged by priming an OUT read (string requests are always
/// device-to-host).
pub open spec fn spec_string_serviced_transition(pre: UsbDevice, post: UsbDevice) -> bool {
    &&& post.state == pre.state
    &&& spec_engine_fields_eq(pre, post)
    &&& post.hal_driver.controller == pre.hal_driver.controller
    &&& post.hal_driver.ep_control.address == pre.hal_driver.ep_control.address
    &&& post.hal_driver.ep_control.ev_enable == pre.hal_driver.ep_control.ev_enable
    &&& post.hal_driver.ep_in.stall == pre.hal_driver.ep_in.stall
    &&& post.hal_driver.ep_in.pid == pre.hal_driver.ep_in.pid
    &&& post.hal_driver.ep_in.ev_enable == pre.hal_driver.ep_in.ev_enable
    &&& post.hal_driver.ep_in.fifo@ == Seq::<u8>::empty()
    &&& post.hal_driver.sent_view() == pre.hal_driver.sent_view().push((0u8, Seq::<u8>::empty()))
    &&& post.hal_driver.ep_out.primed == true
    &&& post.hal_driver.ep_out.epno == 0
    &&& post.hal_driver.ep_out.enabled == true
    &&& post.hal_driver.ep_out.fifo@ == Seq::<u8>::empty()
    &&& post.hal_driver.ep_out.address == pre.hal_driver.ep_out.address
    &&& post.hal_driver.ep_out.stall == pre.hal_driver.ep_out.stall
    &&& post.hal_driver.ep_out.pid == pre.hal_driver.ep_out.pid
}

/// The whole contract of the serviced SETUP step: a packet the engine
/// handles itself takes exactly the transition SETUP dispatch specifies
/// and is consumed; a delegated one is serviced by this module's handlers
/// and acknowledged, also consumed.
pub open spec fn spec_serviced_setup(
    pre: UsbDevice,
    post: UsbDevice,
    ack_pre: bool,
    ack_post: bool,
    packet: SetupPacket,
    r: Option<UsbEvent>,
) -> bool {
    &&& (!spec_delegates_vendor(pre, packet) && !spec_delegates_string(pre, packet)
        ==> spec_setup_outcome(pre, post, ack_pre, ack_post, packet, ControlResult::Handled) && r
        is None)
    &&& (spec_delegates_vendor(pre, packet) ==> spec_vendor_serviced_transition(pre, post, packet)
        && ack_post == ack_pre && r is None)
    &&& (spec_delegates_string(pre, packet) ==> spec_string_serviced_transition(pre, post)
        && ack_post == ack_pre && r is None)
}

/// Drives one control-pipe event through the engine with this module's
/// handlers attached: a delegated request is serviced synchronously — the
/// spoofed response, then the generic status-stage acknowledgement — and
/// anything the engine does not own comes back to the caller.
pub fn service_control_event(device: &mut UsbDevice, tx_ack: &mut TxAckFlag, event: UsbEvent) -> (r:
    Option<UsbEvent>)
    requires
        old(device).wf(),
    ensures
        final(device).wf(),
        event == UsbEvent::BusReset ==> spec_bus_reset_transition(*old(device), *final(device))
            && final(device).remote_wakeup == old(device).remote_wakeup && *final(tx_ack) == *old(
            tx_ack,
        ) && r is None,
        event == UsbEvent::ReceiveControl(0) && old(device).hal_driver.ep_control.fifo@.len() >= 8
            ==> spec_serviced_setup(
            *old(device),
            *final(device),
            old(tx_ack).active,
            final(tx_ack).active,
            spec_setup_from_bytes(old(device).hal_driver.ep_control.fifo@.take(8)),
            r,
        ),
        event == UsbEvent::ReceiveControl(0) && old(device).hal_driver.ep_control.fifo@.len() < 8
            ==> spec_dropped_setup_transition(*old(device), *final(device)) && *final(tx_ack)
            == *old(tx_ack) && r is None,
        event == UsbEvent::ReceivePacket(0) && old(device).state is SetupReceived
            ==> spec_status_zlp_transition(*old(device), *final(device)) && *final(tx_ack) == *old(
            tx_ack,
        ) && r is None,
        event == UsbEvent::ReceivePacket(0) && old(device).state == PipeState::Idle
            ==> spec_out_drain_transition(*old(device), *final(device)) && *final(tx_ack) == *old(
            tx_ack,
        ) && r is None,
        event == UsbEvent::SendComplete(0) ==> (!old(tx_ack).active && old(
            device,
        ).pending_address is Some ==> spec_address_commit_transition(
            *old(device),
            *final(device),
            old(device).pending_address->0,
        )) && (old(tx_ack).active || old(device).pending_address is None ==> *final(device)
            == *old(device)) && *final(tx_ack) == *old(tx_ack) && r is None,
        (match event {
            UsbEvent::BusReset => false,
            UsbEvent::ReceiveControl(endpoint) => endpoint != 0,
            UsbEvent::ReceivePacket(endpoint) => endpoint != 0,
            UsbEvent::SendComplete(endpoint) => endpoint != 0,
        }) ==> *final(device) == *old(device) && *final(tx_ack) == *old(tx_ack) && r == Some(
            event,
        ),
{
    match device.dispatch_control(tx_ack, event) {
        ControlResult::Handled => None,
        ControlResult::Unhandled(unhandled) => Some(unhandled),
        ControlResult::VendorRequest(packet, request) => {
            handle_vendor_request(device, &packet, request);
            device.hal_driver.ack_status_stage(&packet);
            None
        },
        ControlResult::StringRequest(packet, index) => {
            handle_string_request(device, &packet, index);
            device.hal_driver.ack_status_stage(&packet);
            None
        },
    }
}

/// Routes one received bulk packet to the opposite port: bytes that came
/// in on one port's endpoint go out on the same endpoint of the other
/// port, and the receiving endpoint is re-primed for the next packet.
/// Control packets (endpoint zero) are not routed, only re-primed.
pub fn loopback_packet(
    usb0: &mut UsbRegisters,
    usb1: &mut UsbRegisters,
    packet: &UsbDataPacket,
) -> (forwarded: bool)
    requires
        old(usb0).wf(),
        old(usb1).wf(),
        packet.wf(),
    ensures
        final(usb0).wf(),
        final(usb1).wf(),
        forwarded == (packet.endpoint != 0),
        packet.interface == UsbInterface::Target && packet.endpoint != 0 ==> final(usb1).sent_view() == old(usb1).sent_view().push(((packet.endpoint & 0xf), packet.data()))
            && final(usb0).ep_out.primed == true && final(usb0).ep_out.epno == (packet.endpoint
            & 0xf) && final(usb0).sent == old(usb0).sent,
        packet.interface == UsbInterface::Target && packet.endpoint == 0 ==> *final(usb1) == *old(usb1) && final(usb0).ep_out.primed == true && final(usb0).sent == old(usb0).sent,
        packet.interface == UsbInterface::Aux && packet.endpoint != 0 ==> final(usb0).sent_view()
            == old(usb0).sent_view().push(((packet.endpoint & 0xf), packet.data())) && final(usb1).ep_out.primed == true && final(usb1).ep_out.epno == (packet.endpoint & 0xf) && final(usb1).sent == old(usb1).sent,
        packet.interface == UsbInterface::Aux && packet.endpoint == 0 ==> *final(usb0) == *old(usb0)
            && final(usb1).ep_out.primed == true && final(usb1).sent == old(usb1).sent,
{
    let mut data: Vec<u8> = Vec::new();
    let mut i: usize = 0;
    while i < packet.bytes_read
        invariant
            i <= packet.bytes_read,
            packet.bytes_read <= packet.buffer@.len(),
            data@ == packet.buffer@.take(i as int),
        decreases packet.bytes_read - i,
    {
        let b = packet.buffer[i];
        data.push(b);
        proof {
            assert(data@ =~= packet.buffer@.take(i + 1));
        }
        i = i + 1;
    }
    match packet.interface {
        UsbInterface::Target => {
            let forwarded = packet.endpoint != 0;
            if forwarded {
                let _did_reset = usb1.write(packet.endpoint, data.as_slice());
            }
            usb0.ep_out_prime_receive(packet.endpoint);
            forwarded
        },
        UsbInterface::Aux => {
            let forwarded = packet.endpoint != 0;
            if forwarded {
                let _did_reset = usb0.write(packet.endpoint, data.as_slice());
            }
            usb1.ep_out_prime_receive(packet.endpoint);
            forwarded
        },
    }
}

} // verus!
