//! The control-transfer engine: a three-stage state machine per port.
//!
//! The engine consumes the typed events the interrupt dispatcher queued,
//! drains and decodes SETUP packets, dispatches standard requests against
//! externally supplied descriptor tables, delegates class/vendor and
//! overflow string requests to the caller, and resolves the
//! address-latching race by deferring the address write until the status
//! stage has been acknowledged on the wire.
use vstd::prelude::*;

use crate::event::UsbEvent;
use crate::regs::{TxAckFlag, UsbRegisters};
use crate::setup::{
    spec_direction, spec_recipient, spec_request, spec_request_type, Direction, Recipient, Request,
    RequestType, SetupPacket,
};

verus! {

/// The negotiated bus speed, as the two-bit hardware code reports it.
#[derive(Clone, Copy, Debug, PartialEq, Eq, Structural)]
pub enum Speed {
    /// 480 Mbps.
    High,
    /// 12 Mbps.
    Full,
    /// 1.5 Mbps.
    Low,
    /// 5 Gbps and above.
    SuperSpeed,
}

/// The speed encoded in the low two bits of the hardware speed register.
pub open spec fn spec_speed(value: u8) -> Speed {
    let bits = value & 0x03;
    if bits == 0 {
        Speed::High
    } else if bits == 1 {
        Speed::Full
    } else if bits == 2 {
        Speed::Low
    } else {
        Speed::SuperSpeed
    }
}

impl From<u8> for Speed {
    /// Decodes the two-bit hardware speed code.
    fn from(value: u8) -> (r: Self) {
        let bits = value & 0x03;
        if bits == 0 {
            Speed::High
        } else if bits == 1 {
            Speed::Full
        } else if bits == 2 {
            Speed::Low
        } else {
            Speed::SuperSpeed
        }
    }
}

impl vstd::std_specs::convert::FromSpecImpl<u8> for Speed {
    open spec fn obeys_from_spec() -> bool {
        true
    }

    open spec fn from_spec(v: u8) -> Speed {
        spec_speed(v)
    }
}

/// The descriptor tables the engine serves `GetDescriptor` from: concrete
/// self-describing byte blobs supplied once at device construction and
/// immutable thereafter.
pub struct Descriptors {
    pub device: Vec<u8>,
    pub device_qualifier: Vec<u8>,
    pub configuration: Vec<u8>,
    pub other_speed_configuration: Vec<u8>,
    /// String descriptor zero: the language-ID table.
    pub string_zero: Vec<u8>,
    /// String descriptors one and up, in index order.
    pub strings: Vec<Vec<u8>>,
}

/// The control pipe's persistent state between events.
#[derive(Clone, Copy, Debug, PartialEq, Eq, Structural)]
pub enum PipeState {
    /// No transfer in progress.
    Idle,
    /// A SETUP packet with a host-to-device data stage was accepted; the
    /// pipe waits for the data on OUT endpoint zero.
    SetupReceived(SetupPacket),
}

/// What the engine did with one event.
#[derive(Clone, Copy, Debug, PartialEq, Eq, Structural)]
pub enum ControlResult {
    /// The event was consumed by the engine.
    Handled,
    /// The event does not belong to the control pipe; the caller owns it.
    Unhandled(UsbEvent),
    /// A class or vendor request, delegated verbatim with its raw request
    /// code.  The caller services it and then acknowledges the status
    /// stage, as [`UsbDevice::dispatch_control`] documents.
    VendorRequest(SetupPacket, u8),
    /// A string-descriptor request beyond the supplied table, delegated
    /// with the requested index.
    StringRequest(SetupPacket, u8),
}

/// A USB device: one port's register file, its descriptor tables and the
/// control-transfer engine state driving them.
pub struct UsbDevice {
    pub hal_driver: UsbRegisters,
    pub descriptors: Descriptors,
    /// The control pipe's state.
    pub state: PipeState,
    /// An address accepted by `SetAddress` but not yet written to the
    /// hardware; it is committed only after the status-stage ZLP has gone
    /// out and its send-complete event has been processed.
    pub pending_address: Option<u8>,
    /// The configuration selected by `SetConfiguration`; zero when
    /// unconfigured.
    pub configuration: u8,
    /// Recorded by the `DeviceRemoteWakeup` feature; no further side
    /// effect is required of it.
    pub remote_wakeup: bool,
    /// Whether a class/vendor request handler is registered.
    pub cb_vendor_request: bool,
    /// Whether a string request handler is registered.
    pub cb_string_request: bool,
}

impl UsbDevice {
    /// Well-formedness: the register model is well-formed.
    pub open spec fn wf(self) -> bool {
        self.hal_driver.wf()
    }

    /// A new device over the given register file and descriptor tables:
    /// pipe idle, address not pending, unconfigured, no handlers.
    pub fn new(hal_driver: UsbRegisters, descriptors: Descriptors) -> (r: UsbDevice)
        requires
            hal_driver.wf(),
        ensures
            r.wf(),
            r.hal_driver == hal_driver,
            r.descriptors == descriptors,
            r.state == PipeState::Idle,
            r.pending_address is None,
            r.configuration == 0,
            r.remote_wakeup == false,
            r.cb_vendor_request == false,
            r.cb_string_request == false,
    {
        UsbDevice {
            hal_driver,
            descriptors,
            state: PipeState::Idle,
            pending_address: None,
            configuration: 0,
            remote_wakeup: false,
            cb_vendor_request: false,
            cb_string_request: false,
        }
    }

    /// Connects the port and returns the negotiated speed code.
    pub fn connect(&mut self) -> (speed: u8)
        requires
            old(self).wf(),
        ensures
            final(self).wf(),
            speed == old(self).hal_driver.controller.speed,
            final(self).hal_driver.controller.connect == true,
            final(self).state == old(self).state,
            final(self).pending_address == old(self).pending_address,
            final(self).configuration == old(self).configuration,
            final(self).remote_wakeup == old(self).remote_wakeup,
            final(self).cb_vendor_request == old(self).cb_vendor_request,
            final(self).cb_string_request == old(self).cb_string_request,
            final(self).descriptors == old(self).descriptors,
            final(self).hal_driver.sent == old(self).hal_driver.sent,
    {
        self.hal_driver.connect()
    }
}

/// Everything of the engine but the pipe state and the register file is
/// unchanged between `pre` and `post`.
pub open spec fn spec_engine_fields_eq(pre: UsbDevice, post: UsbDevice) -> bool {
    &&& post.descriptors == pre.descriptors
    &&& post.pending_address == pre.pending_address
    &&& post.configuration == pre.configuration
    &&& post.remote_wakeup == pre.remote_wakeup
    &&& post.cb_vendor_request == pre.cb_vendor_request
    &&& post.cb_string_request == pre.cb_string_request
}

/// The engine answered a bus reset: the pipe is idle again, nothing is
/// pending, the device is unconfigured, both address registers read zero
/// and all three FIFOs are empty.  Nothing new reached the wire.
pub open spec fn spec_bus_reset_transition(pre: UsbDevice, post: UsbDevice) -> bool {
    &&& post.state == PipeState::Idle
    &&& post.pending_address is None
    &&& post.configuration == 0
    &&& post.hal_driver.ep_control.address == 0
    &&& post.hal_driver.ep_out.address == 0
    &&& post.hal_driver.ep_control.fifo@ == Seq::<u8>::empty()
    &&& post.hal_driver.ep_in.fifo@ == Seq::<u8>::empty()
    &&& post.hal_driver.ep_out.fifo@ == Seq::<u8>::empty()
    &&& post.hal_driver.sent == pre.hal_driver.sent
    &&& post.descriptors == pre.descriptors
    &&& post.cb_vendor_request == pre.cb_vendor_request
    &&& post.cb_string_request == pre.cb_string_request
}

/// The engine accepted `SetAddress` with value `n`: the address registers
/// still hold what they held before — the new address is only latched in
/// software — the status-stage ZLP stands newly committed on the wire, and
/// the pending-TX-ack flag is raised.
pub open spec fn spec_set_address_transition(
    pre: UsbDevice,
    post: UsbDevice,
    ack_post: bool,
    n: u8,
) -> bool {
    &&& post.hal_driver.ep_control.address == pre.hal_driver.ep_control.address
    &&& post.hal_driver.ep_out.address == pre.hal_driver.ep_out.address
    &&& post.pending_address == Some(n)
    &&& ack_post == true
    &&& post.state == PipeState::Idle
    &&& post.hal_driver.sent_view() == pre.hal_driver.sent_view().push(
        (0u8, Seq::<u8>::empty()),
    )
    &&& post.configuration == pre.configuration
    &&& post.remote_wakeup == pre.remote_wakeup
    &&& post.descriptors == pre.descriptors
}

/// The engine committed a deferred address `n` on send-complete: both
/// address registers now read `n` (masked to the seven-bit field), nothing
/// is pending any more, and nothing new reached the wire.
pub open spec fn spec_address_commit_transition(pre: UsbDevice, post: UsbDevice, n: u8) -> bool {
    &&& post.hal_driver.ep_control.address == (n & 0x7f)
    &&& post.hal_driver.ep_out.address == (n & 0x7f)
    &&& post.pending_address is None
    &&& post.hal_driver.sent == pre.hal_driver.sent
    &&& post.state == pre.state
    &&& post.configuration == pre.configuration
    &&& post.remote_wakeup == pre.remote_wakeup
    &&& post.descriptors == pre.descriptors
}

/// Law: a deferred `SetAddress` is observable on the address registers only
/// after its status stage completed.  After acceptance the registers hold
/// their old value while the status ZLP already stands in the wire log;
/// the later commit writes the registers without sending anything more —
/// so on the wire the order is: status ZLP first, address write second.
pub proof fn lemma_set_address_ordering(
    d0: UsbDevice,
    d1: UsbDevice,
    d2: UsbDevice,
    ack1: bool,
    n: u8,
)
    requires
        spec_set_address_transition(d0, d1, ack1, n),
        spec_address_commit_transition(d1, d2, n),
    ensures
        d1.hal_driver.ep_control.address == d0.hal_driver.ep_control.address,
        d1.hal_driver.ep_out.address == d0.hal_driver.ep_out.address,
        d1.hal_driver.sent_view() == d0.hal_driver.sent_view().push((0u8, Seq::<u8>::empty())),
        d2.hal_driver.ep_control.address == (n & 0x7f),
        d2.hal_driver.ep_out.address == (n & 0x7f),
        d2.hal_driver.sent_view() == d0.hal_driver.sent_view().push((0u8, Seq::<u8>::empty())),
{
}

impl UsbDevice {
    /// Resets the engine for a bus reset: the hardware-side reset clears
    /// the address registers and FIFOs, and the software side forgets any
    /// transfer, pending address and configuration — unconditionally,
    /// whatever state the pipe was in.
    pub fn bus_reset(&mut self)
        requires
            old(self).wf(),
        ensures
            final(self).wf(),
            spec_bus_reset_transition(*old(self), *final(self)),
            final(self).remote_wakeup == old(self).remote_wakeup,
    {
        let _speed = self.hal_driver.bus_reset();
        self.state = PipeState::Idle;
        self.pending_address = None;
        self.configuration = 0;
    }

    /// Handles a send-complete on the control endpoint.  If the
    /// status-stage transmission is no longer in flight and an address is
    /// pending, this is the moment the address may finally be programmed:
    /// the status ZLP has been acknowledged by the host.
    pub fn handle_send_complete(&mut self, tx_ack: &TxAckFlag)
        requires
            old(self).wf(),
        ensures
            final(self).wf(),
            !tx_ack.active && old(self).pending_address is Some ==> spec_address_commit_transition(
                *old(self),
                *final(self),
                old(self).pending_address->0,
            ),
            tx_ack.active || old(self).pending_address is None ==> *final(self) == *old(self),
    {
        if !tx_ack.is_tx_ack_active() {
            match self.pending_address {
                Some(address) => {
                    self.hal_driver.set_address(address);
                    self.pending_address = None;
                },
                None => {},
            }
        }
    }
}

/// The response bytes clamped to the `length` the host asked for.
pub open spec fn spec_clamped(bytes: Seq<u8>, length: u16) -> Seq<u8> {
    if bytes.len() <= length {
        bytes
    } else {
        bytes.take(length as int)
    }
}

/// The descriptor table entry a `GetDescriptor` `value` field names, if the
/// tables hold one: the descriptor type rides in the high byte and the
/// index in the low byte.
pub open spec fn spec_descriptor_bytes(dev: UsbDevice, value: u16) -> Option<Seq<u8>> {
    let dtype = (value >> 8) as u8;
    let index = (value & 0xff) as u8;
    if dtype == 1 {
        Some(dev.descriptors.device@)
    } else if dtype == 2 {
        Some(dev.descriptors.configuration@)
    } else if dtype == 6 {
        Some(dev.descriptors.device_qualifier@)
    } else if dtype == 7 {
        Some(dev.descriptors.other_speed_configuration@)
    } else if dtype == 3 && index == 0 {
        Some(dev.descriptors.string_zero@)
    } else if dtype == 3 && 1 <= index && index <= dev.descriptors.strings@.len() {
        Some(dev.descriptors.strings@[index - 1]@)
    } else {
        None
    }
}

/// Whether a `GetDescriptor` `value` field asks for a string descriptor
/// beyond the supplied table — the case delegated to the string handler.
pub open spec fn spec_is_string_overflow(dev: UsbDevice, value: u16) -> bool {
    let dtype = (value >> 8) as u8;
    let index = (value & 0xff) as u8;
    dtype == 3 && index >= 1 && index > dev.descriptors.strings@.len()
}

/// The two status bytes a `GetStatus` request reads: the remote-wakeup bit
/// for the device, zeroes for an interface, the halt bit for an endpoint.
pub open spec fn spec_get_status_bytes(dev: UsbDevice, packet: SetupPacket) -> Seq<u8> {
    match spec_recipient(packet.request_type) {
        Recipient::Device => seq![if dev.remote_wakeup { 2u8 } else { 0u8 }, 0u8],
        Recipient::Interface => seq![0u8, 0u8],
        Recipient::Endpoint => {
            let address = (packet.index & 0xff) as u8;
            let slot = (address & 0xf) as int;
            let stalled = if spec_direction(address) == Direction::DeviceToHost {
                dev.hal_driver.ep_in.stall@[slot]
            } else {
                dev.hal_driver.ep_out.stall@[slot]
            };
            seq![if stalled { 1u8 } else { 0u8 }, 0u8]
        },
        Recipient::Other => seq![0u8, 0u8],
        Recipient::Reserved => seq![0u8, 0u8],
    }
}

/// The request is standard, i.e. neither class, vendor nor reserved.
pub open spec fn spec_is_standard(packet: SetupPacket) -> bool {
    spec_request_type(packet.request_type) == RequestType::Standard
}

/// The request belongs to a class or vendor protocol.
pub open spec fn spec_is_class_or_vendor(packet: SetupPacket) -> bool {
    spec_request_type(packet.request_type) == RequestType::Class || spec_request_type(
        packet.request_type,
    ) == RequestType::Vendor
}

/// A standard host-to-device request announcing a data stage.
pub open spec fn spec_std_out_data(packet: SetupPacket) -> bool {
    &&& spec_is_standard(packet)
    &&& spec_direction(packet.request_type) == Direction::HostToDevice
    &&& packet.length > 0
}

/// A standard host-to-device request without a data stage, for the given
/// recipient and request code.
pub open spec fn spec_std_out_nodata(packet: SetupPacket, recipient: Recipient, request: Request) -> bool {
    &&& spec_is_standard(packet)
    &&& spec_direction(packet.request_type) == Direction::HostToDevice
    &&& packet.length == 0
    &&& spec_recipient(packet.request_type) == recipient
    &&& spec_request(packet.request) == request
}

/// A standard device-to-host request for the given recipient and request.
pub open spec fn spec_std_in(packet: SetupPacket, recipient: Recipient, request: Request) -> bool {
    &&& spec_is_standard(packet)
    &&& spec_direction(packet.request_type) == Direction::DeviceToHost
    &&& spec_recipient(packet.request_type) == recipient
    &&& spec_request(packet.request) == request
}

/// A well-formed `SetAddress` request.
pub open spec fn spec_is_set_address(packet: SetupPacket) -> bool {
    spec_std_out_nodata(packet, Recipient::Device, Request::SetAddress)
}

/// A `SetFeature` or `ClearFeature` of `DeviceRemoteWakeup` on the device.
pub open spec fn spec_is_device_wakeup_feature(packet: SetupPacket) -> bool {
    &&& packet.value == 1
    &&& (spec_std_out_nodata(packet, Recipient::Device, Request::SetFeature)
        || spec_std_out_nodata(packet, Recipient::Device, Request::ClearFeature))
}

/// A `SetFeature` or `ClearFeature` of `EndpointHalt` on an endpoint.
pub open spec fn spec_is_endpoint_halt(packet: SetupPacket) -> bool {
    &&& packet.value == 0
    &&& (spec_std_out_nodata(packet, Recipient::Endpoint, Request::SetFeature)
        || spec_std_out_nodata(packet, Recipient::Endpoint, Request::ClearFeature))
}

/// A `GetStatus` on a recipient the engine answers for.
pub open spec fn spec_is_get_status(packet: SetupPacket) -> bool {
    ||| spec_std_in(packet, Recipient::Device, Request::GetStatus)
    ||| spec_std_in(packet, Recipient::Interface, Request::GetStatus)
    ||| spec_std_in(packet, Recipient::Endpoint, Request::GetStatus)
}

/// Whether the engine handles this SETUP packet without stalling: every
/// other packet is answered by stalling the control pipe.
pub open spec fn spec_setup_supported(dev: UsbDevice, packet: SetupPacket) -> bool {
    ||| (spec_is_class_or_vendor(packet) && dev.cb_vendor_request)
    ||| spec_std_out_data(packet)
    ||| spec_is_set_address(packet)
    ||| spec_std_out_nodata(packet, Recipient::Device, Request::SetConfiguration)
    ||| spec_is_device_wakeup_feature(packet)
    ||| spec_is_endpoint_halt(packet)
    ||| spec_std_out_nodata(packet, Recipient::Interface, Request::SetInterface)
    ||| (spec_std_in(packet, Recipient::Device, Request::GetDescriptor) && (spec_descriptor_bytes(
        dev,
        packet.value,
    ) is Some || (spec_is_string_overflow(dev, packet.value) && dev.cb_string_request)))
    ||| spec_std_in(packet, Recipient::Device, Request::GetConfiguration)
    ||| spec_is_get_status(packet)
    ||| spec_std_in(packet, Recipient::Interface, Request::GetInterface)
    ||| spec_std_in(packet, Recipient::Endpoint, Request::SynchronizeFrame)
}

/// The engine stalled the control pipe and went idle: both directions of
/// endpoint zero are halted, nothing reached the wire, and everything else
/// — addresses, toggles, engine fields — stands as before.
pub open spec fn spec_stall_transition(pre: UsbDevice, post: UsbDevice) -> bool {
    &&& post.state == PipeState::Idle
    &&& post.hal_driver.ep_in.stall@ == pre.hal_driver.ep_in.stall@.update(0, true)
    &&& post.hal_driver.ep_out.stall@ == pre.hal_driver.ep_out.stall@.update(0, true)
    &&& post.hal_driver.ep_in.pid == pre.hal_driver.ep_in.pid
    &&& post.hal_driver.ep_out.pid == pre.hal_driver.ep_out.pid
    &&& post.hal_driver.ep_in.fifo == pre.hal_driver.ep_in.fifo
    &&& post.hal_driver.ep_out.fifo == pre.hal_driver.ep_out.fifo
    &&& post.hal_driver.ep_out.primed == pre.hal_driver.ep_out.primed
    &&& post.hal_driver.ep_control.address == pre.hal_driver.ep_control.address
    &&& post.hal_driver.ep_out.address == pre.hal_driver.ep_out.address
    &&& post.hal_driver.controller == pre.hal_driver.controller
    &&& post.hal_driver.sent == pre.hal_driver.sent
    &&& spec_engine_fields_eq(pre, post)
}

/// The only hardware effect between `pre` and `post` is a zero-length
/// packet committed on IN endpoint zero — the status-stage acknowledgement
/// of a host-to-device request.
pub open spec fn spec_hal_zlp_only(pre: UsbRegisters, post: UsbRegisters) -> bool {
    &&& post.sent_view() == pre.sent_view().push((0u8, Seq::<u8>::empty()))
    &&& post.ep_in.stall == pre.ep_in.stall
    &&& post.ep_in.pid == pre.ep_in.pid
    &&& post.ep_in.ev_enable == pre.ep_in.ev_enable
    &&& post.ep_in.fifo@ == Seq::<u8>::empty()
    &&& post.ep_out == pre.ep_out
    &&& post.ep_control.address == pre.ep_control.address
    &&& post.controller == pre.controller
}

/// The engine streamed `response` on IN endpoint zero and primed a
/// zero-length OUT read for the status stage; the pipe is idle again.
pub open spec fn spec_respond_in_transition(
    pre: UsbDevice,
    post: UsbDevice,
    response: Seq<u8>,
) -> bool {
    &&& post.state == PipeState::Idle
    &&& post.hal_driver.sent_view() == pre.hal_driver.sent_view().push((0u8, response))
    &&& post.hal_driver.ep_out.primed == true
    &&& post.hal_driver.ep_out.epno == 0
    &&& post.hal_driver.ep_out.enabled == true
    &&& post.hal_driver.ep_out.fifo@ == Seq::<u8>::empty()
    &&& post.hal_driver.ep_out.address == pre.hal_driver.ep_out.address
    &&& post.hal_driver.ep_out.stall == pre.hal_driver.ep_out.stall
    &&& post.hal_driver.ep_out.pid == pre.hal_driver.ep_out.pid
    &&& post.hal_driver.ep_in.stall == pre.hal_driver.ep_in.stall
    &&& post.hal_driver.ep_in.pid == pre.hal_driver.ep_in.pid
    &&& post.hal_driver.ep_in.fifo@ == Seq::<u8>::empty()
    &&& post.hal_driver.ep_control.address == pre.hal_driver.ep_control.address
    &&& post.hal_driver.controller == pre.hal_driver.controller
    &&& spec_engine_fields_eq(pre, post)
}

/// The engine accepted a host-to-device data stage: the pipe waits in
/// `SetupReceived` with OUT endpoint zero primed; nothing reached the wire.
pub open spec fn spec_receive_data_transition(
    pre: UsbDevice,
    post: UsbDevice,
    packet: SetupPacket,
) -> bool {
    &&& post.state == PipeState::SetupReceived(packet)
    &&& post.hal_driver.ep_out.primed == true
    &&& post.hal_driver.ep_out.epno == 0
    &&& post.hal_driver.ep_out.fifo@ == Seq::<u8>::empty()
    &&& post.hal_driver.ep_out.address == pre.hal_driver.ep_out.address
    &&& post.hal_driver.ep_out.stall == pre.hal_driver.ep_out.stall
    &&& post.hal_driver.ep_out.pid == pre.hal_driver.ep_out.pid
    &&& post.hal_driver.ep_in == pre.hal_driver.ep_in
    &&& post.hal_driver.ep_control.address == pre.hal_driver.ep_control.address
    &&& post.hal_driver.controller == pre.hal_driver.controller
    &&& post.hal_driver.sent == pre.hal_driver.sent
    &&& spec_engine_fields_eq(pre, post)
}

/// The engine set the configuration from `value` and sent the status ZLP.
pub open spec fn spec_set_configuration_transition(
    pre: UsbDevice,
    post: UsbDevice,
    value: u16,
) -> bool {
    &&& post.state == PipeState::Idle
    &&& post.configuration == (value & 0xff) as u8
    &&& spec_hal_zlp_only(pre.hal_driver, post.hal_driver)
    &&& post.pending_address == pre.pending_address
    &&& post.remote_wakeup == pre.remote_wakeup
    &&& post.descriptors == pre.descriptors
    &&& post.cb_vendor_request == pre.cb_vendor_request
    &&& post.cb_string_request == pre.cb_string_request
}

/// The engine recorded the remote-wakeup feature and sent the status ZLP.
pub open spec fn spec_remote_wakeup_transition(pre: UsbDevice, post: UsbDevice, on: bool) -> bool {
    &&& post.state == PipeState::Idle
    &&& post.remote_wakeup == on
    &&& spec_hal_zlp_only(pre.hal_driver, post.hal_driver)
    &&& post.pending_address == pre.pending_address
    &&& post.configuration == pre.configuration
    &&& post.descriptors == pre.descriptors
    &&& post.cb_vendor_request == pre.cb_vendor_request
    &&& post.cb_string_request == pre.cb_string_request
}

/// The engine set or cleared the halt of the endpoint the address names —
/// clearing also resets the endpoint's data-PID toggle — and sent the
/// status ZLP.
pub open spec fn spec_endpoint_halt_transition(
    pre: UsbDevice,
    post: UsbDevice,
    address: u8,
    halt: bool,
) -> bool {
    let slot = (address & 0xf) as int;
    &&& post.state == PipeState::Idle
    &&& (spec_direction(address) == Direction::DeviceToHost ==> post.hal_driver.ep_in.stall@
        == pre.hal_driver.ep_in.stall@.update(slot, halt) && post.hal_driver.ep_out.stall
        == pre.hal_driver.ep_out.stall && post.hal_driver.ep_out.pid == pre.hal_driver.ep_out.pid
        && (halt ==> post.hal_driver.ep_in.pid == pre.hal_driver.ep_in.pid) && (!halt
        ==> post.hal_driver.ep_in.pid@ == pre.hal_driver.ep_in.pid@.update(slot, false)))
    &&& (spec_direction(address) == Direction::HostToDevice ==> post.hal_driver.ep_out.stall@
        == pre.hal_driver.ep_out.stall@.update(slot, halt) && post.hal_driver.ep_in.stall
        == pre.hal_driver.ep_in.stall && post.hal_driver.ep_in.pid == pre.hal_driver.ep_in.pid && (
    halt ==> post.hal_driver.ep_out.pid == pre.hal_driver.ep_out.pid) && (!halt
        ==> post.hal_driver.ep_out.pid@ == pre.hal_driver.ep_out.pid@.update(slot, false)))
    &&& post.hal_driver.sent_view() == pre.hal_driver.sent_view().push((0u8, Seq::<u8>::empty()))
    &&& post.hal_driver.ep_in.fifo@ == Seq::<u8>::empty()
    &&& post.hal_driver.ep_control.address == pre.hal_driver.ep_control.address
    &&& post.hal_driver.ep_out.address == pre.hal_driver.ep_out.address
    &&& post.hal_driver.controller == pre.hal_driver.controller
    &&& spec_engine_fields_eq(pre, post)
}

/// The engine delegated the request: its own state, the wire log and
/// every endpoint register other than the control FIFO (which dispatch
/// drains to read the packet) stand as before.
pub open spec fn spec_delegated_unchanged(pre: UsbDevice, post: UsbDevice) -> bool {
    &&& post.state == pre.state
    &&& spec_engine_fields_eq(pre, post)
    &&& post.hal_driver.ep_in == pre.hal_driver.ep_in
    &&& post.hal_driver.ep_out == pre.hal_driver.ep_out
    &&& post.hal_driver.controller == pre.hal_driver.controller
    &&& post.hal_driver.sent == pre.hal_driver.sent
    &&& post.hal_driver.ep_control.address == pre.hal_driver.ep_control.address
    &&& post.hal_driver.ep_control.ev_enable == pre.hal_driver.ep_control.ev_enable
}

/// A truncated SETUP was dropped: the control FIFO drained, the pipe
/// idle again, and everything else — registers, wire log, engine fields —
/// stands as before.
pub open spec fn spec_dropped_setup_transition(pre: UsbDevice, post: UsbDevice) -> bool {
    &&& post.state == PipeState::Idle
    &&& post.hal_driver.ep_control.fifo@ == Seq::<u8>::empty()
    &&& post.hal_driver.ep_control.address == pre.hal_driver.ep_control.address
    &&& post.hal_driver.ep_control.ev_enable == pre.hal_driver.ep_control.ev_enable
    &&& post.hal_driver.ep_in == pre.hal_driver.ep_in
    &&& post.hal_driver.ep_out == pre.hal_driver.ep_out
    &&& post.hal_driver.controller == pre.hal_driver.controller
    &&& post.hal_driver.sent == pre.hal_driver.sent
    &&& spec_engine_fields_eq(pre, post)
}

/// A host-to-device data stage completed: the OUT FIFO was drained, the
/// acknowledging ZLP stands newly on the wire, the pipe is idle, and every
/// register not involved in the acknowledgement is preserved.
pub open spec fn spec_status_zlp_transition(pre: UsbDevice, post: UsbDevice) -> bool {
    &&& post.state == PipeState::Idle
    &&& post.hal_driver.sent_view() == pre.hal_driver.sent_view().push((0u8, Seq::<u8>::empty()))
    &&& post.hal_driver.ep_in.ev_enable == pre.hal_driver.ep_in.ev_enable
    &&& post.hal_driver.ep_in.ev_pending == true
    &&& post.hal_driver.ep_in.epno == 0
    &&& post.hal_driver.ep_in.fifo@ == Seq::<u8>::empty()
    &&& post.hal_driver.ep_in.stall == pre.hal_driver.ep_in.stall
    &&& post.hal_driver.ep_in.pid == pre.hal_driver.ep_in.pid
    &&& post.hal_driver.ep_out.ev_enable == pre.hal_driver.ep_out.ev_enable
    &&& post.hal_driver.ep_out.address == pre.hal_driver.ep_out.address
    &&& post.hal_driver.ep_out.fifo@ == Seq::<u8>::empty()
    &&& post.hal_driver.ep_out.stall == pre.hal_driver.ep_out.stall
    &&& post.hal_driver.ep_out.pid == pre.hal_driver.ep_out.pid
    &&& post.hal_driver.ep_control == pre.hal_driver.ep_control
    &&& post.hal_driver.controller == pre.hal_driver.controller
    &&& spec_engine_fields_eq(pre, post)
}

/// A status-stage ZLP from the host was drained on an idle pipe: the OUT
/// FIFO empties and nothing else changes.
pub open spec fn spec_out_drain_transition(pre: UsbDevice, post: UsbDevice) -> bool {
    &&& post.state == PipeState::Idle
    &&& post.hal_driver.sent == pre.hal_driver.sent
    &&& post.hal_driver.ep_in == pre.hal_driver.ep_in
    &&& post.hal_driver.ep_control == pre.hal_driver.ep_control
    &&& post.hal_driver.controller == pre.hal_driver.controller
    &&& post.hal_driver.ep_out.ev_enable == pre.hal_driver.ep_out.ev_enable
    &&& post.hal_driver.ep_out.ev_pending == pre.hal_driver.ep_out.ev_pending
    &&& post.hal_driver.ep_out.address == pre.hal_driver.ep_out.address
    &&& post.hal_driver.ep_out.data_ep == pre.hal_driver.ep_out.data_ep
    &&& post.hal_driver.ep_out.epno == pre.hal_driver.ep_out.epno
    &&& post.hal_driver.ep_out.primed == pre.hal_driver.ep_out.primed
    &&& post.hal_driver.ep_out.enabled == pre.hal_driver.ep_out.enabled
    &&& post.hal_driver.ep_out.fifo@ == Seq::<u8>::empty()
    &&& post.hal_driver.ep_out.stall == pre.hal_driver.ep_out.stall
    &&& post.hal_driver.ep_out.pid == pre.hal_driver.ep_out.pid
    &&& spec_engine_fields_eq(pre, post)
}

/// The whole contract of SETUP dispatch, case by case: given the engine
/// state `pre` and the decoded packet, this says exactly which transition
/// `post` realizes, what the pending-TX-ack flag does, and what the call
/// returns.  Unsupported packets stall; nothing panics.
pub open spec fn spec_setup_outcome(
    pre: UsbDevice,
    post: UsbDevice,
    ack_pre: bool,
    ack_post: bool,
    packet: SetupPacket,
    r: ControlResult,
) -> bool {
    // class and vendor requests are delegated verbatim when a handler is
    // registered and stalled otherwise
    &&& (spec_is_class_or_vendor(packet) && pre.cb_vendor_request ==> spec_delegated_unchanged(
        pre,
        post,
    ) && ack_post == ack_pre && r == ControlResult::VendorRequest(packet, packet.request))
    &&& (spec_is_class_or_vendor(packet) && !pre.cb_vendor_request ==> spec_stall_transition(
        pre,
        post,
    ) && ack_post == ack_pre && r == ControlResult::Handled)
    // a standard host-to-device request with a data stage waits for its data
    &&& (spec_std_out_data(packet) ==> spec_receive_data_transition(pre, post, packet) && ack_post
        == ack_pre && r == ControlResult::Handled)
    // SetAddress defers the address write until the status stage completes
    &&& (spec_is_set_address(packet) ==> spec_set_address_transition(
        pre,
        post,
        ack_post,
        (packet.value & 0x7f) as u8,
    ) && r == ControlResult::Handled)
    &&& (!spec_is_set_address(packet) ==> ack_post == ack_pre)
    // SetConfiguration records the selected configuration
    &&& (spec_std_out_nodata(packet, Recipient::Device, Request::SetConfiguration)
        ==> spec_set_configuration_transition(pre, post, packet.value) && r
        == ControlResult::Handled)
    // device remote-wakeup feature is recorded, with no further side effect
    &&& (spec_is_device_wakeup_feature(packet) ==> spec_remote_wakeup_transition(
        pre,
        post,
        spec_request(packet.request) == Request::SetFeature,
    ) && r == ControlResult::Handled)
    // endpoint halt is set or cleared on the endpoint the index names
    &&& (spec_is_endpoint_halt(packet) ==> spec_endpoint_halt_transition(
        pre,
        post,
        (packet.index & 0xff) as u8,
        spec_request(packet.request) == Request::SetFeature,
    ) && r == ControlResult::Handled)
    // SetInterface accepts the default alternate setting
    &&& (spec_std_out_nodata(packet, Recipient::Interface, Request::SetInterface)
        ==> post.state == PipeState::Idle && spec_hal_zlp_only(pre.hal_driver, post.hal_driver)
        && spec_engine_fields_eq(pre, post) && r == ControlResult::Handled)
    // GetDescriptor streams the table entry, clamped to the asked length
    &&& (spec_std_in(packet, Recipient::Device, Request::GetDescriptor) && spec_descriptor_bytes(
        pre,
        packet.value,
    ) is Some ==> spec_respond_in_transition(
        pre,
        post,
        spec_clamped(spec_descriptor_bytes(pre, packet.value)->0, packet.length),
    ) && r == ControlResult::Handled)
    // a string index beyond the table is delegated when a handler exists
    &&& (spec_std_in(packet, Recipient::Device, Request::GetDescriptor) && spec_is_string_overflow(
        pre,
        packet.value,
    ) && pre.cb_string_request ==> spec_delegated_unchanged(pre, post) && r
        == ControlResult::StringRequest(packet, (packet.value & 0xff) as u8))
    // GetConfiguration reports the recorded configuration
    &&& (spec_std_in(packet, Recipient::Device, Request::GetConfiguration)
        ==> spec_respond_in_transition(
        pre,
        post,
        spec_clamped(seq![pre.configuration], packet.length),
    ) && r == ControlResult::Handled)
    // GetStatus reports the status bytes of its recipient
    &&& (spec_is_get_status(packet) ==> spec_respond_in_transition(
        pre,
        post,
        spec_clamped(spec_get_status_bytes(pre, packet), packet.length),
    ) && r == ControlResult::Handled)
    // GetInterface reports the default alternate setting
    &&& (spec_std_in(packet, Recipient::Interface, Request::GetInterface)
        ==> spec_respond_in_transition(pre, post, spec_clamped(seq![0u8], packet.length)) && r
        == ControlResult::Handled)
    // SynchronizeFrame reports a zero frame number
    &&& (spec_std_in(packet, Recipient::Endpoint, Request::SynchronizeFrame)
        ==> spec_respond_in_transition(pre, post, spec_clamped(seq![0u8, 0u8], packet.length)) && r
        == ControlResult::Handled)
    // everything else stalls the control pipe
    &&& (!spec_setup_supported(pre, packet) ==> spec_stall_transition(pre, post) && ack_post
        == ack_pre && r == ControlResult::Handled)
}

/// A zeroed byte buffer of the given length.
pub(crate) fn byte_buffer(len: usize) -> (v: Vec<u8>)
    ensures
        v@.len() == len,
{
    let mut v: Vec<u8> = Vec::new();
    let mut i: usize = 0;
    while i < len
        invariant
            i <= len,
            v@.len() == i,
        decreases len - i,
    {
        v.push(0);
        i = i + 1;
    }
    v
}

/// Streams `data`, clamped to the length the host asked for, as the data
/// stage on IN endpoint zero, then primes the zero-length OUT read that
/// acknowledges the status stage.
fn respond_in(regs: &mut UsbRegisters, packet: &SetupPacket, data: &[u8])
    requires
        spec_direction(packet.request_type) == Direction::DeviceToHost,
    ensures
        final(regs).sent_view() == old(regs).sent_view().push(
            (0u8, spec_clamped(data@, packet.length)),
        ),
        final(regs).ep_out.primed == true,
        final(regs).ep_out.epno == 0,
        final(regs).ep_out.enabled == true,
        final(regs).ep_out.fifo@ == Seq::<u8>::empty(),
        final(regs).ep_out.address == old(regs).ep_out.address,
        final(regs).ep_out.stall == old(regs).ep_out.stall,
        final(regs).ep_out.pid == old(regs).ep_out.pid,
        final(regs).ep_in.stall == old(regs).ep_in.stall,
        final(regs).ep_in.pid == old(regs).ep_in.pid,
        final(regs).ep_in.ev_enable == old(regs).ep_in.ev_enable,
        final(regs).ep_in.fifo@ == Seq::<u8>::empty(),
        final(regs).ep_control == old(regs).ep_control,
        final(regs).controller == old(regs).controller,
{
    let limit = packet.length as usize;
    let n = if limit < data.len() {
        limit
    } else {
        data.len()
    };
    let mut response: Vec<u8> = Vec::new();
    let mut i: usize = 0;
    while i < n
        invariant
            i <= n,
            n <= data@.len(),
            response@ == data@.take(i as int),
        decreases n - i,
    {
        let b = data[i];
        response.push(b);
        proof {
            assert(response@ =~= data@.take(i + 1));
        }
        i = i + 1;
    }
    proof {
        assert(data@.take(n as int) =~= spec_clamped(data@, packet.length));
        assert(0u8 & 0xf == 0) by (bit_vector);
    }
    let _did_reset = regs.write(0, response.as_slice());
    regs.ack_status_stage(packet);
}

impl UsbDevice {
    /// Stalls both directions of endpoint zero and returns the pipe to
    /// idle — the answer to every unsupported or malformed request.
    fn stall_and_idle(&mut self)
        requires
            old(self).wf(),
        ensures
            final(self).wf(),
            final(self).hal_driver.ep_control == old(self).hal_driver.ep_control,
            spec_stall_transition(*old(self), *final(self)),
    {
        self.hal_driver.stall_control_request();
        self.state = PipeState::Idle;
    }

    /// Locates and streams the descriptor a `GetDescriptor` request names,
    /// delegates string indices beyond the table, and stalls on the rest.
    fn handle_get_descriptor(&mut self, packet: SetupPacket) -> (r: ControlResult)
        requires
            old(self).wf(),
            spec_std_in(packet, Recipient::Device, Request::GetDescriptor),
        ensures
            final(self).wf(),
            final(self).hal_driver.ep_control.fifo == old(self).hal_driver.ep_control.fifo,
            spec_descriptor_bytes(*old(self), packet.value) is Some ==> spec_respond_in_transition(
                *old(self),
                *final(self),
                spec_clamped(spec_descriptor_bytes(*old(self), packet.value)->0, packet.length),
            ) && r == ControlResult::Handled,
            spec_is_string_overflow(*old(self), packet.value) && old(self).cb_string_request
                ==> *final(self) == *old(self) && r == ControlResult::StringRequest(
                packet,
                (packet.value & 0xff) as u8,
            ),
            spec_descriptor_bytes(*old(self), packet.value) is None && !(spec_is_string_overflow(
                *old(self),
                packet.value,
            ) && old(self).cb_string_request) ==> spec_stall_transition(*old(self), *final(self))
                && r == ControlResult::Handled,
    {
        let descriptor_type = (packet.value >> 8) as u8;
        let index = (packet.value & 0xff) as u8;
        if descriptor_type == 1 {
            respond_in(&mut self.hal_driver, &packet, self.descriptors.device.as_slice());
            self.state = PipeState::Idle;
            ControlResult::Handled
        } else if descriptor_type == 2 {
            respond_in(&mut self.hal_driver, &packet, self.descriptors.configuration.as_slice());
            self.state = PipeState::Idle;
            ControlResult::Handled
        } else if descriptor_type == 6 {
            respond_in(&mut self.hal_driver, &packet, self.descriptors.device_qualifier.as_slice());
            self.state = PipeState::Idle;
            ControlResult::Handled
        } else if descriptor_type == 7 {
            respond_in(
                &mut self.hal_driver,
                &packet,
                self.descriptors.other_speed_configuration.as_slice(),
            );
            self.state = PipeState::Idle;
            ControlResult::Handled
        } else if descriptor_type == 3 {
            if index == 0 {
                respond_in(&mut self.hal_driver, &packet, self.descriptors.string_zero.as_slice());
                self.state = PipeState::Idle;
                ControlResult::Handled
            } else if (index as usize) <= self.descriptors.strings.len() {
                let entry = &self.descriptors.strings[(index as usize) - 1];
                respond_in(&mut self.hal_driver, &packet, entry.as_slice());
                self.state = PipeState::Idle;
                ControlResult::Handled
            } else if self.cb_string_request {
                ControlResult::StringRequest(packet, index)
            } else {
                self.stall_and_idle();
                ControlResult::Handled
            }
        } else {
            self.stall_and_idle();
            ControlResult::Handled
        }
    }

    /// Dispatches one decoded SETUP packet: standard requests are resolved
    /// here, class/vendor and overflow string requests are delegated, and
    /// everything else stalls the control pipe.  Total: every bit pattern
    /// of the packet takes exactly one of the specified transitions.
    pub fn handle_setup(&mut self, tx_ack: &mut TxAckFlag, packet: SetupPacket) -> (r:
        ControlResult)
        requires
            old(self).wf(),
        ensures
            final(self).wf(),
            final(self).hal_driver.ep_control.fifo == old(self).hal_driver.ep_control.fifo,
            spec_setup_outcome(
                *old(self),
                *final(self),
                old(tx_ack).active,
                final(tx_ack).active,
                packet,
                r,
            ),
    {
        let request_type = packet.request_type();
        match request_type {
            RequestType::Class | RequestType::Vendor => {
                if self.cb_vendor_request {
                    return ControlResult::VendorRequest(packet, packet.request);
                }
                self.stall_and_idle();
                return ControlResult::Handled;
            },
            RequestType::Reserved => {
                self.stall_and_idle();
                return ControlResult::Handled;
            },
            RequestType::Standard => {},
        }
        let direction = packet.direction();
        if direction == Direction::HostToDevice && packet.length > 0 {
            self.hal_driver.ep_out_prime_receive(0);
            self.state = PipeState::SetupReceived(packet);
            proof {
                assert(0u8 & 0xf == 0) by (bit_vector);
            }
            return ControlResult::Handled;
        }
        let recipient = packet.recipient();
        let request = packet.request();
        if direction == Direction::HostToDevice {
            match (recipient, request) {
                (Recipient::Device, Request::SetAddress) => {
                    self.pending_address = Some((packet.value & 0x7f) as u8);
                    tx_ack.set_tx_ack_active();
                    self.hal_driver.ack_status_stage(&packet);
                    self.state = PipeState::Idle;
                    ControlResult::Handled
                },
                (Recipient::Device, Request::SetConfiguration) => {
                    self.configuration = (packet.value & 0xff) as u8;
                    self.hal_driver.ack_status_stage(&packet);
                    self.state = PipeState::Idle;
                    ControlResult::Handled
                },
                (Recipient::Device, Request::SetFeature) => {
                    if packet.value == 1 {
                        self.remote_wakeup = true;
                        self.hal_driver.ack_status_stage(&packet);
                        self.state = PipeState::Idle;
                        ControlResult::Handled
                    } else {
                        self.stall_and_idle();
                        ControlResult::Handled
                    }
                },
                (Recipient::Device, Request::ClearFeature) => {
                    if packet.value == 1 {
                        self.remote_wakeup = false;
                        self.hal_driver.ack_status_stage(&packet);
                        self.state = PipeState::Idle;
                        ControlResult::Handled
                    } else {
                        self.stall_and_idle();
                        ControlResult::Handled
                    }
                },
                (Recipient::Endpoint, Request::SetFeature) => {
                    if packet.value == 0 {
                        let address = (packet.index & 0xff) as u8;
                        if address & 0x80 == 0 {
                            self.hal_driver.stall_endpoint_out(address);
                        } else {
                            self.hal_driver.stall_endpoint_in(address);
                        }
                        self.hal_driver.ack_status_stage(&packet);
                        self.state = PipeState::Idle;
                        ControlResult::Handled
                    } else {
                        self.stall_and_idle();
                        ControlResult::Handled
                    }
                },
                (Recipient::Endpoint, Request::ClearFeature) => {
                    if packet.value == 0 {
                        let address = (packet.index & 0xff) as u8;
                        if address & 0x80 == 0 {
                            self.hal_driver.unstall_endpoint_out(address);
                        } else {
                            self.hal_driver.unstall_endpoint_in(address);
                        }
                        self.hal_driver.clear_feature_endpoint_halt(address);
                        self.hal_driver.ack_status_stage(&packet);
                        self.state = PipeState::Idle;
                        ControlResult::Handled
                    } else {
                        self.stall_and_idle();
                        ControlResult::Handled
                    }
                },
                (Recipient::Interface, Request::SetInterface) => {
                    self.hal_driver.ack_status_stage(&packet);
                    self.state = PipeState::Idle;
                    ControlResult::Handled
                },
                _ => {
                    self.stall_and_idle();
                    ControlResult::Handled
                },
            }
        } else {
            match (recipient, request) {
                (Recipient::Device, Request::GetDescriptor) => self.handle_get_descriptor(packet),
                (Recipient::Device, Request::GetConfiguration) => {
                    let mut response: Vec<u8> = Vec::new();
                    response.push(self.configuration);
                    proof {
                        assert(response@ =~= seq![old(self).configuration]);
                    }
                    respond_in(&mut self.hal_driver, &packet, response.as_slice());
                    self.state = PipeState::Idle;
                    ControlResult::Handled
                },
                (Recipient::Device, Request::GetStatus) => {
                    let mut response: Vec<u8> = Vec::new();
                    if self.remote_wakeup {
                        response.push(2);
                    } else {
                        response.push(0);
                    }
                    response.push(0);
                    proof {
                        assert(response@ =~= spec_get_status_bytes(*old(self), packet));
                    }
                    respond_in(&mut self.hal_driver, &packet, response.as_slice());
                    self.state = PipeState::Idle;
                    ControlResult::Handled
                },
                (Recipient::Interface, Request::GetStatus) => {
                    let mut response: Vec<u8> = Vec::new();
                    response.push(0);
                    response.push(0);
                    proof {
                        assert(response@ =~= spec_get_status_bytes(*old(self), packet));
                    }
                    respond_in(&mut self.hal_driver, &packet, response.as_slice());
                    self.state = PipeState::Idle;
                    ControlResult::Handled
                },
                (Recipient::Endpoint, Request::GetStatus) => {
                    let address = (packet.index & 0xff) as u8;
                    let slot = (address & 0xf) as usize;
                    proof {
                        assert(address & 0xf < 16) by (bit_vector);
                    }
                    let stalled = if address & 0x80 == 0 {
                        self.hal_driver.ep_out.stall[slot]
                    } else {
                        self.hal_driver.ep_in.stall[slot]
                    };
                    let mut response: Vec<u8> = Vec::new();
                    if stalled {
                        response.push(1);
                    } else {
                        response.push(0);
                    }
                    response.push(0);
                    proof {
                        assert(response@ =~= spec_get_status_bytes(*old(self), packet));
                    }
                    respond_in(&mut self.hal_driver, &packet, response.as_slice());
                    self.state = PipeState::Idle;
                    ControlResult::Handled
                },
                (Recipient::Interface, Request::GetInterface) => {
                    let mut response: Vec<u8> = Vec::new();
                    response.push(0);
                    proof {
                        assert(response@ =~= seq![0u8]);
                    }
                    respond_in(&mut self.hal_driver, &packet, response.as_slice());
                    self.state = PipeState::Idle;
                    ControlResult::Handled
                },
                (Recipient::Endpoint, Request::SynchronizeFrame) => {
                    let mut response: Vec<u8> = Vec::new();
                    response.push(0);
                    response.push(0);
                    proof {
                        assert(response@ =~= seq![0u8, 0u8]);
                    }
                    respond_in(&mut self.hal_driver, &packet, response.as_slice());
                    self.state = PipeState::Idle;
                    ControlResult::Handled
                },
                _ => {
                    self.stall_and_idle();
                    ControlResult::Handled
                },
            }
        }
    }

    /// Drains the latched SETUP bytes and dispatches the packet.  A
    /// truncated SETUP — fewer than eight bytes in the FIFO — drops the
    /// transfer and returns the pipe to idle: a malformed host is not
    /// fatal to the firmware.
    pub fn handle_receive_control(&mut self, tx_ack: &mut TxAckFlag) -> (r: ControlResult)
        requires
            old(self).wf(),
        ensures
            final(self).wf(),
            final(self).hal_driver.ep_control.fifo@ == Seq::<u8>::empty(),
            old(self).hal_driver.ep_control.fifo@.len() >= 8 ==> spec_setup_outcome(
                *old(self),
                *final(self),
                old(tx_ack).active,
                final(tx_ack).active,
                crate::setup::spec_setup_from_bytes(old(self).hal_driver.ep_control.fifo@.take(8)),
                r,
            ),
            old(self).hal_driver.ep_control.fifo@.len() < 8 ==> spec_dropped_setup_transition(
                *old(self),
                *final(self),
            ) && *final(tx_ack) == *old(tx_ack) && r == ControlResult::Handled,
    {
        let mut buffer = byte_buffer(8);
        let (bytes_read, _overflow) = self.hal_driver.read_control(&mut buffer);
        if bytes_read < 8 {
            self.state = PipeState::Idle;
            return ControlResult::Handled;
        }
        let raw: [u8; 8] = [
            buffer[0],
            buffer[1],
            buffer[2],
            buffer[3],
            buffer[4],
            buffer[5],
            buffer[6],
            buffer[7],
        ];
        proof {
            assert(raw@ =~= old(self).hal_driver.ep_control.fifo@.take(8));
        }
        let packet = SetupPacket::from_bytes(raw);
        self.handle_setup(tx_ack, packet)
    }

    /// Handles data arriving on OUT endpoint zero.  Mid-transfer — the
    /// pipe waiting in `SetupReceived` — this is the data stage: the bytes
    /// are drained and the transfer is acknowledged with a ZLP.  Otherwise
    /// it is the status-stage ZLP of an IN transfer; the FIFO is drained
    /// and the pipe stays idle.
    pub fn handle_receive_packet_zero(&mut self)
        requires
            old(self).wf(),
        ensures
            final(self).wf(),
            final(self).hal_driver.ep_out.fifo@ == Seq::<u8>::empty(),
            old(self).state is SetupReceived ==> spec_status_zlp_transition(
                *old(self),
                *final(self),
            ),
            old(self).state == PipeState::Idle ==> spec_out_drain_transition(
                *old(self),
                *final(self),
            ),
    {
        match self.state {
            PipeState::SetupReceived(_packet) => {
                let mut buffer = byte_buffer(64);
                let (_bytes_read, _overflow) = self.hal_driver.read(0, &mut buffer);
                proof {
                    assert(0u8 & 0xf == 0) by (bit_vector);
                }
                self.hal_driver.ack(0, Direction::HostToDevice);
                self.state = PipeState::Idle;
            },
            PipeState::Idle => {
                let mut buffer = byte_buffer(0);
                let (_bytes_read, _overflow) = self.hal_driver.read(0, &mut buffer);
            },
        }
    }

    /// Consumes one control-pipe event: a bus reset, a SETUP packet, data
    /// on endpoint zero or a completed transmission.  Events for other
    /// endpoints are handed back to the caller untouched.
    pub fn dispatch_control(&mut self, tx_ack: &mut TxAckFlag, event: UsbEvent) -> (r:
        ControlResult)
        requires
            old(self).wf(),
        ensures
            final(self).wf(),
            event == UsbEvent::BusReset ==> spec_bus_reset_transition(*old(self), *final(self))
                && final(self).remote_wakeup == old(self).remote_wakeup && *final(tx_ack) == *old(tx_ack) && r == ControlResult::Handled,
            event == UsbEvent::ReceiveControl(0) && old(self).hal_driver.ep_control.fifo@.len()
                >= 8 ==> spec_setup_outcome(
                *old(self),
                *final(self),
                old(tx_ack).active,
                final(tx_ack).active,
                crate::setup::spec_setup_from_bytes(old(self).hal_driver.ep_control.fifo@.take(8)),
                r,
            ),
            event == UsbEvent::ReceiveControl(0) && old(self).hal_driver.ep_control.fifo@.len() < 8
                ==> spec_dropped_setup_transition(*old(self), *final(self)) && *final(tx_ack)
                == *old(tx_ack) && r == ControlResult::Handled,
            event == UsbEvent::ReceivePacket(0) && old(self).state is SetupReceived
                ==> spec_status_zlp_transition(*old(self), *final(self)) && *final(tx_ack) == *old(tx_ack)
                && r == ControlResult::Handled,
            event == UsbEvent::ReceivePacket(0) && old(self).state == PipeState::Idle
                ==> spec_out_drain_transition(*old(self), *final(self))
                && *final(tx_ack) == *old(tx_ack) && r == ControlResult::Handled,
            event == UsbEvent::SendComplete(0) ==> (!old(tx_ack).active && old(self).pending_address is Some ==> spec_address_commit_transition(
                *old(self),
                *final(self),
                old(self).pending_address->0,
            )) && (old(tx_ack).active || old(self).pending_address is None ==> *final(self) == *old(self)) && *final(tx_ack) == *old(tx_ack) && r == ControlResult::Handled,
            (match event {
                UsbEvent::BusReset => false,
                UsbEvent::ReceiveControl(endpoint) => endpoint != 0,
                UsbEvent::ReceivePacket(endpoint) => endpoint != 0,
                UsbEvent::SendComplete(endpoint) => endpoint != 0,
            }) ==> *final(self) == *old(self) && *final(tx_ack) == *old(tx_ack) && r
                == ControlResult::Unhandled(event),
    {
        match event {
            UsbEvent::BusReset => {
                self.bus_reset();
                ControlResult::Handled
            },
            UsbEvent::ReceiveControl(endpoint) => {
                if endpoint == 0 {
                    self.handle_receive_control(tx_ack)
                } else {
                    ControlResult::Unhandled(event)
                }
            },
            UsbEvent::ReceivePacket(endpoint) => {
                if endpoint == 0 {
                    self.handle_receive_packet_zero();
                    ControlResult::Handled
                } else {
                    ControlResult::Unhandled(event)
                }
            },
            UsbEvent::SendComplete(endpoint) => {
                if endpoint == 0 {
                    self.handle_send_complete(&*tx_ack);
                    ControlResult::Handled
                } else {
                    ControlResult::Unhandled(event)
                }
            },
        }
    }
}

} // verus!
