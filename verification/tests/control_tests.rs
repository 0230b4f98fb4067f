use moondancer::control::{ControlResult, Descriptors, PipeState, UsbDevice};
use moondancer::dispatch::machine_external;
use moondancer::event::{InterruptEvent, UsbEvent, UsbInterface};
use moondancer::queue::{event_queue_new, next_event};
use moondancer::regs::{TxAckFlag, UsbRegisters};
use moondancer::setup::SetupPacket;

const DEVICE_DESCRIPTOR: [u8; 18] = [
    18, 1, 0x00, 0x02, 0, 0, 0, 64, 0x50, 0x1d, 0x5b, 0x61, 0x01, 0x01, 1, 2, 3, 1,
];

fn descriptors() -> Descriptors {
    Descriptors {
        device: DEVICE_DESCRIPTOR.to_vec(),
        device_qualifier: vec![10, 6, 0x00, 0x02, 0, 0, 0, 64, 1, 0],
        configuration: vec![9, 2, 18, 0, 1, 1, 1, 0x80, 50, 9, 4, 0, 0, 0, 0, 0, 0, 2],
        other_speed_configuration: vec![9, 7, 18, 0, 1, 1, 1, 0x80, 50],
        string_zero: vec![4, 3, 0x09, 0x04],
        strings: vec![vec![4, 3, b'a', 0], vec![4, 3, b'b', 0]],
    }
}

fn device() -> UsbDevice {
    UsbDevice::new(UsbRegisters::new(0), descriptors())
}

fn setup_bytes(request_type: u8, request: u8, value: u16, index: u16, length: u16) -> [u8; 8] {
    SetupPacket::as_bytes(SetupPacket { request_type, request, value, index, length })
}

/// The host sends GetDescriptor(Device) asking for 18 bytes: the engine
/// streams the 18-byte device descriptor over one IN packet, primes a ZLP
/// OUT read for the status stage, and the pipe returns to idle.
#[test]
fn get_device_descriptor_scenario() {
    let mut dev = device();
    let mut tx_ack = TxAckFlag::new();
    dev.hal_driver
        .host_deliver_control(0, &setup_bytes(0x80, 6, 0x0100, 0, 18));
    let result = dev.dispatch_control(&mut tx_ack, UsbEvent::ReceiveControl(0));
    assert_eq!(result, ControlResult::Handled);
    // one IN packet carrying the whole descriptor
    assert_eq!(dev.hal_driver.sent.len(), 1);
    assert_eq!(dev.hal_driver.sent[0].endpoint, 0);
    assert_eq!(dev.hal_driver.sent[0].bytes, DEVICE_DESCRIPTOR.to_vec());
    // the status stage: a zero-length OUT read primed on endpoint zero
    assert!(dev.hal_driver.ep_out.primed);
    assert_eq!(dev.hal_driver.ep_out.epno, 0);
    assert_eq!(dev.state, PipeState::Idle);
}

#[test]
fn get_descriptor_clamps_to_the_asked_length() {
    let mut dev = device();
    let mut tx_ack = TxAckFlag::new();
    dev.hal_driver
        .host_deliver_control(0, &setup_bytes(0x80, 6, 0x0100, 0, 8));
    dev.dispatch_control(&mut tx_ack, UsbEvent::ReceiveControl(0));
    assert_eq!(dev.hal_driver.sent[0].bytes, DEVICE_DESCRIPTOR[..8].to_vec());
}

/// SetAddress must not be observed on the address registers until a
/// SendComplete for the status-stage ZLP has been processed: the ZLP
/// commit comes first, the address write second.
#[test]
fn set_address_defers_the_register_write() {
    let mut dev = device();
    let mut tx_ack = TxAckFlag::new();
    let mut queue = event_queue_new();

    // the host sends SetAddress(5); the interrupt dispatcher reports it
    dev.hal_driver.host_deliver_control(0, &setup_bytes(0x00, 5, 5, 0, 0));
    machine_external(&mut dev.hal_driver, &mut tx_ack, UsbInterface::Target, &mut queue).unwrap();
    let event = next_event(&mut queue).unwrap();
    assert_eq!(event, InterruptEvent::Usb(UsbInterface::Target, UsbEvent::ReceiveControl(0)));

    // the engine accepts the request: status ZLP committed, address NOT yet
    let result = dev.dispatch_control(&mut tx_ack, UsbEvent::ReceiveControl(0));
    assert_eq!(result, ControlResult::Handled);
    assert_eq!(dev.hal_driver.sent.len(), 1);
    assert_eq!(dev.hal_driver.sent[0].bytes, Vec::<u8>::new());
    assert_eq!(dev.hal_driver.ep_control.address, 0);
    assert_eq!(dev.hal_driver.ep_out.address, 0);
    assert_eq!(dev.pending_address, Some(5));
    assert!(tx_ack.is_tx_ack_active());

    // the ZLP's transmission completes: the interrupt clears the flag and
    // queues SendComplete(0); the address is still not written
    machine_external(&mut dev.hal_driver, &mut tx_ack, UsbInterface::Target, &mut queue).unwrap();
    assert!(!tx_ack.is_tx_ack_active());
    assert_eq!(dev.hal_driver.ep_control.address, 0);
    let event = next_event(&mut queue).unwrap();
    assert_eq!(event, InterruptEvent::Usb(UsbInterface::Target, UsbEvent::SendComplete(0)));

    // only processing SendComplete(0) commits the address
    let result = dev.dispatch_control(&mut tx_ack, UsbEvent::SendComplete(0));
    assert_eq!(result, ControlResult::Handled);
    assert_eq!(dev.hal_driver.ep_control.address, 5);
    assert_eq!(dev.hal_driver.ep_out.address, 5);
    assert_eq!(dev.pending_address, None);
    // and nothing more went on the wire after the ZLP
    assert_eq!(dev.hal_driver.sent.len(), 1);
}

/// A BusReset arriving while the pipe waits mid-transfer returns the pipe
/// to idle unconditionally, resets the device address to zero and clears
/// all three FIFOs.
#[test]
fn bus_reset_mid_transfer_scenario() {
    let mut dev = device();
    let mut tx_ack = TxAckFlag::new();
    // give the device an address and a transfer in flight
    dev.hal_driver.set_address(5);
    dev.hal_driver
        .host_deliver_control(0, &setup_bytes(0x00, 7, 0, 0, 4));
    dev.dispatch_control(&mut tx_ack, UsbEvent::ReceiveControl(0));
    assert!(matches!(dev.state, PipeState::SetupReceived(_)));
    // leave bytes around so the FIFO clears are observable
    dev.hal_driver.in_push_byte(0x55);
    dev.hal_driver.host_deliver_control(0, &[1, 2, 3]);

    let result = dev.dispatch_control(&mut tx_ack, UsbEvent::BusReset);
    assert_eq!(result, ControlResult::Handled);
    assert_eq!(dev.state, PipeState::Idle);
    assert_eq!(dev.hal_driver.ep_control.address, 0);
    assert_eq!(dev.hal_driver.ep_out.address, 0);
    assert_eq!(dev.hal_driver.ep_control.fifo.len(), 0);
    assert_eq!(dev.hal_driver.ep_in.fifo.len(), 0);
    assert_eq!(dev.hal_driver.ep_out.fifo.len(), 0);
    assert_eq!(dev.pending_address, None);
}

/// An unsupported vendor request with no vendor handler registered stalls
/// both directions of endpoint zero and returns the pipe to idle.
#[test]
fn unsupported_request_stalls_scenario() {
    let mut dev = device();
    let mut tx_ack = TxAckFlag::new();
    assert!(!dev.cb_vendor_request);
    dev.hal_driver
        .host_deliver_control(0, &setup_bytes(0x40, 0xab, 0, 0, 0));
    let result = dev.dispatch_control(&mut tx_ack, UsbEvent::ReceiveControl(0));
    assert_eq!(result, ControlResult::Handled);
    assert!(dev.hal_driver.ep_in.stall[0]);
    assert!(dev.hal_driver.ep_out.stall[0]);
    assert_eq!(dev.state, PipeState::Idle);
    assert_eq!(dev.hal_driver.sent.len(), 0);
}

#[test]
fn vendor_request_is_delegated_when_a_handler_exists() {
    let mut dev = device();
    dev.cb_vendor_request = true;
    let mut tx_ack = TxAckFlag::new();
    dev.hal_driver
        .host_deliver_control(0, &setup_bytes(0x40, 0xab, 0, 0, 0));
    let result = dev.dispatch_control(&mut tx_ack, UsbEvent::ReceiveControl(0));
    let packet = SetupPacket::from_bytes(setup_bytes(0x40, 0xab, 0, 0, 0));
    assert_eq!(result, ControlResult::VendorRequest(packet, 0xab));
    assert!(!dev.hal_driver.ep_in.stall[0]);
    assert_eq!(dev.hal_driver.sent.len(), 0);
}

#[test]
fn truncated_setup_drops_the_transfer() {
    let mut dev = device();
    let mut tx_ack = TxAckFlag::new();
    dev.hal_driver.host_deliver_control(0, &[0x80, 6, 0, 1, 0]);
    let result = dev.dispatch_control(&mut tx_ack, UsbEvent::ReceiveControl(0));
    assert_eq!(result, ControlResult::Handled);
    assert_eq!(dev.state, PipeState::Idle);
    assert_eq!(dev.hal_driver.sent.len(), 0);
    assert!(!dev.hal_driver.ep_in.stall[0]);
}

#[test]
fn host_to_device_data_stage_is_received_and_acknowledged() {
    let mut dev = device();
    let mut tx_ack = TxAckFlag::new();
    dev.hal_driver
        .host_deliver_control(0, &setup_bytes(0x00, 7, 0, 0, 4));
    dev.dispatch_control(&mut tx_ack, UsbEvent::ReceiveControl(0));
    assert!(matches!(dev.state, PipeState::SetupReceived(_)));
    assert!(dev.hal_driver.ep_out.primed);
    // the host sends the data stage
    assert!(dev.hal_driver.host_deliver_out(0, &[1, 2, 3, 4]));
    let result = dev.dispatch_control(&mut tx_ack, UsbEvent::ReceivePacket(0));
    assert_eq!(result, ControlResult::Handled);
    assert_eq!(dev.state, PipeState::Idle);
    // the engine acknowledged with a ZLP
    assert_eq!(dev.hal_driver.sent.len(), 1);
    assert_eq!(dev.hal_driver.sent[0].bytes, Vec::<u8>::new());
}

#[test]
fn set_and_get_configuration_round_trip() {
    let mut dev = device();
    let mut tx_ack = TxAckFlag::new();
    dev.hal_driver
        .host_deliver_control(0, &setup_bytes(0x00, 9, 1, 0, 0));
    dev.dispatch_control(&mut tx_ack, UsbEvent::ReceiveControl(0));
    assert_eq!(dev.configuration, 1);
    // the status ZLP went out
    assert_eq!(dev.hal_driver.sent.len(), 1);
    assert_eq!(dev.hal_driver.sent[0].bytes, Vec::<u8>::new());

    dev.hal_driver
        .host_deliver_control(0, &setup_bytes(0x80, 8, 0, 0, 1));
    dev.dispatch_control(&mut tx_ack, UsbEvent::ReceiveControl(0));
    assert_eq!(dev.hal_driver.sent.len(), 2);
    assert_eq!(dev.hal_driver.sent[1].bytes, vec![1]);
}

#[test]
fn get_status_reports_an_endpoint_halt() {
    let mut dev = device();
    let mut tx_ack = TxAckFlag::new();
    // halt IN endpoint one via SetFeature(EndpointHalt)
    dev.hal_driver
        .host_deliver_control(0, &setup_bytes(0x02, 3, 0, 0x81, 0));
    dev.dispatch_control(&mut tx_ack, UsbEvent::ReceiveControl(0));
    assert!(dev.hal_driver.ep_in.stall[1]);
    // GetStatus on that endpoint reports the halt bit
    dev.hal_driver
        .host_deliver_control(0, &setup_bytes(0x82, 0, 0, 0x81, 2));
    dev.dispatch_control(&mut tx_ack, UsbEvent::ReceiveControl(0));
    let last = dev.hal_driver.sent.last().unwrap();
    assert_eq!(last.bytes, vec![1, 0]);
    // ClearFeature(EndpointHalt) lifts it and resets the toggle
    dev.hal_driver.ep_in.pid[1] = true;
    dev.hal_driver
        .host_deliver_control(0, &setup_bytes(0x02, 1, 0, 0x81, 0));
    dev.dispatch_control(&mut tx_ack, UsbEvent::ReceiveControl(0));
    assert!(!dev.hal_driver.ep_in.stall[1]);
    assert!(!dev.hal_driver.ep_in.pid[1]);
    dev.hal_driver
        .host_deliver_control(0, &setup_bytes(0x82, 0, 0, 0x81, 2));
    dev.dispatch_control(&mut tx_ack, UsbEvent::ReceiveControl(0));
    let last = dev.hal_driver.sent.last().unwrap();
    assert_eq!(last.bytes, vec![0, 0]);
}

#[test]
fn remote_wakeup_is_recorded_and_reported() {
    let mut dev = device();
    let mut tx_ack = TxAckFlag::new();
    dev.hal_driver
        .host_deliver_control(0, &setup_bytes(0x00, 3, 1, 0, 0));
    dev.dispatch_control(&mut tx_ack, UsbEvent::ReceiveControl(0));
    assert!(dev.remote_wakeup);
    dev.hal_driver
        .host_deliver_control(0, &setup_bytes(0x80, 0, 0, 0, 2));
    dev.dispatch_control(&mut tx_ack, UsbEvent::ReceiveControl(0));
    assert_eq!(dev.hal_driver.sent.last().unwrap().bytes, vec![2, 0]);
    dev.hal_driver
        .host_deliver_control(0, &setup_bytes(0x00, 1, 1, 0, 0));
    dev.dispatch_control(&mut tx_ack, UsbEvent::ReceiveControl(0));
    assert!(!dev.remote_wakeup);
}

#[test]
fn string_descriptors_come_from_the_table() {
    let mut dev = device();
    let mut tx_ack = TxAckFlag::new();
    dev.hal_driver
        .host_deliver_control(0, &setup_bytes(0x80, 6, 0x0300, 0, 255));
    dev.dispatch_control(&mut tx_ack, UsbEvent::ReceiveControl(0));
    assert_eq!(dev.hal_driver.sent.last().unwrap().bytes, vec![4, 3, 0x09, 0x04]);
    dev.hal_driver
        .host_deliver_control(0, &setup_bytes(0x80, 6, 0x0302, 0, 255));
    dev.dispatch_control(&mut tx_ack, UsbEvent::ReceiveControl(0));
    assert_eq!(dev.hal_driver.sent.last().unwrap().bytes, vec![4, 3, b'b', 0]);
    // an index beyond the table with no handler stalls
    dev.hal_driver
        .host_deliver_control(0, &setup_bytes(0x80, 6, 0x0305, 0, 255));
    dev.dispatch_control(&mut tx_ack, UsbEvent::ReceiveControl(0));
    assert!(dev.hal_driver.ep_in.stall[0]);
}

#[test]
fn events_for_other_endpoints_are_handed_back() {
    let mut dev = device();
    let mut tx_ack = TxAckFlag::new();
    let event = UsbEvent::ReceivePacket(2);
    assert_eq!(
        dev.dispatch_control(&mut tx_ack, event),
        ControlResult::Unhandled(event)
    );
    let event = UsbEvent::SendComplete(1);
    assert_eq!(
        dev.dispatch_control(&mut tx_ack, event),
        ControlResult::Unhandled(event)
    );
}
