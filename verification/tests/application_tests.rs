use moondancer::control::{Descriptors, Speed, UsbDevice};
use moondancer::event::{UsbEvent, UsbInterface};
use moondancer::loopback::{
    handle_string_request, handle_vendor_request, loopback_packet, service_control_event,
    UsbDataPacket,
};
use moondancer::regs::{TxAckFlag, UsbRegisters};
use moondancer::setup::SetupPacket;
use moondancer::speed_test::{process_test_command, test_in_speed, TestCommand, TestStats};

fn device() -> UsbDevice {
    UsbDevice::new(
        UsbRegisters::new(0),
        Descriptors {
            device: vec![18, 1],
            device_qualifier: vec![10, 6],
            configuration: vec![9, 2],
            other_speed_configuration: vec![9, 7],
            string_zero: vec![4, 3, 0x09, 0x04],
            strings: vec![],
        },
    )
}

#[test]
fn speed_decodes_the_two_bit_hardware_code() {
    assert_eq!(Speed::from(0), Speed::High);
    assert_eq!(Speed::from(1), Speed::Full);
    assert_eq!(Speed::from(2), Speed::Low);
    assert_eq!(Speed::from(3), Speed::SuperSpeed);
    // only the low two bits matter
    assert_eq!(Speed::from(0x81), Speed::Full);
}

#[test]
fn test_command_decodes_like_the_protocol_says() {
    assert_eq!(TestCommand::from(0x23), TestCommand::In);
    assert_eq!(TestCommand::from(0x42), TestCommand::Out);
    assert_eq!(TestCommand::from(0xff), TestCommand::Error);
    assert_eq!(TestCommand::from(0x00), TestCommand::Stop);
    assert_eq!(TestCommand::from(0x24), TestCommand::Stop);
}

#[test]
fn update_in_tracks_extremes_and_resets() {
    let mut stats = TestStats::new();
    assert_eq!(stats.min_write_time, usize::MAX);
    stats.update_in(10, 4, false);
    assert_eq!(stats.max_write_time, 10);
    assert_eq!(stats.min_write_time, 10);
    assert_eq!(stats.max_flush_time, 4);
    assert_eq!(stats.min_flush_time, 4);
    assert_eq!(stats.reset_count, 0);
    stats.update_in(3, 9, true);
    assert_eq!(stats.max_write_time, 10);
    assert_eq!(stats.min_write_time, 3);
    assert_eq!(stats.max_flush_time, 9);
    assert_eq!(stats.min_flush_time, 4);
    assert_eq!(stats.reset_count, 1);
    stats.reset();
    assert_eq!(stats.reset_count, 0);
    assert_eq!(stats.min_write_time, usize::MAX);
}

#[test]
fn process_test_command_switches_and_ignores_garbage() {
    let mut stats = TestStats::new();
    stats.update_in(1, 1, true);
    let next = process_test_command(1, 0x23, &mut stats, TestCommand::Stop);
    assert_eq!(next, TestCommand::In);
    assert_eq!(stats.reset_count, 0);
    let next = process_test_command(1, 0x42, &mut stats, TestCommand::In);
    assert_eq!(next, TestCommand::Out);
    let next = process_test_command(1, 0x99, &mut stats, TestCommand::Out);
    assert_eq!(next, TestCommand::Stop);
    // a packet of the wrong size keeps the running command
    let next = process_test_command(3, 0x23, &mut stats, TestCommand::Out);
    assert_eq!(next, TestCommand::Out);
}

#[test]
fn test_in_speed_sends_one_packet_and_counts_it() {
    let mut regs = UsbRegisters::new(0);
    let mut stats = TestStats::new();
    let data: Vec<u8> = (0..64).map(|n| (n % 256) as u8).collect();
    test_in_speed(&mut regs, &data, &mut stats);
    assert_eq!(stats.write_count, 1);
    assert_eq!(stats.reset_count, 0);
    assert_eq!(regs.sent.len(), 1);
    assert_eq!(regs.sent[0].endpoint, 1);
    assert_eq!(regs.sent[0].bytes, data);
    test_in_speed(&mut regs, &data, &mut stats);
    assert_eq!(stats.write_count, 2);
    assert_eq!(regs.sent.len(), 2);
}

#[test]
fn vendor_and_string_handlers_spoof_their_responses() {
    let mut dev = device();
    let packet = SetupPacket::from_bytes([0xc0, 0x5f, 0, 0, 0, 0, 2, 0]);
    handle_vendor_request(&mut dev, &packet, 0x5f);
    assert_eq!(dev.hal_driver.sent.last().unwrap().bytes, vec![0, 0]);
    handle_string_request(&mut dev, &packet, 9);
    assert_eq!(dev.hal_driver.sent.last().unwrap().bytes, Vec::<u8>::new());
}

#[test]
fn service_control_event_runs_the_delegated_request_to_completion() {
    let mut dev = device();
    dev.cb_vendor_request = true;
    let mut tx_ack = TxAckFlag::new();
    // a device-to-host vendor request
    dev.hal_driver.host_deliver_control(
        0,
        &SetupPacket::as_bytes(SetupPacket {
            request_type: 0xc0,
            request: 0x5f,
            value: 0,
            index: 0,
            length: 2,
        }),
    );
    let unhandled = service_control_event(&mut dev, &mut tx_ack, UsbEvent::ReceiveControl(0));
    assert_eq!(unhandled, None);
    // the spoofed data stage went out and the status stage is primed
    assert_eq!(dev.hal_driver.sent.last().unwrap().bytes, vec![0, 0]);
    assert!(dev.hal_driver.ep_out.primed);
}

#[test]
fn service_control_event_acks_a_host_to_device_vendor_request_with_a_zlp() {
    let mut dev = device();
    dev.cb_vendor_request = true;
    let mut tx_ack = TxAckFlag::new();
    // a host-to-device vendor request without data
    dev.hal_driver.host_deliver_control(
        0,
        &SetupPacket::as_bytes(SetupPacket {
            request_type: 0x40,
            request: 0xab,
            value: 0,
            index: 0,
            length: 0,
        }),
    );
    let unhandled = service_control_event(&mut dev, &mut tx_ack, UsbEvent::ReceiveControl(0));
    assert_eq!(unhandled, None);
    // the spoofed response, then the status-stage ZLP
    assert_eq!(dev.hal_driver.sent.len(), 2);
    assert_eq!(dev.hal_driver.sent[0].bytes, vec![0, 0]);
    assert_eq!(dev.hal_driver.sent[1].bytes, Vec::<u8>::new());
}

#[test]
fn loopback_routes_bulk_packets_to_the_other_port() {
    let mut usb0 = UsbRegisters::new(0);
    let mut usb1 = UsbRegisters::new(0);
    let packet = UsbDataPacket::from_queued((0, 1, vec![5, 6, 7]));
    assert_eq!(packet.bytes_read, 3);
    assert_eq!(packet.interface, UsbInterface::Target);
    let forwarded = loopback_packet(&mut usb0, &mut usb1, &packet);
    assert!(forwarded);
    assert_eq!(usb1.sent.len(), 1);
    assert_eq!(usb1.sent[0].endpoint, 1);
    assert_eq!(usb1.sent[0].bytes, vec![5, 6, 7]);
    assert!(usb0.ep_out.primed);
    assert_eq!(usb0.sent.len(), 0);
    // and symmetrically from the auxiliary port
    let back = UsbDataPacket::from_queued((1, 2, vec![9]));
    let forwarded = loopback_packet(&mut usb0, &mut usb1, &back);
    assert!(forwarded);
    assert_eq!(usb0.sent.len(), 1);
    assert_eq!(usb0.sent[0].endpoint, 2);
    assert!(usb1.ep_out.primed);
}

#[test]
fn loopback_never_routes_the_control_endpoint() {
    let mut usb0 = UsbRegisters::new(0);
    let mut usb1 = UsbRegisters::new(0);
    let packet = UsbDataPacket::from_queued((0, 0, vec![1, 2]));
    let forwarded = loopback_packet(&mut usb0, &mut usb1, &packet);
    assert!(!forwarded);
    assert_eq!(usb1.sent.len(), 0);
    assert!(usb0.ep_out.primed);
}
