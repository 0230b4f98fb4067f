use moondancer::error::FirmwareError;
use moondancer::event::{InterruptEvent, UsbEvent, UsbInterface};
use moondancer::queue::{
    dispatch_event, dispatch_receive_packet, event_queue_new, next_event, next_receive_packet,
    packet_queue_new,
};

#[test]
fn event_words_round_trip_through_encoding() {
    let interfaces = [UsbInterface::Target, UsbInterface::Aux];
    let endpoints = [0u8, 1, 2, 15, 16, 255];
    for &interface in &interfaces {
        for &endpoint in &endpoints {
            let events = [
                InterruptEvent::Usb(interface, UsbEvent::BusReset),
                InterruptEvent::Usb(interface, UsbEvent::ReceiveControl(endpoint)),
                InterruptEvent::Usb(interface, UsbEvent::ReceivePacket(endpoint)),
                InterruptEvent::Usb(interface, UsbEvent::SendComplete(endpoint)),
            ];
            for &event in &events {
                assert_eq!(InterruptEvent::decode(event.encode()), event);
            }
        }
    }
    for &payload in &[0u32, 1, 0xdead_beef, u32::MAX] {
        let unknown = InterruptEvent::UnknownInterrupt(payload);
        assert_eq!(InterruptEvent::decode(unknown.encode()), unknown);
        let error = InterruptEvent::ErrorMessage(payload);
        assert_eq!(InterruptEvent::decode(error.encode()), error);
    }
}

#[test]
fn decoding_is_total_over_arbitrary_words() {
    // words with unknown tags read as unknown-interrupt markers
    for &word in &[0u64, 4, 0xff, u64::MAX, 0x1234_5678_9abc_def0] {
        let _ = InterruptEvent::decode(word);
    }
    assert_eq!(
        InterruptEvent::decode(0x0000_0042_0000_00feu64),
        InterruptEvent::UnknownInterrupt(0x42)
    );
}

#[test]
fn event_queue_is_fifo() {
    let mut queue = event_queue_new();
    let first = InterruptEvent::Usb(UsbInterface::Target, UsbEvent::BusReset);
    let second = InterruptEvent::Usb(UsbInterface::Target, UsbEvent::ReceiveControl(0));
    let third = InterruptEvent::Usb(UsbInterface::Aux, UsbEvent::SendComplete(3));
    assert_eq!(dispatch_event(&mut queue, first), Ok(()));
    assert_eq!(dispatch_event(&mut queue, second), Ok(()));
    assert_eq!(dispatch_event(&mut queue, third), Ok(()));
    assert_eq!(next_event(&mut queue), Some(first));
    assert_eq!(next_event(&mut queue), Some(second));
    assert_eq!(next_event(&mut queue), Some(third));
    assert_eq!(next_event(&mut queue), None);
}

#[test]
fn event_queue_overflow_is_reported() {
    let mut queue = event_queue_new();
    let event = InterruptEvent::Usb(UsbInterface::Target, UsbEvent::ReceivePacket(1));
    for _ in 0..32 {
        assert_eq!(dispatch_event(&mut queue, event), Ok(()));
    }
    assert_eq!(
        dispatch_event(&mut queue, event),
        Err(FirmwareError::EventQueueOverflow)
    );
    // the queue still holds its 32 events in order
    for _ in 0..32 {
        assert_eq!(next_event(&mut queue), Some(event));
    }
    assert_eq!(next_event(&mut queue), None);
}

#[test]
fn packet_queue_is_fifo_and_reports_overflow() {
    let mut queue = packet_queue_new();
    for n in 0u8..16 {
        let packet = (0u8, n, vec![n, n.wrapping_add(1)]);
        assert_eq!(dispatch_receive_packet(&mut queue, packet), Ok(()));
    }
    assert_eq!(
        dispatch_receive_packet(&mut queue, (1, 1, vec![9])),
        Err(FirmwareError::PacketQueueOverflow)
    );
    for n in 0u8..16 {
        let popped = next_receive_packet(&mut queue).unwrap();
        assert_eq!(popped, (0u8, n, vec![n, n.wrapping_add(1)]));
    }
    assert_eq!(next_receive_packet(&mut queue), None);
}
