use moondancer::dispatch::{machine_external, machine_external_reading};
use moondancer::event::{InterruptEvent, UsbEvent, UsbInterface};
use moondancer::queue::{event_queue_new, next_event, next_receive_packet, packet_queue_new};
use moondancer::regs::{TxAckFlag, UsbRegisters};

#[test]
fn bus_reset_takes_priority_and_resets_in_place() {
    let mut regs = UsbRegisters::new(0);
    let mut tx_ack = TxAckFlag::new();
    let mut queue = event_queue_new();
    regs.set_address(7);
    regs.host_deliver_control(0, &[1, 2, 3, 4, 5, 6, 7, 8]);
    regs.host_signal_bus_reset();
    machine_external(&mut regs, &mut tx_ack, UsbInterface::Target, &mut queue).unwrap();
    assert_eq!(
        next_event(&mut queue),
        Some(InterruptEvent::Usb(UsbInterface::Target, UsbEvent::BusReset))
    );
    // the reset happened before the main loop sees the event
    assert_eq!(regs.ep_control.address, 0);
    assert_eq!(regs.ep_control.fifo.len(), 0);
    assert!(!regs.controller.ev_pending);
    // the controller, control and IN sources end re-enabled
    assert!(regs.controller.ev_enable);
    assert!(regs.ep_control.ev_enable);
    assert!(regs.ep_in.ev_enable);
    // the lower-priority cause is still pending for the next interrupt
    assert!(regs.ep_control.ev_pending);
    machine_external(&mut regs, &mut tx_ack, UsbInterface::Target, &mut queue).unwrap();
    assert_eq!(
        next_event(&mut queue),
        Some(InterruptEvent::Usb(UsbInterface::Target, UsbEvent::ReceiveControl(0)))
    );
}

#[test]
fn out_data_is_reported_with_its_endpoint() {
    let mut regs = UsbRegisters::new(0);
    let mut tx_ack = TxAckFlag::new();
    let mut queue = event_queue_new();
    regs.ep_out_prime_receive(2);
    assert!(regs.host_deliver_out(2, &[1, 2, 3]));
    machine_external(&mut regs, &mut tx_ack, UsbInterface::Aux, &mut queue).unwrap();
    assert_eq!(
        next_event(&mut queue),
        Some(InterruptEvent::Usb(UsbInterface::Aux, UsbEvent::ReceivePacket(2)))
    );
    // the event-only dispatcher leaves the data for the main loop
    assert!(regs.out_has_data());
}

#[test]
fn send_complete_clears_the_tx_ack_flag() {
    let mut regs = UsbRegisters::new(0);
    let mut tx_ack = TxAckFlag::new();
    let mut queue = event_queue_new();
    tx_ack.set_tx_ack_active();
    regs.write(0, &[]);
    assert!(regs.ep_in.ev_pending);
    machine_external(&mut regs, &mut tx_ack, UsbInterface::Target, &mut queue).unwrap();
    assert!(!tx_ack.is_tx_ack_active());
    assert!(!regs.ep_in.ev_pending);
    assert_eq!(
        next_event(&mut queue),
        Some(InterruptEvent::Usb(UsbInterface::Target, UsbEvent::SendComplete(0)))
    );
}

#[test]
fn an_interrupt_with_no_cause_is_reported_unknown() {
    let mut regs = UsbRegisters::new(0);
    let mut tx_ack = TxAckFlag::new();
    let mut queue = event_queue_new();
    machine_external(&mut regs, &mut tx_ack, UsbInterface::Target, &mut queue).unwrap();
    assert_eq!(next_event(&mut queue), Some(InterruptEvent::UnknownInterrupt(0)));
}

#[test]
fn reading_dispatcher_queues_the_packet_bytes() {
    let mut regs = UsbRegisters::new(0);
    let mut tx_ack = TxAckFlag::new();
    let mut queue = event_queue_new();
    let mut packets = packet_queue_new();
    regs.ep_out_prime_receive(1);
    assert!(regs.host_deliver_out(1, &[10, 20, 30]));
    machine_external_reading(
        &mut regs,
        &mut tx_ack,
        UsbInterface::Target,
        &mut queue,
        &mut packets,
    )
    .unwrap();
    // the FIFO was drained inside the handler and the bytes travel with
    // the notification
    assert!(!regs.out_has_data());
    assert_eq!(next_event(&mut queue), None);
    assert_eq!(next_receive_packet(&mut packets), Some((0u8, 1u8, vec![10, 20, 30])));
}

#[test]
fn reading_dispatcher_reports_control_events_like_the_plain_one() {
    let mut regs = UsbRegisters::new(0);
    let mut tx_ack = TxAckFlag::new();
    let mut queue = event_queue_new();
    let mut packets = packet_queue_new();
    regs.host_deliver_control(0, &[1, 2, 3, 4, 5, 6, 7, 8]);
    machine_external_reading(
        &mut regs,
        &mut tx_ack,
        UsbInterface::Aux,
        &mut queue,
        &mut packets,
    )
    .unwrap();
    assert_eq!(
        next_event(&mut queue),
        Some(InterruptEvent::Usb(UsbInterface::Aux, UsbEvent::ReceiveControl(0)))
    );
    assert_eq!(next_receive_packet(&mut packets), None);
}
