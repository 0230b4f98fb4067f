//! The bounded event queue between interrupt context and the main loop.
//!
//! The queue itself is `heapless::mpmc::MpMcQueue`, a fixed-capacity
//! lock-free multi-producer/multi-consumer ring.  Its operations are trusted
//! against the crate's source; everything layered on top — the typed
//! enqueue/dequeue of events and of received packets — is verified.
use vstd::prelude::*;

use heapless::mpmc::MpMcQueue;

use crate::error::FirmwareError;
use crate::event::{spec_decode_event, spec_encode_event, InterruptEvent};

verus! {

/// Capacity of the event queue, enough for the maximum number of
/// simultaneously in-flight events across both ports.
pub const EVENT_QUEUE_CAPACITY: usize = 32;

/// Capacity of the received-packet queue, one slot per endpoint.
pub const PACKET_QUEUE_CAPACITY: usize = 16;

#[verifier::external_type_specification]
#[verifier::external_body]
#[verifier::reject_recursive_types(T)]
pub struct ExMpMcQueue<T, const N: usize>(MpMcQueue<T, N>);

/// The words held by an event queue, oldest first.
pub uninterp spec fn event_queue_contents(q: MpMcQueue<u64, 32>) -> Seq<u64>;

/// The received packets held by a packet queue, oldest first, each as
/// (interface code, endpoint, payload bytes).
pub uninterp spec fn packet_queue_contents(q: MpMcQueue<(u8, u8, Vec<u8>), 16>) -> Seq<
    (u8, u8, Seq<u8>),
>;

/// Relies on heapless::mpmc::MpMcQueue::new: it creates an empty queue.
#[verifier::external_body]
pub fn event_queue_new() -> (q: MpMcQueue<u64, 32>)
    ensures
        event_queue_contents(q) == Seq::<u64>::empty(),
{
    MpMcQueue::new()
}

/// Relies on heapless::mpmc::MpMcQueue::enqueue: it appends the item when
/// the ring has a free slot and hands the item back when it is full.
#[verifier::external_body]
fn event_queue_enqueue(q: &mut MpMcQueue<u64, 32>, word: u64) -> (r: Result<(), u64>)
    ensures
        match r {
            Ok(()) => event_queue_contents(*old(q)).len() < EVENT_QUEUE_CAPACITY && event_queue_contents(*final(q))
                == event_queue_contents(*old(q)).push(word),
            Err(back) => back == word && event_queue_contents(*old(q)).len() == EVENT_QUEUE_CAPACITY
                && event_queue_contents(*final(q)) == event_queue_contents(*old(q)),
        },
{
    (&*q).enqueue(word)
}

/// Relies on heapless::mpmc::MpMcQueue::dequeue: it removes and returns the
/// oldest item, or returns None on an empty ring.
#[verifier::external_body]
fn event_queue_dequeue(q: &mut MpMcQueue<u64, 32>) -> (r: Option<u64>)
    ensures
        match r {
            Some(word) => event_queue_contents(*old(q)).len() > 0 && word == event_queue_contents(
                *old(q),
            )[0] && event_queue_contents(*final(q)) == event_queue_contents(*old(q)).drop_first(),
            None => event_queue_contents(*old(q)).len() == 0 && event_queue_contents(*final(q))
                == event_queue_contents(*old(q)),
        },
{
    (&*q).dequeue()
}

/// Relies on heapless::mpmc::MpMcQueue::new: it creates an empty queue.
#[verifier::external_body]
pub fn packet_queue_new() -> (q: MpMcQueue<(u8, u8, Vec<u8>), 16>)
    ensures
        packet_queue_contents(q) == Seq::<(u8, u8, Seq<u8>)>::empty(),
{
    MpMcQueue::new()
}

/// Relies on heapless::mpmc::MpMcQueue::enqueue: it appends the item when
/// the ring has a free slot and hands the item back when it is full.
#[verifier::external_body]
fn packet_queue_enqueue(q: &mut MpMcQueue<(u8, u8, Vec<u8>), 16>, packet: (u8, u8, Vec<u8>)) -> (r:
    Result<(), (u8, u8, Vec<u8>)>)
    ensures
        match r {
            Ok(()) => packet_queue_contents(*old(q)).len() < PACKET_QUEUE_CAPACITY && packet_queue_contents(*final(q))
                == packet_queue_contents(*old(q)).push((packet.0, packet.1, packet.2@)),
            Err(back) => back == packet && packet_queue_contents(*old(q)).len() == PACKET_QUEUE_CAPACITY
                && packet_queue_contents(*final(q)) == packet_queue_contents(*old(q)),
        },
{
    (&*q).enqueue(packet)
}

/// Relies on heapless::mpmc::MpMcQueue::dequeue: it removes and returns the
/// oldest item, or returns None on an empty ring.
#[verifier::external_body]
fn packet_queue_dequeue(q: &mut MpMcQueue<(u8, u8, Vec<u8>), 16>) -> (r: Option<(u8, u8, Vec<u8>)>)
    ensures
        match r {
            Some(packet) => packet_queue_contents(*old(q)).len() > 0 && (
            packet.0,
            packet.1,
            packet.2@,
            ) == packet_queue_contents(*old(q))[0] && packet_queue_contents(*final(q))
                == packet_queue_contents(*old(q)).drop_first(),
            None => packet_queue_contents(*old(q)).len() == 0 && packet_queue_contents(*final(q))
                == packet_queue_contents(*old(q)),
        },
{
    (&*q).dequeue()
}

/// Pushes an event onto the event queue for the main loop.
///
/// A full queue is a fatal condition — the main loop is not keeping up with
/// interrupt arrival and dropping events risks protocol desynchronization —
/// so the caller is expected to abort on the error.
pub fn dispatch_event(queue: &mut MpMcQueue<u64, 32>, event: InterruptEvent) -> (r: Result<
    (),
    FirmwareError,
>)
    ensures
        match r {
            Ok(()) => event_queue_contents(*old(queue)).len() < EVENT_QUEUE_CAPACITY && event_queue_contents(
                *final(queue),
            ) == event_queue_contents(*old(queue)).push(spec_encode_event(event)),
            Err(e) => e == FirmwareError::EventQueueOverflow && event_queue_contents(*old(queue)).len()
                == EVENT_QUEUE_CAPACITY && event_queue_contents(*final(queue)) == event_queue_contents(*old(queue)),
        },
{
    match event_queue_enqueue(queue, event.encode()) {
        Ok(()) => Ok(()),
        Err(_) => Err(FirmwareError::EventQueueOverflow),
    }
}

/// Pops the oldest event off the event queue, or returns None when the
/// queue is empty (an empty queue is not an error; the loop moves on).
pub fn next_event(queue: &mut MpMcQueue<u64, 32>) -> (r: Option<InterruptEvent>)
    ensures
        match r {
            Some(event) => event_queue_contents(*old(queue)).len() > 0 && event
                == spec_decode_event(event_queue_contents(*old(queue))[0]) && event_queue_contents(
                *final(queue),
            ) == event_queue_contents(*old(queue)).drop_first(),
            None => event_queue_contents(*old(queue)).len() == 0 && event_queue_contents(
                *final(queue),
            ) == event_queue_contents(*old(queue)),
        },
{
    match event_queue_dequeue(queue) {
        Some(word) => Some(InterruptEvent::decode(word)),
        None => None,
    }
}

/// Pushes a received data packet onto the packet queue for the main loop.
///
/// As with the event queue, overflow is fatal rather than silently dropped.
pub fn dispatch_receive_packet(
    queue: &mut MpMcQueue<(u8, u8, Vec<u8>), 16>,
    usb_receive_packet: (u8, u8, Vec<u8>),
) -> (r: Result<(), FirmwareError>)
    ensures
        match r {
            Ok(()) => packet_queue_contents(*old(queue)).len() < PACKET_QUEUE_CAPACITY && packet_queue_contents(
                *final(queue),
            ) == packet_queue_contents(*old(queue)).push(
                (usb_receive_packet.0, usb_receive_packet.1, usb_receive_packet.2@),
            ),
            Err(e) => e == FirmwareError::PacketQueueOverflow && packet_queue_contents(
                *old(queue),
            ).len() == PACKET_QUEUE_CAPACITY && packet_queue_contents(*final(queue)) == packet_queue_contents(
                *old(queue),
            ),
        },
{
    match packet_queue_enqueue(queue, usb_receive_packet) {
        Ok(()) => Ok(()),
        Err(_) => Err(FirmwareError::PacketQueueOverflow),
    }
}

/// Pops the oldest received packet off the packet queue, or None when empty.
pub fn next_receive_packet(queue: &mut MpMcQueue<(u8, u8, Vec<u8>), 16>) -> (r: Option<
    (u8, u8, Vec<u8>),
>)
    ensures
        match r {
            Some(packet) => packet_queue_contents(*old(queue)).len() > 0 && (
            packet.0,
            packet.1,
            packet.2@,
            ) == packet_queue_contents(*old(queue))[0] && packet_queue_contents(*final(queue))
                == packet_queue_contents(*old(queue)).drop_first(),
            None => packet_queue_contents(*old(queue)).len() == 0 && packet_queue_contents(
                *final(queue),
            ) == packet_queue_contents(*old(queue)),
        },
{
    packet_queue_dequeue(queue)
}

} // verus!
