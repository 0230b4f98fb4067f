//! Typed events produced by the interrupt dispatcher and consumed by the
//! main loop.
//!
//! Events cross from interrupt context to the main loop through a bounded
//! lock-free queue of machine words.  [`InterruptEvent::encode`] packs an
//! event into a word and [`InterruptEvent::decode`] unpacks it; the
//! round-trip law proves the queue transports events unchanged.
use vstd::prelude::*;

verus! {

/// The physical USB port an event belongs to.
#[derive(Clone, Copy, Debug, PartialEq, Eq, Structural)]
pub enum UsbInterface {
    /// The target-facing port.
    Target,
    /// The auxiliary port.
    Aux,
}

/// A USB sub-event on one port, as reported by the four interrupt sources.
#[derive(Clone, Copy, Debug, PartialEq, Eq, Structural)]
pub enum UsbEvent {
    /// The controller saw a bus reset.
    BusReset,
    /// The control endpoint latched a SETUP packet for the given endpoint.
    ReceiveControl(u8),
    /// The OUT endpoint received a packet for the given endpoint.
    ReceivePacket(u8),
    /// The IN endpoint finished transmitting on the given endpoint.
    SendComplete(u8),
}

/// An event handed from the interrupt dispatcher to the main loop.
///
/// Ownership transfers fully into the queue: producer and consumer share no
/// state beyond the queue itself.
#[derive(Clone, Copy, Debug, PartialEq, Eq, Structural)]
pub enum InterruptEvent {
    /// A USB sub-event on one port.
    Usb(UsbInterface, UsbEvent),
    /// An interrupt with no recognized cause; carries the raw pending bitmap.
    UnknownInterrupt(u32),
    /// A fault noticed in interrupt context; carries an error code.
    ErrorMessage(u32),
}

/// The code stored in bits 8..16 of an encoded `Usb` event word.
pub open spec fn spec_interface_code(interface: UsbInterface) -> u8 {
    match interface {
        UsbInterface::Target => 0,
        UsbInterface::Aux => 1,
    }
}

impl UsbInterface {
    /// The one-byte code this interface travels under in a queued packet.
    pub fn code(&self) -> (r: u8)
        ensures
            r == spec_interface_code(*self),
    {
        match *self {
            UsbInterface::Target => 0,
            UsbInterface::Aux => 1,
        }
    }

    /// The interface a one-byte code names; codes above 1 read as the
    /// auxiliary port.
    pub fn from_code(code: u8) -> (r: UsbInterface)
        ensures
            code == 0 ==> r == UsbInterface::Target,
            code != 0 ==> r == UsbInterface::Aux,
    {
        if code == 0 {
            UsbInterface::Target
        } else {
            UsbInterface::Aux
        }
    }
}

/// The kind code and endpoint stored in bits 16..32 of an encoded `Usb`
/// event word.
pub open spec fn spec_usb_event_code(event: UsbEvent) -> (u8, u8) {
    match event {
        UsbEvent::BusReset => (0, 0),
        UsbEvent::ReceiveControl(endpoint) => (1, endpoint),
        UsbEvent::ReceivePacket(endpoint) => (2, endpoint),
        UsbEvent::SendComplete(endpoint) => (3, endpoint),
    }
}

/// The queue word that stands for an event: a tag in the low byte and the
/// payload above it.
pub open spec fn spec_encode_event(event: InterruptEvent) -> u64 {
    match event {
        InterruptEvent::Usb(interface, usb_event) => {
            let (kind, endpoint) = spec_usb_event_code(usb_event);
            1u64 | ((spec_interface_code(interface) as u64) << 8) | ((kind as u64) << 16) | (
            (endpoint as u64) << 24)
        },
        InterruptEvent::UnknownInterrupt(pending) => 2u64 | ((pending as u64) << 32),
        InterruptEvent::ErrorMessage(code) => 3u64 | ((code as u64) << 32),
    }
}

/// The event a queue word stands for.  Total: a word with an unknown tag
/// or sub-code reads as an `UnknownInterrupt` carrying its payload, so a
/// corrupted word cannot fault the consumer.
pub open spec fn spec_decode_event(word: u64) -> InterruptEvent {
    let tag = word & 0xff;
    if tag == 1 {
        let interface = if (word >> 8) & 0xff == 0 {
            UsbInterface::Target
        } else {
            UsbInterface::Aux
        };
        let kind = (word >> 16) & 0xff;
        let endpoint = ((word >> 24) & 0xff) as u8;
        if kind == 0 {
            InterruptEvent::Usb(interface, UsbEvent::BusReset)
        } else if kind == 1 {
            InterruptEvent::Usb(interface, UsbEvent::ReceiveControl(endpoint))
        } else if kind == 2 {
            InterruptEvent::Usb(interface, UsbEvent::ReceivePacket(endpoint))
        } else {
            InterruptEvent::Usb(interface, UsbEvent::SendComplete(endpoint))
        }
    } else if tag == 2 {
        InterruptEvent::UnknownInterrupt(((word >> 32) & 0xffff_ffff) as u32)
    } else if tag == 3 {
        InterruptEvent::ErrorMessage(((word >> 32) & 0xffff_ffff) as u32)
    } else {
        InterruptEvent::UnknownInterrupt(((word >> 32) & 0xffff_ffff) as u32)
    }
}

impl InterruptEvent {
    /// Packs this event into the word form the event queue carries.
    pub fn encode(&self) -> (word: u64)
        ensures
            word == spec_encode_event(*self),
    {
        match *self {
            InterruptEvent::Usb(interface, usb_event) => {
                let interface_code: u8 = match interface {
                    UsbInterface::Target => 0,
                    UsbInterface::Aux => 1,
                };
                let (kind, endpoint): (u8, u8) = match usb_event {
                    UsbEvent::BusReset => (0, 0),
                    UsbEvent::ReceiveControl(endpoint) => (1, endpoint),
                    UsbEvent::ReceivePacket(endpoint) => (2, endpoint),
                    UsbEvent::SendComplete(endpoint) => (3, endpoint),
                };
                1u64 | ((interface_code as u64) << 8) | ((kind as u64) << 16) | ((endpoint as u64)
                    << 24)
            },
            InterruptEvent::UnknownInterrupt(pending) => 2u64 | ((pending as u64) << 32),
            InterruptEvent::ErrorMessage(code) => 3u64 | ((code as u64) << 32),
        }
    }

    /// Unpacks a queue word back into an event; total over all words.
    pub fn decode(word: u64) -> (event: InterruptEvent)
        ensures
            event == spec_decode_event(word),
    {
        let tag = word & 0xff;
        if tag == 1 {
            let interface = if (word >> 8) & 0xff == 0 {
                UsbInterface::Target
            } else {
                UsbInterface::Aux
            };
            let kind = (word >> 16) & 0xff;
            let endpoint = ((word >> 24) & 0xff) as u8;
            if kind == 0 {
                InterruptEvent::Usb(interface, UsbEvent::BusReset)
            } else if kind == 1 {
                InterruptEvent::Usb(interface, UsbEvent::ReceiveControl(endpoint))
            } else if kind == 2 {
                InterruptEvent::Usb(interface, UsbEvent::ReceivePacket(endpoint))
            } else {
                InterruptEvent::Usb(interface, UsbEvent::SendComplete(endpoint))
            }
        } else if tag == 2 {
            InterruptEvent::UnknownInterrupt(((word >> 32) & 0xffff_ffff) as u32)
        } else if tag == 3 {
            InterruptEvent::ErrorMessage(((word >> 32) & 0xffff_ffff) as u32)
        } else {
            InterruptEvent::UnknownInterrupt(((word >> 32) & 0xffff_ffff) as u32)
        }
    }
}

/// Law: decoding the encoding of any event yields the event itself, so the
/// event queue delivers exactly what the interrupt dispatcher put in.
pub proof fn lemma_event_round_trip(event: InterruptEvent)
    ensures
        spec_decode_event(spec_encode_event(event)) == event,
{
    match event {
        InterruptEvent::Usb(interface, usb_event) => {
            let i = spec_interface_code(interface);
            let (k, e) = spec_usb_event_code(usb_event);
            let word = 1u64 | ((i as u64) << 8) | ((k as u64) << 16) | ((e as u64) << 24);
            assert(i <= 1 && k <= 3) by {
                lemma_codes_small(interface, usb_event);
            }
            assert(i <= 1 && k <= 3 ==> word & 0xff == 1 && (word >> 8) & 0xff == i && (word >> 16)
                & 0xff == k && ((word >> 24) & 0xff) as u8 == e) by (bit_vector)
                requires
                    word == 1u64 | ((i as u64) << 8) | ((k as u64) << 16) | ((e as u64) << 24),
            ;
        },
        InterruptEvent::UnknownInterrupt(pending) => {
            let word = 2u64 | ((pending as u64) << 32);
            assert(word & 0xff == 2 && ((word >> 32) & 0xffff_ffff) as u32 == pending)
                by (bit_vector)
                requires
                    word == 2u64 | ((pending as u64) << 32),
            ;
        },
        InterruptEvent::ErrorMessage(code) => {
            let word = 3u64 | ((code as u64) << 32);
            assert(word & 0xff == 3 && ((word >> 32) & 0xffff_ffff) as u32 == code) by (bit_vector)
                requires
                    word == 3u64 | ((code as u64) << 32),
            ;
        },
    }
}

/// The interface and kind codes fit in the fields reserved for them.
proof fn lemma_codes_small(interface: UsbInterface, event: UsbEvent)
    ensures
        spec_interface_code(interface) <= 1,
        spec_usb_event_code(event).0 <= 3,
{
}

} // verus!
