//! Types for working with the SETUP packet.
//!
//! A SETUP packet is the fixed eight-byte header that opens every USB
//! control transfer.  Decoding is total: every bit pattern maps to a value
//! of the derived enums, so no packet from the host can fault the firmware.
use vstd::prelude::*;

use crate::error::FirmwareError;

verus! {

/// Represents a USB setup packet.
///
/// The multi-byte fields `value`, `index` and `length` travel little-endian
/// on the wire; [`SetupPacket::as_bytes`] and [`SetupPacket::from_bytes`]
/// fix that layout explicitly.
#[derive(Clone, Copy, Debug, PartialEq, Eq, Structural)]
pub struct SetupPacket {
    // 0..4 Recipient: 0=Device, 1=Interface, 2=Endpoint, 3=Other, 4-31=Reserved
    // 5..6 Type: 0=Standard, 1=Class, 2=Vendor, 3=Reserved
    // 7    Data Phase Transfer Direction: 0=Host to Device, 1=Device to Host
    pub request_type: u8,
    // values 0..=12 are standard, others are class or vendor
    pub request: u8,
    pub value: u16,
    pub index: u16,
    pub length: u16,
}

/// Represents bits 0..=4 of the `SetupPacket` `request_type` field.
#[derive(Clone, Copy, Debug, PartialEq, Eq, Structural)]
pub enum Recipient {
    Device,
    Interface,
    Endpoint,
    Other,
    Reserved,
}

/// Represents bits 5..=6 of the `SetupPacket` `request_type` field.
#[derive(Clone, Copy, Debug, PartialEq, Eq, Structural)]
pub enum RequestType {
    Standard,
    Class,
    Vendor,
    Reserved,
}

/// Represents bit 7 of the `SetupPacket` `request_type` field.
#[derive(Clone, Copy, Debug, PartialEq, Eq, Structural)]
pub enum Direction {
    /// Host to device (OUT)
    HostToDevice,
    /// Device to host (IN)
    DeviceToHost,
}

/// Represents the `SetupPacket` `request` field.
#[derive(Clone, Copy, Debug, PartialEq, Eq, Structural)]
pub enum Request {
    GetStatus,
    ClearFeature,
    SetFeature,
    SetAddress,
    GetDescriptor,
    SetDescriptor,
    GetConfiguration,
    SetConfiguration,
    GetInterface,
    SetInterface,
    SynchronizeFrame,
    ClassOrVendor(u8),
    Reserved(u8),
}

/// Represents standard values for `Request::SetFeature` and `Request::ClearFeature`.
#[derive(Clone, Copy, Debug, PartialEq, Eq, Structural)]
pub enum Feature {
    EndpointHalt,
    DeviceRemoteWakeup,
}

/// The recipient encoded in the low five bits of a `request_type` byte.
pub open spec fn spec_recipient(value: u8) -> Recipient {
    let bits = value & 0x1f;
    if bits == 0 {
        Recipient::Device
    } else if bits == 1 {
        Recipient::Interface
    } else if bits == 2 {
        Recipient::Endpoint
    } else if bits == 3 {
        Recipient::Other
    } else {
        Recipient::Reserved
    }
}

/// The request type encoded in bits 5 and 6 of a `request_type` byte.
pub open spec fn spec_request_type(value: u8) -> RequestType {
    let bits = (value >> 5) & 0x03;
    if bits == 0 {
        RequestType::Standard
    } else if bits == 1 {
        RequestType::Class
    } else if bits == 2 {
        RequestType::Vendor
    } else {
        RequestType::Reserved
    }
}

/// The transfer direction encoded in bit 7 of a `request_type` byte.
pub open spec fn spec_direction(value: u8) -> Direction {
    if value & 0x80 == 0 {
        Direction::HostToDevice
    } else {
        Direction::DeviceToHost
    }
}

/// The request decoded from a `request` byte.  Codes 2 and 4 are reserved
/// by the standard; codes 13 and up belong to class or vendor protocols.
pub open spec fn spec_request(value: u8) -> Request {
    if value == 0 {
        Request::GetStatus
    } else if value == 1 {
        Request::ClearFeature
    } else if value == 3 {
        Request::SetFeature
    } else if value == 5 {
        Request::SetAddress
    } else if value == 6 {
        Request::GetDescriptor
    } else if value == 7 {
        Request::SetDescriptor
    } else if value == 8 {
        Request::GetConfiguration
    } else if value == 9 {
        Request::SetConfiguration
    } else if value == 10 {
        Request::GetInterface
    } else if value == 11 {
        Request::SetInterface
    } else if value == 12 {
        Request::SynchronizeFrame
    } else if value >= 13 {
        Request::ClassOrVendor(value)
    } else {
        Request::Reserved(value)
    }
}

/// The feature selector carried in the `value` field of `SetFeature` and
/// `ClearFeature` requests; values above 1 are not standard features.
pub open spec fn spec_feature(value: u16) -> Option<Feature> {
    if value == 0 {
        Some(Feature::EndpointHalt)
    } else if value == 1 {
        Some(Feature::DeviceRemoteWakeup)
    } else {
        None
    }
}

/// The eight-byte little-endian wire form of a SETUP packet.
pub open spec fn spec_setup_bytes(packet: SetupPacket) -> Seq<u8> {
    seq![
        packet.request_type,
        packet.request,
        (packet.value & 0xff) as u8,
        (packet.value >> 8) as u8,
        (packet.index & 0xff) as u8,
        (packet.index >> 8) as u8,
        (packet.length & 0xff) as u8,
        (packet.length >> 8) as u8,
    ]
}

/// The SETUP packet described by eight little-endian wire bytes.
pub open spec fn spec_setup_from_bytes(bytes: Seq<u8>) -> SetupPacket
    recommends
        bytes.len() == 8,
{
    SetupPacket {
        request_type: bytes[0],
        request: bytes[1],
        value: (bytes[2] as u16) | ((bytes[3] as u16) << 8),
        index: (bytes[4] as u16) | ((bytes[5] as u16) << 8),
        length: (bytes[6] as u16) | ((bytes[7] as u16) << 8),
    }
}

/// Splitting a sixteen-bit field into its two wire bytes and reassembling
/// them little-endian gives the field back.
proof fn lemma_u16_split_join(v: u16)
    ensures
        (((v & 0xff) as u8) as u16) | (((v >> 8) as u8 as u16) << 8) == v,
{
    assert((((v & 0xff) as u8) as u16) | (((v >> 8) as u8 as u16) << 8) == v) by (bit_vector);
}

impl From<u8> for Recipient {
    /// Decodes the low five bits; four and above are reserved.
    fn from(value: u8) -> (r: Self) {
        let bits = value & 0x1f;
        if bits == 0 {
            Recipient::Device
        } else if bits == 1 {
            Recipient::Interface
        } else if bits == 2 {
            Recipient::Endpoint
        } else if bits == 3 {
            Recipient::Other
        } else {
            Recipient::Reserved
        }
    }
}

impl vstd::std_specs::convert::FromSpecImpl<u8> for Recipient {
    open spec fn obeys_from_spec() -> bool {
        true
    }

    open spec fn from_spec(v: u8) -> Recipient {
        spec_recipient(v)
    }
}

impl From<u8> for RequestType {
    /// Decodes bits 5 and 6.
    fn from(value: u8) -> (r: Self) {
        let bits = (value >> 5) & 0x03;
        if bits == 0 {
            RequestType::Standard
        } else if bits == 1 {
            RequestType::Class
        } else if bits == 2 {
            RequestType::Vendor
        } else {
            RequestType::Reserved
        }
    }
}

impl vstd::std_specs::convert::FromSpecImpl<u8> for RequestType {
    open spec fn obeys_from_spec() -> bool {
        true
    }

    open spec fn from_spec(v: u8) -> RequestType {
        spec_request_type(v)
    }
}

impl From<u8> for Direction {
    /// Decodes bit 7 of a `request_type` byte.
    fn from(request_type: u8) -> (r: Self) {
        if request_type & 0x80 == 0 {
            Direction::HostToDevice
        } else {
            Direction::DeviceToHost
        }
    }
}

impl vstd::std_specs::convert::FromSpecImpl<u8> for Direction {
    open spec fn obeys_from_spec() -> bool {
        true
    }

    open spec fn from_spec(v: u8) -> Direction {
        spec_direction(v)
    }
}

impl From<u8> for Request {
    /// Decodes a request byte; total over all 256 values.
    fn from(value: u8) -> (r: Self) {
        if value == 0 {
            Request::GetStatus
        } else if value == 1 {
            Request::ClearFeature
        } else if value == 3 {
            Request::SetFeature
        } else if value == 5 {
            Request::SetAddress
        } else if value == 6 {
            Request::GetDescriptor
        } else if value == 7 {
            Request::SetDescriptor
        } else if value == 8 {
            Request::GetConfiguration
        } else if value == 9 {
            Request::SetConfiguration
        } else if value == 10 {
            Request::GetInterface
        } else if value == 11 {
            Request::SetInterface
        } else if value == 12 {
            Request::SynchronizeFrame
        } else if value >= 13 {
            Request::ClassOrVendor(value)
        } else {
            Request::Reserved(value)
        }
    }
}

impl vstd::std_specs::convert::FromSpecImpl<u8> for Request {
    open spec fn obeys_from_spec() -> bool {
        true
    }

    open spec fn from_spec(v: u8) -> Request {
        spec_request(v)
    }
}

impl Direction {
    /// Decodes the direction bit of an endpoint address (bit 7).
    pub fn from_endpoint_address(endpoint_address: u8) -> (r: Self)
        ensures
            r == spec_direction(endpoint_address),
    {
        if endpoint_address & 0x80 == 0 {
            Direction::HostToDevice
        } else {
            Direction::DeviceToHost
        }
    }
}

impl Feature {
    /// Decodes a feature selector; values above 1 are rejected.
    pub fn try_from(value: u16) -> (r: Result<Feature, FirmwareError>)
        ensures
            match r {
                Ok(feature) => spec_feature(value) == Some(feature),
                Err(e) => spec_feature(value) is None && e == FirmwareError::FailedConversion,
            },
    {
        if value == 0 {
            Ok(Feature::EndpointHalt)
        } else if value == 1 {
            Ok(Feature::DeviceRemoteWakeup)
        } else {
            Err(FirmwareError::FailedConversion)
        }
    }
}

impl SetupPacket {
    /// The request type derived from bits 5 and 6 of `request_type`.
    pub fn request_type(&self) -> (r: RequestType)
        ensures
            r == spec_request_type(self.request_type),
    {
        RequestType::from(self.request_type)
    }

    /// The recipient derived from the low five bits of `request_type`.
    pub fn recipient(&self) -> (r: Recipient)
        ensures
            r == spec_recipient(self.request_type),
    {
        Recipient::from(self.request_type)
    }

    /// The data-phase direction derived from bit 7 of `request_type`.
    pub fn direction(&self) -> (r: Direction)
        ensures
            r == spec_direction(self.request_type),
    {
        Direction::from(self.request_type)
    }

    /// The decoded request code.
    pub fn request(&self) -> (r: Request)
        ensures
            r == spec_request(self.request),
    {
        Request::from(self.request)
    }

    /// Serializes a packet into its eight-byte little-endian wire form.
    pub fn as_bytes(setup_packet: SetupPacket) -> (r: [u8; 8])
        ensures
            r@ == spec_setup_bytes(setup_packet),
    {
        let bytes: [u8; 8] = [
            setup_packet.request_type,
            setup_packet.request,
            (setup_packet.value & 0xff) as u8,
            (setup_packet.value >> 8) as u8,
            (setup_packet.index & 0xff) as u8,
            (setup_packet.index >> 8) as u8,
            (setup_packet.length & 0xff) as u8,
            (setup_packet.length >> 8) as u8,
        ];
        bytes
    }

    /// Deserializes eight wire bytes into a packet, field by field.
    /// Defined for every bit pattern: malformed input cannot fault it.
    pub fn from_bytes(buffer: [u8; 8]) -> (r: SetupPacket)
        ensures
            r == spec_setup_from_bytes(buffer@),
    {
        SetupPacket {
            request_type: buffer[0],
            request: buffer[1],
            value: buffer[2] as u16 | ((buffer[3] as u16) << 8),
            index: buffer[4] as u16 | ((buffer[5] as u16) << 8),
            length: buffer[6] as u16 | ((buffer[7] as u16) << 8),
        }
    }
}

/// Law: a SETUP packet encoded to its eight-byte wire form and decoded back
/// yields the original field values, for every representable packet.
pub proof fn lemma_setup_packet_round_trip(packet: SetupPacket)
    ensures
        spec_setup_from_bytes(spec_setup_bytes(packet)) == packet,
{
    lemma_u16_split_join(packet.value);
    lemma_u16_split_join(packet.index);
    lemma_u16_split_join(packet.length);
}

} // verus!
