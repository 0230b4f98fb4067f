use moondancer::error::FirmwareError;
use moondancer::setup::{Direction, Feature, Recipient, Request, RequestType, SetupPacket};

fn packet(request_type: u8, request: u8, value: u16, index: u16, length: u16) -> SetupPacket {
    SetupPacket { request_type, request, value, index, length }
}

/// Reference decode of a request byte, written independently of the
/// library's table.
fn expected_request(value: u8) -> Request {
    match value {
        0 => Request::GetStatus,
        1 => Request::ClearFeature,
        2 => Request::Reserved(2),
        3 => Request::SetFeature,
        4 => Request::Reserved(4),
        5 => Request::SetAddress,
        6 => Request::GetDescriptor,
        7 => Request::SetDescriptor,
        8 => Request::GetConfiguration,
        9 => Request::SetConfiguration,
        10 => Request::GetInterface,
        11 => Request::SetInterface,
        12 => Request::SynchronizeFrame,
        _ => Request::ClassOrVendor(value),
    }
}

#[test]
fn decode_is_total_and_deterministic_over_all_pairs() {
    for request_type_byte in 0u16..=255 {
        for request_byte in 0u16..=255 {
            let p = packet(request_type_byte as u8, request_byte as u8, 0, 0, 0);
            let recipient = p.recipient();
            let rtype = p.request_type();
            let direction = p.direction();
            let request = p.request();
            // deterministic: a second decode agrees
            assert_eq!(recipient, p.recipient());
            assert_eq!(rtype, p.request_type());
            assert_eq!(direction, p.direction());
            assert_eq!(request, p.request());
            // the fields decode from the documented bit positions
            let expected_recipient = match request_type_byte as u8 & 0x1f {
                0 => Recipient::Device,
                1 => Recipient::Interface,
                2 => Recipient::Endpoint,
                3 => Recipient::Other,
                _ => Recipient::Reserved,
            };
            assert_eq!(recipient, expected_recipient);
            let expected_type = match (request_type_byte as u8 >> 5) & 0x03 {
                0 => RequestType::Standard,
                1 => RequestType::Class,
                2 => RequestType::Vendor,
                _ => RequestType::Reserved,
            };
            assert_eq!(rtype, expected_type);
            let expected_direction = if request_type_byte as u8 & 0x80 == 0 {
                Direction::HostToDevice
            } else {
                Direction::DeviceToHost
            };
            assert_eq!(direction, expected_direction);
            assert_eq!(request, expected_request(request_byte as u8));
        }
    }
}

#[test]
fn setup_packet_round_trips_through_wire_form() {
    let bytes_u8 = [0u8, 1, 0x7f, 0x80, 0xff];
    let words = [0u16, 1, 0x00ff, 0x0100, 0x1234, 0x8000, 0xffff];
    for &request_type in &bytes_u8 {
        for &request in &bytes_u8 {
            for &value in &words {
                for &index in &words {
                    for &length in &words {
                        let original = packet(request_type, request, value, index, length);
                        let wire = SetupPacket::as_bytes(original);
                        let decoded = SetupPacket::from_bytes(wire);
                        assert_eq!(decoded, original);
                    }
                }
            }
        }
    }
}

#[test]
fn wire_form_is_little_endian() {
    let p = packet(0x80, 6, 0x0100, 0x0409, 18);
    let wire = SetupPacket::as_bytes(p);
    assert_eq!(wire, [0x80, 6, 0x00, 0x01, 0x09, 0x04, 18, 0]);
}

#[test]
fn from_bytes_decodes_every_field() {
    let decoded = SetupPacket::from_bytes([0x21, 0x20, 0x34, 0x12, 0x01, 0x00, 0x07, 0x00]);
    assert_eq!(decoded.request_type, 0x21);
    assert_eq!(decoded.request, 0x20);
    assert_eq!(decoded.value, 0x1234);
    assert_eq!(decoded.index, 0x0001);
    assert_eq!(decoded.length, 0x0007);
}

#[test]
fn feature_decodes_standard_selectors_only() {
    assert_eq!(Feature::try_from(0), Ok(Feature::EndpointHalt));
    assert_eq!(Feature::try_from(1), Ok(Feature::DeviceRemoteWakeup));
    assert_eq!(Feature::try_from(2), Err(FirmwareError::FailedConversion));
    assert_eq!(Feature::try_from(0xffff), Err(FirmwareError::FailedConversion));
}

#[test]
fn direction_from_endpoint_address_reads_the_top_bit() {
    assert_eq!(Direction::from_endpoint_address(0x01), Direction::HostToDevice);
    assert_eq!(Direction::from_endpoint_address(0x81), Direction::DeviceToHost);
    assert_eq!(Direction::from_endpoint_address(0x00), Direction::HostToDevice);
    assert_eq!(Direction::from_endpoint_address(0x80), Direction::DeviceToHost);
}
