use data_rct::errors::FramingError;
use data_rct::protocol::communication::ClipboardTransferIntent;
use data_rct::protocol::communication::EncryptionRequest;
use data_rct::protocol::communication::EncryptionResponse;
use data_rct::protocol::communication::FileTransferIntent;
use data_rct::protocol::communication::Intent;
use data_rct::protocol::communication::TransferRequest;
use data_rct::protocol::communication::TransferRequestResponse;
use data_rct::protocol::discovery::BluetoothLeConnectionInfo;
use data_rct::protocol::discovery::Content;
use data_rct::protocol::discovery::Device;
use data_rct::protocol::discovery::DeviceConnectionInfo;
use data_rct::protocol::discovery::DeviceDiscoveryMessage;
use data_rct::protocol::discovery::DeviceType;
use data_rct::protocol::discovery::TcpConnectionInfo;
use data_rct::protocol::framing::decode_frame;
use data_rct::protocol::framing::encode_frame;
use data_rct::protocol::varint::encode_varint;
use data_rct::protocol::varint::encoded_len_varint;
use data_rct::protocol::varint::read_varint;

fn alice() -> Device {
    Device {
        id: "A".to_string(),
        name: "Alice".to_string(),
        device_type: DeviceType::Computer.tag(),
        protocol_version: 1,
    }
}

fn alice_body() -> Vec<u8> {
    vec![0x0A, 0x01, 0x41, 0x12, 0x05, 0x41, 0x6C, 0x69, 0x63, 0x65, 0x18, 0x01, 0x20, 0x01]
}

fn full_info() -> DeviceConnectionInfo {
    DeviceConnectionInfo {
        device: alice(),
        tcp: Some(TcpConnectionInfo { hostname: "127.0.0.1".to_string(), port: 8080 }),
        ble: Some(BluetoothLeConnectionInfo { uuid: "68D60EB2".to_string(), psm: 192 }),
    }
}

fn varint_of(value: u64) -> Vec<u8> {
    let mut out = Vec::new();
    encode_varint(value, &mut out);
    out
}

#[test]
fn varint_exact_bytes() {
    assert_eq!(varint_of(0), vec![0x00]);
    assert_eq!(varint_of(1), vec![0x01]);
    assert_eq!(varint_of(127), vec![0x7F]);
    assert_eq!(varint_of(128), vec![0x80, 0x01]);
    assert_eq!(varint_of(300), vec![0xAC, 0x02]);
    assert_eq!(varint_of(8080), vec![0x90, 0x3F]);
    assert_eq!(
        varint_of(u64::MAX),
        vec![0xFF, 0xFF, 0xFF, 0xFF, 0xFF, 0xFF, 0xFF, 0xFF, 0xFF, 0x01]
    );
}

#[test]
fn varint_appends_to_what_is_there() {
    let mut out = vec![9u8, 9];
    encode_varint(300, &mut out);
    assert_eq!(out, vec![9, 9, 0xAC, 0x02]);
}

#[test]
fn varint_lengths() {
    assert_eq!(encoded_len_varint(0), 1);
    assert_eq!(encoded_len_varint(127), 1);
    assert_eq!(encoded_len_varint(128), 2);
    assert_eq!(encoded_len_varint(16383), 2);
    assert_eq!(encoded_len_varint(16384), 3);
    assert_eq!(encoded_len_varint(u64::MAX), 10);
}

#[test]
fn varint_round_trip() {
    let values = [0u64, 1, 127, 128, 255, 300, 16383, 16384, 1 << 32, (1 << 63) - 1, 1 << 63, u64::MAX];
    for value in values {
        let bytes = varint_of(value);
        assert_eq!(read_varint(&bytes, 0), Some((value, bytes.len())));
        let mut padded = vec![0xEE];
        padded.extend_from_slice(&bytes);
        padded.push(0x77);
        assert_eq!(read_varint(&padded, 1), Some((value, bytes.len())));
    }
}

#[test]
fn varint_agrees_with_prost() {
    let values = [0u64, 1, 127, 128, 300, 65535, 1 << 35, u64::MAX];
    for value in values {
        let mut expected = Vec::new();
        prost::encoding::encode_varint(value, &mut expected);
        assert_eq!(varint_of(value), expected);
        assert_eq!(encoded_len_varint(value), prost::encoding::encoded_len_varint(value));
        let mut input = &expected[..];
        assert_eq!(prost::encoding::decode_varint(&mut input).ok(), Some(value));
    }
}

#[test]
fn varint_reading_refuses_what_is_malformed() {
    assert_eq!(read_varint(&[], 0), None);
    assert_eq!(read_varint(&[0x80], 0), None);
    assert_eq!(read_varint(&[0x01], 1), None);
    assert_eq!(read_varint(&[0x80, 0x80, 0x80], 0), None);
    let eleven = [0x80u8, 0x80, 0x80, 0x80, 0x80, 0x80, 0x80, 0x80, 0x80, 0x80, 0x01];
    assert_eq!(read_varint(&eleven, 0), None);
    let too_large = [0xFFu8, 0xFF, 0xFF, 0xFF, 0xFF, 0xFF, 0xFF, 0xFF, 0xFF, 0x02];
    assert_eq!(read_varint(&too_large, 0), None);
}

#[test]
fn varint_reading_accepts_padding() {
    assert_eq!(read_varint(&[0x80, 0x00], 0), Some((0, 2)));
    assert_eq!(read_varint(&[0x81, 0x80, 0x00], 0), Some((1, 3)));
    let ten = [0x80u8, 0x80, 0x80, 0x80, 0x80, 0x80, 0x80, 0x80, 0x80, 0x01];
    assert_eq!(read_varint(&ten, 0), Some((1 << 63, 10)));
}

#[test]
fn device_exact_bytes() {
    assert_eq!(alice().encode_to_vec(), alice_body());
    assert_eq!(Device::decode(&alice_body()), Some(alice()));
}

#[test]
fn device_bytes_agree_with_prost() {
    let device = Device {
        id: "43ED2550-3E5F-4ACC-BF58-DD0361A605C5".to_string(),
        name: "Test Device".to_string(),
        device_type: 3,
        protocol_version: -7,
    };
    let mut expected = Vec::new();
    prost::encoding::string::encode(1, &device.id, &mut expected);
    prost::encoding::string::encode(2, &device.name, &mut expected);
    prost::encoding::int32::encode(3, &device.device_type, &mut expected);
    prost::encoding::int32::encode(4, &device.protocol_version, &mut expected);
    assert_eq!(device.encode_to_vec(), expected);
    assert_eq!(Device::decode(&expected), Some(device));
}

#[test]
fn default_values_are_left_off_the_wire() {
    let empty = Device {
        id: String::new(),
        name: String::new(),
        device_type: 0,
        protocol_version: 0,
    };
    assert_eq!(empty.encode_to_vec(), Vec::<u8>::new());
    assert_eq!(Device::decode(&[]), Some(empty));
    let response = TransferRequestResponse { accepted: false };
    assert_eq!(response.encode_to_vec(), Vec::<u8>::new());
    assert_eq!(response.encode_length_delimited_to_vec(), vec![0x00]);
}

#[test]
fn negative_numbers_take_ten_bytes() {
    let device = Device {
        id: String::new(),
        name: String::new(),
        device_type: -1,
        protocol_version: i32::MIN,
    };
    let bytes = device.encode_to_vec();
    assert_eq!(
        bytes,
        vec![
            0x18, 0xFF, 0xFF, 0xFF, 0xFF, 0xFF, 0xFF, 0xFF, 0xFF, 0xFF, 0x01, 0x20, 0x80, 0x80,
            0x80, 0x80, 0xF8, 0xFF, 0xFF, 0xFF, 0xFF, 0x01
        ]
    );
    assert_eq!(Device::decode(&bytes), Some(device));
}

#[test]
fn numbers_are_cut_to_their_width() {
    let bytes = [0x18, 0x81, 0x80, 0x80, 0x80, 0x10];
    let device = Device::decode(&bytes).expect("a device");
    assert_eq!(device.device_type, 1);
    let bytes = [0x10, 0x90, 0xBF, 0x84, 0x80, 0x10];
    let info = TcpConnectionInfo::decode(&bytes).expect("an endpoint");
    assert_eq!(info.port, 8080 + (1 << 16));
}

#[test]
fn endpoints_round_trip() {
    let tcp = TcpConnectionInfo { hostname: "127.0.0.1".to_string(), port: 8080 };
    let bytes = tcp.encode_to_vec();
    assert_eq!(
        bytes,
        vec![0x0A, 0x09, 0x31, 0x32, 0x37, 0x2E, 0x30, 0x2E, 0x30, 0x2E, 0x31, 0x10, 0x90, 0x3F]
    );
    assert_eq!(TcpConnectionInfo::decode(&bytes), Some(tcp));

    let ble = BluetoothLeConnectionInfo { uuid: "u".to_string(), psm: 192 };
    let bytes = ble.encode_to_vec();
    assert_eq!(bytes, vec![0x0A, 0x01, 0x75, 0x10, 0xC0, 0x01]);
    assert_eq!(BluetoothLeConnectionInfo::decode(&bytes), Some(ble));
}

#[test]
fn connection_info_round_trip() {
    let info = full_info();
    let bytes = info.encode_to_vec();
    let mut expected = vec![0x0A, 14];
    expected.extend(alice_body());
    let tcp = info.tcp.clone().unwrap().encode_to_vec();
    expected.push(0x12);
    expected.push(tcp.len() as u8);
    expected.extend(tcp);
    let ble = info.ble.clone().unwrap().encode_to_vec();
    expected.push(0x1A);
    expected.push(ble.len() as u8);
    expected.extend(ble);
    assert_eq!(bytes, expected);
    assert_eq!(DeviceConnectionInfo::decode(&bytes), Some(info));

    let bare = DeviceConnectionInfo { device: alice(), tcp: None, ble: None };
    let bytes = bare.encode_to_vec();
    assert_eq!(DeviceConnectionInfo::decode(&bytes), Some(bare));
}

#[test]
fn connection_info_needs_its_device() {
    let tcp = TcpConnectionInfo { hostname: "h".to_string(), port: 1 }.encode_to_vec();
    let mut bytes = vec![0x12, tcp.len() as u8];
    bytes.extend(tcp);
    assert_eq!(DeviceConnectionInfo::decode(&bytes), None);
    assert_eq!(DeviceConnectionInfo::decode(&[]), None);
}

#[test]
fn discovery_message_round_trip() {
    let added = DeviceDiscoveryMessage { content: Content::DeviceConnectionInfo(full_info()) };
    let frame = added.encode_length_delimited_to_vec();
    assert_eq!(DeviceDiscoveryMessage::decode_length_delimited(&frame), Ok(added));

    let offline = DeviceDiscoveryMessage { content: Content::OfflineDeviceId("C".to_string()) };
    assert_eq!(offline.encode_to_vec(), vec![0x12, 0x01, 0x43]);
    let frame = offline.encode_length_delimited_to_vec();
    assert_eq!(frame, vec![0x03, 0x12, 0x01, 0x43]);
    assert_eq!(DeviceDiscoveryMessage::decode_length_delimited(&frame), Ok(offline));

    let nameless = DeviceDiscoveryMessage { content: Content::OfflineDeviceId(String::new()) };
    let frame = nameless.encode_length_delimited_to_vec();
    assert_eq!(frame, vec![0x02, 0x12, 0x00]);
    assert_eq!(DeviceDiscoveryMessage::decode_length_delimited(&frame), Ok(nameless));
}

#[test]
fn the_member_read_last_decides() {
    let info = DeviceConnectionInfo { device: alice(), tcp: None, ble: None }.encode_to_vec();
    let mut body = vec![0x0A, info.len() as u8];
    body.extend(info.clone());
    body.extend([0x12, 0x01, 0x43]);
    assert_eq!(
        DeviceDiscoveryMessage::decode(&body),
        Some(DeviceDiscoveryMessage { content: Content::OfflineDeviceId("C".to_string()) })
    );
    let mut body = vec![0x12, 0x01, 0x43, 0x0A, info.len() as u8];
    body.extend(info);
    assert_eq!(
        DeviceDiscoveryMessage::decode(&body),
        Some(DeviceDiscoveryMessage {
            content: Content::DeviceConnectionInfo(DeviceConnectionInfo {
                device: alice(),
                tcp: None,
                ble: None
            })
        })
    );
    assert_eq!(DeviceDiscoveryMessage::decode(&[]), None);
}

#[test]
fn key_exchange_messages_round_trip() {
    let request = EncryptionRequest { public_key: vec![7u8; 32] };
    let frame = request.encode_length_delimited_to_vec();
    assert_eq!(frame.len(), 1 + 2 + 32);
    assert_eq!(&frame[..3], &[34, 0x0A, 32]);
    assert_eq!(EncryptionRequest::decode_length_delimited(&frame), Ok(request));

    let response = EncryptionResponse { public_key: vec![1u8; 32], iv: vec![2u8; 24] };
    let frame = response.encode_length_delimited_to_vec();
    assert_eq!(frame.len(), 1 + 2 + 32 + 2 + 24);
    assert_eq!(frame[35], 0x12);
    assert_eq!(frame[36], 24);
    assert_eq!(EncryptionResponse::decode_length_delimited(&frame), Ok(response));

    let mut expected = Vec::new();
    prost::encoding::bytes::encode(1, &vec![1u8; 32], &mut expected);
    prost::encoding::bytes::encode(2, &vec![2u8; 24], &mut expected);
    assert_eq!(&frame[1..], &expected[..]);

    let empty = EncryptionRequest { public_key: Vec::new() };
    assert_eq!(empty.encode_length_delimited_to_vec(), vec![0x00]);
    assert_eq!(EncryptionRequest::decode_length_delimited(&[0x00]), Ok(empty));
}

#[test]
fn transfer_request_round_trip() {
    let file = TransferRequest {
        device: alice(),
        intent: Intent::FileTransfer(FileTransferIntent {
            file_name: Some("hello.txt".to_string()),
            file_size: 5,
            multiple: false,
        }),
    };
    let frame = file.encode_length_delimited_to_vec();
    let mut intent = Vec::new();
    prost::encoding::string::encode(1, &"hello.txt".to_string(), &mut intent);
    prost::encoding::uint64::encode(2, &5u64, &mut intent);
    let mut expected = vec![0x0A, 14];
    expected.extend(alice_body());
    expected.push(0x12);
    expected.push(intent.len() as u8);
    expected.extend(intent);
    assert_eq!(file.encode_to_vec(), expected);
    assert_eq!(frame[0] as usize, expected.len());
    assert_eq!(TransferRequest::decode_length_delimited(&frame), Ok(file));

    let text = TransferRequest {
        device: alice(),
        intent: Intent::Clipboard(ClipboardTransferIntent { text: "copied".to_string() }),
    };
    let frame = text.encode_length_delimited_to_vec();
    assert_eq!(TransferRequest::decode_length_delimited(&frame), Ok(text));

    let nameless = TransferRequest {
        device: alice(),
        intent: Intent::FileTransfer(FileTransferIntent {
            file_name: None,
            file_size: u64::MAX,
            multiple: true,
        }),
    };
    let frame = nameless.encode_length_delimited_to_vec();
    assert_eq!(TransferRequest::decode_length_delimited(&frame), Ok(nameless));

    let empty_name = FileTransferIntent { file_name: Some(String::new()), file_size: 0, multiple: false };
    assert_eq!(empty_name.encode_to_vec(), vec![0x0A, 0x00]);
    assert_eq!(FileTransferIntent::decode(&[0x0A, 0x00]), Some(empty_name));
}

#[test]
fn transfer_request_needs_device_and_intent() {
    let mut only_device = vec![0x0A, 14];
    only_device.extend(alice_body());
    assert_eq!(TransferRequest::decode(&only_device), None);
    let only_intent = vec![0x12, 0x02, 0x10, 0x05];
    assert_eq!(TransferRequest::decode(&only_intent), None);
}

#[test]
fn transfer_response_round_trip() {
    let accepted = TransferRequestResponse { accepted: true };
    assert_eq!(accepted.encode_to_vec(), vec![0x08, 0x01]);
    assert_eq!(accepted.encode_length_delimited_to_vec(), vec![0x02, 0x08, 0x01]);
    assert_eq!(TransferRequestResponse::decode_length_delimited(&[0x02, 0x08, 0x01]), Ok(accepted));
    assert_eq!(
        TransferRequestResponse::decode_length_delimited(&[0x00]),
        Ok(TransferRequestResponse { accepted: false })
    );
    assert_eq!(
        TransferRequestResponse::decode(&[0x08, 0x05]),
        Some(TransferRequestResponse { accepted: true })
    );
}

#[test]
fn unknown_fields_are_skipped() {
    let mut body = vec![0x78, 0x2A];
    body.extend(alice_body());
    body.extend([0x2A, 0x03, 0x01, 0x02, 0x03]);
    body.extend([0x31, 1, 2, 3, 4, 5, 6, 7, 8]);
    body.extend([0x3D, 1, 2, 3, 4]);
    assert_eq!(Device::decode(&body), Some(alice()));
    let mut tcp = vec![0x18, 0x01, 0x22, 0x01, 0x00];
    tcp.extend([0x10, 0x50]);
    assert_eq!(
        TcpConnectionInfo::decode(&tcp),
        Some(TcpConnectionInfo { hostname: String::new(), port: 80 })
    );
}

#[test]
fn the_last_occurrence_of_a_field_stands() {
    let mut body = alice_body();
    body.extend([0x0A, 0x01, 0x42]);
    let device = Device::decode(&body).expect("a device");
    assert_eq!(device.id, "B");
    assert_eq!(device.name, "Alice");
}

#[test]
fn bodies_that_do_not_fit_the_schema_are_refused() {
    assert_eq!(Device::decode(&[0x08, 0x01]), None);
    assert_eq!(Device::decode(&[0x1A, 0x01, 0x41]), None);
    assert_eq!(Device::decode(&[0x0A, 0x02, 0xC3, 0x28]), None);
    assert_eq!(Device::decode(&[0x0A, 0x05, 0x41]), None);
    assert_eq!(Device::decode(&[0x0A]), None);
    assert_eq!(Device::decode(&[0x00, 0x01]), None);
    assert_eq!(Device::decode(&[0x0B, 0x01]), None);
    assert_eq!(Device::decode(&[0x0C]), None);
    assert_eq!(Device::decode(&[0x31, 1, 2, 3]), None);
    assert_eq!(Device::decode(&[0x3D, 1, 2, 3]), None);
    assert_eq!(Device::decode(&[0x80, 0x80, 0x80, 0x80, 0x80, 0x01]), None);
}

#[test]
fn frames_carry_their_length() {
    assert_eq!(encode_frame(&[]), vec![0x00]);
    assert_eq!(encode_frame(&[1, 2, 3]), vec![0x03, 1, 2, 3]);
    let body = vec![0xABu8; 300];
    let frame = encode_frame(&body);
    assert_eq!(&frame[..2], &[0xAC, 0x02]);
    assert_eq!(frame.len(), 302);
    assert_eq!(decode_frame(&frame), Ok((body, 302)));
    assert_eq!(decode_frame(&[0x02, 7, 8, 9, 10]), Ok((vec![7, 8], 3)));
}

#[test]
fn each_framing_error_has_its_input() {
    assert_eq!(decode_frame(&[]), Err(FramingError::InvalidFraming));
    assert_eq!(decode_frame(&[0x80]), Err(FramingError::InvalidFraming));
    assert_eq!(decode_frame(&[0xFF; 11]), Err(FramingError::InvalidFraming));
    assert_eq!(decode_frame(&[0x05, 1, 2]), Err(FramingError::TruncatedBody));
    assert_eq!(
        DeviceDiscoveryMessage::decode_length_delimited(&[]),
        Err(FramingError::InvalidFraming)
    );
    assert_eq!(
        DeviceDiscoveryMessage::decode_length_delimited(&[0x03, 0x12, 0x01]),
        Err(FramingError::TruncatedBody)
    );
    assert_eq!(
        DeviceDiscoveryMessage::decode_length_delimited(&[0x00]),
        Err(FramingError::SchemaMismatch)
    );
    assert_eq!(
        DeviceDiscoveryMessage::decode_length_delimited(&[0x02, 0x10, 0x01]),
        Err(FramingError::SchemaMismatch)
    );
    assert_eq!(
        TransferRequest::decode_length_delimited(&[0x02, 0x08, 0x01]),
        Err(FramingError::SchemaMismatch)
    );
    assert_eq!(
        EncryptionRequest::decode_length_delimited(&[0x02, 0x08, 0x01]),
        Err(FramingError::SchemaMismatch)
    );
    assert_eq!(
        EncryptionResponse::decode_length_delimited(&[0x02, 0x10, 0x01]),
        Err(FramingError::SchemaMismatch)
    );
    assert_eq!(
        TransferRequestResponse::decode_length_delimited(&[0x02, 0x0A, 0x00]),
        Err(FramingError::SchemaMismatch)
    );
}

#[test]
fn device_types_have_their_tags() {
    assert_eq!(DeviceType::Mobile.tag(), 0);
    assert_eq!(DeviceType::Computer.tag(), 1);
    assert_eq!(DeviceType::Other.tag(), 2);
    assert_eq!(DeviceType::from_tag(0), DeviceType::Mobile);
    assert_eq!(DeviceType::from_tag(1), DeviceType::Computer);
    assert_eq!(DeviceType::from_tag(2), DeviceType::Other);
    assert_eq!(DeviceType::from_tag(-5), DeviceType::Other);
    assert_eq!(DeviceType::from_tag(77), DeviceType::Other);
}

#[test]
fn messages_compare_by_their_content() {
    assert!(alice().equals(&alice()));
    let mut bob = alice();
    bob.name = "Bob".to_string();
    assert!(!alice().equals(&bob));
    assert!(full_info().equals(&full_info()));
    let mut moved = full_info();
    moved.tcp = Some(TcpConnectionInfo { hostname: "127.0.0.1".to_string(), port: 8081 });
    assert!(!full_info().equals(&moved));
    let mut tcp_only = full_info();
    tcp_only.ble = None;
    assert!(!full_info().equals(&tcp_only));
    assert_eq!(full_info().clone(), full_info());
}

#[derive(Debug, Default, PartialEq)]
struct WireDevice {
    id: String,
    name: String,
    device_type: i32,
    protocol_version: i32,
}

impl prost::Message for WireDevice {
    fn encode_raw<B>(&self, buf: &mut B)
    where
        B: prost::bytes::BufMut,
        Self: Sized,
    {
        if !self.id.is_empty() {
            prost::encoding::string::encode(1, &self.id, buf);
        }
        if !self.name.is_empty() {
            prost::encoding::string::encode(2, &self.name, buf);
        }
        if self.device_type != 0 {
            prost::encoding::int32::encode(3, &self.device_type, buf);
        }
        if self.protocol_version != 0 {
            prost::encoding::int32::encode(4, &self.protocol_version, buf);
        }
    }

    fn merge_field<B>(
        &mut self,
        tag: u32,
        wire_type: prost::encoding::WireType,
        buf: &mut B,
        ctx: prost::encoding::DecodeContext,
    ) -> Result<(), prost::DecodeError>
    where
        B: prost::bytes::Buf,
        Self: Sized,
    {
        match tag {
            1 => prost::encoding::string::merge(wire_type, &mut self.id, buf, ctx),
            2 => prost::encoding::string::merge(wire_type, &mut self.name, buf, ctx),
            3 => prost::encoding::int32::merge(wire_type, &mut self.device_type, buf, ctx),
            4 => prost::encoding::int32::merge(wire_type, &mut self.protocol_version, buf, ctx),
            _ => prost::encoding::skip_field(wire_type, tag, buf, ctx),
        }
    }

    fn encoded_len(&self) -> usize {
        let mut length = 0;
        if !self.id.is_empty() {
            length += prost::encoding::string::encoded_len(1, &self.id);
        }
        if !self.name.is_empty() {
            length += prost::encoding::string::encoded_len(2, &self.name);
        }
        if self.device_type != 0 {
            length += prost::encoding::int32::encoded_len(3, &self.device_type);
        }
        if self.protocol_version != 0 {
            length += prost::encoding::int32::encoded_len(4, &self.protocol_version);
        }
        length
    }

    fn clear(&mut self) {
        *self = WireDevice::default();
    }
}

#[derive(Debug, Default, PartialEq)]
struct WireEndpoint {
    text: String,
    number: u32,
}

impl prost::Message for WireEndpoint {
    fn encode_raw<B>(&self, buf: &mut B)
    where
        B: prost::bytes::BufMut,
        Self: Sized,
    {
        if !self.text.is_empty() {
            prost::encoding::string::encode(1, &self.text, buf);
        }
        if self.number != 0 {
            prost::encoding::uint32::encode(2, &self.number, buf);
        }
    }

    fn merge_field<B>(
        &mut self,
        tag: u32,
        wire_type: prost::encoding::WireType,
        buf: &mut B,
        ctx: prost::encoding::DecodeContext,
    ) -> Result<(), prost::DecodeError>
    where
        B: prost::bytes::Buf,
        Self: Sized,
    {
        match tag {
            1 => prost::encoding::string::merge(wire_type, &mut self.text, buf, ctx),
            2 => prost::encoding::uint32::merge(wire_type, &mut self.number, buf, ctx),
            _ => prost::encoding::skip_field(wire_type, tag, buf, ctx),
        }
    }

    fn encoded_len(&self) -> usize {
        let mut length = 0;
        if !self.text.is_empty() {
            length += prost::encoding::string::encoded_len(1, &self.text);
        }
        if self.number != 0 {
            length += prost::encoding::uint32::encoded_len(2, &self.number);
        }
        length
    }

    fn clear(&mut self) {
        *self = WireEndpoint::default();
    }
}

#[derive(Debug, Default, PartialEq)]
struct WireInfo {
    device: Option<WireDevice>,
    tcp: Option<WireEndpoint>,
    ble: Option<WireEndpoint>,
}

impl prost::Message for WireInfo {
    fn encode_raw<B>(&self, buf: &mut B)
    where
        B: prost::bytes::BufMut,
        Self: Sized,
    {
        if let Some(device) = &self.device {
            prost::encoding::message::encode(1, device, buf);
        }
        if let Some(tcp) = &self.tcp {
            prost::encoding::message::encode(2, tcp, buf);
        }
        if let Some(ble) = &self.ble {
            prost::encoding::message::encode(3, ble, buf);
        }
    }

    fn merge_field<B>(
        &mut self,
        tag: u32,
        wire_type: prost::encoding::WireType,
        buf: &mut B,
        ctx: prost::encoding::DecodeContext,
    ) -> Result<(), prost::DecodeError>
    where
        B: prost::bytes::Buf,
        Self: Sized,
    {
        match tag {
            1 => prost::encoding::message::merge(
                wire_type,
                self.device.get_or_insert_with(WireDevice::default),
                buf,
                ctx,
            ),
            2 => prost::encoding::message::merge(
                wire_type,
                self.tcp.get_or_insert_with(WireEndpoint::default),
                buf,
                ctx,
            ),
            3 => prost::encoding::message::merge(
                wire_type,
                self.ble.get_or_insert_with(WireEndpoint::default),
                buf,
                ctx,
            ),
            _ => prost::encoding::skip_field(wire_type, tag, buf, ctx),
        }
    }

    fn encoded_len(&self) -> usize {
        let mut length = 0;
        if let Some(device) = &self.device {
            length += prost::encoding::message::encoded_len(1, device);
        }
        if let Some(tcp) = &self.tcp {
            length += prost::encoding::message::encoded_len(2, tcp);
        }
        if let Some(ble) = &self.ble {
            length += prost::encoding::message::encoded_len(3, ble);
        }
        length
    }

    fn clear(&mut self) {
        *self = WireInfo::default();
    }
}

fn as_device(device: Device) -> WireDevice {
    WireDevice {
        id: device.id,
        name: device.name,
        device_type: device.device_type,
        protocol_version: device.protocol_version,
    }
}

fn as_info(info: DeviceConnectionInfo) -> WireInfo {
    WireInfo {
        device: Some(as_device(info.device)),
        tcp: info.tcp.map(|tcp| WireEndpoint { text: tcp.hostname, number: tcp.port }),
        ble: info.ble.map(|ble| WireEndpoint { text: ble.uuid, number: ble.psm }),
    }
}

fn block(number: u8, body: &[u8]) -> Vec<u8> {
    let mut out = vec![number * 8 + 2, body.len() as u8];
    out.extend_from_slice(body);
    out
}

fn in_a_row(parts: &[Vec<u8>]) -> Vec<u8> {
    parts.concat()
}

fn bodies_of_a_device() -> Vec<Vec<u8>> {
    vec![
        Vec::new(),
        alice_body(),
        in_a_row(&[alice_body(), block(1, b"B")]),
        in_a_row(&[block(1, &[0xC3, 0x28]), block(1, b"B")]),
        in_a_row(&[block(2, b"Bob"), block(2, &[0xFF])]),
        in_a_row(&[block(2, b"Bob"), vec![0x18, 0x02, 0x18, 0x03]]),
        in_a_row(&[vec![0x18, 0xFF, 0xFF, 0xFF, 0xFF, 0x0F], block(1, b"B")]),
        in_a_row(&[block(5, &[1, 2, 3]), vec![0x38, 0x01], block(1, b"B")]),
        vec![0x0A, 0x05, 0x41],
        vec![0x08, 0x01],
        vec![0x1A, 0x01, 0x41],
        vec![0x00, 0x01],
        vec![0x0B, 0x01],
    ]
}

#[test]
fn devices_are_read_as_the_protocol_buffers_library_reads_them() {
    for body in bodies_of_a_device() {
        let theirs = <WireDevice as prost::Message>::decode(body.as_slice()).ok();
        let ours = Device::decode(&body).map(as_device);
        assert_eq!(ours, theirs, "body {:?}", body);
    }
}

#[test]
fn connection_infos_are_read_as_the_protocol_buffers_library_reads_them() {
    let first = alice_body();
    let renamed = block(2, b"Alicia");
    let endpoint = in_a_row(&[block(1, b"10.0.0.1"), vec![0x10, 0x50]]);
    let other_port = vec![0x10, 0x90, 0x3F];
    let cut_off = vec![0x0A, 0x05, 0x41];
    let not_text = block(1, &[0xC3, 0x28]);
    let mut bodies = vec![
        block(1, &first),
        in_a_row(&[block(1, &first), block(1, &renamed)]),
        in_a_row(&[block(1, &renamed), block(1, &first)]),
        in_a_row(&[block(1, &first), block(2, &endpoint), block(2, &other_port)]),
        in_a_row(&[block(2, &endpoint), block(1, &first), block(3, &endpoint), block(2, &[])]),
        in_a_row(&[block(1, &first), block(3, &other_port), block(3, &endpoint)]),
        in_a_row(&[block(1, &cut_off), block(1, &first)]),
        in_a_row(&[block(1, &first), block(1, &cut_off)]),
        in_a_row(&[block(1, &not_text), block(1, &first)]),
        in_a_row(&[block(1, &[0x0A]), block(1, &[0x01, 0x41])]),
        in_a_row(&[block(1, &first), block(2, &[0x08, 0x01])]),
        in_a_row(&[block(1, &first), block(2, &not_text), block(2, &endpoint)]),
        in_a_row(&[block(1, &first), vec![0x10, 0x01]]),
        in_a_row(&[block(1, &[]), block(4, &[1, 2])]),
    ];
    bodies.push(full_info().encode_to_vec());
    for body in bodies {
        let theirs = <WireInfo as prost::Message>::decode(body.as_slice())
            .ok()
            .filter(|info| info.device.is_some());
        let ours = DeviceConnectionInfo::decode(&body).map(as_info);
        assert_eq!(ours, theirs, "body {:?}", body);
    }
    let written = full_info().encode_to_vec();
    let theirs = <WireInfo as prost::Message>::decode(written.as_slice()).expect("a body");
    assert_eq!(prost::Message::encode_to_vec(&theirs), written);
}

#[test]
fn an_embedded_message_that_comes_again_continues_the_first() {
    let body = in_a_row(&[
        block(1, &alice_body()),
        block(2, &in_a_row(&[block(1, b"10.0.0.1"), vec![0x10, 0x50]])),
        block(1, &block(2, b"Alicia")),
        block(2, &[0x10, 0x90, 0x3F]),
    ]);
    assert_eq!(
        DeviceConnectionInfo::decode(&body),
        Some(DeviceConnectionInfo {
            device: Device {
                id: "A".to_string(),
                name: "Alicia".to_string(),
                device_type: DeviceType::Computer.tag(),
                protocol_version: 1,
            },
            tcp: Some(TcpConnectionInfo { hostname: "10.0.0.1".to_string(), port: 8080 }),
            ble: None,
        })
    );
}

#[test]
fn a_member_that_comes_again_continues_only_itself() {
    let file = in_a_row(&[block(1, b"a.txt"), vec![0x10, 0x05]]);
    let larger = vec![0x10, 0x07];
    let text = block(1, b"hi");
    let body = in_a_row(&[block(1, &alice_body()), block(2, &file), block(2, &larger)]);
    assert_eq!(
        TransferRequest::decode(&body),
        Some(TransferRequest {
            device: alice(),
            intent: Intent::FileTransfer(FileTransferIntent {
                file_name: Some("a.txt".to_string()),
                file_size: 7,
                multiple: false,
            }),
        })
    );
    let body = in_a_row(&[
        block(1, &alice_body()),
        block(2, &file),
        block(3, &text),
        block(2, &larger),
    ]);
    assert_eq!(
        TransferRequest::decode(&body),
        Some(TransferRequest {
            device: alice(),
            intent: Intent::FileTransfer(FileTransferIntent {
                file_name: None,
                file_size: 7,
                multiple: false,
            }),
        })
    );
    let info = DeviceConnectionInfo { device: alice(), tcp: None, ble: None }.encode_to_vec();
    let body = in_a_row(&[block(1, &info), block(2, b"C"), block(1, &block(1, &block(2, b"Al")))]);
    assert_eq!(
        DeviceDiscoveryMessage::decode(&body),
        Some(DeviceDiscoveryMessage {
            content: Content::DeviceConnectionInfo(DeviceConnectionInfo {
                device: Device {
                    id: String::new(),
                    name: "Al".to_string(),
                    device_type: 0,
                    protocol_version: 0,
                },
                tcp: None,
                ble: None,
            })
        })
    );
}

#[test]
fn every_occurrence_has_to_be_whole() {
    let cut_off = vec![0x0A, 0x05, 0x41];
    let body = in_a_row(&[block(1, &cut_off), block(1, &alice_body())]);
    assert_eq!(DeviceConnectionInfo::decode(&body), None);
    let body = in_a_row(&[block(1, &[0x0A]), block(1, &[0x01, 0x41])]);
    assert_eq!(DeviceConnectionInfo::decode(&body), None);
    let body = in_a_row(&[block(1, &[0xC3, 0x28]), block(1, b"B")]);
    assert_eq!(Device::decode(&body), None);
    let body = in_a_row(&[block(2, &[0xFF]), block(2, b"C")]);
    assert_eq!(DeviceDiscoveryMessage::decode(&body), None);
}
