use std::cell::Cell;
use std::cell::RefCell;
use std::collections::VecDeque;
use std::rc::Rc;

use data_rct::communication::answer_encryption_request;
use data_rct::communication::finish_encryption;
use data_rct::communication::initiate_receiver_communication;
use data_rct::communication::initiate_sender_communication;
use data_rct::communication::public_key;
use data_rct::connection_request::read_step;
use data_rct::connection_request::ConnectionRequest;
use data_rct::connection_request::ReceiveEvent;
use data_rct::connection_request::ReceivePipeline;
use data_rct::connection_request::ReceiveProgressDelegate;
use data_rct::connection_request::ReceiveProgressState;
use data_rct::connection_request::ReceiveStage;
use data_rct::encryption::frame_outcome;
use data_rct::encryption::written_outcome;
use data_rct::encryption::Cipher;
use data_rct::encryption::EncryptedStream;
use data_rct::errors::ConnectErrors;
use data_rct::errors::FramingError;
use data_rct::errors::IncomingErrors;
use data_rct::errors::StreamError;
use data_rct::connect::connect;
use data_rct::connect::connect_fallback;
use data_rct::connect::connect_tcp;
use data_rct::nearby::fresh_connection_id;
use data_rct::nearby::ConnectionMedium;
use data_rct::send::file_step;
use data_rct::send::judge_answer;
use data_rct::send::write_step;
use data_rct::send::judge_transfer_response;
use data_rct::nearby::receive_request;
use data_rct::send::transfer_file;
use data_rct::nearby::BleServerImplementationDelegate;
use data_rct::nearby::BoundListener;
use data_rct::connect::ConnectStep;
use data_rct::nearby::ConnectionIntentType;
use data_rct::nearby::L2CapDelegate;
use data_rct::nearby::NearbyServer;
use data_rct::send::SendEvent;
use data_rct::send::SendPipeline;
use data_rct::send::SendProgressDelegate;
use data_rct::send::SendProgressState;
use data_rct::send::SendStage;
use data_rct::protocol::communication::ClipboardTransferIntent;
use data_rct::protocol::communication::EncryptionRequest;
use data_rct::protocol::communication::EncryptionResponse;
use data_rct::protocol::communication::FileTransferIntent;
use data_rct::protocol::communication::Intent;
use data_rct::protocol::communication::TransferRequest;
use data_rct::protocol::communication::TransferRequestResponse;
use data_rct::protocol::discovery::BluetoothLeConnectionInfo;
use data_rct::protocol::discovery::Content;
use data_rct::protocol::discovery::Device;
use data_rct::protocol::discovery::DeviceConnectionInfo;
use data_rct::protocol::discovery::DeviceDiscoveryMessage;
use data_rct::protocol::discovery::TcpConnectionInfo;
use data_rct::protocol::framing::announced_length;
use data_rct::protocol::framing::prefix_byte;
use data_rct::protocol::framing::read_frame;
use data_rct::protocol::framing::whole_frame;
use data_rct::protocol::framing::write_frame;
use data_rct::stream::block_with;
use data_rct::stream::one_byte;
use data_rct::stream::read_exact;
use data_rct::stream::sent_with;
use data_rct::stream::read_u8;
use data_rct::stream::write_all;
use data_rct::stream::Close;
use data_rct::stream::NativeStream;
use data_rct::stream::NativeStreamDelegate;
use data_rct::stream::Stream;
use data_rct::stream::StreamRead;
use data_rct::stream::StreamWrite;

#[derive(Clone)]
struct Pipe {
    inbound: Rc<RefCell<VecDeque<u8>>>,
    outbound: Rc<RefCell<Vec<u8>>>,
    closed: Rc<Cell<bool>>,
    largest_write: usize,
    fail_reads: bool,
    fail_writes: bool,
}

fn broken() -> StreamError {
    StreamError::Io(std::io::Error::new(std::io::ErrorKind::Other, "broken pipe"))
}

impl Pipe {
    fn with_inbound(bytes: &[u8]) -> Pipe {
        Pipe {
            inbound: Rc::new(RefCell::new(bytes.iter().copied().collect())),
            outbound: Rc::new(RefCell::new(Vec::new())),
            closed: Rc::new(Cell::new(false)),
            largest_write: usize::MAX,
            fail_reads: false,
            fail_writes: false,
        }
    }

    fn written(&self) -> Vec<u8> {
        self.outbound.borrow().clone()
    }

    fn is_closed(&self) -> bool {
        self.closed.get()
    }
}

impl StreamRead for Pipe {
    fn read(&mut self, length: usize) -> Result<Vec<u8>, StreamError> {
        if self.fail_reads {
            return Err(broken());
        }
        let mut inbound = self.inbound.borrow_mut();
        let mut chunk = Vec::new();
        while chunk.len() < length {
            match inbound.pop_front() {
                Some(byte) => chunk.push(byte),
                None => break,
            }
        }
        Ok(chunk)
    }
}

impl StreamWrite for Pipe {
    fn write_stream(&mut self, buffer: &[u8]) -> Result<usize, StreamError> {
        if self.fail_writes {
            return Err(broken());
        }
        let taken = buffer.len().min(self.largest_write);
        self.outbound.borrow_mut().extend_from_slice(&buffer[..taken]);
        Ok(taken)
    }

    fn flush(&mut self) -> Result<(), StreamError> {
        Ok(())
    }
}

impl Close for Pipe {
    fn close(&self) {
        self.closed.set(true);
    }
}

impl Stream for Pipe {}

impl NativeStreamDelegate for Pipe {
    fn read(&self, buffer_length: u64) -> Vec<u8> {
        let mut inbound = self.inbound.borrow_mut();
        let mut chunk = Vec::new();
        while (chunk.len() as u64) < buffer_length {
            match inbound.pop_front() {
                Some(byte) => chunk.push(byte),
                None => break,
            }
        }
        chunk
    }

    fn write(&self, data: Vec<u8>) -> u64 {
        self.outbound.borrow_mut().extend_from_slice(&data);
        data.len() as u64
    }

    fn flush(&self) {}

    fn disconnect(&self) {
        self.closed.set(true);
    }
}

#[derive(Clone)]
struct Recorder {
    events: Rc<RefCell<Vec<String>>>,
    sent: Rc<RefCell<Vec<SendProgressState>>>,
    received: Rc<RefCell<Vec<ReceiveProgressState>>>,
}

impl Recorder {
    fn new() -> Recorder {
        Recorder {
            events: Rc::new(RefCell::new(Vec::new())),
            sent: Rc::new(RefCell::new(Vec::new())),
            received: Rc::new(RefCell::new(Vec::new())),
        }
    }

    fn events(&self) -> Vec<String> {
        self.events.borrow().clone()
    }
}

impl BleServerImplementationDelegate for Recorder {
    fn start_server(&self) {
        self.events.borrow_mut().push("start server".to_string());
    }

    fn stop_server(&self) {
        self.events.borrow_mut().push("stop server".to_string());
    }
}

impl L2CapDelegate for Recorder {
    fn open_l2cap_connection(&self, connection_id: String, peripheral_uuid: String, psm: u32) {
        self.events.borrow_mut().push(format!("open {} {} {}", connection_id, peripheral_uuid, psm));
    }
}

impl SendProgressDelegate for Recorder {
    fn progress_changed(&self, progress: SendProgressState) {
        self.sent.borrow_mut().push(progress);
    }
}

impl ReceiveProgressDelegate for Recorder {
    fn progress_changed(&self, progress: ReceiveProgressState) {
        self.received.borrow_mut().push(progress);
    }
}

fn device(id: &str, name: &str) -> Device {
    Device { id: id.to_string(), name: name.to_string(), device_type: 1, protocol_version: 1 }
}

fn server(recorder: &Recorder) -> NearbyServer<Recorder, Recorder> {
    let mut server = NearbyServer::new(device("A", "Alice"), "/tmp/received".to_string());
    server.add_bluetooth_implementation(recorder.clone());
    server
}

fn file_request(name: Option<&str>, size: u64) -> TransferRequest {
    TransferRequest {
        device: device("A", "Alice"),
        intent: Intent::FileTransfer(FileTransferIntent {
            file_name: name.map(|n| n.to_string()),
            file_size: size,
            multiple: false,
        }),
    }
}

fn encrypt_at(key: [u8; 32], iv: [u8; 24], position: u64, data: &[u8]) -> Vec<u8> {
    let mut cipher = Cipher::new(key, iv);
    cipher.seek(position);
    cipher.apply_keystream(data).expect("keystream")
}

const KEY: [u8; 32] = [11u8; 32];
const IV: [u8; 24] = [22u8; 24];

#[test]
fn no_advertisement_before_start_and_a_framed_one_after() {
    let recorder = Recorder::new();
    let mut server = server(&recorder);
    assert!(!server.is_advertising());
    assert!(server.needs_tcp_server());
    assert_eq!(server.get_advertisement_data(), Vec::<u8>::new());

    server.start(Some(BoundListener { hostname: "192.168.0.2".to_string(), port: 8080 }));
    assert!(server.is_advertising());
    assert_eq!(server.get_tcp_port(), Some(8080));
    let data = server.get_advertisement_data();
    assert!(!data.is_empty());
    let expected = DeviceConnectionInfo {
        device: device("A", "Alice"),
        tcp: Some(TcpConnectionInfo { hostname: "192.168.0.2".to_string(), port: 8080 }),
        ble: None,
    };
    assert_eq!(
        DeviceDiscoveryMessage::decode_length_delimited(&data),
        Ok(DeviceDiscoveryMessage { content: Content::DeviceConnectionInfo(expected.clone()) })
    );
    assert_eq!(server.get_connection_info(), expected);
    assert_eq!(server.get_advertisement_data(), data);
    assert_eq!(recorder.events(), vec!["start server".to_string()]);

    server.stop();
    assert!(!server.is_advertising());
    assert_eq!(server.get_tcp_port(), None);
    assert_eq!(server.get_advertisement_data(), Vec::<u8>::new());
    assert_eq!(recorder.events(), vec!["start server".to_string(), "stop server".to_string()]);
}

#[test]
fn a_second_start_changes_nothing() {
    let recorder = Recorder::new();
    let mut server = server(&recorder);
    server.start(Some(BoundListener { hostname: "192.168.0.2".to_string(), port: 80 }));
    let info = server.get_connection_info();
    let data = server.get_advertisement_data();
    assert!(!server.needs_tcp_server());

    server.start(None);
    assert_eq!(server.get_connection_info(), info);
    assert_eq!(server.get_tcp_port(), Some(80));
    assert!(server.is_advertising());
    assert_eq!(server.get_advertisement_data(), data);

    server.start(Some(BoundListener { hostname: "10.0.0.1".to_string(), port: 8080 }));
    assert_eq!(server.get_connection_info(), info);
    assert_eq!(server.get_tcp_port(), Some(80));
    assert_eq!(server.get_advertisement_data(), data);

    server.stop();
    server.stop();
    assert_eq!(server.get_tcp_port(), None);
    assert!(!server.is_advertising());
}

#[test]
fn start_without_a_listener_advertises_what_is_known() {
    let recorder = Recorder::new();
    let mut server = server(&recorder);
    server.start(None);
    assert!(server.is_advertising());
    assert!(server.needs_tcp_server());
    let data = server.get_advertisement_data();
    let message = DeviceDiscoveryMessage::decode_length_delimited(&data).expect("a message");
    assert_eq!(
        message.content,
        Content::DeviceConnectionInfo(DeviceConnectionInfo {
            device: device("A", "Alice"),
            tcp: None,
            ble: None
        })
    );
    server.restart_server(Some(BoundListener { hostname: "h".to_string(), port: 1234 }));
    assert_eq!(server.get_tcp_port(), Some(1234));
    assert!(server.is_advertising());
}

#[test]
fn the_advertisement_follows_every_change() {
    let recorder = Recorder::new();
    let mut server = server(&recorder);
    server.start(None);
    let first = server.get_advertisement_data();

    server.change_device(device("A2", "Alice again"));
    let second = server.get_advertisement_data();
    assert_ne!(first, second);
    assert_eq!(server.get_connection_info().device, device("A2", "Alice again"));

    server.set_bluetooth_le_details(BluetoothLeConnectionInfo { uuid: "u".to_string(), psm: 7 });
    let third = server.get_advertisement_data();
    assert_ne!(second, third);

    server.set_tcp_details(TcpConnectionInfo { hostname: "host".to_string(), port: 99 });
    let fourth = server.get_advertisement_data();
    assert_ne!(third, fourth);
    let info = server.get_connection_info();
    assert_eq!(info.tcp, Some(TcpConnectionInfo { hostname: "host".to_string(), port: 99 }));
    assert_eq!(info.ble, Some(BluetoothLeConnectionInfo { uuid: "u".to_string(), psm: 7 }));
    assert_eq!(
        DeviceDiscoveryMessage::decode_length_delimited(&fourth),
        Ok(DeviceDiscoveryMessage { content: Content::DeviceConnectionInfo(info) })
    );
    assert_eq!(server.get_file_storage(), "/tmp/received");
}

#[test]
fn tcp_is_tried_first() {
    let both = DeviceConnectionInfo {
        device: device("B", "Bob"),
        tcp: Some(TcpConnectionInfo { hostname: "127.0.0.1".to_string(), port: 9 }),
        ble: Some(BluetoothLeConnectionInfo { uuid: "peripheral".to_string(), psm: 192 }),
    };
    assert_eq!(
        connect(&Some(both.clone()), true),
        ConnectStep::Tcp { hostname: "127.0.0.1".to_string(), port: 9 }
    );
    assert_eq!(connect_tcp(&both), Ok(("127.0.0.1".to_string(), 9)));
    assert_eq!(
        connect_fallback(&both, true),
        ConnectStep::Ble { peripheral_uuid: "peripheral".to_string(), psm: 192 }
    );
    assert_eq!(
        connect_fallback(&both, false),
        ConnectStep::Fail(ConnectErrors::InternalBleHandlerNotAvailable)
    );
    assert_eq!(connect(&None, true), ConnectStep::Fail(ConnectErrors::FailedToGetConnectionDetails));
}

#[test]
fn without_a_bluetooth_endpoint_there_is_no_fallback() {
    let tcp_only = DeviceConnectionInfo {
        device: device("B", "Bob"),
        tcp: Some(TcpConnectionInfo { hostname: "127.0.0.1".to_string(), port: 9 }),
        ble: None,
    };
    assert_eq!(
        connect(&Some(tcp_only.clone()), true),
        ConnectStep::Tcp { hostname: "127.0.0.1".to_string(), port: 9 }
    );
    assert_eq!(
        connect_fallback(&tcp_only, true),
        ConnectStep::Fail(ConnectErrors::FailedToGetBleDetails)
    );
    assert_eq!(
        connect_fallback(&tcp_only, false),
        ConnectStep::Fail(ConnectErrors::FailedToGetBleDetails)
    );
}

#[test]
fn without_a_tcp_endpoint_bluetooth_is_the_first_step() {
    let ble_only = DeviceConnectionInfo {
        device: device("B", "Bob"),
        tcp: None,
        ble: Some(BluetoothLeConnectionInfo { uuid: "peripheral".to_string(), psm: 192 }),
    };
    assert_eq!(connect_tcp(&ble_only), Err(ConnectErrors::FailedToGetTcpDetails));
    assert_eq!(
        connect(&Some(ble_only), true),
        ConnectStep::Ble { peripheral_uuid: "peripheral".to_string(), psm: 192 }
    );
    let bad_port = DeviceConnectionInfo {
        device: device("B", "Bob"),
        tcp: Some(TcpConnectionInfo { hostname: "h".to_string(), port: 65536 }),
        ble: None,
    };
    assert_eq!(connect_tcp(&bad_port), Err(ConnectErrors::FailedToGetSocketAddress));
    assert_eq!(
        connect(&Some(bad_port), true),
        ConnectStep::Fail(ConnectErrors::FailedToGetBleDetails)
    );
    let top_port = DeviceConnectionInfo {
        device: device("B", "Bob"),
        tcp: Some(TcpConnectionInfo { hostname: "h".to_string(), port: 65535 }),
        ble: None,
    };
    assert_eq!(connect_tcp(&top_port), Ok(("h".to_string(), 65535)));
}

#[test]
fn an_awaited_bluetooth_connection_is_handed_in_once() {
    let recorder = Recorder::new();
    let mut server = server(&recorder);
    assert!(!server.l2cap_client_available());
    assert!(!server.open_l2cap_connection("id-1".to_string(), "peripheral".to_string(), 192));
    assert!(!server.handle_incoming_ble_connection(&"id-1".to_string()));

    server.add_l2_cap_client(recorder.clone());
    assert!(server.l2cap_client_available());
    assert!(server.open_l2cap_connection("id-1".to_string(), "peripheral".to_string(), 192));
    assert!(server.open_l2cap_connection("id-2".to_string(), "peripheral".to_string(), 193));
    assert_eq!(
        recorder.events(),
        vec!["open id-1 peripheral 192".to_string(), "open id-2 peripheral 193".to_string()]
    );
    assert!(!server.handle_incoming_ble_connection(&"id-3".to_string()));
    assert!(server.handle_incoming_ble_connection(&"id-1".to_string()));
    assert!(!server.handle_incoming_ble_connection(&"id-1".to_string()));
    assert!(server.handle_incoming_ble_connection(&"id-2".to_string()));
    server.register_l2cap_connection("id-4".to_string());
    assert!(server.handle_incoming_ble_connection(&"id-4".to_string()));
}

#[test]
fn a_send_reports_its_stages_in_order() {
    let mut pipeline = SendPipeline::new();
    assert_eq!(pipeline.stage, SendStage::Idle);
    assert_eq!(pipeline.advance(SendEvent::Accepted), None);
    assert_eq!(pipeline.advance(SendEvent::Started), Some(SendProgressState::Connecting));
    assert_eq!(pipeline.advance(SendEvent::Started), None);
    assert_eq!(
        pipeline.advance(SendEvent::Connected { file_size: 2048 }),
        Some(SendProgressState::Requesting)
    );
    assert_eq!(
        pipeline.advance(SendEvent::Accepted),
        Some(SendProgressState::Transferring { sent: 0, total: 2048 })
    );
    assert_eq!(
        pipeline.advance(SendEvent::ChunkWritten { bytes: 1024 }),
        Some(SendProgressState::Transferring { sent: 1024, total: 2048 })
    );
    assert_eq!(
        pipeline.advance(SendEvent::ChunkWritten { bytes: 1024 }),
        Some(SendProgressState::Transferring { sent: 2048, total: 2048 })
    );
    assert_eq!(pipeline.advance(SendEvent::EndOfFile), Some(SendProgressState::Finished));
    assert_eq!(pipeline.stage, SendStage::Done);
    assert_eq!(pipeline.advance(SendEvent::EndOfFile), None);
    assert_eq!(pipeline.advance(SendEvent::Started), None);
    assert_eq!(pipeline.advance(SendEvent::ChunkWritten { bytes: 1 }), None);
}

#[test]
fn a_send_that_falls_short_is_cancelled() {
    let mut pipeline = SendPipeline::new();
    pipeline.advance(SendEvent::Started);
    pipeline.advance(SendEvent::Connected { file_size: 1500 });
    pipeline.advance(SendEvent::Accepted);
    assert_eq!(
        pipeline.advance(SendEvent::ChunkWritten { bytes: 1024 }),
        Some(SendProgressState::Transferring { sent: 1024, total: 1500 })
    );
    assert_eq!(pipeline.advance(SendEvent::EndOfFile), Some(SendProgressState::Cancelled));

    let mut stalled = SendPipeline { stage: SendStage::Transferring, file_size: 10, sent: 4 };
    assert_eq!(
        stalled.advance(SendEvent::ChunkWritten { bytes: 0 }),
        Some(SendProgressState::Cancelled)
    );
    assert_eq!(stalled.stage, SendStage::Done);

    let mut failed = SendPipeline { stage: SendStage::Transferring, file_size: 10, sent: 10 };
    assert_eq!(failed.advance(SendEvent::Failed), Some(SendProgressState::Cancelled));

    let mut empty = SendPipeline { stage: SendStage::Transferring, file_size: 0, sent: 0 };
    assert_eq!(empty.advance(SendEvent::EndOfFile), Some(SendProgressState::Finished));

    let mut counted = SendPipeline { stage: SendStage::Transferring, file_size: 5, sent: u64::MAX - 1 };
    assert_eq!(
        counted.advance(SendEvent::ChunkWritten { bytes: 7 }),
        Some(SendProgressState::Transferring { sent: u64::MAX, total: 5 })
    );
}

#[test]
fn a_decline_ends_a_send() {
    let mut pipeline = SendPipeline::new();
    pipeline.advance(SendEvent::Started);
    pipeline.advance(SendEvent::Connected { file_size: 5 });
    assert_eq!(pipeline.advance(SendEvent::Declined), Some(SendProgressState::Declined));
    assert_eq!(pipeline.stage, SendStage::Done);
    assert_eq!(pipeline.advance(SendEvent::Accepted), None);

    let mut unreachable = SendPipeline::new();
    unreachable.advance(SendEvent::Started);
    assert_eq!(unreachable.advance(SendEvent::Failed), None);
    assert_eq!(unreachable.stage, SendStage::Done);

    let mut unanswered = SendPipeline::new();
    unanswered.advance(SendEvent::Started);
    unanswered.advance(SendEvent::Connected { file_size: 5 });
    assert_eq!(unanswered.advance(SendEvent::Failed), None);
    assert_eq!(unanswered.stage, SendStage::Done);
}

#[test]
fn answers_are_judged() {
    assert_eq!(judge_transfer_response(Ok(vec![0x02, 0x08, 0x01])), Ok(()));
    assert_eq!(judge_transfer_response(Ok(vec![0x00])), Err(ConnectErrors::Declined));
    assert_eq!(judge_transfer_response(Ok(vec![0x02, 0x08, 0x00])), Err(ConnectErrors::Declined));
    assert_eq!(
        judge_transfer_response(Err(FramingError::TruncatedBody)),
        Err(ConnectErrors::FailedToGetTransferRequestResponse {
            error: "Message body is truncated".to_string()
        })
    );
    assert_eq!(
        judge_transfer_response(Err(FramingError::InvalidFraming)),
        Err(ConnectErrors::FailedToGetTransferRequestResponse {
            error: "Invalid length prefix".to_string()
        })
    );
    assert_eq!(
        judge_transfer_response(Ok(vec![0x02, 0x0A, 0x00])),
        Err(ConnectErrors::FailedToGetTransferRequestResponse {
            error: "Message body does not match its schema".to_string()
        })
    );
}

#[test]
fn a_file_travels_from_sender_to_receiver() {
    let sender_recorder = Recorder::new();
    let sender = server(&sender_recorder);
    let request = sender.file_transfer_request(Some("hello.txt".to_string()), 5);
    assert_eq!(request, file_request(Some("hello.txt"), 5));
    let request_length = request.encode_length_delimited_to_vec().len() as u64;

    let accepted = TransferRequestResponse { accepted: true }.encode_length_delimited_to_vec();
    let sender_pipe = Pipe::with_inbound(&encrypt_at(KEY, IV, request_length, &accepted));
    let stream = EncryptedStream::new(KEY, IV, sender_pipe.clone());
    let mut file = Pipe::with_inbound(b"hello");

    let mut pipeline = SendPipeline::new();
    let began = pipeline.advance(SendEvent::Started);
    assert_eq!(began, Some(SendProgressState::Connecting));
    let end = sender.send_file(
        &mut pipeline,
        stream,
        &mut file,
        Some("hello.txt".to_string()),
        5,
        &Some(sender_recorder.clone()),
    );
    assert_eq!(end, Ok(SendProgressState::Finished));
    assert_eq!(
        sender_recorder.sent.borrow().clone(),
        vec![
            SendProgressState::Requesting,
            SendProgressState::Transferring { sent: 0, total: 5 },
            SendProgressState::Transferring { sent: 5, total: 5 },
            SendProgressState::Finished
        ]
    );
    assert!(sender_pipe.is_closed());
    assert_eq!(pipeline.stage, SendStage::Done);
    assert_eq!(pipeline.sent, 5);

    let wire = sender_pipe.written();
    assert_eq!(wire.len() as u64, request_length + 5);
    let request_frame = encrypt_at(KEY, IV, 0, &wire[..request_length as usize]);
    let received_request =
        TransferRequest::decode_length_delimited(&request_frame).expect("a request");
    assert_eq!(received_request, request);

    let receiver_pipe = Pipe::with_inbound(&wire[request_length as usize..]);
    let mut receiver_stream = EncryptedStream::new(KEY, IV, receiver_pipe.clone());
    receiver_stream.cipher.seek(request_length);
    let mut connection_request =
        ConnectionRequest::new(received_request, receiver_stream, "/dest".to_string());
    assert_eq!(connection_request.get_sender(), device("A", "Alice"));
    assert_eq!(connection_request.destination_file_name(), Some("hello.txt".to_string()));
    assert_eq!(connection_request.get_file_storage(), "/dest");
    assert_eq!(connection_request.get_intent_type(), ConnectionIntentType::FileTransfer);
    assert_eq!(
        connection_request.get_file_transfer_intent(),
        Some(FileTransferIntent {
            file_name: Some("hello.txt".to_string()),
            file_size: 5,
            multiple: false
        })
    );
    assert_eq!(connection_request.get_clipboard_intent(), None);

    let receiver_recorder = Recorder::new();
    let mut destination = Pipe::with_inbound(&[]);
    let end = connection_request.accept_into(&mut destination, &Some(receiver_recorder.clone()));
    assert_eq!(end, Some(ReceiveProgressState::Finished));
    assert_eq!(destination.written(), b"hello".to_vec());
    assert_eq!(
        receiver_recorder.received.borrow().clone(),
        vec![
            ReceiveProgressState::Handshake,
            ReceiveProgressState::Receiving { received: 5, total: 5 },
            ReceiveProgressState::Finished
        ]
    );
    assert_eq!(encrypt_at(KEY, IV, request_length, &receiver_pipe.written()), accepted);
    assert!(receiver_pipe.is_closed());

    let again = connection_request.accept_into(&mut destination, &Some(receiver_recorder.clone()));
    assert_eq!(again, None);
    assert_eq!(receiver_recorder.received.borrow().len(), 3);
}

#[test]
fn a_declined_send_ends_with_the_decline() {
    let recorder = Recorder::new();
    let sender = server(&recorder);
    let request = sender.file_transfer_request(Some("hello.txt".to_string()), 5);
    let request_length = request.encode_length_delimited_to_vec().len() as u64;
    let declined = TransferRequestResponse { accepted: false }.encode_length_delimited_to_vec();
    let pipe = Pipe::with_inbound(&encrypt_at(KEY, IV, request_length, &declined));
    let stream = EncryptedStream::new(KEY, IV, pipe.clone());
    let mut file = Pipe::with_inbound(b"hello");
    let mut pipeline = SendPipeline::new();
    pipeline.advance(SendEvent::Started);
    let end = sender.send_file(
        &mut pipeline,
        stream,
        &mut file,
        Some("hello.txt".to_string()),
        5,
        &Some(recorder.clone()),
    );
    assert_eq!(end, Err(ConnectErrors::Declined));
    assert_eq!(
        recorder.sent.borrow().clone(),
        vec![SendProgressState::Requesting, SendProgressState::Declined]
    );
    assert_eq!(pipe.written().len() as u64, request_length);
    assert!(pipe.is_closed());
    assert_eq!(pipeline.stage, SendStage::Done);

    let receiver_pipe = Pipe::with_inbound(&[]);
    let mut receiver_stream = EncryptedStream::new(KEY, IV, receiver_pipe.clone());
    receiver_stream.cipher.seek(request_length);
    let mut connection_request =
        ConnectionRequest::new(request, receiver_stream, "/dest".to_string());
    connection_request.decline();
    assert_eq!(encrypt_at(KEY, IV, request_length, &receiver_pipe.written()), declined);
    assert!(receiver_pipe.is_closed());
    let mut destination = Pipe::with_inbound(&[]);
    let none: Option<Recorder> = None;
    assert_eq!(connection_request.accept_into(&mut destination, &none), None);
    assert_eq!(connection_request.accept(&none), None);
    assert!(destination.written().is_empty());
}

#[test]
fn a_send_without_an_answer_fails() {
    let recorder = Recorder::new();
    let sender = server(&recorder);
    let pipe = Pipe::with_inbound(&[]);
    let stream = EncryptedStream::new(KEY, IV, pipe.clone());
    let mut file = Pipe::with_inbound(b"hello");
    let mut pipeline = SendPipeline::new();
    pipeline.advance(SendEvent::Started);
    let end = sender.send_file(&mut pipeline, stream, &mut file, None, 5, &Some(recorder.clone()));
    assert_eq!(
        end,
        Err(ConnectErrors::FailedToGetTransferRequestResponse {
            error: "Invalid length prefix".to_string()
        })
    );
    assert_eq!(recorder.sent.borrow().clone(), vec![SendProgressState::Requesting]);
    assert!(pipe.is_closed());

    let idle_pipe = Pipe::with_inbound(&[]);
    let stream = EncryptedStream::new(KEY, IV, idle_pipe.clone());
    let mut idle = SendPipeline::new();
    let end = sender.send_file(&mut idle, stream, &mut file, None, 5, &Some(recorder.clone()));
    assert_eq!(end, Err(ConnectErrors::Unreachable));
    assert!(idle_pipe.written().is_empty());
}

#[test]
fn a_file_of_two_full_buffers_ends_complete() {
    let recorder = Recorder::new();
    let content: Vec<u8> = (0..2048u32).map(|i| (i % 253) as u8).collect();
    let pipe = Pipe::with_inbound(&[]);
    let mut stream = EncryptedStream::new(KEY, IV, pipe.clone());
    let mut file = Pipe::with_inbound(&content);
    let mut pipeline = SendPipeline { stage: SendStage::Transferring, file_size: 2048, sent: 0 };
    let end = transfer_file(&mut pipeline, &mut stream, &mut file, &Some(recorder.clone()));
    assert_eq!(end, Some(SendProgressState::Finished));
    assert_eq!(
        recorder.sent.borrow().clone(),
        vec![
            SendProgressState::Transferring { sent: 1024, total: 2048 },
            SendProgressState::Transferring { sent: 2048, total: 2048 },
            SendProgressState::Finished
        ]
    );
    assert_eq!(encrypt_at(KEY, IV, 0, &pipe.written()), content);

    let mut idle = SendPipeline::new();
    assert_eq!(transfer_file(&mut idle, &mut stream, &mut file, &Some(recorder.clone())), None);
    assert_eq!(idle, SendPipeline::new());
}

#[test]
fn a_file_that_ends_early_is_cancelled() {
    let recorder = Recorder::new();
    let pipe = Pipe::with_inbound(&[]);
    let mut stream = EncryptedStream::new(KEY, IV, pipe.clone());
    let mut file = Pipe::with_inbound(&[1u8; 1500]);
    let mut pipeline = SendPipeline { stage: SendStage::Transferring, file_size: 2000, sent: 0 };
    let end = transfer_file(&mut pipeline, &mut stream, &mut file, &Some(recorder.clone()));
    assert_eq!(end, Some(SendProgressState::Cancelled));
    assert_eq!(
        recorder.sent.borrow().clone(),
        vec![
            SendProgressState::Transferring { sent: 1024, total: 2000 },
            SendProgressState::Transferring { sent: 1500, total: 2000 },
            SendProgressState::Cancelled
        ]
    );

    let mut stuck_pipe = Pipe::with_inbound(&[]);
    stuck_pipe.largest_write = 0;
    let mut stream = EncryptedStream::new(KEY, IV, stuck_pipe);
    let mut file = Pipe::with_inbound(&[1u8; 10]);
    let mut pipeline = SendPipeline { stage: SendStage::Transferring, file_size: 10, sent: 0 };
    let none: Option<Recorder> = None;
    assert_eq!(
        transfer_file(&mut pipeline, &mut stream, &mut file, &none),
        Some(SendProgressState::Cancelled)
    );
    assert_eq!(pipeline.stage, SendStage::Done);
    assert_eq!(pipeline.sent, 0);
}

#[test]
fn a_reception_reports_its_stages_in_order() {
    let mut pipeline = ReceivePipeline::new();
    assert_eq!(pipeline.stage, ReceiveStage::Pending);
    assert!(!pipeline.wants_more());
    assert_eq!(pipeline.advance(ReceiveEvent::ChunkRead { bytes: 5 }), None);
    assert_eq!(
        pipeline.advance(ReceiveEvent::AcceptedFile { file_size: 1500 }),
        Some(ReceiveProgressState::Handshake)
    );
    assert!(pipeline.wants_more());
    assert_eq!(pipeline.read_limit(), 1024);
    assert_eq!(pipeline.advance(ReceiveEvent::ChunkRead { bytes: 1024 }), None);
    assert_eq!(pipeline.received, 0);
    assert_eq!(
        pipeline.advance(ReceiveEvent::ChunkWritten { bytes: 1024 }),
        Some(ReceiveProgressState::Receiving { received: 1024, total: 1500 })
    );
    assert_eq!(pipeline.read_limit(), 476);
    assert_eq!(pipeline.advance(ReceiveEvent::ChunkRead { bytes: 476 }), None);
    assert_eq!(
        pipeline.advance(ReceiveEvent::ChunkWritten { bytes: 476 }),
        Some(ReceiveProgressState::Receiving { received: 1500, total: 1500 })
    );
    assert!(!pipeline.wants_more());
    assert_eq!(pipeline.read_limit(), 0);
    assert_eq!(pipeline.advance(ReceiveEvent::End), Some(ReceiveProgressState::Finished));
    assert_eq!(pipeline.stage, ReceiveStage::Done);
    assert_eq!(pipeline.advance(ReceiveEvent::End), None);
    assert_eq!(pipeline.advance(ReceiveEvent::Cancel), None);
    assert!(!pipeline.cancelled);
}

#[test]
fn a_reception_that_falls_short_is_cancelled() {
    let mut pipeline = ReceivePipeline::new();
    pipeline.advance(ReceiveEvent::AcceptedFile { file_size: 1500 });
    pipeline.advance(ReceiveEvent::ChunkRead { bytes: 1024 });
    pipeline.advance(ReceiveEvent::ChunkWritten { bytes: 1024 });
    assert_eq!(pipeline.advance(ReceiveEvent::ChunkRead { bytes: 0 }), None);
    assert_eq!(pipeline.stage, ReceiveStage::Stopped);
    assert!(!pipeline.wants_more());
    assert_eq!(pipeline.advance(ReceiveEvent::End), Some(ReceiveProgressState::Cancelled));

    let mut empty = ReceivePipeline::new();
    empty.advance(ReceiveEvent::AcceptedFile { file_size: 0 });
    assert!(!empty.wants_more());
    assert_eq!(empty.advance(ReceiveEvent::End), Some(ReceiveProgressState::Finished));

    let mut declined = ReceivePipeline::new();
    assert_eq!(declined.advance(ReceiveEvent::Declined), None);
    assert_eq!(declined.stage, ReceiveStage::Done);
    assert_eq!(declined.advance(ReceiveEvent::AcceptedFile { file_size: 1 }), None);

    let mut text = ReceivePipeline::new();
    assert_eq!(text.advance(ReceiveEvent::AcceptedClipboard), Some(ReceiveProgressState::Handshake));
    assert_eq!(text.stage, ReceiveStage::Delivering);
    assert_eq!(text.advance(ReceiveEvent::End), Some(ReceiveProgressState::Finished));
}

#[test]
fn a_cancel_before_the_first_byte_ends_as_cancelled() {
    let pipe = Pipe::with_inbound(&encrypt_at(KEY, IV, 3, b"hello"));
    let stream = EncryptedStream::new(KEY, IV, pipe.clone());
    let mut request = ConnectionRequest::new(
        file_request(Some("hello.txt"), 5),
        stream,
        "/dest".to_string(),
    );
    let nobody: Option<Recorder> = None;
    assert_eq!(request.accept(&nobody), Some(ReceiveProgressState::Handshake));
    assert!(request.wants_more());
    request.cancel();
    assert!(!request.wants_more());
    assert_eq!(request.finish(), Some(ReceiveProgressState::Cancelled));
    assert!(pipe.is_closed());
    assert_eq!(request.finish(), None);

    let pipe = Pipe::with_inbound(&encrypt_at(KEY, IV, 3, b"hello"));
    let stream = EncryptedStream::new(KEY, IV, pipe);
    let mut request =
        ConnectionRequest::new(file_request(None, 5), stream, "/dest".to_string());
    assert_eq!(request.destination_file_name(), Some("temp.zip".to_string()));
    request.accept(&nobody);
    assert_eq!(request.handle_file(), Some(b"hello".to_vec()));
    request.cancel();
    assert_eq!(request.handle_file(), None);
    assert_eq!(request.finish(), Some(ReceiveProgressState::Cancelled));
}

#[test]
fn a_reception_is_cancelled_where_the_stream_ends_early() {
    let recorder = Recorder::new();
    let content = vec![9u8; 1100];
    let pipe = Pipe::with_inbound(&encrypt_at(KEY, IV, 3, &content));
    let stream = EncryptedStream::new(KEY, IV, pipe);
    let mut request =
        ConnectionRequest::new(file_request(Some("big.bin"), 1500), stream, "/dest".to_string());
    let mut destination = Pipe::with_inbound(&[]);
    let end = request.accept_into(&mut destination, &Some(recorder.clone()));
    assert_eq!(end, Some(ReceiveProgressState::Cancelled));
    assert_eq!(destination.written(), content);
    assert_eq!(
        recorder.received.borrow().clone(),
        vec![
            ReceiveProgressState::Handshake,
            ReceiveProgressState::Receiving { received: 1024, total: 1500 },
            ReceiveProgressState::Receiving { received: 1100, total: 1500 },
            ReceiveProgressState::Cancelled
        ]
    );
}

#[test]
fn a_reception_takes_no_more_than_was_announced() {
    let recorder = Recorder::new();
    let mut content = vec![3u8; 1500];
    content.extend([4u8; 100]);
    let pipe = Pipe::with_inbound(&encrypt_at(KEY, IV, 3, &content));
    let stream = EncryptedStream::new(KEY, IV, pipe.clone());
    let mut request =
        ConnectionRequest::new(file_request(Some("big.bin"), 1500), stream, "/dest".to_string());
    let mut destination = Pipe::with_inbound(&[]);
    let end = request.accept_into(&mut destination, &Some(recorder.clone()));
    assert_eq!(end, Some(ReceiveProgressState::Finished));
    assert_eq!(destination.written(), vec![3u8; 1500]);
    assert_eq!(pipe.inbound.borrow().len(), 100);
}

#[test]
fn a_text_is_finished_once_it_is_accepted() {
    let recorder = Recorder::new();
    let pipe = Pipe::with_inbound(&[]);
    let stream = EncryptedStream::new(KEY, IV, pipe.clone());
    let text = TransferRequest {
        device: device("A", "Alice"),
        intent: Intent::Clipboard(ClipboardTransferIntent { text: "copied".to_string() }),
    };
    let mut request = ConnectionRequest::new(text.clone(), stream, "/dest".to_string());
    assert_eq!(request.get_intent(), text.intent);
    assert_eq!(request.get_intent_type(), ConnectionIntentType::Clipboard);
    assert_eq!(request.destination_file_name(), None);
    assert_eq!(
        request.get_clipboard_intent(),
        Some(ClipboardTransferIntent { text: "copied".to_string() })
    );
    assert_eq!(request.get_file_transfer_intent(), None);
    let mut destination = Pipe::with_inbound(&[]);
    let end = request.accept_into(&mut destination, &Some(recorder.clone()));
    assert_eq!(end, Some(ReceiveProgressState::Finished));
    assert_eq!(
        recorder.received.borrow().clone(),
        vec![ReceiveProgressState::Handshake, ReceiveProgressState::Finished]
    );
    assert!(destination.written().is_empty());
    assert_eq!(
        encrypt_at(KEY, IV, 0, &pipe.written()),
        TransferRequestResponse { accepted: true }.encode_length_delimited_to_vec()
    );
}

#[test]
fn the_initiator_derives_the_responder_s_keys() {
    let responder_secret = [5u8; 32];
    let iv = [6u8; 24];
    let response = EncryptionResponse {
        public_key: public_key(&responder_secret).to_vec(),
        iv: iv.to_vec(),
    };
    let pipe = Pipe::with_inbound(&response.encode_length_delimited_to_vec());
    let mut stream = match initiate_sender_communication(pipe.clone()) {
        Ok(stream) => stream,
        Err(_) => panic!("the handshake failed"),
    };
    assert_eq!(stream.cipher.current_pos(), 0);
    assert!(!pipe.is_closed());
    let request =
        EncryptionRequest::decode_length_delimited(&pipe.written()).expect("a request");
    assert_eq!(request.public_key.len(), 32);
    let (answer, keys) =
        answer_encryption_request(&responder_secret, &iv, &request).expect("an answer");
    assert_eq!(answer, response);

    let before = pipe.written().len();
    assert_eq!(stream.write_stream(b"ping").expect("a write"), 4);
    let ciphertext = pipe.written()[before..].to_vec();
    assert_ne!(ciphertext, b"ping".to_vec());
    assert_eq!(encrypt_at(keys.key, keys.iv, 0, &ciphertext), b"ping".to_vec());
}

#[test]
fn the_responder_derives_the_initiator_s_keys() {
    let initiator_secret = [8u8; 32];
    let request = EncryptionRequest { public_key: public_key(&initiator_secret).to_vec() };
    let pipe = Pipe::with_inbound(&request.encode_length_delimited_to_vec());
    let mut stream = match initiate_receiver_communication(pipe.clone()) {
        Ok(stream) => stream,
        Err(_) => panic!("the handshake failed"),
    };
    let response =
        EncryptionResponse::decode_length_delimited(&pipe.written()).expect("a response");
    assert_eq!(response.public_key.len(), 32);
    assert_eq!(response.iv.len(), 24);
    let keys = finish_encryption(&initiator_secret, &response).expect("keys");

    let before = pipe.written().len();
    assert_eq!(stream.write_stream(b"pong").expect("a write"), 4);
    let ciphertext = pipe.written()[before..].to_vec();
    assert_eq!(encrypt_at(keys.key, keys.iv, 0, &ciphertext), b"pong".to_vec());
}

#[test]
fn a_forged_public_key_closes_the_connection() {
    let forged = EncryptionRequest { public_key: vec![1u8; 31] };
    let pipe = Pipe::with_inbound(&forged.encode_length_delimited_to_vec());
    match initiate_receiver_communication(pipe.clone()) {
        Err(IncomingErrors::InvalidForeignPublicKey) => {}
        _ => panic!("expected InvalidForeignPublicKey"),
    }
    assert!(pipe.is_closed());
    assert!(pipe.written().is_empty());

    let pipe = Pipe::with_inbound(&forged.encode_length_delimited_to_vec());
    assert!(receive_request(pipe.clone(), "/dest".to_string()).is_none());
    assert!(pipe.is_closed());
    assert!(pipe.written().is_empty());

    let recorder = Recorder::new();
    let server = server(&recorder);
    let pipe = Pipe::with_inbound(&forged.encode_length_delimited_to_vec());
    assert!(server.handle_incoming_connection(pipe.clone()).is_none());
    assert!(pipe.is_closed());
}

#[test]
fn a_handshake_fails_on_what_is_no_message() {
    let pipe = Pipe::with_inbound(&[]);
    match initiate_receiver_communication(pipe.clone()) {
        Err(IncomingErrors::ParseError(FramingError::InvalidFraming)) => {}
        _ => panic!("expected a parse error"),
    }
    assert!(pipe.is_closed());

    let pipe = Pipe::with_inbound(&[0x05, 0x0A]);
    match initiate_sender_communication(pipe.clone()) {
        Err(IncomingErrors::ParseError(FramingError::TruncatedBody)) => {}
        _ => panic!("expected a parse error"),
    }
    assert!(pipe.is_closed());

    let pipe = Pipe::with_inbound(&[0x02, 0x08, 0x01]);
    match initiate_sender_communication(pipe.clone()) {
        Err(IncomingErrors::ParseError(FramingError::SchemaMismatch)) => {}
        _ => panic!("expected a parse error"),
    }

    let short_nonce = EncryptionResponse { public_key: vec![1u8; 32], iv: vec![2u8; 12] };
    let pipe = Pipe::with_inbound(&short_nonce.encode_length_delimited_to_vec());
    match initiate_sender_communication(pipe.clone()) {
        Err(IncomingErrors::InvalidNonce) => {}
        _ => panic!("expected InvalidNonce"),
    }
    assert!(pipe.is_closed());

    let mut stuck = Pipe::with_inbound(&[]);
    stuck.largest_write = 0;
    match initiate_sender_communication(stuck) {
        Err(IncomingErrors::ErrorSendingPublicKey) => {}
        _ => panic!("expected ErrorSendingPublicKey"),
    }
}

#[test]
fn frames_are_read_from_a_stream_as_they_come() {
    let mut pipe = Pipe::with_inbound(&[0x03, 1, 2, 3, 0x00, 0x01, 9]);
    assert_eq!(read_frame(&mut pipe).expect("a stream"), Ok(vec![0x03, 1, 2, 3]));
    assert_eq!(read_frame(&mut pipe).expect("a stream"), Ok(vec![0x00]));
    assert_eq!(read_frame(&mut pipe).expect("a stream"), Ok(vec![0x01, 9]));
    assert_eq!(read_frame(&mut pipe).expect("a stream"), Err(FramingError::InvalidFraming));

    let mut long = vec![0xAC, 0x02];
    long.extend(vec![7u8; 300]);
    let mut pipe = Pipe::with_inbound(&long);
    assert_eq!(read_frame(&mut pipe).expect("a stream"), Ok(long));

    let mut pipe = Pipe::with_inbound(&[0x05, 1, 2]);
    assert_eq!(read_frame(&mut pipe).expect("a stream"), Err(FramingError::TruncatedBody));
    let mut pipe = Pipe::with_inbound(&[0x80; 12]);
    assert_eq!(read_frame(&mut pipe).expect("a stream"), Err(FramingError::InvalidFraming));
    let mut pipe = Pipe::with_inbound(&[0xFF, 0xFF, 0xFF, 0xFF, 0xFF, 0xFF, 0xFF, 0xFF, 0xFF, 0x7F]);
    assert_eq!(read_frame(&mut pipe).expect("a stream"), Err(FramingError::InvalidFraming));

    let mut pipe = Pipe::with_inbound(&[]);
    assert!(write_frame(&mut pipe, &[1, 2, 3]).is_ok());
    assert_eq!(pipe.written(), vec![0x03, 1, 2, 3]);
    pipe.largest_write = 0;
    assert!(matches!(write_frame(&mut pipe, &[1]), Err(StreamError::WriteZero)));
    pipe.fail_reads = true;
    assert!(matches!(read_frame(&mut pipe), Err(StreamError::Io(_))));
    pipe.fail_writes = true;
    assert!(matches!(write_frame(&mut pipe, &[1]), Err(StreamError::Io(_))));
}

#[test]
fn blocks_are_read_and_written_whole() {
    let mut pipe = Pipe::with_inbound(&[1, 2, 3, 4, 5]);
    assert_eq!(read_u8(&mut pipe).expect("a stream"), Some(1));
    assert_eq!(read_exact(&mut pipe, 3).expect("a block"), vec![2, 3, 4]);
    assert_eq!(read_exact(&mut pipe, 0).expect("a block"), Vec::<u8>::new());
    assert!(matches!(read_exact(&mut pipe, 2), Err(StreamError::EndOfStream)));
    assert_eq!(read_u8(&mut pipe).expect("a stream"), None);
    pipe.fail_reads = true;
    assert!(matches!(read_u8(&mut pipe), Err(StreamError::Io(_))));
    assert!(matches!(read_exact(&mut pipe, 2), Err(StreamError::Io(_))));
    assert!(read_exact(&mut pipe, 0).is_ok());

    let mut pipe = Pipe::with_inbound(&[]);
    pipe.largest_write = 2;
    assert!(write_all(&mut pipe, &[1, 2, 3, 4, 5]).is_ok());
    assert_eq!(pipe.written(), vec![1, 2, 3, 4, 5]);
    assert!(write_all(&mut pipe, &[]).is_ok());
    pipe.largest_write = 0;
    assert!(matches!(write_all(&mut pipe, &[1]), Err(StreamError::WriteZero)));
    pipe.fail_writes = true;
    assert!(matches!(write_all(&mut pipe, &[1]), Err(StreamError::Io(_))));
    assert!(write_all(&mut pipe, &[]).is_ok());
}

#[test]
fn a_platform_stream_is_a_stream() {
    let pipe = Pipe::with_inbound(&[1, 2, 3]);
    let mut stream = NativeStream::new(pipe.clone());
    assert_eq!(StreamRead::read(&mut stream, 2).expect("bytes"), vec![1, 2]);
    assert_eq!(stream.write_stream(&[7, 8]).expect("a count"), 2);
    assert!(StreamWrite::flush(&mut stream).is_ok());
    assert_eq!(pipe.written(), vec![7, 8]);
    assert!(!pipe.is_closed());
    stream.close();
    assert!(pipe.is_closed());
}

#[test]
fn connection_ids_are_fresh_uuids() {
    let first = fresh_connection_id().expect("no randomness");
    let second = fresh_connection_id().expect("no randomness");
    assert_ne!(first, second);
    for id in [first, second] {
        assert_eq!(id.len(), 36);
        let bytes = id.as_bytes();
        for (i, byte) in bytes.iter().enumerate() {
            if i == 8 || i == 13 || i == 18 || i == 23 {
                assert_eq!(*byte, b'-');
            } else {
                assert!(byte.is_ascii_digit() || (b'a'..=b'f').contains(byte));
            }
        }
        assert_eq!(bytes[14], b'4');
        assert!(bytes[19] == b'8' || bytes[19] == b'9' || bytes[19] == b'a' || bytes[19] == b'b');
    }
}

#[test]
fn each_step_has_its_medium() {
    let tcp = ConnectStep::Tcp { hostname: "h".to_string(), port: 1 };
    let ble = ConnectStep::Ble { peripheral_uuid: "u".to_string(), psm: 1 };
    let fail = ConnectStep::Fail(ConnectErrors::Unreachable);
    assert_eq!(tcp.medium(), Some(ConnectionMedium::WiFi));
    assert_eq!(ble.medium(), Some(ConnectionMedium::BLE));
    assert_eq!(fail.medium(), None);
}

#[test]
fn an_id_that_is_registered_twice_is_handed_in_once() {
    let recorder = Recorder::new();
    let mut server = server(&recorder);
    server.add_l2_cap_client(recorder.clone());
    server.register_l2cap_connection("id-1".to_string());
    server.register_l2cap_connection("id-2".to_string());
    server.register_l2cap_connection("id-1".to_string());
    assert!(server.open_l2cap_connection("id-2".to_string(), "peripheral".to_string(), 7));
    assert!(server.handle_incoming_ble_connection(&"id-1".to_string()));
    assert!(!server.handle_incoming_ble_connection(&"id-1".to_string()));
    assert!(server.handle_incoming_ble_connection(&"id-2".to_string()));
    assert!(!server.handle_incoming_ble_connection(&"id-2".to_string()));
    assert!(!server.handle_incoming_ble_connection(&"id-3".to_string()));
}

#[test]
fn the_bluetooth_server_is_started_once_and_stopped_on_every_stop() {
    let recorder = Recorder::new();
    let mut bare: NearbyServer<Recorder, Recorder> =
        NearbyServer::new(device("A", "Alice"), "/tmp/received".to_string());
    assert!(!bare.start(None));
    assert!(!bare.stop());

    let mut server = server(&recorder);
    assert!(server.stop());
    assert_eq!(recorder.events(), vec!["stop server".to_string()]);
    assert!(server.start(None));
    assert!(!server.start(None));
    assert!(!server.start(Some(BoundListener { hostname: "h".to_string(), port: 1 })));
    assert_eq!(recorder.events(), vec!["stop server".to_string(), "start server".to_string()]);
    assert!(server.stop());
    assert!(server.stop());
    assert_eq!(
        recorder.events(),
        vec![
            "stop server".to_string(),
            "start server".to_string(),
            "stop server".to_string(),
            "stop server".to_string()
        ]
    );
    assert_eq!(server.restart_server(None), (true, true));
    assert_eq!(server.restart_server(None), (true, true));
    assert_eq!(recorder.events().len(), 8);
}

#[test]
fn a_failure_of_the_stream_below_is_handed_on() {
    let mut pipe = Pipe::with_inbound(&[1, 2, 3]);
    pipe.fail_reads = true;
    pipe.fail_writes = true;
    let mut stream = EncryptedStream::new(KEY, IV, pipe.clone());
    stream.cipher.seek(10);
    assert!(matches!(stream.read(3), Err(StreamError::Io(_))));
    assert_eq!(stream.cipher.current_pos(), 10);
    assert!(matches!(stream.write_stream(&[1, 2, 3]), Err(StreamError::Io(_))));
    assert_eq!(stream.cipher.current_pos(), 10);
    assert!(pipe.written().is_empty());

    let limit: u64 = 274_877_906_880;
    let pipe = Pipe::with_inbound(&[1, 2, 3]);
    let mut stream = EncryptedStream::new(KEY, IV, pipe.clone());
    stream.cipher.seek(limit - 1);
    assert!(matches!(stream.write_stream(&[1, 2]), Err(StreamError::EndOfKeystream)));
    assert!(pipe.written().is_empty());
    assert!(matches!(stream.read(3), Err(StreamError::EndOfKeystream)));
    assert_eq!(stream.cipher.current_pos(), limit - 1);
}

#[test]
fn the_keystream_moves_on_by_what_the_stream_took() {
    let mut pipe = Pipe::with_inbound(&[]);
    pipe.largest_write = 2;
    let mut stream = EncryptedStream::new(KEY, IV, pipe.clone());
    let plain = [10u8, 20, 30, 40, 50];
    assert_eq!(stream.write_stream(&plain).expect("a count"), 2);
    assert_eq!(stream.cipher.current_pos(), 2);
    assert_eq!(stream.write_stream(&plain[2..]).expect("a count"), 2);
    assert_eq!(stream.write_stream(&plain[4..]).expect("a count"), 1);
    assert_eq!(stream.cipher.current_pos(), 5);
    assert_eq!(encrypt_at(KEY, IV, 0, &pipe.written()), plain.to_vec());

    let pipe = Pipe::with_inbound(&encrypt_at(KEY, IV, 0, &plain));
    let mut stream = EncryptedStream::new(KEY, IV, pipe);
    assert_eq!(stream.read(2).expect("bytes"), vec![10, 20]);
    assert_eq!(stream.read(10).expect("bytes"), vec![30, 40, 50]);
    assert_eq!(stream.read(10).expect("bytes"), Vec::<u8>::new());
    assert_eq!(stream.cipher.current_pos(), 5);
}

#[test]
fn a_file_that_refuses_bytes_ends_the_reception_as_cancelled() {
    let recorder = Recorder::new();
    let content = vec![9u8; 1500];
    let pipe = Pipe::with_inbound(&encrypt_at(KEY, IV, 3, &content));
    let stream = EncryptedStream::new(KEY, IV, pipe);
    let mut request =
        ConnectionRequest::new(file_request(Some("big.bin"), 1500), stream, "/dest".to_string());
    let mut destination = Pipe::with_inbound(&[]);
    destination.fail_writes = true;
    let end = request.accept_into(&mut destination, &Some(recorder.clone()));
    assert_eq!(end, Some(ReceiveProgressState::Cancelled));
    assert_eq!(
        recorder.received.borrow().clone(),
        vec![ReceiveProgressState::Handshake, ReceiveProgressState::Cancelled]
    );

    let pipe = Pipe::with_inbound(&encrypt_at(KEY, IV, 3, &content));
    let stream = EncryptedStream::new(KEY, IV, pipe);
    let mut request =
        ConnectionRequest::new(file_request(Some("big.bin"), 1500), stream, "/dest".to_string());
    let nobody: Option<Recorder> = None;
    request.accept(&nobody);
    let first = request.handle_file().expect("a chunk");
    assert_eq!(first.len(), 1024);
    assert_eq!(
        request.record_write(1024, true),
        Some(ReceiveProgressState::Receiving { received: 1024, total: 1500 })
    );
    let last = request.handle_file().expect("a chunk");
    assert_eq!(last.len(), 476);
    assert_eq!(request.record_write(476, false), None);
    assert!(!request.wants_more());
    assert_eq!(request.handle_file(), None);
    assert_eq!(request.finish(), Some(ReceiveProgressState::Cancelled));
}

#[test]
fn a_failure_of_the_stream_ends_a_transfer_as_cancelled() {
    let recorder = Recorder::new();
    let mut pipe = Pipe::with_inbound(&[]);
    pipe.fail_reads = true;
    let mut probe = EncryptedStream::new(KEY, IV, Pipe::with_inbound(&[]));
    probe.cipher.seek(3);
    let stream = EncryptedStream::new(KEY, IV, pipe);
    let mut request =
        ConnectionRequest::new(file_request(Some("big.bin"), 10), stream, "/dest".to_string());
    let mut destination = Pipe::with_inbound(&[]);
    let end = request.accept_into(&mut destination, &Some(recorder.clone()));
    assert_eq!(end, Some(ReceiveProgressState::Cancelled));
    assert!(destination.written().is_empty());

    let mut stuck = Pipe::with_inbound(&[]);
    stuck.fail_writes = true;
    let mut stream = EncryptedStream::new(KEY, IV, stuck);
    let mut file = Pipe::with_inbound(&[1u8; 10]);
    let mut pipeline = SendPipeline { stage: SendStage::Transferring, file_size: 10, sent: 0 };
    let nobody: Option<Recorder> = None;
    assert_eq!(
        transfer_file(&mut pipeline, &mut stream, &mut file, &nobody),
        Some(SendProgressState::Cancelled)
    );
    assert_eq!(pipeline.sent, 0);

    let mut stream = EncryptedStream::new(KEY, IV, Pipe::with_inbound(&[]));
    let mut file = Pipe::with_inbound(&[1u8; 10]);
    file.fail_reads = true;
    let mut pipeline = SendPipeline { stage: SendStage::Transferring, file_size: 10, sent: 0 };
    assert_eq!(
        transfer_file(&mut pipeline, &mut stream, &mut file, &nobody),
        Some(SendProgressState::Cancelled)
    );

    let mut dead = Pipe::with_inbound(&[]);
    dead.fail_reads = true;
    match initiate_sender_communication(dead.clone()) {
        Err(IncomingErrors::UnknownReadError(_)) => {}
        _ => panic!("expected an unknown read error"),
    }
    assert!(dead.is_closed());
    dead.closed.set(false);
    match initiate_receiver_communication(dead.clone()) {
        Err(IncomingErrors::UnknownReadError(_)) => {}
        _ => panic!("expected an unknown read error"),
    }
    assert!(dead.is_closed());
}

#[test]
fn a_write_is_what_the_stream_below_answered() {
    assert!(matches!(written_outcome(10, 5, Ok(3)), (13, Ok(3))));
    assert!(matches!(written_outcome(10, 5, Ok(5)), (15, Ok(5))));
    assert!(matches!(written_outcome(10, 5, Ok(9)), (15, Ok(5))));
    assert!(matches!(written_outcome(10, 5, Ok(0)), (10, Ok(0))));
    assert!(matches!(written_outcome(10, 5, Err(broken())), (10, Err(StreamError::Io(_)))));
    assert!(matches!(
        written_outcome(10, 5, Err(StreamError::WriteZero)),
        (10, Err(StreamError::WriteZero))
    ));
    assert!(matches!(frame_outcome(3, 9, Ok(())), (9, Ok(()))));
    assert!(matches!(frame_outcome(3, 9, Err(broken())), (3, Err(StreamError::Io(_)))));
}

#[test]
fn a_read_is_what_the_stream_below_answered() {
    let plain = [1u8, 2, 3];
    let mut cipher = Cipher::new(KEY, IV);
    assert!(cipher.seek(7));
    let sealed = encrypt_at(KEY, IV, 7, &plain);
    assert_ne!(sealed, plain.to_vec());
    assert_eq!(cipher.read_outcome(Ok(sealed)).expect("bytes"), plain.to_vec());
    assert_eq!(cipher.current_pos(), 10);
    assert_eq!(cipher.read_outcome(Ok(Vec::new())).expect("no bytes"), Vec::<u8>::new());
    assert_eq!(cipher.current_pos(), 10);
    assert!(matches!(cipher.read_outcome(Err(broken())), Err(StreamError::Io(_))));
    assert_eq!(cipher.current_pos(), 10);

    let limit: u64 = 274_877_906_880;
    assert!(cipher.seek(limit));
    assert_eq!(cipher.current_pos(), limit);
    assert!(!cipher.seek(limit + 1));
    assert!(!cipher.seek(u64::MAX));
    assert_eq!(cipher.current_pos(), limit);
    assert_eq!(cipher.read_outcome(Ok(Vec::new())).expect("no bytes"), Vec::<u8>::new());
    assert!(matches!(cipher.read_outcome(Ok(vec![1])), Err(StreamError::EndOfKeystream)));
    assert_eq!(cipher.current_pos(), limit);

    let mut stream = EncryptedStream::new(KEY, IV, Pipe::with_inbound(&[]));
    stream.cipher.seek(limit);
    assert_eq!(stream.read(8).expect("the end of the stream"), Vec::<u8>::new());
    assert_eq!(stream.cipher.current_pos(), limit);
}

#[test]
fn the_steps_of_reading_and_writing_whole_blocks() {
    assert!(matches!(sent_with(0, 10, Ok(4)), Ok(4)));
    assert!(matches!(sent_with(4, 10, Ok(6)), Ok(10)));
    assert!(matches!(sent_with(4, 10, Ok(7)), Err(StreamError::WriteZero)));
    assert!(matches!(sent_with(4, 10, Ok(0)), Err(StreamError::WriteZero)));
    assert!(matches!(sent_with(11, 10, Ok(1)), Err(StreamError::WriteZero)));
    assert!(matches!(sent_with(usize::MAX, usize::MAX, Ok(1)), Err(StreamError::WriteZero)));
    assert!(matches!(sent_with(4, 10, Err(broken())), Err(StreamError::Io(_))));

    assert_eq!(block_with(vec![1, 2], Ok(vec![3])).expect("a block"), vec![1, 2, 3]);
    assert!(matches!(block_with(vec![1, 2], Ok(Vec::new())), Err(StreamError::EndOfStream)));
    assert!(matches!(block_with(vec![1, 2], Err(broken())), Err(StreamError::Io(_))));

    assert!(matches!(one_byte(Ok(vec![7])), Ok(Some(7))));
    assert!(matches!(one_byte(Ok(Vec::new())), Ok(None)));
    assert!(matches!(one_byte(Ok(vec![7, 8])), Ok(None)));
    assert!(matches!(one_byte(Err(broken())), Err(StreamError::Io(_))));
}

#[test]
fn the_steps_of_reading_a_frame() {
    assert_eq!(announced_length(&[]), None);
    assert_eq!(announced_length(&[0x80]), None);
    assert_eq!(announced_length(&[0xFF; 9]), None);
    assert_eq!(announced_length(&[0x00]), Some(Ok(0)));
    assert_eq!(announced_length(&[0x05]), Some(Ok(5)));
    assert_eq!(announced_length(&[0xAC, 0x02]), Some(Ok(300)));
    assert_eq!(announced_length(&[0x80, 0x00]), Some(Ok(0)));
    assert_eq!(announced_length(&[0xFF; 10]), Some(Err(FramingError::InvalidFraming)));
    assert_eq!(announced_length(&[0x05, 0x01]), Some(Err(FramingError::InvalidFraming)));
    let mut too_large = vec![0xFF; 9];
    too_large.push(0x02);
    assert_eq!(announced_length(&too_large), Some(Err(FramingError::InvalidFraming)));
    let mut largest = vec![0xFF; 9];
    largest.push(0x01);
    assert_eq!(announced_length(&largest), Some(Err(FramingError::TruncatedBody)));

    assert!(matches!(prefix_byte(Ok(Some(9))), Ok(Ok(9))));
    assert!(matches!(prefix_byte(Ok(None)), Ok(Err(FramingError::InvalidFraming))));
    assert!(matches!(
        prefix_byte(Err(StreamError::EndOfStream)),
        Ok(Err(FramingError::TruncatedBody))
    ));
    assert!(matches!(prefix_byte(Err(broken())), Err(StreamError::Io(_))));

    assert_eq!(whole_frame(vec![2], Ok(vec![8, 9])).expect("a stream"), Ok(vec![2, 8, 9]));
    assert!(matches!(
        whole_frame(vec![2], Err(StreamError::EndOfStream)),
        Ok(Err(FramingError::TruncatedBody))
    ));
    assert!(matches!(whole_frame(vec![2], Err(broken())), Err(StreamError::Io(_))));
    assert!(matches!(
        whole_frame(vec![2], Err(StreamError::EndOfKeystream)),
        Err(StreamError::EndOfKeystream)
    ));
}

#[test]
fn frames_travel_encrypted() {
    let mut pipe = Pipe::with_inbound(&[]);
    pipe.largest_write = 2;
    let mut sender = EncryptedStream::new(KEY, IV, pipe.clone());
    sender.cipher.seek(5);
    sender.send_frame(&[1, 2, 3, 4]).expect("a frame is sent");
    assert_eq!(sender.cipher.current_pos(), 10);
    assert_eq!(pipe.written(), encrypt_at(KEY, IV, 5, &[4, 1, 2, 3, 4]));

    let mut receiver = EncryptedStream::new(KEY, IV, Pipe::with_inbound(&pipe.written()));
    receiver.cipher.seek(5);
    assert_eq!(receiver.receive_frame().expect("a stream"), Ok(vec![4, 1, 2, 3, 4]));
    assert_eq!(receiver.cipher.current_pos(), 10);
    assert_eq!(receiver.receive_frame().expect("a stream"), Err(FramingError::InvalidFraming));
    assert_eq!(receiver.cipher.current_pos(), 10);

    let cut = encrypt_at(KEY, IV, 0, &[4, 1, 2]);
    let mut receiver = EncryptedStream::new(KEY, IV, Pipe::with_inbound(&cut));
    assert_eq!(receiver.receive_frame().expect("a stream"), Err(FramingError::TruncatedBody));

    let mut dead = Pipe::with_inbound(&[]);
    dead.fail_reads = true;
    dead.fail_writes = true;
    let mut stream = EncryptedStream::new(KEY, IV, dead.clone());
    stream.cipher.seek(5);
    assert!(matches!(stream.send_frame(&[1, 2]), Err(StreamError::Io(_))));
    assert_eq!(stream.cipher.current_pos(), 5);
    assert!(matches!(stream.receive_frame(), Err(StreamError::Io(_))));
    assert_eq!(stream.cipher.current_pos(), 5);

    let mut stuck = Pipe::with_inbound(&[]);
    stuck.largest_write = 0;
    let mut stream = EncryptedStream::new(KEY, IV, stuck);
    assert!(matches!(stream.send_frame(&[1, 2]), Err(StreamError::WriteZero)));
    assert_eq!(stream.cipher.current_pos(), 0);

    let limit: u64 = 274_877_906_880;
    let pipe = Pipe::with_inbound(&[]);
    let mut stream = EncryptedStream::new(KEY, IV, pipe.clone());
    stream.cipher.seek(limit - 2);
    assert!(matches!(stream.send_frame(&[1, 2]), Err(StreamError::EndOfKeystream)));
    assert!(pipe.written().is_empty());
    assert_eq!(stream.cipher.current_pos(), limit - 2);
}

#[test]
fn a_file_of_no_bytes_is_finished_once_it_is_accepted() {
    let recorder = Recorder::new();
    let pipe = Pipe::with_inbound(&[]);
    let stream = EncryptedStream::new(KEY, IV, pipe.clone());
    let mut request =
        ConnectionRequest::new(file_request(Some("empty.txt"), 0), stream, "/dest".to_string());
    let mut destination = Pipe::with_inbound(&[]);
    let end = request.accept_into(&mut destination, &Some(recorder.clone()));
    assert_eq!(end, Some(ReceiveProgressState::Finished));
    assert!(destination.written().is_empty());
    assert!(pipe.is_closed());
    assert_eq!(
        recorder.received.borrow().clone(),
        vec![ReceiveProgressState::Handshake, ReceiveProgressState::Finished]
    );
}

#[test]
fn a_send_reads_no_more_than_the_file_lacks() {
    let mut pipeline = SendPipeline { stage: SendStage::Transferring, file_size: 1500, sent: 0 };
    assert_eq!(pipeline.read_limit(), 1024);
    pipeline.sent = 476;
    assert_eq!(pipeline.read_limit(), 1024);
    pipeline.sent = 477;
    assert_eq!(pipeline.read_limit(), 1023);
    pipeline.sent = 1499;
    assert_eq!(pipeline.read_limit(), 1);
    pipeline.sent = 1500;
    assert_eq!(pipeline.read_limit(), 0);
    pipeline.sent = 2000;
    assert_eq!(pipeline.read_limit(), 0);
}

#[test]
fn answers_of_the_stream_are_judged() {
    assert!(judge_answer(Ok(Ok(vec![2, 8, 1]))).is_ok());
    assert!(matches!(judge_answer(Ok(Ok(vec![0]))), Err(ConnectErrors::Declined)));
    match judge_answer(Ok(Err(FramingError::TruncatedBody))) {
        Err(ConnectErrors::FailedToGetTransferRequestResponse { error }) => {
            assert_eq!(error, "Message body is truncated")
        }
        _ => panic!("expected the failure to get an answer"),
    }
    match judge_answer(Err(broken())) {
        Err(ConnectErrors::FailedToGetTransferRequestResponse { error }) => {
            assert_eq!(error, "Stream failed: broken pipe")
        }
        _ => panic!("expected the failure to get an answer"),
    }
}

#[test]
fn the_steps_of_a_transfer() {
    assert!(matches!(
        read_step(Ok(vec![1, 2, 3])),
        (ReceiveEvent::ChunkRead { bytes: 3 }, Some(chunk)) if chunk == vec![1, 2, 3]
    ));
    assert!(matches!(read_step(Ok(Vec::new())), (ReceiveEvent::ChunkRead { bytes: 0 }, None)));
    assert!(matches!(read_step(Err(broken())), (ReceiveEvent::Failed, None)));

    assert_eq!(write_step(Ok(7)), (SendEvent::ChunkWritten { bytes: 7 }, Some(7)));
    assert_eq!(write_step(Ok(0)), (SendEvent::ChunkWritten { bytes: 0 }, Some(0)));
    assert_eq!(write_step(Err(broken())), (SendEvent::Failed, None));

    assert_eq!(file_step(Ok(vec![4, 5])), Ok(vec![4, 5]));
    assert_eq!(file_step(Ok(Vec::new())), Err(SendEvent::EndOfFile));
    assert_eq!(file_step(Err(broken())), Err(SendEvent::Failed));
}
