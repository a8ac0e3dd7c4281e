use data_rct::communication::encryption_request;
use data_rct::communication::initiator_keys;
use data_rct::communication::public_key;
use data_rct::communication::diffie_hellman;
use data_rct::communication::responder_answer;
use data_rct::errors::FramingError;
use data_rct::errors::IncomingErrors;
use data_rct::nearby::connection_id_of;
use data_rct::nearby::transfer_request_in;
use data_rct::protocol::communication::EncryptionResponse;
use data_rct::protocol::communication::FileTransferIntent;
use data_rct::protocol::communication::Intent;
use data_rct::protocol::communication::TransferRequest;
use data_rct::protocol::discovery::Device;
use data_rct::stream::count_of;
use data_rct::stream::cut_to;
use data_rct::stream::only_byte;

#[test]
fn what_a_stream_hands_out_is_cut_to_what_was_asked() {
    assert_eq!(cut_to(vec![1, 2, 3], 5), vec![1, 2, 3]);
    assert_eq!(cut_to(vec![1, 2, 3], 3), vec![1, 2, 3]);
    assert_eq!(cut_to(vec![1, 2, 3], 2), vec![1, 2]);
    assert_eq!(cut_to(vec![1, 2, 3], 0), Vec::<u8>::new());
    assert_eq!(cut_to(Vec::new(), 4), Vec::<u8>::new());
}

#[test]
fn a_block_of_one_byte_is_that_byte() {
    assert_eq!(only_byte(&[7]), Some(7));
    assert_eq!(only_byte(&[]), None);
    assert_eq!(only_byte(&[7, 8]), None);
}

#[test]
fn counts_of_a_platform_stream_are_held_within_the_machine() {
    assert_eq!(count_of(0), 0);
    assert_eq!(count_of(1024), 1024);
    assert_eq!(count_of(u64::MAX), usize::try_from(u64::MAX).unwrap_or(usize::MAX));
}

#[test]
fn the_initiator_s_step_on_each_thing_that_can_come() {
    let secret = [3u8; 32];
    let responder_secret = [4u8; 32];
    let iv = [5u8; 24];
    let response = EncryptionResponse {
        public_key: public_key(&responder_secret).to_vec(),
        iv: iv.to_vec(),
    };
    let keys = initiator_keys(&secret, Ok(response.encode_length_delimited_to_vec()))
        .expect("keys");
    assert_eq!(keys.key, diffie_hellman(&secret, &public_key(&responder_secret)));
    assert_eq!(keys.iv, iv);

    match initiator_keys(&secret, Err(FramingError::TruncatedBody)) {
        Err(IncomingErrors::ParseError(FramingError::TruncatedBody)) => {}
        _ => panic!("expected a parse error"),
    }
    match initiator_keys(&secret, Ok(vec![0x02, 0x08, 0x01])) {
        Err(IncomingErrors::ParseError(FramingError::SchemaMismatch)) => {}
        _ => panic!("expected a parse error"),
    }
    let short_key = EncryptionResponse { public_key: vec![1u8; 31], iv: vec![2u8; 3] };
    match initiator_keys(&secret, Ok(short_key.encode_length_delimited_to_vec())) {
        Err(IncomingErrors::InvalidForeignPublicKey) => {}
        _ => panic!("expected InvalidForeignPublicKey"),
    }
    let short_nonce = EncryptionResponse { public_key: vec![1u8; 32], iv: vec![2u8; 3] };
    match initiator_keys(&secret, Ok(short_nonce.encode_length_delimited_to_vec())) {
        Err(IncomingErrors::InvalidNonce) => {}
        _ => panic!("expected InvalidNonce"),
    }
}

#[test]
fn the_responder_s_step_on_each_thing_that_can_come() {
    let secret = [6u8; 32];
    let initiator_secret = [7u8; 32];
    let iv = [8u8; 24];
    let request = encryption_request(&initiator_secret);
    let (response, keys) =
        responder_answer(&secret, &iv, Ok(request.encode_length_delimited_to_vec()))
            .expect("an answer");
    assert_eq!(response.public_key, public_key(&secret).to_vec());
    assert_eq!(response.iv, iv.to_vec());
    assert_eq!(keys.key, diffie_hellman(&secret, &public_key(&initiator_secret)));
    assert_eq!(keys.iv, iv);

    match responder_answer(&secret, &iv, Err(FramingError::InvalidFraming)) {
        Err(IncomingErrors::ParseError(FramingError::InvalidFraming)) => {}
        _ => panic!("expected a parse error"),
    }
    match responder_answer(&secret, &iv, Ok(vec![0x05, 0x0A])) {
        Err(IncomingErrors::ParseError(FramingError::TruncatedBody)) => {}
        _ => panic!("expected a parse error"),
    }
    match responder_answer(&secret, &iv, Ok(vec![0x03, 0x0A, 0x01, 0x09])) {
        Err(IncomingErrors::InvalidForeignPublicKey) => {}
        _ => panic!("expected InvalidForeignPublicKey"),
    }
}

#[test]
fn the_request_in_each_thing_that_can_come() {
    let request = TransferRequest {
        device: Device {
            id: "A".to_string(),
            name: "Alice".to_string(),
            device_type: 1,
            protocol_version: 1,
        },
        intent: Intent::FileTransfer(FileTransferIntent {
            file_name: Some("hello.txt".to_string()),
            file_size: 5,
            multiple: false,
        }),
    };
    assert_eq!(
        transfer_request_in(Ok(request.encode_length_delimited_to_vec())),
        Some(request)
    );
    assert_eq!(transfer_request_in(Err(FramingError::TruncatedBody)), None);
    assert_eq!(transfer_request_in(Ok(vec![0x02, 0x08, 0x01])), None);
    assert_eq!(transfer_request_in(Ok(vec![])), None);
}

#[test]
fn a_connection_id_is_the_uuid_of_the_random_bytes() {
    assert_eq!(connection_id_of(None), None);
    let bytes = [
        70, 235, 208, 238, 14, 109, 67, 201, 185, 13, 204, 195, 90, 145, 63, 62,
    ];
    assert_eq!(
        connection_id_of(Some(bytes)),
        Some("46ebd0ee-0e6d-43c9-b90d-ccc35a913f3e".to_string())
    );
    assert_eq!(
        connection_id_of(Some([0u8; 16])),
        Some("00000000-0000-4000-8000-000000000000".to_string())
    );
    assert_eq!(
        connection_id_of(Some([0xFFu8; 16])),
        Some("ffffffff-ffff-4fff-bfff-ffffffffffff".to_string())
    );
}
