//! The handshake that turns a raw stream into an encrypted one: an X25519
//! key agreement, with the nonce chosen by the responder.

use vstd::pervasive::unreached;
use vstd::prelude::*;
use vstd::slice::slice_to_vec;
use crate::encryption::generate_iv;
use crate::encryption::generate_key;
use crate::encryption::EncryptedStream;
use crate::errors::incoming_error;
use crate::errors::FramingError;
use crate::errors::IncomingErrors;
use crate::protocol::communication::EncryptionRequest;
use crate::protocol::communication::EncryptionRequestView;
use crate::protocol::communication::EncryptionResponse;
use crate::protocol::communication::EncryptionResponseView;
use crate::protocol::framing::encode_frame;
use crate::protocol::framing::read_frame;
use crate::protocol::framing::write_frame;
use crate::send::frame_view;
use crate::stream::Stream;

verus! {

/// What `x25519` of RFC 7748 gives for a secret scalar and a point, each of
/// 32 bytes.
pub uninterp spec fn x25519_shared(secret: Seq<u8>, point: Seq<u8>) -> Seq<u8>;

/// The base point of X25519: nine, then zeros.
pub open spec fn basepoint() -> Seq<u8> {
    Seq::new(32, |i: int| if i == 0 { 9u8 } else { 0u8 })
}

/// The public key that belongs to a secret.
pub open spec fn public_key_of(secret: Seq<u8>) -> Seq<u8> {
    x25519_shared(secret, basepoint())
}

/// `x25519_dalek::x25519`: the X25519 function of RFC 7748. Besides naming
/// its result, the contract states the one law that a key agreement rests
/// on: where `point` is the public key of some other secret, the result is
/// what the holder of that secret computes from the public key of `secret`.
#[verifier::external_body]
fn x25519(secret: &[u8; 32], point: &[u8; 32]) -> (shared: [u8; 32])
    ensures
        shared@ == x25519_shared(secret@, point@),
        forall|other: Seq<u8>|
            other.len() == 32 && point@ == #[trigger] x25519_shared(other, basepoint())
                ==> shared@ == x25519_shared(other, x25519_shared(secret@, basepoint())),
{
    x25519_dalek::x25519(*secret, *point)
}

/// Key and nonce of a session.
pub struct SessionKeys {
    pub key: [u8; 32],
    pub iv: [u8; 24],
}

/// The base point as an array.
fn basepoint_bytes() -> (point: [u8; 32])
    ensures
        point@ == basepoint(),
{
    let mut point = [0u8; 32];
    point[0] = 9;
    proof {
        assert(point@ =~= basepoint());
    }
    point
}

/// The public key that belongs to `secret`.
pub fn public_key(secret: &[u8; 32]) -> (public: [u8; 32])
    ensures
        public@ == public_key_of(secret@),
{
    let point = basepoint_bytes();
    x25519(secret, &point)
}

/// The shared secret of `secret` and a peer's public key.
pub fn diffie_hellman(secret: &[u8; 32], their_public: &[u8; 32]) -> (shared: [u8; 32])
    ensures
        shared@ == x25519_shared(secret@, their_public@),
        forall|other: Seq<u8>|
            other.len() == 32 && their_public@ == #[trigger] public_key_of(other) ==> shared@
                == x25519_shared(other, public_key_of(secret@)),
{
    x25519(secret, their_public)
}

/// The 32 bytes of `bytes` as an array; `None` where there are not exactly
/// 32.
pub fn to_key(bytes: &[u8]) -> (key: Option<[u8; 32]>)
    ensures
        key is Some <==> bytes@.len() == 32,
        key is Some ==> key.unwrap()@ == bytes@,
{
    if bytes.len() != 32 {
        return None;
    }
    let mut key = [0u8; 32];
    let mut i: usize = 0;
    while i < 32
        invariant
            i <= 32,
            bytes@.len() == 32,
            forall|j: int| 0 <= j < i ==> key@[j] == bytes@[j],
        decreases 32 - i,
    {
        key[i] = bytes[i];
        i = i + 1;
    }
    proof {
        assert(key@ =~= bytes@);
    }
    Some(key)
}

/// The 24 bytes of `bytes` as an array; `None` where there are not exactly
/// 24.
pub fn to_iv(bytes: &[u8]) -> (iv: Option<[u8; 24]>)
    ensures
        iv is Some <==> bytes@.len() == 24,
        iv is Some ==> iv.unwrap()@ == bytes@,
{
    if bytes.len() != 24 {
        return None;
    }
    let mut iv = [0u8; 24];
    let mut i: usize = 0;
    while i < 24
        invariant
            i <= 24,
            bytes@.len() == 24,
            forall|j: int| 0 <= j < i ==> iv@[j] == bytes@[j],
        decreases 24 - i,
    {
        iv[i] = bytes[i];
        i = i + 1;
    }
    proof {
        assert(iv@ =~= bytes@);
    }
    Some(iv)
}

/// The initiator's first message: its public key.
pub fn encryption_request(secret: &[u8; 32]) -> (request: EncryptionRequest)
    ensures
        request@.public_key == public_key_of(secret@),
        request@.public_key.len() == 32,
{
    let public = public_key(secret);
    EncryptionRequest { public_key: slice_to_vec(public.as_slice()) }
}

/// The responder's step: from its secret, the nonce it chose and the
/// initiator's request, the response to send and the keys of the session.
/// A public key that is not of 32 bytes is refused, and nothing is to be
/// sent.
pub fn answer_encryption_request(
    secret: &[u8; 32],
    iv: &[u8; 24],
    request: &EncryptionRequest,
) -> (r: Result<(EncryptionResponse, SessionKeys), IncomingErrors>)
    ensures
        r is Ok <==> request@.public_key.len() == 32,
        r is Err ==> r->Err_0 is InvalidForeignPublicKey,
        match r {
            Ok((response, keys)) => {
                &&& response@.public_key == public_key_of(secret@)
                &&& response@.public_key.len() == 32
                &&& response@.iv == iv@
                &&& keys.key@ == x25519_shared(secret@, request@.public_key)
                &&& keys.iv@ == iv@
            },
            Err(_) => true,
        },
{
    let their_public = match to_key(request.public_key.as_slice()) {
        Some(key) => key,
        None => {
            return Err(IncomingErrors::InvalidForeignPublicKey);
        },
    };
    let public = public_key(secret);
    let key = diffie_hellman(secret, &their_public);
    let response = EncryptionResponse {
        public_key: slice_to_vec(public.as_slice()),
        iv: slice_to_vec(iv.as_slice()),
    };
    Ok((response, SessionKeys { key, iv: *iv }))
}

/// The initiator's last step: from its secret and the responder's response,
/// the keys of the session. A public key that is not of 32 bytes is refused
/// first, then a nonce that is not of 24 bytes.
///
/// The nonce is the responder's. And where the response's public key belongs
/// to a secret, the key is the one that the holder of that secret derived
/// from this initiator's request: both ends of a handshake hold the same key
/// and the same nonce.
pub fn finish_encryption(secret: &[u8; 32], response: &EncryptionResponse) -> (r: Result<
    SessionKeys,
    IncomingErrors,
>)
    ensures
        r is Ok <==> response@.public_key.len() == 32 && response@.iv.len() == 24,
        response@.public_key.len() != 32 ==> r is Err && r->Err_0 is InvalidForeignPublicKey,
        response@.public_key.len() == 32 && response@.iv.len() != 24 ==> r is Err
            && r->Err_0 is InvalidNonce,
        match r {
            Ok(keys) => {
                &&& keys.key@ == x25519_shared(secret@, response@.public_key)
                &&& keys.iv@ == response@.iv
                &&& forall|responder_secret: Seq<u8>|
                    responder_secret.len() == 32 && response@.public_key
                        == #[trigger] public_key_of(responder_secret) ==> keys.key@
                        == x25519_shared(responder_secret, public_key_of(secret@))
            },
            Err(_) => true,
        },
{
    let their_public = match to_key(response.public_key.as_slice()) {
        Some(key) => key,
        None => {
            return Err(IncomingErrors::InvalidForeignPublicKey);
        },
    };
    let iv = match to_iv(response.iv.as_slice()) {
        Some(iv) => iv,
        None => {
            return Err(IncomingErrors::InvalidNonce);
        },
    };
    let key = diffie_hellman(secret, &their_public);
    Ok(SessionKeys { key, iv })
}

/// Runs both roles of the handshake on given secrets, with the two messages
/// framed, sent and read as they are on a stream: the keys of the
/// initiator and the keys of the responder. Both ends hold the same key and
/// the same nonce, which is the one that the responder chose.
pub fn exchange_keys(initiator_secret: &[u8; 32], responder_secret: &[u8; 32], iv: &[u8; 24]) -> (keys:
    (SessionKeys, SessionKeys))
    ensures
        keys.0.key@ == keys.1.key@,
        keys.0.iv@ == keys.1.iv@,
        keys.1.iv@ == iv@,
        keys.1.key@ == x25519_shared(responder_secret@, public_key_of(initiator_secret@)),
{
    let request = encryption_request(initiator_secret);
    let request_body = request.encode_to_vec();
    let request_frame = encode_frame(request_body.as_slice());
    proof {
        request@.lemma_framed_roundtrip();
    }
    let received_request = match EncryptionRequest::decode_length_delimited(
        request_frame.as_slice(),
    ) {
        Ok(received) => received,
        Err(_) => unreached(),
    };
    let (response, responder_keys) = match answer_encryption_request(
        responder_secret,
        iv,
        &received_request,
    ) {
        Ok(answer) => answer,
        Err(_) => unreached(),
    };
    let response_body = response.encode_to_vec();
    let response_frame = encode_frame(response_body.as_slice());
    proof {
        response@.lemma_framed_roundtrip();
    }
    let received_response = match EncryptionResponse::decode_length_delimited(
        response_frame.as_slice(),
    ) {
        Ok(received) => received,
        Err(_) => unreached(),
    };
    let initiator_keys = match finish_encryption(initiator_secret, &received_response) {
        Ok(keys) => keys,
        Err(_) => unreached(),
    };
    (initiator_keys, responder_keys)
}

/// Runs the handshake as the initiator: sends a fresh public key, waits for
/// the response, and wraps the stream with the keys of the session. On any
/// failure the stream is closed.
///
/// What comes of it lies with the random source and with the stream. A
/// stream that is handed out stands at the start of its keystream, with the
/// key and the nonce that `initiator_keys` derives from a secret and the
/// frame that came; an error is one of those that a handshake can end with,
/// among them the failure of the stream.
pub fn initiate_sender_communication<T: Stream>(stream: T) -> (r: Result<
    EncryptedStream<T>,
    IncomingErrors,
>)
    ensures
        r is Ok ==> r->Ok_0.cipher.position() == 0,
        r is Ok ==> initiator_session(r->Ok_0.cipher.key(), r->Ok_0.cipher.iv()),
        r is Err ==> ends_a_handshake(r->Err_0),
{
    let mut stream = stream;
    let secret = match generate_key() {
        Some(secret) => secret,
        None => {
            stream.close();
            return Err(IncomingErrors::EncryptionError);
        },
    };
    let request = encryption_request(&secret);
    match write_frame(&mut stream, request.encode_to_vec().as_slice()) {
        Ok(()) => {},
        Err(_) => {
            stream.close();
            return Err(IncomingErrors::ErrorSendingPublicKey);
        },
    }
    let frame = match read_frame(&mut stream) {
        Ok(frame) => frame,
        Err(error) => {
            stream.close();
            return Err(incoming_error(error));
        },
    };
    let ghost came = frame_view(frame);
    match initiator_keys(&secret, frame) {
        Ok(keys) => {
            proof {
                assert(came is Ok);
                assert(initiator_outcome(secret@, Ok::<Seq<u8>, FramingError>(came->Ok_0)) == Ok::<
                    (Seq<u8>, Seq<u8>),
                    IncomingErrors,
                >((keys.key@, keys.iv@)));
            }
            Ok(EncryptedStream::new(keys.key, keys.iv, stream))
        },
        Err(e) => {
            stream.close();
            Err(e)
        },
    }
}

/// Runs the handshake as the responder: waits for the initiator's public
/// key, answers with a fresh public key and a fresh nonce, and wraps the
/// stream with the keys of the session. On any failure the stream is closed,
/// and a request that is refused gets no answer.
///
/// What comes of it lies with the random source and with the stream. A
/// stream that is handed out stands at the start of its keystream, with the
/// key and the nonce that `responder_answer` derives from a secret, a nonce
/// and the frame that came; an error is one of those that a handshake can
/// end with, and never that of a nonce.
pub fn initiate_receiver_communication<T: Stream>(stream: T) -> (r: Result<
    EncryptedStream<T>,
    IncomingErrors,
>)
    ensures
        r is Ok ==> r->Ok_0.cipher.position() == 0,
        r is Ok ==> responder_session(r->Ok_0.cipher.key(), r->Ok_0.cipher.iv()),
        r is Err ==> ends_a_handshake(r->Err_0) && !(r->Err_0 is InvalidNonce),
{
    let mut stream = stream;
    let secret = match generate_key() {
        Some(secret) => secret,
        None => {
            stream.close();
            return Err(IncomingErrors::EncryptionError);
        },
    };
    let iv = match generate_iv() {
        Some(iv) => iv,
        None => {
            stream.close();
            return Err(IncomingErrors::EncryptionError);
        },
    };
    let frame = match read_frame(&mut stream) {
        Ok(frame) => frame,
        Err(error) => {
            stream.close();
            return Err(incoming_error(error));
        },
    };
    let ghost came = frame_view(frame);
    let (response, keys) = match responder_answer(&secret, &iv, frame) {
        Ok(answer) => answer,
        Err(e) => {
            stream.close();
            return Err(e);
        },
    };
    match write_frame(&mut stream, response.encode_to_vec().as_slice()) {
        Ok(()) => {},
        Err(_) => {
            stream.close();
            return Err(IncomingErrors::ErrorSendingPublicKey);
        },
    }
    proof {
        assert(came is Ok);
        assert(responder_outcome(secret@, iv@, Ok::<Seq<u8>, FramingError>(came->Ok_0)) == Ok::<
            (EncryptionResponseView, Seq<u8>, Seq<u8>),
            IncomingErrors,
        >((response@, keys.key@, keys.iv@)));
    }
    Ok(EncryptedStream::new(keys.key, keys.iv, stream))
}

/// Whether an error is one that a handshake can end with.
pub open spec fn ends_a_handshake(error: IncomingErrors) -> bool {
    ||| error is EncryptionError
    ||| error is UnknownReadError
    ||| error is ErrorSendingPublicKey
    ||| error is ParseError
    ||| error is InvalidForeignPublicKey
    ||| error is InvalidNonce
}

/// What the initiator makes of what came after its request, for the frame
/// that was read or the reason why none was: the key and the nonce of the
/// session. What is no frame of a response is a parse error; then a public
/// key that is not of 32 bytes is refused, then a nonce that is not of 24.
pub open spec fn initiator_outcome(secret: Seq<u8>, frame: Result<Seq<u8>, FramingError>) -> Result<
    (Seq<u8>, Seq<u8>),
    IncomingErrors,
> {
    match frame {
        Err(e) => Err(IncomingErrors::ParseError(e)),
        Ok(bytes) => match EncryptionResponseView::decode_framed(bytes) {
            Err(e) => Err(IncomingErrors::ParseError(e)),
            Ok(response) => if response.public_key.len() != 32 {
                Err(IncomingErrors::InvalidForeignPublicKey)
            } else if response.iv.len() != 24 {
                Err(IncomingErrors::InvalidNonce)
            } else {
                Ok((x25519_shared(secret, response.public_key), response.iv))
            },
        },
    }
}

/// What the responder makes of what came, for the frame that was read or
/// the reason why none was: the response to send, and the key and the nonce
/// of the session. What is no frame of a request is a parse error, and a
/// public key that is not of 32 bytes is refused.
pub open spec fn responder_outcome(
    secret: Seq<u8>,
    iv: Seq<u8>,
    frame: Result<Seq<u8>, FramingError>,
) -> Result<(EncryptionResponseView, Seq<u8>, Seq<u8>), IncomingErrors> {
    match frame {
        Err(e) => Err(IncomingErrors::ParseError(e)),
        Ok(bytes) => match EncryptionRequestView::decode_framed(bytes) {
            Err(e) => Err(IncomingErrors::ParseError(e)),
            Ok(request) => if request.public_key.len() != 32 {
                Err(IncomingErrors::InvalidForeignPublicKey)
            } else {
                Ok(
                    (
                        EncryptionResponseView { public_key: public_key_of(secret), iv },
                        x25519_shared(secret, request.public_key),
                        iv,
                    ),
                )
            },
        },
    }
}

/// Whether a key and a nonce are those that an initiator with some secret
/// derives from some frame.
pub open spec fn initiator_session(key: Seq<u8>, iv: Seq<u8>) -> bool {
    exists|secret: Seq<u8>, bytes: Seq<u8>|
        secret.len() == 32 && #[trigger] initiator_outcome(
            secret,
            Ok::<Seq<u8>, FramingError>(bytes),
        ) == Ok::<(Seq<u8>, Seq<u8>), IncomingErrors>((key, iv))
}

/// Whether a key and a nonce are those that a responder with some secret,
/// who chose the nonce, derives from some frame.
pub open spec fn responder_session(key: Seq<u8>, iv: Seq<u8>) -> bool {
    exists|secret: Seq<u8>, bytes: Seq<u8>|
        secret.len() == 32 && iv.len() == 24 && #[trigger] responder_outcome(
            secret,
            iv,
            Ok::<Seq<u8>, FramingError>(bytes),
        ) == Ok::<(EncryptionResponseView, Seq<u8>, Seq<u8>), IncomingErrors>(
            (EncryptionResponseView { public_key: public_key_of(secret), iv }, key, iv),
        )
}

/// The public key in the response that a frame carries, and no bytes where
/// no frame came or the frame carries no response.
pub open spec fn response_key(frame: Result<Seq<u8>, FramingError>) -> Seq<u8> {
    match frame {
        Ok(bytes) => match EncryptionResponseView::decode_framed(bytes) {
            Ok(response) => response.public_key,
            Err(_) => Seq::empty(),
        },
        Err(_) => Seq::empty(),
    }
}

/// The initiator's step on what came after its request: the keys of the
/// session. Where the public key in the response belongs to a secret, the
/// key is the one that the holder of that secret derives from this
/// initiator's public key.
pub fn initiator_keys(secret: &[u8; 32], frame: Result<Vec<u8>, FramingError>) -> (r: Result<
    SessionKeys,
    IncomingErrors,
>)
    ensures
        match r {
            Ok(keys) => initiator_outcome(secret@, frame_view(frame)) == Ok::<
                (Seq<u8>, Seq<u8>),
                IncomingErrors,
            >((keys.key@, keys.iv@)),
            Err(e) => initiator_outcome(secret@, frame_view(frame)) == Err::<
                (Seq<u8>, Seq<u8>),
                IncomingErrors,
            >(e),
        },
        r is Ok ==> forall|responder_secret: Seq<u8>|
            responder_secret.len() == 32 && response_key(frame_view(frame))
                == #[trigger] public_key_of(responder_secret) ==> r->Ok_0.key@ == x25519_shared(
                responder_secret,
                public_key_of(secret@),
            ),
{
    let bytes = match frame {
        Ok(bytes) => bytes,
        Err(e) => {
            return Err(IncomingErrors::ParseError(e));
        },
    };
    let response = match EncryptionResponse::decode_length_delimited(bytes.as_slice()) {
        Ok(response) => response,
        Err(e) => {
            return Err(IncomingErrors::ParseError(e));
        },
    };
    finish_encryption(secret, &response)
}

/// The responder's step on what came: the response to send and the keys of
/// the session.
pub fn responder_answer(secret: &[u8; 32], iv: &[u8; 24], frame: Result<Vec<u8>, FramingError>) -> (r:
    Result<(EncryptionResponse, SessionKeys), IncomingErrors>)
    ensures
        match r {
            Ok((response, keys)) => responder_outcome(secret@, iv@, frame_view(frame)) == Ok::<
                (EncryptionResponseView, Seq<u8>, Seq<u8>),
                IncomingErrors,
            >((response@, keys.key@, keys.iv@)),
            Err(e) => responder_outcome(secret@, iv@, frame_view(frame)) == Err::<
                (EncryptionResponseView, Seq<u8>, Seq<u8>),
                IncomingErrors,
            >(e),
        },
        r is Ok ==> r->Ok_0.0@.public_key.len() == 32 && r->Ok_0.0@.iv.len() == 24,
{
    let bytes = match frame {
        Ok(bytes) => bytes,
        Err(e) => {
            return Err(IncomingErrors::ParseError(e));
        },
    };
    let request = match EncryptionRequest::decode_length_delimited(bytes.as_slice()) {
        Ok(request) => request,
        Err(e) => {
            return Err(IncomingErrors::ParseError(e));
        },
    };
    answer_encryption_request(secret, iv, &request)
}

/// A request whose public key is not of 32 bytes is refused by the
/// responder, whatever its secret and its nonce: no response is made and no
/// keys are derived.
pub proof fn lemma_forged_key_is_refused(secret: Seq<u8>, iv: Seq<u8>, request: EncryptionRequestView)
    requires
        request.public_key.len() != 32,
        request.encodable(),
        request.encode().len() <= u64::MAX,
    ensures
        responder_outcome(secret, iv, Ok::<Seq<u8>, FramingError>(request.encode_framed()))
            == Err::<(EncryptionResponseView, Seq<u8>, Seq<u8>), IncomingErrors>(
            IncomingErrors::InvalidForeignPublicKey,
        ),
{
    request.lemma_framed_roundtrip();
}

} // verus!
