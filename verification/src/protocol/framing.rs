//! Length-delimited framing: a message travels as the length of its body,
//! written as a variable-length integer, followed by the body.

use vstd::prelude::*;
use vstd::slice::slice_subrange;
use vstd::slice::slice_to_vec;
use crate::errors::FramingError;
use crate::errors::StreamError;
use crate::protocol::varint::decode_varint;
use crate::protocol::varint::encode_varint;
use crate::protocol::varint::lemma_decode_varint_of_varint;
use crate::protocol::varint::lemma_raw_varint_bounds;
use crate::protocol::varint::lemma_raw_varint_prefix;
use crate::protocol::varint::read_varint;
use crate::protocol::varint::varint;
use crate::protocol::wire::append_bytes;
use crate::stream::read_exact;
use crate::stream::read_u8;
use crate::stream::write_all;
use crate::stream::StreamRead;
use crate::stream::StreamWrite;

verus! {

/// The frame that carries `body`.
pub open spec fn frame(body: Seq<u8>) -> Seq<u8> {
    varint(body.len()) + body
}

/// The body of the frame at the front of `bytes` and the length of that
/// frame. Bytes that follow the frame are left alone.
pub open spec fn unframe(bytes: Seq<u8>) -> Result<(Seq<u8>, nat), FramingError> {
    match decode_varint(bytes) {
        None => Err(FramingError::InvalidFraming),
        Some((len, n)) => if bytes.len() - n < len {
            Err(FramingError::TruncatedBody)
        } else {
            Ok((bytes.subrange(n as int, n + len), n + len as nat))
        },
    }
}

/// A frame is read back as its body, whatever follows it.
pub proof fn lemma_unframe_frame(body: Seq<u8>, rest: Seq<u8>)
    requires
        body.len() <= u64::MAX,
    ensures
        unframe(frame(body) + rest) == Ok::<(Seq<u8>, nat), FramingError>(
            (body, frame(body).len()),
        ),
{
    let len = body.len() as u64;
    let all = frame(body) + rest;
    assert(all =~= varint(len as nat) + (body + rest));
    lemma_decode_varint_of_varint(len, body + rest);
    let n = varint(len as nat).len();
    assert(all.subrange(n as int, n + len) =~= body);
}

/// The frame that carries `body`.
pub fn encode_frame(body: &[u8]) -> (out: Vec<u8>)
    ensures
        out@ == frame(body@),
{
    let mut out: Vec<u8> = Vec::new();
    encode_varint(body.len() as u64, &mut out);
    append_bytes(&mut out, body);
    proof {
        assert(out@ =~= frame(body@));
    }
    out
}

/// Reads the frame at the front of `bytes`: its body and the number of bytes
/// that the frame occupies.
pub fn decode_frame(bytes: &[u8]) -> (r: Result<(Vec<u8>, usize), FramingError>)
    ensures
        match r {
            Ok((body, n)) => unframe(bytes@) == Ok::<(Seq<u8>, nat), FramingError>(
                (body@, n as nat),
            ) && n <= bytes.len(),
            Err(e) => unframe(bytes@) == Err::<(Seq<u8>, nat), FramingError>(e),
        },
{
    proof {
        assert(bytes@.skip(0) =~= bytes@);
        lemma_raw_varint_bounds(bytes@);
    }
    match read_varint(bytes, 0) {
        None => Err(FramingError::InvalidFraming),
        Some((len, n)) => {
            if ((bytes.len() - n) as u64) < len {
                Err(FramingError::TruncatedBody)
            } else {
                let end: usize = n + len as usize;
                let body = slice_to_vec(slice_subrange(bytes, n, end));
                Ok((body, end))
            }
        },
    }
}

/// Whether `bytes` are one whole frame and nothing more.
pub open spec fn is_whole_frame(bytes: Seq<u8>) -> bool {
    match unframe(bytes) {
        Ok((body, n)) => n == bytes.len(),
        Err(_) => false,
    }
}

/// What the bytes of a length prefix that were read so far tell: nothing
/// yet, where more bytes have to come; the length of the body; or why they
/// are the prefix of no frame. A prefix of ten bytes that has not ended and
/// a prefix that is no valid length are `InvalidFraming`; a length with
/// which the frame would not fit into memory is `TruncatedBody`.
pub open spec fn spec_announced_length(prefix: Seq<u8>) -> Option<Result<usize, FramingError>> {
    if prefix.len() == 0 || (prefix.last() >= 128 && prefix.len() < 10) {
        None
    } else {
        match decode_varint(prefix) {
            Some((length, n)) => if n != prefix.len() {
                Some(Err(FramingError::InvalidFraming))
            } else if length > usize::MAX - n {
                Some(Err(FramingError::TruncatedBody))
            } else {
                Some(Ok(length as usize))
            },
            None => Some(Err(FramingError::InvalidFraming)),
        }
    }
}

/// What the bytes of a length prefix that were read so far tell.
pub fn announced_length(prefix: &[u8]) -> (r: Option<Result<usize, FramingError>>)
    ensures
        r == spec_announced_length(prefix@),
{
    if prefix.len() == 0 || (prefix[prefix.len() - 1] >= 128 && prefix.len() < 10) {
        return None;
    }
    proof {
        assert(prefix@.skip(0) =~= prefix@);
        lemma_raw_varint_bounds(prefix@);
    }
    match read_varint(prefix, 0) {
        Some((length, n)) => {
            if n != prefix.len() {
                Some(Err(FramingError::InvalidFraming))
            } else if length > (usize::MAX - n) as u64 {
                Some(Err(FramingError::TruncatedBody))
            } else {
                Some(Ok(length as usize))
            }
        },
        None => Some(Err(FramingError::InvalidFraming)),
    }
}

/// What the reading of a length prefix makes of the next answer of its
/// stream: a byte is that byte, the end of the stream is `InvalidFraming`,
/// and a failure is what `stream_failure` makes of it.
pub fn prefix_byte(answer: Result<Option<u8>, StreamError>) -> (r: Result<
    Result<u8, FramingError>,
    StreamError,
>)
    ensures
        match answer {
            Ok(Some(byte)) => r == Ok::<Result<u8, FramingError>, StreamError>(Ok(byte)),
            Ok(None) => r == Ok::<Result<u8, FramingError>, StreamError>(
                Err(FramingError::InvalidFraming),
            ),
            Err(StreamError::EndOfStream) => r == Ok::<Result<u8, FramingError>, StreamError>(
                Err(FramingError::TruncatedBody),
            ),
            Err(error) => r == Err::<Result<u8, FramingError>, StreamError>(error),
        },
{
    match answer {
        Ok(Some(byte)) => Ok(Ok(byte)),
        Ok(None) => Ok(Err(FramingError::InvalidFraming)),
        Err(StreamError::EndOfStream) => Ok(Err(FramingError::TruncatedBody)),
        Err(error) => Err(error),
    }
}

/// The frame of a length prefix and what came for its body: prefix and body
/// in a row where the body came, and what `stream_failure` makes of the
/// failure where it did not.
pub fn whole_frame(prefix: Vec<u8>, answer: Result<Vec<u8>, StreamError>) -> (r: Result<
    Result<Vec<u8>, FramingError>,
    StreamError,
>)
    ensures
        match answer {
            Ok(body) => r is Ok && r->Ok_0 is Ok && r->Ok_0->Ok_0@ == prefix@ + body@,
            Err(StreamError::EndOfStream) => r == Ok::<Result<Vec<u8>, FramingError>, StreamError>(
                Err(FramingError::TruncatedBody),
            ),
            Err(error) => r == Err::<Result<Vec<u8>, FramingError>, StreamError>(error),
        },
{
    match answer {
        Ok(body) => {
            let mut bytes = prefix;
            append_bytes(&mut bytes, body.as_slice());
            Ok(Ok(bytes))
        },
        Err(error) => stream_failure(error),
    }
}

/// A length prefix that announces a body, followed by a body of that
/// length, is one whole frame.
pub proof fn lemma_prefix_and_body(prefix: Seq<u8>, body: Seq<u8>)
    requires
        spec_announced_length(prefix) == Some(Ok::<usize, FramingError>(body.len() as usize)),
        body.len() <= usize::MAX,
    ensures
        is_whole_frame(prefix + body),
        unframe(prefix + body) == Ok::<(Seq<u8>, nat), FramingError>(
            (body, (prefix + body).len()),
        ),
{
    let n = prefix.len();
    lemma_raw_varint_prefix(prefix, body);
    assert((prefix + body).subrange(n as int, (n + body.len()) as int) =~= body);
}

/// Reads one frame from a stream, byte by byte through the length prefix and
/// then block by block through the body, and hands out the frame as it came:
/// prefix and body. The stream's end inside the prefix, or a prefix that is
/// no valid length, is `InvalidFraming`; the stream's end inside the body is
/// `TruncatedBody`. A failure of the stream is handed on as it is.
pub fn read_frame<R: StreamRead>(reader: &mut R) -> (r: Result<
    Result<Vec<u8>, FramingError>,
    StreamError,
>)
    ensures
        match r {
            Ok(Ok(bytes)) => is_whole_frame(bytes@),
            Ok(Err(e)) => e != FramingError::SchemaMismatch,
            Err(e) => !(e is EndOfStream),
        },
{
    let mut prefix: Vec<u8> = Vec::new();
    let mut length: usize = 0;
    loop
        invariant_except_break
            prefix.len() <= 10,
        ensures
            spec_announced_length(prefix@) == Some(Ok::<usize, FramingError>(length)),
        decreases 10 - prefix.len(),
    {
        match announced_length(prefix.as_slice()) {
            Some(Ok(announced)) => {
                length = announced;
                break ;
            },
            Some(Err(e)) => {
                return Ok(Err(e));
            },
            None => {},
        }
        match prefix_byte(read_u8(reader)) {
            Ok(Ok(byte)) => {
                prefix.push(byte);
            },
            Ok(Err(e)) => {
                return Ok(Err(e));
            },
            Err(error) => {
                return Err(error);
            },
        }
    }
    let ghost head = prefix@;
    let answer = read_exact(reader, length);
    proof {
        if answer is Ok {
            lemma_prefix_and_body(head, answer->Ok_0@);
        }
    }
    whole_frame(prefix, answer)
}

/// What the reading of a frame makes of a failure of its stream: the end of
/// the stream is a truncated body, and every other failure is handed on.
pub fn stream_failure(error: StreamError) -> (r: Result<Result<Vec<u8>, FramingError>, StreamError>)
    ensures
        match error {
            StreamError::EndOfStream => r == Ok::<Result<Vec<u8>, FramingError>, StreamError>(
                Err(FramingError::TruncatedBody),
            ),
            _ => r == Err::<Result<Vec<u8>, FramingError>, StreamError>(error),
        },
{
    match error {
        StreamError::EndOfStream => Ok(Err(FramingError::TruncatedBody)),
        other => Err(other),
    }
}

/// Writes one frame around `body` to a stream and flushes it. A stream that
/// stops taking bytes before the frame's end is the error `WriteZero`; a
/// failure of the stream is handed on.
pub fn write_frame<W: StreamWrite>(writer: &mut W, body: &[u8]) -> (done: Result<(), StreamError>) {
    let bytes = encode_frame(body);
    write_frame_bytes(writer, bytes.as_slice())
}

/// Writes the bytes of a frame to a stream and flushes it.
pub(crate) fn write_frame_bytes<W: StreamWrite>(writer: &mut W, bytes: &[u8]) -> (done: Result<
    (),
    StreamError,
>) {
    match write_all(writer, bytes) {
        Ok(()) => writer.flush(),
        Err(error) => Err(error),
    }
}

} // verus!
