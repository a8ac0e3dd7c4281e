//! Byte streams as the library sees them, and reading and writing whole
//! blocks over them.

use vstd::prelude::*;
use vstd::slice::slice_subrange;
use vstd::slice::slice_to_vec;
use crate::errors::StreamError;
use crate::protocol::wire::append_bytes;

verus! {

/// A stream that can be closed.
pub trait Close {
    fn close(&self);
}

/// A raw duplex stream that the platform provides, such as a Bluetooth LE
/// L2CAP channel. `read` hands out at most `buffer_length` bytes, none at the
/// end of the stream; `write` returns the number of bytes it took.
pub trait NativeStreamDelegate {
    fn read(&self, buffer_length: u64) -> Vec<u8>;

    fn write(&self, data: Vec<u8>) -> u64;

    fn flush(&self);

    fn disconnect(&self);
}

/// The reading half of a stream: `read` hands out the next bytes, at most
/// `length` of them, and none at the end of the stream; a failure is an
/// error.
pub trait StreamRead {
    fn read(&mut self, length: usize) -> Result<Vec<u8>, StreamError>;
}

/// The writing half of a stream: `write_stream` returns the number of bytes
/// that the stream took; a failure is an error.
pub trait StreamWrite {
    fn write_stream(&mut self, buffer: &[u8]) -> Result<usize, StreamError>;

    fn flush(&mut self) -> Result<(), StreamError>;
}

/// A duplex stream.
pub trait Stream: StreamRead + StreamWrite + Close {

}

/// A platform stream seen as a duplex stream of the library. A platform
/// stream reports no failures.
pub struct NativeStream<D: NativeStreamDelegate> {
    pub delegate: D,
}

impl<D: NativeStreamDelegate> NativeStream<D> {
    /// Wraps a platform stream.
    pub fn new(delegate: D) -> (stream: NativeStream<D>)
        ensures
            stream.delegate == delegate,
    {
        NativeStream { delegate }
    }
}

impl<D: NativeStreamDelegate> StreamRead for NativeStream<D> {
    fn read(&mut self, length: usize) -> (r: Result<Vec<u8>, StreamError>)
        ensures
            r is Ok,
            final(self).delegate == old(self).delegate,
    {
        Ok(self.delegate.read(length as u64))
    }
}

impl<D: NativeStreamDelegate> StreamWrite for NativeStream<D> {
    fn write_stream(&mut self, buffer: &[u8]) -> (r: Result<usize, StreamError>)
        ensures
            r is Ok,
            final(self).delegate == old(self).delegate,
    {
        let written: u64 = self.delegate.write(slice_to_vec(buffer));
        Ok(count_of(written))
    }

    fn flush(&mut self) -> (r: Result<(), StreamError>)
        ensures
            r is Ok,
            final(self).delegate == old(self).delegate,
    {
        self.delegate.flush();
        Ok(())
    }
}

impl<D: NativeStreamDelegate> Close for NativeStream<D> {
    fn close(&self) {
        self.delegate.disconnect();
    }
}

impl<D: NativeStreamDelegate> Stream for NativeStream<D> {

}

/// Reads one block of at most `length` bytes: what the stream hands out, cut
/// to `length` where it hands out more. A failure of the stream is handed
/// on.
pub fn read_some<R: StreamRead>(reader: &mut R, length: usize) -> (chunk: Result<
    Vec<u8>,
    StreamError,
>)
    ensures
        chunk is Ok ==> chunk->Ok_0.len() <= length,
{
    match reader.read(length) {
        Ok(handed_out) => Ok(cut_to(handed_out, length)),
        Err(error) => Err(error),
    }
}

/// Reads exactly `length` bytes, in as many blocks as the stream hands them
/// out. Where the stream ends before that, the error is `EndOfStream`; a
/// failure of the stream is handed on. Nothing is asked of the stream where
/// no byte is wanted.
pub fn read_exact<R: StreamRead>(reader: &mut R, length: usize) -> (block: Result<
    Vec<u8>,
    StreamError,
>)
    ensures
        block is Ok ==> block->Ok_0.len() == length,
        length == 0 ==> block is Ok,
{
    let mut block: Vec<u8> = Vec::new();
    while block.len() < length
        invariant
            block.len() <= length,
        decreases length - block.len(),
    {
        let answer = read_some(reader, length - block.len());
        block = match block_with(block, answer) {
            Ok(longer) => longer,
            Err(error) => {
                return Err(error);
            },
        };
    }
    Ok(block)
}

/// What the reading of a block makes of the next answer of its stream:
/// bytes that came are joined to the block, no bytes are the end of the
/// stream, and a failure is handed on.
pub fn block_with(block: Vec<u8>, answer: Result<Vec<u8>, StreamError>) -> (r: Result<
    Vec<u8>,
    StreamError,
>)
    ensures
        match answer {
            Ok(chunk) => if chunk@.len() > 0 {
                r is Ok && r->Ok_0@ == block@ + chunk@
            } else {
                r == Err::<Vec<u8>, StreamError>(StreamError::EndOfStream)
            },
            Err(error) => r == Err::<Vec<u8>, StreamError>(error),
        },
{
    match answer {
        Ok(chunk) => {
            if chunk.len() == 0 {
                return Err(StreamError::EndOfStream);
            }
            let mut longer = block;
            append_bytes(&mut longer, chunk.as_slice());
            Ok(longer)
        },
        Err(error) => Err(error),
    }
}

/// Reads one byte; `None` at the end of the stream. A failure of the stream
/// is handed on.
pub fn read_u8<R: StreamRead>(reader: &mut R) -> (byte: Result<Option<u8>, StreamError>) {
    one_byte(read_some(reader, 1))
}

/// What the reading of one byte makes of the answer of its stream: the byte
/// of a block of one byte, nothing for a block of any other length, and a
/// failure as it is.
pub fn one_byte(answer: Result<Vec<u8>, StreamError>) -> (byte: Result<Option<u8>, StreamError>)
    ensures
        match answer {
            Ok(chunk) => byte == Ok::<Option<u8>, StreamError>(
                if chunk@.len() == 1 {
                    Some(chunk@[0])
                } else {
                    None
                },
            ),
            Err(error) => byte == Err::<Option<u8>, StreamError>(error),
        },
{
    match answer {
        Ok(chunk) => Ok(only_byte(chunk.as_slice())),
        Err(error) => Err(error),
    }
}

/// Writes all of `data`, in as many blocks as the stream takes them. Where
/// the stream stops taking bytes before the end, the error is `WriteZero`;
/// a failure of the stream is handed on. Nothing is asked of the stream
/// where there is nothing to write.
pub fn write_all<W: StreamWrite>(writer: &mut W, data: &[u8]) -> (done: Result<(), StreamError>)
    ensures
        data@.len() == 0 ==> done is Ok,
{
    let mut sent: usize = 0;
    while sent < data.len()
        invariant
            sent <= data.len(),
        decreases data.len() - sent,
    {
        let answer = writer.write_stream(slice_subrange(data, sent, data.len()));
        sent = match sent_with(sent, data.len(), answer) {
            Ok(more) => more,
            Err(error) => {
                return Err(error);
            },
        };
    }
    Ok(())
}

/// What the writing of a block of `total` bytes, of which `sent` are out,
/// makes of the next answer of its stream: a count of at least one byte
/// and of no more than were still to go is added to what is out, every
/// other count is the error `WriteZero`, and a failure is handed on.
pub fn sent_with(sent: usize, total: usize, answer: Result<usize, StreamError>) -> (r: Result<
    usize,
    StreamError,
>)
    ensures
        match answer {
            Ok(written) => if 0 < written && sent + written <= total {
                r == Ok::<usize, StreamError>((sent + written) as usize)
            } else {
                r == Err::<usize, StreamError>(StreamError::WriteZero)
            },
            Err(error) => r == Err::<usize, StreamError>(error),
        },
{
    match answer {
        Ok(written) => {
            if written == 0 || sent > total || written > total - sent {
                Err(StreamError::WriteZero)
            } else {
                Ok(sent + written)
            }
        },
        Err(error) => Err(error),
    }
}

/// The number of bytes that a platform stream reports to have taken, held
/// at the largest number that this machine counts.
pub open spec fn spec_count_of(written: u64) -> usize {
    if written > usize::MAX {
        usize::MAX
    } else {
        written as usize
    }
}

/// The number of bytes that a platform stream reports to have taken.
pub fn count_of(written: u64) -> (count: usize)
    ensures
        count == spec_count_of(written),
{
    if written > usize::MAX as u64 {
        usize::MAX
    } else {
        written as usize
    }
}

/// What a stream handed out, cut to `length` bytes where it is longer.
pub fn cut_to(handed_out: Vec<u8>, length: usize) -> (chunk: Vec<u8>)
    ensures
        chunk@ == (if handed_out@.len() > length {
            handed_out@.take(length as int)
        } else {
            handed_out@
        }),
{
    let mut chunk = handed_out;
    if chunk.len() > length {
        chunk.truncate(length);
        proof {
            assert(chunk@ =~= handed_out@.take(length as int));
        }
    }
    chunk
}

/// The byte of a block of one byte; `None` for a block of any other length.
pub fn only_byte(chunk: &[u8]) -> (byte: Option<u8>)
    ensures
        byte == (if chunk@.len() == 1 {
            Some(chunk@[0])
        } else {
            None
        }),
{
    if chunk.len() == 1 {
        Some(chunk[0])
    } else {
        None
    }
}

} // verus!
