//! The XChaCha20 stream cipher of a session, and a duplex stream that
//! encrypts what is written to it and decrypts what is read from it.

use vstd::prelude::*;
use chacha20::cipher::KeyIvInit;
use chacha20::cipher::StreamCipher;
use chacha20::cipher::StreamCipherSeek;
use chacha20::XChaCha20;
use rand_core::OsRng;
use rand_core::RngCore;
use crate::errors::FramingError;
use crate::errors::StreamError;
use crate::protocol::framing::announced_length;
use crate::protocol::framing::encode_frame;
use crate::protocol::framing::frame;
use crate::protocol::framing::is_whole_frame;
use crate::protocol::framing::lemma_prefix_and_body;
use crate::protocol::framing::prefix_byte;
use crate::protocol::framing::spec_announced_length;
use crate::protocol::framing::whole_frame;
use crate::protocol::framing::write_frame_bytes;
use crate::stream::one_byte;
use crate::stream::read_exact;
use crate::stream::read_some;
use crate::stream::Close;
use crate::stream::Stream;
use crate::stream::StreamRead;
use crate::stream::StreamWrite;

verus! {

/// Length in bytes of a session key.
pub const KEY_LENGTH: usize = 32;

/// Length in bytes of a session nonce.
pub const IV_LENGTH: usize = 24;

/// Number of keystream bytes that one key and nonce give: the cipher counts
/// blocks of 64 bytes in 32 bits, and its last block is not handed out.
pub const KEYSTREAM_LIMIT: u64 = 274_877_906_880;

/// The byte at `position` of the XChaCha20 keystream of `key` and `iv`.
pub uninterp spec fn xchacha20_keystream(key: Seq<u8>, iv: Seq<u8>, position: nat) -> u8;

/// `data` with the keystream from `position` on laid over it by exclusive
/// or: the ciphertext of a plaintext, and the plaintext of a ciphertext.
pub open spec fn keystream_xor(key: Seq<u8>, iv: Seq<u8>, position: nat, data: Seq<u8>) -> Seq<
    u8,
> {
    Seq::new(data.len(), |i: int| data[i] ^ xchacha20_keystream(key, iv, (position + i) as nat))
}

/// `XChaCha20::new`, `seek` and `apply_keystream` of the crate chacha20: a
/// cipher made from `key` and `iv` and moved to `position` combines each
/// byte of `data` by exclusive or with the keystream byte of its place.
/// The cipher panics where it is to run past the end of its keystream, so
/// the caller has to stay within it.
#[verifier::external_body]
fn xchacha20_apply(key: &[u8; 32], iv: &[u8; 24], position: u64, data: &[u8]) -> (out: Vec<u8>)
    requires
        position + data@.len() <= KEYSTREAM_LIMIT,
    ensures
        out@.len() == data@.len(),
        forall|i: int|
            0 <= i < data@.len() ==> #[trigger] out@[i] == data@[i] ^ xchacha20_keystream(
                key@,
                iv@,
                (position + i) as nat,
            ),
{
    let mut cipher = XChaCha20::new(key.into(), iv.into());
    cipher.seek(position);
    let mut out = data.to_vec();
    cipher.apply_keystream(&mut out);
    out
}

/// `OsRng::try_fill_bytes` of the crate rand_core: `N` bytes from the
/// operating system's random source, `None` where that source fails.
#[verifier::external_body]
pub(crate) fn random_bytes<const N: usize>() -> (bytes: Option<[u8; N]>) {
    let mut bytes = [0u8; N];
    match OsRng.try_fill_bytes(&mut bytes) {
        Ok(()) => Some(bytes),
        Err(_) => None,
    }
}

/// A fresh key; `None` where the operating system has no randomness to
/// give.
pub fn generate_key() -> (key: Option<[u8; 32]>)
    ensures
        key is Some ==> key.unwrap()@.len() == KEY_LENGTH,
{
    random_bytes::<32>()
}

/// A fresh nonce; `None` where the operating system has no randomness to
/// give.
pub fn generate_iv() -> (iv: Option<[u8; 24]>)
    ensures
        iv is Some ==> iv.unwrap()@.len() == IV_LENGTH,
{
    random_bytes::<24>()
}

/// Laying the same keystream over a block twice gives the block back:
/// decrypting what was encrypted with the same key, nonce and position
/// yields the plaintext.
pub proof fn lemma_decrypt_encrypt(key: Seq<u8>, iv: Seq<u8>, position: nat, data: Seq<u8>)
    ensures
        keystream_xor(key, iv, position, keystream_xor(key, iv, position, data)) == data,
{
    let once = keystream_xor(key, iv, position, data);
    let twice = keystream_xor(key, iv, position, once);
    assert forall|i: int| 0 <= i < data.len() implies twice[i] == data[i] by {
        let k = xchacha20_keystream(key, iv, (position + i) as nat);
        let d = data[i];
        assert((d ^ k) ^ k == d) by (bit_vector);
    }
    assert(twice =~= data);
}

/// A byte that was encrypted at keystream position `written_at` and is
/// decrypted at `read_at` comes out as it went in exactly where the
/// keystream has the same byte at both positions, as it has where the two
/// positions are the same.
pub proof fn lemma_position_must_match(
    key: Seq<u8>,
    iv: Seq<u8>,
    written_at: nat,
    read_at: nat,
    byte: u8,
)
    ensures
        keystream_xor(key, iv, read_at, keystream_xor(key, iv, written_at, seq![byte])) == seq![
            byte,
        ] <==> xchacha20_keystream(key, iv, written_at) == xchacha20_keystream(key, iv, read_at),
        written_at == read_at ==> keystream_xor(
            key,
            iv,
            read_at,
            keystream_xor(key, iv, written_at, seq![byte]),
        ) == seq![byte],
{
    let kw = xchacha20_keystream(key, iv, written_at);
    let kr = xchacha20_keystream(key, iv, read_at);
    let once = keystream_xor(key, iv, written_at, seq![byte]);
    let twice = keystream_xor(key, iv, read_at, once);
    assert(once[0] == byte ^ kw);
    assert(twice[0] == (byte ^ kw) ^ kr);
    assert(((byte ^ kw) ^ kr == byte) <==> kw == kr) by (bit_vector);
    if kw == kr {
        assert(twice =~= seq![byte]);
    } else {
        assert(twice[0] != seq![byte][0]);
    }
}

/// Splitting a block in two and laying the keystream over each part at its
/// own position is the same as laying it over the whole block.
pub proof fn lemma_keystream_xor_split(
    key: Seq<u8>,
    iv: Seq<u8>,
    position: nat,
    first: Seq<u8>,
    second: Seq<u8>,
)
    ensures
        keystream_xor(key, iv, position, first + second) == keystream_xor(
            key,
            iv,
            position,
            first,
        ) + keystream_xor(key, iv, position + first.len(), second),
{
    assert(keystream_xor(key, iv, position, first + second) =~= keystream_xor(
        key,
        iv,
        position,
        first,
    ) + keystream_xor(key, iv, position + first.len(), second));
}

/// State of the cipher of one session: key, nonce, and how far into the
/// keystream the session has come, which is never past its end.
pub struct Cipher {
    key: [u8; 32],
    iv: [u8; 24],
    position: u64,
}

impl Cipher {
    /// The position lies within the keystream.
    #[verifier::type_invariant]
    spec fn within_keystream(&self) -> bool {
        self.position <= KEYSTREAM_LIMIT
    }

    /// The key of the session.
    pub closed spec fn key(&self) -> Seq<u8> {
        self.key@
    }

    /// The nonce of the session.
    pub closed spec fn iv(&self) -> Seq<u8> {
        self.iv@
    }

    /// Number of keystream bytes used so far.
    pub closed spec fn position(&self) -> nat {
        self.position as nat
    }

    /// A cipher at the start of the keystream of `key` and `iv`.
    pub fn new(key: [u8; 32], iv: [u8; 24]) -> (cipher: Cipher)
        ensures
            cipher.key() == key@,
            cipher.iv() == iv@,
            cipher.position() == 0,
    {
        Cipher { key, iv, position: 0 }
    }

    /// Moves to `position` of the keystream, and stays where it is where
    /// the keystream does not reach that far.
    pub fn seek(&mut self, position: u64) -> (moved: bool)
        ensures
            final(self).key() == old(self).key(),
            final(self).iv() == old(self).iv(),
            moved == (position <= KEYSTREAM_LIMIT),
            final(self).position() == if moved {
                position as nat
            } else {
                old(self).position()
            },
    {
        if position <= KEYSTREAM_LIMIT {
            self.position = position;
            true
        } else {
            false
        }
    }

    /// Number of keystream bytes used so far.
    pub fn current_pos(&self) -> (position: u64)
        ensures
            position == self.position(),
            position <= KEYSTREAM_LIMIT,
    {
        proof {
            use_type_invariant(self);
        }
        self.position
    }

    /// What a read hands out for the answer of the stream below. Bytes that
    /// came are decrypted and the keystream moves on by their number; no
    /// bytes, at the end of the stream, are no bytes; bytes that the
    /// keystream no longer covers are the error `EndOfKeystream`; a failure
    /// is handed on. On an error the keystream stays where it was.
    pub fn read_outcome(&mut self, answer: Result<Vec<u8>, StreamError>) -> (r: Result<
        Vec<u8>,
        StreamError,
    >)
        ensures
            final(self).key() == old(self).key(),
            final(self).iv() == old(self).iv(),
            match answer {
                Ok(raw) => if old(self).position() + raw@.len() <= KEYSTREAM_LIMIT {
                    &&& r is Ok
                    &&& r->Ok_0@ == keystream_xor(
                        old(self).key(),
                        old(self).iv(),
                        old(self).position(),
                        raw@,
                    )
                    &&& final(self).position() == old(self).position() + raw@.len()
                } else {
                    &&& r == Err::<Vec<u8>, StreamError>(StreamError::EndOfKeystream)
                    &&& final(self).position() == old(self).position()
                },
                Err(error) => {
                    &&& r == Err::<Vec<u8>, StreamError>(error)
                    &&& final(self).position() == old(self).position()
                },
            },
    {
        match answer {
            Ok(raw) => match self.apply_keystream(raw.as_slice()) {
                Some(plain) => Ok(plain),
                None => Err(StreamError::EndOfKeystream),
            },
            Err(error) => Err(error),
        }
    }

    /// Lays the keystream over `data` and moves on by its length. Where the
    /// keystream has fewer bytes left than `data` has, nothing is done.
    pub fn apply_keystream(&mut self, data: &[u8]) -> (out: Option<Vec<u8>>)
        ensures
            final(self).key() == old(self).key(),
            final(self).iv() == old(self).iv(),
            out is Some <==> old(self).position() + data@.len() <= KEYSTREAM_LIMIT,
            match out {
                Some(bytes) => bytes@ == keystream_xor(
                    old(self).key(),
                    old(self).iv(),
                    old(self).position(),
                    data@,
                ) && final(self).position() == old(self).position() + data@.len(),
                None => final(self).position() == old(self).position(),
            },
    {
        proof {
            use_type_invariant(&*self);
        }
        if data.len() as u64 > KEYSTREAM_LIMIT - self.position {
            return None;
        }
        let out = xchacha20_apply(&self.key, &self.iv, self.position, data);
        proof {
            assert(out@ =~= keystream_xor(self.key@, self.iv@, self.position as nat, data@));
        }
        self.position = self.position + data.len() as u64;
        Some(out)
    }
}

/// Whether two ciphers are of one session: they have the same key and the
/// same nonce.
pub open spec fn same_session(one: Cipher, other: Cipher) -> bool {
    one.key() == other.key() && one.iv() == other.iv()
}

/// The smaller of two counts.
pub open spec fn spec_smaller(a: nat, b: nat) -> nat {
    if a < b {
        a
    } else {
        b
    }
}

/// What a write of `length` bytes that began at keystream position `start`
/// hands out for the answer of the stream below, and where the keystream
/// goes on. A count is cut to `length`, and the keystream goes on behind the
/// bytes that were taken; a failure is handed on, and the keystream goes
/// back to `start`.
pub fn written_outcome(start: u64, length: usize, answer: Result<usize, StreamError>) -> (r: (
    u64,
    Result<usize, StreamError>,
))
    requires
        start + length <= KEYSTREAM_LIMIT,
    ensures
        match answer {
            Ok(written) => {
                &&& r.0 == start + spec_smaller(written as nat, length as nat)
                &&& r.1 == Ok::<usize, StreamError>(
                    spec_smaller(written as nat, length as nat) as usize,
                )
            },
            Err(error) => r.0 == start && r.1 == Err::<usize, StreamError>(error),
        },
{
    match answer {
        Ok(written) => {
            let taken: usize = if written < length {
                written
            } else {
                length
            };
            (start + taken as u64, Ok(taken))
        },
        Err(error) => (start, Err(error)),
    }
}

/// A duplex stream that encrypts on write and decrypts on read. Both
/// directions draw on one keystream, so the two ends of a connection have to
/// write and read in matching order.
pub struct EncryptedStream<T: Stream> {
    pub cipher: Cipher,
    pub raw_stream: T,
}

impl<T: Stream> EncryptedStream<T> {
    /// Wraps `stream` with a cipher at the start of the keystream of `key`
    /// and `iv`.
    pub fn new(key: [u8; 32], iv: [u8; 24], stream: T) -> (encrypted: EncryptedStream<T>)
        ensures
            encrypted.cipher.key() == key@,
            encrypted.cipher.iv() == iv@,
            encrypted.cipher.position() == 0,
            encrypted.raw_stream == stream,
    {
        EncryptedStream { cipher: Cipher::new(key, iv), raw_stream: stream }
    }
}

/// Where the keystream goes on after a frame that began at `start` and ends
/// at `end` was handed to the stream below, and what is handed out: behind
/// the frame where the stream took all of it, and back at `start`, with the
/// failure, where it did not.
pub fn frame_outcome(start: u64, end: u64, answer: Result<(), StreamError>) -> (r: (
    u64,
    Result<(), StreamError>,
))
    ensures
        r.1 == answer,
        r.0 == (if answer is Ok {
            end
        } else {
            start
        }),
{
    let position: u64 = if answer.is_ok() {
        end
    } else {
        start
    };
    (position, answer)
}

impl<T: Stream> EncryptedStream<T> {
    /// Encrypts one frame around `body`, writes it to the stream below and
    /// flushes it. The keystream moves on by the length of the frame. A
    /// frame that the keystream no longer covers is the error
    /// `EndOfKeystream`, with nothing written; a stream that stops taking
    /// bytes before the frame's end is the error `WriteZero`, and a failure
    /// of the stream is handed on. On an error the keystream stays where it
    /// was.
    pub fn send_frame(&mut self, body: &[u8]) -> (done: Result<(), StreamError>)
        ensures
            final(self).cipher.key() == old(self).cipher.key(),
            final(self).cipher.iv() == old(self).cipher.iv(),
            final(self).cipher.position() == (if done is Ok {
                old(self).cipher.position() + frame(body@).len()
            } else {
                old(self).cipher.position()
            }),
            old(self).cipher.position() + frame(body@).len() > KEYSTREAM_LIMIT ==> done == Err::<
                (),
                StreamError,
            >(StreamError::EndOfKeystream),
    {
        let bytes = encode_frame(body);
        let start: u64 = self.cipher.current_pos();
        let sealed = match self.cipher.apply_keystream(bytes.as_slice()) {
            Some(sealed) => sealed,
            None => {
                return Err(StreamError::EndOfKeystream);
            },
        };
        let end: u64 = self.cipher.current_pos();
        let answer = write_frame_bytes(&mut self.raw_stream, sealed.as_slice());
        let (position, done) = frame_outcome(start, end, answer);
        self.cipher.seek(position);
        done
    }

    /// Reads one frame from the stream below and decrypts it, byte by byte
    /// through the length prefix and then the body as a whole, and hands
    /// out the frame: prefix and body. The keystream moves on by the bytes
    /// that were decrypted. The stream's end inside the prefix, or a prefix
    /// that is no valid length, is `InvalidFraming`; the stream's end
    /// inside the body is `TruncatedBody`. A failure of the stream is
    /// handed on, and bytes that the keystream no longer covers are the
    /// error `EndOfKeystream`.
    pub fn receive_frame(&mut self) -> (r: Result<Result<Vec<u8>, FramingError>, StreamError>)
        ensures
            final(self).cipher.key() == old(self).cipher.key(),
            final(self).cipher.iv() == old(self).cipher.iv(),
            match r {
                Ok(Ok(bytes)) => is_whole_frame(bytes@) && final(self).cipher.position() == old(
                    self,
                ).cipher.position() + bytes@.len(),
                Ok(Err(e)) => e != FramingError::SchemaMismatch,
                Err(e) => !(e is EndOfStream),
            },
    {
        let mut prefix: Vec<u8> = Vec::new();
        let mut length: usize = 0;
        loop
            invariant_except_break
                prefix.len() <= 10,
            invariant
                self.cipher.key() == old(self).cipher.key(),
                self.cipher.iv() == old(self).cipher.iv(),
                self.cipher.position() == old(self).cipher.position() + prefix@.len(),
            ensures
                spec_announced_length(prefix@) == Some(Ok::<usize, FramingError>(length)),
            decreases 10 - prefix.len(),
        {
            match announced_length(prefix.as_slice()) {
                Some(Ok(announced)) => {
                    length = announced;
                    break ;
                },
                Some(Err(e)) => {
                    return Ok(Err(e));
                },
                None => {},
            }
            match prefix_byte(one_byte(self.read(1))) {
                Ok(Ok(byte)) => {
                    prefix.push(byte);
                },
                Ok(Err(e)) => {
                    return Ok(Err(e));
                },
                Err(error) => {
                    return Err(error);
                },
            }
        }
        let ghost head = prefix@;
        let sealed = read_exact(&mut self.raw_stream, length);
        let answer = self.cipher.read_outcome(sealed);
        proof {
            if answer is Ok {
                lemma_prefix_and_body(head, answer->Ok_0@);
            }
        }
        whole_frame(prefix, answer)
    }
}

impl<T: Stream> StreamRead for EncryptedStream<T> {
    /// Takes at most `length` bytes from the stream below and hands out
    /// what `read_outcome` makes of them: the keystream moves on by the
    /// number of bytes handed out, and stays where it was on an error.
    fn read(&mut self, length: usize) -> (r: Result<Vec<u8>, StreamError>)
        ensures
            final(self).cipher.key() == old(self).cipher.key(),
            final(self).cipher.iv() == old(self).cipher.iv(),
            match r {
                Ok(plain) => {
                    &&& plain.len() <= length
                    &&& final(self).cipher.position() == old(self).cipher.position() + plain.len()
                    &&& final(self).cipher.position() <= KEYSTREAM_LIMIT
                },
                Err(_) => final(self).cipher.position() == old(self).cipher.position(),
            },
    {
        let answer = read_some(&mut self.raw_stream, length);
        self.cipher.read_outcome(answer)
    }
}

impl<T: Stream> StreamWrite for EncryptedStream<T> {
    /// Encrypts `buffer`, hands the ciphertext to the stream below, and
    /// hands out what `written_outcome` makes of its answer: the keystream
    /// moves on by the number of bytes that were taken, so that the next
    /// write goes on where the peer expects it, and stays where it was on
    /// an error. A buffer that the keystream no longer covers is the error
    /// `EndOfKeystream`, with nothing written.
    fn write_stream(&mut self, buffer: &[u8]) -> (r: Result<usize, StreamError>)
        ensures
            final(self).cipher.key() == old(self).cipher.key(),
            final(self).cipher.iv() == old(self).cipher.iv(),
            match r {
                Ok(taken) => {
                    &&& taken <= buffer@.len()
                    &&& final(self).cipher.position() == old(self).cipher.position() + taken
                    &&& old(self).cipher.position() + buffer@.len() <= KEYSTREAM_LIMIT
                },
                Err(_) => final(self).cipher.position() == old(self).cipher.position(),
            },
            old(self).cipher.position() + buffer@.len() > KEYSTREAM_LIMIT ==> r is Err
                && r->Err_0 is EndOfKeystream,
    {
        let start: u64 = self.cipher.current_pos();
        let ciphertext = match self.cipher.apply_keystream(buffer) {
            Some(ciphertext) => ciphertext,
            None => {
                return Err(StreamError::EndOfKeystream);
            },
        };
        let answer = self.raw_stream.write_stream(ciphertext.as_slice());
        let (position, outcome) = written_outcome(start, buffer.len(), answer);
        self.cipher.seek(position);
        outcome
    }

    /// Flushes the stream below.
    fn flush(&mut self) -> (r: Result<(), StreamError>)
        ensures
            final(self).cipher == old(self).cipher,
    {
        self.raw_stream.flush()
    }
}

impl<T: Stream> Close for EncryptedStream<T> {
    /// Closes the stream below.
    fn close(&self) {
        self.raw_stream.close();
    }
}

impl<T: Stream> Stream for EncryptedStream<T> {

}

/// Marks the streams that carry a session: encrypted, duplex, closable.
pub trait EncryptedReadWrite: Stream {

}

impl<T: Stream> EncryptedReadWrite for EncryptedStream<T> {

}

} // verus!
