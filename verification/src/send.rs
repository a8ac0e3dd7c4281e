//! The sending side of a transfer: the request and its answer, the course
//! of the send, and the loop that streams the file.

use vstd::prelude::*;
use crate::encryption::EncryptedStream;
use crate::errors::ConnectErrors;
use crate::errors::ConnectErrorsView;
use crate::errors::FramingError;
use crate::nearby::BleServerImplementationDelegate;
use crate::nearby::L2CapDelegate;
use crate::nearby::NearbyServer;
use crate::protocol::communication::TransferRequest;
use crate::protocol::communication::TransferRequestResponse;
use crate::encryption::same_session;
use crate::errors::StreamError;
use crate::protocol::framing::frame;
use crate::protocol::framing::is_whole_frame;
use crate::stream::read_some;
use crate::stream::Close;
use crate::stream::Stream;
use crate::stream::StreamRead;
use crate::stream::StreamWrite;
use crate::BLE_BUFFER_SIZE;

verus! {

/// What the answer to a transfer request means for the sender, given the
/// frame that came back or the reason why none came: a frame that is no
/// answer is a failure to get one, and an answer that does not accept is a
/// decline.
pub open spec fn response_verdict(frame: Result<Seq<u8>, FramingError>) -> Result<
    (),
    ConnectErrorsView,
> {
    match frame {
        Err(e) => Err(
            ConnectErrorsView::FailedToGetTransferRequestResponse { error: e.spec_message() },
        ),
        Ok(bytes) => match TransferRequestResponse::decode_framed(bytes) {
            Err(e) => Err(
                ConnectErrorsView::FailedToGetTransferRequestResponse { error: e.spec_message() },
            ),
            Ok(response) => if response.accepted {
                Ok(())
            } else {
                Err(ConnectErrorsView::Declined)
            },
        },
    }
}

/// The view of a frame that was read, or of the reason why none was.
pub open spec fn frame_view(frame: Result<Vec<u8>, FramingError>) -> Result<Seq<u8>, FramingError> {
    match frame {
        Ok(bytes) => Ok(bytes@),
        Err(e) => Err(e),
    }
}

/// Judges what came back after a transfer request.
pub fn judge_transfer_response(frame: Result<Vec<u8>, FramingError>) -> (verdict: Result<
    (),
    ConnectErrors,
>)
    ensures
        match verdict {
            Ok(()) => response_verdict(frame_view(frame)) == Ok::<(), ConnectErrorsView>(()),
            Err(error) => response_verdict(frame_view(frame)) == Err::<(), ConnectErrorsView>(
                error@,
            ),
        },
{
    let bytes = match frame {
        Ok(bytes) => bytes,
        Err(e) => {
            return Err(ConnectErrors::FailedToGetTransferRequestResponse { error: e.message() });
        },
    };
    match TransferRequestResponse::decode_length_delimited(bytes.as_slice()) {
        Err(e) => Err(ConnectErrors::FailedToGetTransferRequestResponse { error: e.message() }),
        Ok(response) => if response.accepted {
            Ok(())
        } else {
            Err(ConnectErrors::Declined)
        },
    }
}

/// Judges what the stream gave after a transfer request: where the stream
/// failed, the error is the failure to get an answer, and otherwise the
/// verdict is the one that `judge_transfer_response` gives.
pub fn judge_answer(answer: Result<Result<Vec<u8>, FramingError>, StreamError>) -> (verdict: Result<
    (),
    ConnectErrors,
>)
    ensures
        match answer {
            Ok(frame) => verdict_view(verdict) == response_verdict(frame_view(frame)),
            Err(_) => verdict is Err && verdict->Err_0 is FailedToGetTransferRequestResponse,
        },
{
    match answer {
        Ok(frame) => judge_transfer_response(frame),
        Err(error) => Err(
            ConnectErrors::FailedToGetTransferRequestResponse { error: error.message() },
        ),
    }
}

/// Sends a transfer request over an encrypted stream and waits for the
/// answer. On a decline, and where no answer can be had, the stream is
/// closed.
///
/// What comes of it lies with the stream. Where the stream fails, in
/// writing or in reading, the error is the failure to get an answer.
/// Otherwise the verdict is the one that `judge_answer` gives on what came
/// back. A send that goes on, or is declined, was answered by a whole
/// frame, and the keystream stands behind the request and that frame.
pub fn request_transfer<T: Stream>(stream: &mut EncryptedStream<T>, request: &TransferRequest) -> (verdict:
    Result<(), ConnectErrors>)
    ensures
        same_session(final(stream).cipher, old(stream).cipher),
        verdict is Err ==> verdict->Err_0 is Declined || verdict->Err_0
            is FailedToGetTransferRequestResponse,
        verdict is Ok || verdict->Err_0 is Declined ==> answered_in(
            verdict_view(verdict),
            final(stream).cipher.position() - old(stream).cipher.position() - frame(
                request@.encode(),
            ).len(),
        ),
{
    let body = request.encode_to_vec();
    match stream.send_frame(body.as_slice()) {
        Ok(()) => {},
        Err(error) => {
            stream.close();
            return Err(
                ConnectErrors::FailedToGetTransferRequestResponse { error: error.message() },
            );
        },
    }
    let answer = stream.receive_frame();
    let ghost came = answer;
    let verdict = judge_answer(answer);
    proof {
        if verdict is Ok || verdict->Err_0 is Declined {
            assert(came is Ok && came->Ok_0 is Ok);
            assert(response_verdict(Ok::<Seq<u8>, FramingError>(came->Ok_0->Ok_0@))
                == verdict_view(verdict));
        }
    }
    if verdict.is_err() {
        stream.close();
    }
    verdict
}

/// The view of a verdict.
pub open spec fn verdict_view(verdict: Result<(), ConnectErrors>) -> Result<(), ConnectErrorsView> {
    match verdict {
        Ok(()) => Ok(()),
        Err(error) => Err(error@),
    }
}

/// Whether a verdict is the one on a whole frame of `length` bytes.
pub open spec fn answered_in(verdict: Result<(), ConnectErrorsView>, length: int) -> bool {
    exists|bytes: Seq<u8>|
        bytes.len() == length && is_whole_frame(bytes) && #[trigger] response_verdict(
            Ok::<Seq<u8>, FramingError>(bytes),
        ) == verdict
}

/// What a sender reports of a transfer. While bytes flow, the progress is
/// the share `sent` of `total`.
#[derive(Clone, Copy, Debug, PartialEq, Eq, Structural)]
pub enum SendProgressState {
    Unknown,
    Connecting,
    Requesting,
    Transferring { sent: u64, total: u64 },
    Cancelled,
    Finished,
    Declined,
}

impl SendProgressState {
    /// Whether nothing follows this state.
    pub open spec fn is_terminal(self) -> bool {
        self is Cancelled || self is Finished || self is Declined
    }

    /// Whether this state reports that all bytes were sent.
    pub open spec fn is_complete(self) -> bool {
        match self {
            SendProgressState::Transferring { sent, total } => sent == total,
            _ => false,
        }
    }
}

/// Whoever wants to hear of the progress of a send.
pub trait SendProgressDelegate {
    fn progress_changed(&self, progress: SendProgressState);
}

/// Where a send stands.
#[derive(Clone, Copy, Debug, PartialEq, Eq, Structural)]
pub enum SendStage {
    Idle,
    Connecting,
    Requesting,
    Transferring,
    Done,
}

/// What happened to a send.
#[derive(Clone, Copy, Debug, PartialEq, Eq, Structural)]
pub enum SendEvent {
    /// The send was asked for.
    Started,
    /// An encrypted stream to the peer stands, and the file has this size.
    Connected { file_size: u64 },
    /// The peer accepted the request.
    Accepted,
    /// The peer declined the request.
    Declined,
    /// The stream took this many bytes of the file.
    ChunkWritten { bytes: u64 },
    /// The file has no more bytes.
    EndOfFile,
    /// The step that was under way failed.
    Failed,
}

/// The course of one send: the stage it is in and how much of the file is
/// out.
#[derive(Clone, Copy, Debug, PartialEq, Eq, Structural)]
pub struct SendPipeline {
    pub stage: SendStage,
    pub file_size: u64,
    pub sent: u64,
}

impl SendPipeline {
    /// The state that ends a transfer: finished where all of the file is
    /// out, cancelled otherwise.
    pub open spec fn closing_state(self) -> SendProgressState {
        if self.sent >= self.file_size {
            SendProgressState::Finished
        } else {
            SendProgressState::Cancelled
        }
    }

    /// The most that the next read of the file may deliver: what the file
    /// still lacks, and no more than one buffer.
    pub open spec fn spec_read_limit(self) -> nat {
        if self.sent >= self.file_size {
            0
        } else if self.file_size - self.sent < BLE_BUFFER_SIZE {
            (self.file_size - self.sent) as nat
        } else {
            BLE_BUFFER_SIZE as nat
        }
    }

    /// The number of bytes that are out after `bytes` more, held at the
    /// largest number that can be counted.
    pub open spec fn sent_after(self, bytes: u64) -> u64 {
        if self.sent + bytes > u64::MAX {
            u64::MAX
        } else {
            (self.sent + bytes) as u64
        }
    }

    /// The pipeline after an event, and what is reported of it. An event
    /// that has no place in the current stage changes nothing and reports
    /// nothing.
    pub open spec fn step(self, event: SendEvent) -> (SendPipeline, Option<SendProgressState>) {
        match (self.stage, event) {
            (SendStage::Idle, SendEvent::Started) => (
                SendPipeline { stage: SendStage::Connecting, ..self },
                Some(SendProgressState::Connecting),
            ),
            (SendStage::Connecting, SendEvent::Connected { file_size }) => (
                SendPipeline { stage: SendStage::Requesting, file_size, sent: 0 },
                Some(SendProgressState::Requesting),
            ),
            (SendStage::Connecting, SendEvent::Failed) => (
                SendPipeline { stage: SendStage::Done, ..self },
                None,
            ),
            (SendStage::Requesting, SendEvent::Accepted) => (
                SendPipeline { stage: SendStage::Transferring, ..self },
                Some(SendProgressState::Transferring { sent: 0, total: self.file_size }),
            ),
            (SendStage::Requesting, SendEvent::Declined) => (
                SendPipeline { stage: SendStage::Done, ..self },
                Some(SendProgressState::Declined),
            ),
            (SendStage::Requesting, SendEvent::Failed) => (
                SendPipeline { stage: SendStage::Done, ..self },
                None,
            ),
            (SendStage::Transferring, SendEvent::ChunkWritten { bytes }) => if bytes == 0 {
                (SendPipeline { stage: SendStage::Done, ..self }, Some(self.closing_state()))
            } else {
                (
                    SendPipeline { sent: self.sent_after(bytes), ..self },
                    Some(
                        SendProgressState::Transferring {
                            sent: self.sent_after(bytes),
                            total: self.file_size,
                        },
                    ),
                )
            },
            (SendStage::Transferring, SendEvent::EndOfFile) => (
                SendPipeline { stage: SendStage::Done, ..self },
                Some(self.closing_state()),
            ),
            (SendStage::Transferring, SendEvent::Failed) => (
                SendPipeline { stage: SendStage::Done, ..self },
                Some(SendProgressState::Cancelled),
            ),
            _ => (self, None),
        }
    }

    /// The pipeline after an event.
    pub open spec fn next(self, event: SendEvent) -> SendPipeline {
        let (after, report) = self.step(event);
        after
    }

    /// What is reported of an event.
    pub open spec fn report(self, event: SendEvent) -> Option<SendProgressState> {
        let (after, report) = self.step(event);
        report
    }

    /// A send that was not asked for yet.
    pub fn new() -> (pipeline: SendPipeline)
        ensures
            pipeline == (SendPipeline { stage: SendStage::Idle, file_size: 0, sent: 0 }),
    {
        SendPipeline { stage: SendStage::Idle, file_size: 0, sent: 0 }
    }

    /// The most that the next read of the file may deliver.
    pub fn read_limit(&self) -> (limit: usize)
        ensures
            limit == self.spec_read_limit(),
            limit <= BLE_BUFFER_SIZE,
    {
        if self.sent >= self.file_size {
            0
        } else if self.file_size - self.sent < BLE_BUFFER_SIZE as u64 {
            (self.file_size - self.sent) as usize
        } else {
            BLE_BUFFER_SIZE
        }
    }

    /// Takes an event and hands out what is to be reported of it.
    pub fn advance(&mut self, event: SendEvent) -> (report: Option<SendProgressState>)
        ensures
            *final(self) == old(self).next(event),
            report == old(self).report(event),
    {
        match (self.stage, event) {
            (SendStage::Idle, SendEvent::Started) => {
                self.stage = SendStage::Connecting;
                Some(SendProgressState::Connecting)
            },
            (SendStage::Connecting, SendEvent::Connected { file_size }) => {
                self.stage = SendStage::Requesting;
                self.file_size = file_size;
                self.sent = 0;
                Some(SendProgressState::Requesting)
            },
            (SendStage::Connecting, SendEvent::Failed) => {
                self.stage = SendStage::Done;
                None
            },
            (SendStage::Requesting, SendEvent::Accepted) => {
                self.stage = SendStage::Transferring;
                Some(SendProgressState::Transferring { sent: 0, total: self.file_size })
            },
            (SendStage::Requesting, SendEvent::Declined) => {
                self.stage = SendStage::Done;
                Some(SendProgressState::Declined)
            },
            (SendStage::Requesting, SendEvent::Failed) => {
                self.stage = SendStage::Done;
                None
            },
            (SendStage::Transferring, SendEvent::ChunkWritten { bytes }) => {
                if bytes == 0 {
                    self.stage = SendStage::Done;
                    Some(self.closing())
                } else {
                    self.sent = if bytes > u64::MAX - self.sent {
                        u64::MAX
                    } else {
                        self.sent + bytes
                    };
                    Some(SendProgressState::Transferring { sent: self.sent, total: self.file_size })
                }
            },
            (SendStage::Transferring, SendEvent::EndOfFile) => {
                self.stage = SendStage::Done;
                Some(self.closing())
            },
            (SendStage::Transferring, SendEvent::Failed) => {
                self.stage = SendStage::Done;
                Some(SendProgressState::Cancelled)
            },
            _ => None,
        }
    }

    /// The state that ends a transfer.
    fn closing(&self) -> (state: SendProgressState)
        ensures
            state == self.closing_state(),
    {
        if self.sent >= self.file_size {
            SendProgressState::Finished
        } else {
            SendProgressState::Cancelled
        }
    }
}

/// Nothing follows a terminal report: after a send is done, no event
/// changes it and nothing more is reported.
pub proof fn lemma_send_done_is_final(pipeline: SendPipeline, event: SendEvent)
    requires
        pipeline.stage == SendStage::Done,
    ensures
        pipeline.step(event) == (pipeline, None::<SendProgressState>),
{
}

/// Every terminal report ends the send.
pub proof fn lemma_send_terminal_report_ends(pipeline: SendPipeline, event: SendEvent)
    ensures
        match pipeline.report(event) {
            Some(state) => state.is_terminal() ==> pipeline.next(event).stage == SendStage::Done,
            None => true,
        },
{
}

/// The chunk that brings the bytes sent to the size of the file is reported
/// as complete progress, and the end of the file after it as finished. A
/// send ends as finished exactly where all the bytes of the file are out.
pub proof fn lemma_send_completes(pipeline: SendPipeline, bytes: u64)
    requires
        pipeline.stage == SendStage::Transferring,
    ensures
        bytes > 0 && pipeline.sent + bytes == pipeline.file_size ==> pipeline.report(
            SendEvent::ChunkWritten { bytes },
        ).unwrap().is_complete() && pipeline.next(SendEvent::ChunkWritten { bytes }).report(
            SendEvent::EndOfFile,
        ) == Some(SendProgressState::Finished),
        pipeline.report(SendEvent::EndOfFile) == Some(SendProgressState::Finished)
            <==> pipeline.sent >= pipeline.file_size,
        pipeline.report(SendEvent::EndOfFile) == Some(SendProgressState::Cancelled)
            <==> pipeline.sent < pipeline.file_size,
{
}

/// Writes one chunk of the file to the encrypted stream and takes note of
/// what the stream took. Hands out the number of bytes taken, or nothing
/// where the stream failed and the send ended for it, and what is to be
/// reported.
pub fn send_chunk<T: Stream>(
    pipeline: &mut SendPipeline,
    stream: &mut EncryptedStream<T>,
    chunk: &[u8],
) -> (taken: (Option<u64>, Option<SendProgressState>))
    ensures
        final(stream).cipher.key() == old(stream).cipher.key(),
        final(stream).cipher.iv() == old(stream).cipher.iv(),
        match taken.0 {
            Some(bytes) => {
                &&& bytes <= chunk@.len()
                &&& *final(pipeline) == old(pipeline).next(SendEvent::ChunkWritten { bytes })
                &&& taken.1 == old(pipeline).report(SendEvent::ChunkWritten { bytes })
                &&& final(stream).cipher.position() == old(stream).cipher.position() + bytes
            },
            None => {
                &&& *final(pipeline) == old(pipeline).next(SendEvent::Failed)
                &&& taken.1 == old(pipeline).report(SendEvent::Failed)
                &&& final(stream).cipher.position() == old(stream).cipher.position()
            },
        },
{
    let (event, taken) = write_step(stream.write_stream(chunk));
    let report = pipeline.advance(event);
    (taken, report)
}

/// What a send makes of the answer of its stream to a chunk: the event that
/// stands for it, and the number of bytes that the stream took, which is
/// none where it failed.
pub fn write_step(answer: Result<usize, StreamError>) -> (step: (SendEvent, Option<u64>))
    ensures
        match answer {
            Ok(written) => step == (
                SendEvent::ChunkWritten { bytes: written as u64 },
                Some(written as u64),
            ),
            Err(_) => step == (SendEvent::Failed, None::<u64>),
        },
{
    match answer {
        Ok(written) => (SendEvent::ChunkWritten { bytes: written as u64 }, Some(written as u64)),
        Err(_) => (SendEvent::Failed, None),
    }
}

/// What a send makes of the answer of its file to a read: the chunk to be
/// sent where bytes came, and else the event that ends the send, which is
/// the end of the file where no bytes came, and the failure where the file
/// failed.
pub fn file_step(answer: Result<Vec<u8>, StreamError>) -> (step: Result<Vec<u8>, SendEvent>)
    ensures
        match answer {
            Ok(chunk) => if chunk@.len() > 0 {
                step == Ok::<Vec<u8>, SendEvent>(chunk)
            } else {
                step == Err::<Vec<u8>, SendEvent>(SendEvent::EndOfFile)
            },
            Err(_) => step == Err::<Vec<u8>, SendEvent>(SendEvent::Failed),
        },
{
    match answer {
        Ok(chunk) => {
            if chunk.len() == 0 {
                Err(SendEvent::EndOfFile)
            } else {
                Ok(chunk)
            }
        },
        Err(_) => Err(SendEvent::Failed),
    }
}

/// Tells a delegate, if there is one, of a state.
pub fn update_progress<P: SendProgressDelegate>(progress_delegate: &Option<P>, report: Option<
    SendProgressState,
>) {
    match (progress_delegate, report) {
        (Some(delegate), Some(state)) => {
            delegate.progress_changed(state);
        },
        _ => {},
    }
}

/// What holds at the end of a send whose request was answered: it is done,
/// the size of the file is as announced, and it ended as declined where the
/// peer declined, and else as finished exactly where all the bytes of the
/// file are out, and as cancelled otherwise.
pub open spec fn sent_as_announced(
    file_size: u64,
    course: SendPipeline,
    end: Result<SendProgressState, ConnectErrorsView>,
) -> bool {
    &&& course.stage == SendStage::Done
    &&& match end {
        Ok(state) => {
            &&& course.file_size == file_size
            &&& state == SendProgressState::Finished <==> course.sent >= file_size
            &&& state == SendProgressState::Cancelled <==> course.sent < file_size
        },
        Err(error) => error is Declined || error is FailedToGetTransferRequestResponse,
    }
}

/// The view of the end of a send.
pub open spec fn end_view(end: Result<SendProgressState, ConnectErrors>) -> Result<
    SendProgressState,
    ConnectErrorsView,
> {
    match end {
        Ok(state) => Ok(state),
        Err(error) => Err(error@),
    }
}

/// Streams a file whose transfer was accepted: reads it one buffer at a
/// time and writes each buffer to the encrypted stream, until the announced
/// size is out, the file ends or the stream takes no more. A failure of the
/// file or of the stream ends the send as cancelled. The delegate hears of
/// every buffer and of the end. Hands out the state in which the
/// send ended; nothing is done, and nothing handed out, for a send that is
/// not in its transfer.
pub fn transfer_file<T: Stream, F: StreamRead, P: SendProgressDelegate>(
    pipeline: &mut SendPipeline,
    stream: &mut EncryptedStream<T>,
    file: &mut F,
    progress_delegate: &Option<P>,
) -> (end: Option<SendProgressState>)
    ensures
        final(stream).cipher.key() == old(stream).cipher.key(),
        final(stream).cipher.iv() == old(stream).cipher.iv(),
        old(pipeline).stage != SendStage::Transferring ==> end is None,
        old(pipeline).stage != SendStage::Transferring ==> *final(pipeline) == *old(pipeline),
        old(pipeline).stage == SendStage::Transferring ==> end is Some && sent_as_announced(
            old(pipeline).file_size,
            *final(pipeline),
            Ok(end.unwrap()),
        ),
{
    if pipeline.stage != SendStage::Transferring {
        return None;
    }
    while pipeline.sent < pipeline.file_size
        invariant
            stream.cipher.key() == old(stream).cipher.key(),
            stream.cipher.iv() == old(stream).cipher.iv(),
            old(pipeline).stage == SendStage::Transferring,
            pipeline.stage == SendStage::Transferring,
            pipeline.file_size == old(pipeline).file_size,
        decreases pipeline.file_size - pipeline.sent,
    {
        let limit = pipeline.read_limit();
        let chunk = match file_step(read_some(file, limit)) {
            Ok(chunk) => chunk,
            Err(event) => {
                let end = pipeline.advance(event);
                update_progress(progress_delegate, end);
                return end;
            },
        };
        let (taken, report) = send_chunk(pipeline, stream, chunk.as_slice());
        update_progress(progress_delegate, report);
        match taken {
            Some(bytes) => {
                if bytes == 0 {
                    return report;
                }
            },
            None => {
                return report;
            },
        }
    }
    let end = pipeline.advance(SendEvent::EndOfFile);
    update_progress(progress_delegate, end);
    end
}

/// Sends a file over an encrypted stream to the peer at its other end:
/// sends the request that announces it, waits for the answer, and streams
/// the file where the peer accepts. The delegate hears of the request, of
/// every buffer and of the end, and the stream is closed in the end.
///
/// Hands out `Finished` where the whole file is out and `Cancelled` where
/// it is not; a decline is the error `Declined`, and an answer that cannot
/// be had the error `FailedToGetTransferRequestResponse`. `pipeline` is the
/// course of the send, which has been begun, so it is in its connecting
/// stage: one in another stage is ended as failed.
pub fn send_request_and_file<T: Stream, F: StreamRead, P: SendProgressDelegate>(
    pipeline: &mut SendPipeline,
    stream: EncryptedStream<T>,
    file: &mut F,
    transfer_request: &TransferRequest,
    file_size: u64,
    progress_delegate: &Option<P>,
) -> (end: Result<SendProgressState, ConnectErrors>)
    ensures
        old(pipeline).stage == SendStage::Connecting ==> sent_as_announced(
            file_size,
            *final(pipeline),
            end_view(end),
        ),
        old(pipeline).stage != SendStage::Connecting ==> end is Err && end->Err_0 is Unreachable,
        old(pipeline).stage != SendStage::Connecting ==> *final(pipeline) == *old(pipeline),
{
    let mut stream = stream;
    if pipeline.stage != SendStage::Connecting {
        stream.close();
        return Err(ConnectErrors::Unreachable);
    }
    let requesting = pipeline.advance(SendEvent::Connected { file_size });
    update_progress(progress_delegate, requesting);
    match request_transfer(&mut stream, transfer_request) {
        Ok(()) => {},
        Err(ConnectErrors::Declined) => {
            let declined = pipeline.advance(SendEvent::Declined);
            update_progress(progress_delegate, declined);
            return Err(ConnectErrors::Declined);
        },
        Err(error) => {
            let _ = pipeline.advance(SendEvent::Failed);
            return Err(error);
        },
    }
    let transferring = pipeline.advance(SendEvent::Accepted);
    update_progress(progress_delegate, transferring);
    let end = transfer_file(pipeline, &mut stream, file, progress_delegate);
    stream.close();
    match end {
        Some(state) => Ok(state),
        None => Err(ConnectErrors::Unreachable),
    }
}

impl<S: BleServerImplementationDelegate, L: L2CapDelegate> NearbyServer<S, L> {
    /// Sends a file from this device over an encrypted stream to the peer at
    /// its other end: announces the file in the name of this device and
    /// goes on as `send_request_and_file` does.
    pub fn send_file<T: Stream, F: StreamRead, P: SendProgressDelegate>(
        &self,
        pipeline: &mut SendPipeline,
        stream: EncryptedStream<T>,
        file: &mut F,
        file_name: Option<String>,
        file_size: u64,
        progress_delegate: &Option<P>,
    ) -> (end: Result<SendProgressState, ConnectErrors>)
        ensures
            old(pipeline).stage == SendStage::Connecting ==> sent_as_announced(
                file_size,
                *final(pipeline),
                end_view(end),
            ),
            old(pipeline).stage != SendStage::Connecting ==> end is Err && end->Err_0
                is Unreachable,
            old(pipeline).stage != SendStage::Connecting ==> *final(pipeline) == *old(pipeline),
    {
        let transfer_request = self.file_transfer_request(file_name, file_size);
        send_request_and_file(
            pipeline,
            stream,
            file,
            &transfer_request,
            file_size,
            progress_delegate,
        )
    }
}

/// A send is declined exactly where an answer came that does not accept:
/// what is no answer is the failure to get one, and an answer that accepts
/// lets the send go on.
pub proof fn lemma_declined_only_on_a_decline(came: Result<Seq<u8>, FramingError>)
    ensures
        response_verdict(came) == Err::<(), ConnectErrorsView>(ConnectErrorsView::Declined) <==> (
        came is Ok && TransferRequestResponse::decode_framed(came->Ok_0) is Ok
            && !TransferRequestResponse::decode_framed(came->Ok_0)->Ok_0.accepted),
        response_verdict(came) is Ok <==> (came is Ok && TransferRequestResponse::decode_framed(
            came->Ok_0,
        ) is Ok && TransferRequestResponse::decode_framed(came->Ok_0)->Ok_0.accepted),
{
}

/// The verdict on the frame of an answer is that answer's: a send goes on
/// after the frame of an acceptance and is declined after that of a
/// decline.
pub proof fn lemma_verdict_on_an_answer(response: TransferRequestResponse)
    requires
        response.encode().len() <= u64::MAX,
    ensures
        response_verdict(Ok::<Seq<u8>, FramingError>(response.encode_framed())) == (
        if response.accepted {
            Ok::<(), ConnectErrorsView>(())
        } else {
            Err::<(), ConnectErrorsView>(ConnectErrorsView::Declined)
        }),
{
    response.lemma_framed_roundtrip();
}

} // verus!
