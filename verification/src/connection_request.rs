//! The receiving side of a transfer: a request that waits for the user's
//! answer, and the course of the transfer once it is accepted.

use vstd::prelude::*;
use crate::encryption::EncryptedStream;
use crate::nearby::ConnectionIntentType;
use crate::protocol::communication::ClipboardTransferIntent;
use crate::protocol::communication::FileTransferIntent;
use crate::protocol::communication::Intent;
use crate::protocol::communication::IntentView;
use crate::protocol::communication::TransferRequest;
use crate::protocol::communication::TransferRequestResponse;
use crate::protocol::communication::TransferRequestView;
use crate::protocol::discovery::Device;
use crate::encryption::same_session;
use crate::errors::StreamError;
use crate::stream::write_all;
use crate::stream::StreamRead;
use crate::stream::StreamWrite;
use crate::stream::Close;
use crate::stream::Stream;
use crate::BLE_BUFFER_SIZE;

verus! {

/// What a receiver reports of a transfer. While bytes flow, the progress is
/// the share `received` of `total`.
#[derive(Clone, Copy, Debug, PartialEq, Eq, Structural)]
pub enum ReceiveProgressState {
    Unknown,
    Handshake,
    Receiving { received: u64, total: u64 },
    Cancelled,
    Finished,
}

impl ReceiveProgressState {
    /// Whether nothing follows this state.
    pub open spec fn is_terminal(self) -> bool {
        self is Cancelled || self is Finished
    }
}

/// Whoever wants to hear of the progress of a reception.
pub trait ReceiveProgressDelegate {
    fn progress_changed(&self, progress: ReceiveProgressState);
}

/// Where a reception stands.
#[derive(Clone, Copy, Debug, PartialEq, Eq, Structural)]
pub enum ReceiveStage {
    /// The user has not answered yet.
    Pending,
    /// The request was accepted, and the bytes of a file are taken in.
    Receiving,
    /// The request was accepted, and the text is with the application.
    Delivering,
    /// No more bytes are taken in.
    Stopped,
    /// The request was declined, or the transfer came to its end.
    Done,
}

/// What happened to a reception.
#[derive(Clone, Copy, Debug, PartialEq, Eq, Structural)]
pub enum ReceiveEvent {
    /// The user accepted a file of this size.
    AcceptedFile { file_size: u64 },
    /// The user accepted a text for the clipboard.
    AcceptedClipboard,
    /// The user declined.
    Declined,
    /// The user cancelled.
    Cancel,
    /// A read of the stream gave this many bytes.
    ChunkRead { bytes: u64 },
    /// The file took this many bytes.
    ChunkWritten { bytes: u64 },
    /// The stream failed, or the file refused bytes.
    Failed,
    /// The loop that reads has ended, or the text was delivered.
    End,
}

/// The course of one reception: the stage it is in, how many bytes of the
/// file are written, whether the user cancelled, and whether the stream or
/// the file failed.
#[derive(Clone, Copy, Debug, PartialEq, Eq, Structural)]
pub struct ReceivePipeline {
    pub stage: ReceiveStage,
    pub file_size: u64,
    pub received: u64,
    pub cancelled: bool,
    pub failed: bool,
}

impl ReceivePipeline {
    /// The state that ends a transfer: finished where exactly the announced
    /// number of bytes is written and nothing failed, cancelled otherwise.
    pub open spec fn closing_state(self) -> ReceiveProgressState {
        if self.received == self.file_size && !self.failed {
            ReceiveProgressState::Finished
        } else {
            ReceiveProgressState::Cancelled
        }
    }

    /// The number of bytes that are in after `bytes` more, held at the
    /// largest number that can be counted.
    pub open spec fn received_after(self, bytes: u64) -> u64 {
        if self.received + bytes > u64::MAX {
            u64::MAX
        } else {
            (self.received + bytes) as u64
        }
    }

    /// Whether another read is due: bytes are taken in, the user did not
    /// cancel, and the file is not complete.
    pub open spec fn spec_wants_more(self) -> bool {
        self.stage == ReceiveStage::Receiving && !self.cancelled && self.received < self.file_size
    }

    /// The most that the next read may deliver: one buffer, and no more than
    /// the file still lacks.
    pub open spec fn spec_read_limit(self) -> nat {
        if self.received >= self.file_size {
            0
        } else if self.file_size - self.received < BLE_BUFFER_SIZE {
            (self.file_size - self.received) as nat
        } else {
            BLE_BUFFER_SIZE as nat
        }
    }

    /// The pipeline after an event, and what is reported of it. An event
    /// that has no place in the current stage changes nothing and reports
    /// nothing.
    pub open spec fn step(self, event: ReceiveEvent) -> (
        ReceivePipeline,
        Option<ReceiveProgressState>,
    ) {
        match (self.stage, event) {
            (ReceiveStage::Pending, ReceiveEvent::AcceptedFile { file_size }) => (
                ReceivePipeline { stage: ReceiveStage::Receiving, file_size, received: 0, ..self },
                Some(ReceiveProgressState::Handshake),
            ),
            (ReceiveStage::Pending, ReceiveEvent::AcceptedClipboard) => (
                ReceivePipeline {
                    stage: ReceiveStage::Delivering,
                    file_size: 0,
                    received: 0,
                    ..self
                },
                Some(ReceiveProgressState::Handshake),
            ),
            (ReceiveStage::Pending, ReceiveEvent::Declined) => (
                ReceivePipeline { stage: ReceiveStage::Done, ..self },
                None,
            ),
            (ReceiveStage::Done, ReceiveEvent::Cancel) => (self, None),
            (_, ReceiveEvent::Cancel) => (ReceivePipeline { cancelled: true, ..self }, None),
            (ReceiveStage::Receiving, ReceiveEvent::ChunkRead { bytes }) => if self.cancelled
                || bytes == 0 {
                (ReceivePipeline { stage: ReceiveStage::Stopped, ..self }, None)
            } else {
                (self, None)
            },
            (ReceiveStage::Receiving, ReceiveEvent::ChunkWritten { bytes }) => (
                ReceivePipeline { received: self.received_after(bytes), ..self },
                Some(
                    ReceiveProgressState::Receiving {
                        received: self.received_after(bytes),
                        total: self.file_size,
                    },
                ),
            ),
            (ReceiveStage::Receiving, ReceiveEvent::Failed) => (
                ReceivePipeline { stage: ReceiveStage::Stopped, failed: true, ..self },
                None,
            ),
            (ReceiveStage::Stopped, ReceiveEvent::Failed) => (
                ReceivePipeline { failed: true, ..self },
                None,
            ),
            (ReceiveStage::Receiving, ReceiveEvent::End) => (
                ReceivePipeline { stage: ReceiveStage::Done, ..self },
                Some(self.closing_state()),
            ),
            (ReceiveStage::Stopped, ReceiveEvent::End) => (
                ReceivePipeline { stage: ReceiveStage::Done, ..self },
                Some(self.closing_state()),
            ),
            (ReceiveStage::Delivering, ReceiveEvent::End) => (
                ReceivePipeline { stage: ReceiveStage::Done, ..self },
                Some(ReceiveProgressState::Finished),
            ),
            _ => (self, None),
        }
    }

    /// The pipeline after an event.
    pub open spec fn next(self, event: ReceiveEvent) -> ReceivePipeline {
        let (after, report) = self.step(event);
        after
    }

    /// What is reported of an event.
    pub open spec fn report(self, event: ReceiveEvent) -> Option<ReceiveProgressState> {
        let (after, report) = self.step(event);
        report
    }

    /// A reception that waits for the user's answer.
    pub fn new() -> (pipeline: ReceivePipeline)
        ensures
            pipeline == (ReceivePipeline {
                stage: ReceiveStage::Pending,
                file_size: 0,
                received: 0,
                cancelled: false,
                failed: false,
            }),
    {
        ReceivePipeline {
            stage: ReceiveStage::Pending,
            file_size: 0,
            received: 0,
            cancelled: false,
            failed: false,
        }
    }

    /// Whether another read is due.
    pub fn wants_more(&self) -> (more: bool)
        ensures
            more == self.spec_wants_more(),
    {
        self.stage == ReceiveStage::Receiving && !self.cancelled && self.received < self.file_size
    }

    /// The most that the next read may deliver.
    pub fn read_limit(&self) -> (limit: usize)
        ensures
            limit == self.spec_read_limit(),
            limit <= BLE_BUFFER_SIZE,
    {
        if self.received >= self.file_size {
            0
        } else if self.file_size - self.received < BLE_BUFFER_SIZE as u64 {
            (self.file_size - self.received) as usize
        } else {
            BLE_BUFFER_SIZE
        }
    }

    /// The state that ends a transfer.
    fn closing(&self) -> (state: ReceiveProgressState)
        ensures
            state == self.closing_state(),
    {
        if self.received == self.file_size && !self.failed {
            ReceiveProgressState::Finished
        } else {
            ReceiveProgressState::Cancelled
        }
    }

    /// Takes an event and hands out what is to be reported of it.
    pub fn advance(&mut self, event: ReceiveEvent) -> (report: Option<ReceiveProgressState>)
        ensures
            *final(self) == old(self).next(event),
            report == old(self).report(event),
    {
        match (self.stage, event) {
            (ReceiveStage::Pending, ReceiveEvent::AcceptedFile { file_size }) => {
                self.stage = ReceiveStage::Receiving;
                self.file_size = file_size;
                self.received = 0;
                Some(ReceiveProgressState::Handshake)
            },
            (ReceiveStage::Pending, ReceiveEvent::AcceptedClipboard) => {
                self.stage = ReceiveStage::Delivering;
                self.file_size = 0;
                self.received = 0;
                Some(ReceiveProgressState::Handshake)
            },
            (ReceiveStage::Pending, ReceiveEvent::Declined) => {
                self.stage = ReceiveStage::Done;
                None
            },
            (ReceiveStage::Done, ReceiveEvent::Cancel) => None,
            (_, ReceiveEvent::Cancel) => {
                self.cancelled = true;
                None
            },
            (ReceiveStage::Receiving, ReceiveEvent::ChunkRead { bytes }) => {
                if self.cancelled || bytes == 0 {
                    self.stage = ReceiveStage::Stopped;
                }
                None
            },
            (ReceiveStage::Receiving, ReceiveEvent::ChunkWritten { bytes }) => {
                self.received = if bytes > u64::MAX - self.received {
                    u64::MAX
                } else {
                    self.received + bytes
                };
                Some(
                    ReceiveProgressState::Receiving { received: self.received, total: self.file_size },
                )
            },
            (ReceiveStage::Receiving, ReceiveEvent::Failed) => {
                self.stage = ReceiveStage::Stopped;
                self.failed = true;
                None
            },
            (ReceiveStage::Stopped, ReceiveEvent::Failed) => {
                self.failed = true;
                None
            },
            (ReceiveStage::Receiving, ReceiveEvent::End) => {
                self.stage = ReceiveStage::Done;
                Some(self.closing())
            },
            (ReceiveStage::Stopped, ReceiveEvent::End) => {
                self.stage = ReceiveStage::Done;
                Some(self.closing())
            },
            (ReceiveStage::Delivering, ReceiveEvent::End) => {
                self.stage = ReceiveStage::Done;
                Some(ReceiveProgressState::Finished)
            },
            _ => None,
        }
    }
}

/// Nothing follows the end: after a reception is done, no event changes it
/// and nothing more is reported.
pub proof fn lemma_receive_done_is_final(pipeline: ReceivePipeline, event: ReceiveEvent)
    requires
        pipeline.stage == ReceiveStage::Done,
    ensures
        pipeline.step(event) == (pipeline, None::<ReceiveProgressState>),
{
}

/// Every terminal report ends the reception.
pub proof fn lemma_receive_terminal_report_ends(pipeline: ReceivePipeline, event: ReceiveEvent)
    ensures
        match pipeline.report(event) {
            Some(state) => state.is_terminal() ==> pipeline.next(event).stage == ReceiveStage::Done,
            None => true,
        },
{
}

/// A reception of a file ends as finished only where exactly the announced
/// number of bytes is written and nothing failed, whatever the size of the
/// file, and as cancelled in every other case.
pub proof fn lemma_receive_finishes_on_exact_size(pipeline: ReceivePipeline)
    requires
        pipeline.stage == ReceiveStage::Receiving || pipeline.stage == ReceiveStage::Stopped,
    ensures
        pipeline.report(ReceiveEvent::End) == Some(ReceiveProgressState::Finished) <==> (
        pipeline.received == pipeline.file_size && !pipeline.failed),
        pipeline.report(ReceiveEvent::End) == Some(ReceiveProgressState::Cancelled) <==> !(
        pipeline.received == pipeline.file_size && !pipeline.failed),
        pipeline.next(ReceiveEvent::End).stage == ReceiveStage::Done,
{
}

/// Bytes count only once the file took them: a read changes no count, and a
/// reception in which the stream failed or the file refused bytes ends as
/// cancelled, whatever was read.
pub proof fn lemma_refused_write_is_cancelled(pipeline: ReceivePipeline, bytes: u64)
    requires
        pipeline.stage == ReceiveStage::Receiving,
    ensures
        pipeline.next(ReceiveEvent::ChunkRead { bytes }).received == pipeline.received,
        pipeline.next(ReceiveEvent::ChunkRead { bytes }).next(ReceiveEvent::Failed).report(
            ReceiveEvent::End,
        ) == Some(ReceiveProgressState::Cancelled),
        pipeline.next(ReceiveEvent::Failed).report(ReceiveEvent::End) == Some(
            ReceiveProgressState::Cancelled,
        ),
{
}

/// Writes that keep to the limit never take in more than was announced.
pub proof fn lemma_receive_within_size(pipeline: ReceivePipeline, bytes: u64)
    requires
        pipeline.stage == ReceiveStage::Receiving,
        pipeline.received <= pipeline.file_size,
        bytes <= pipeline.spec_read_limit(),
    ensures
        pipeline.next(ReceiveEvent::ChunkWritten { bytes }).received <= pipeline.file_size,
        pipeline.next(ReceiveEvent::ChunkWritten { bytes }).file_size == pipeline.file_size,
{
}

/// A user who cancels an accepted file before any byte has come ends the
/// reception as cancelled: the first read, whatever it gives, stops the
/// loop, and the end reports the cancellation, so that the file that was
/// created is removed.
pub proof fn lemma_cancel_before_first_byte(file_size: u64, bytes: u64)
    requires
        file_size > 0,
    ensures
        ({
            let pending = ReceivePipeline {
                stage: ReceiveStage::Pending,
                file_size: 0,
                received: 0,
                cancelled: false,
                failed: false,
            };
            let cancelled = pending.next(ReceiveEvent::AcceptedFile { file_size }).next(
                ReceiveEvent::Cancel,
            );
            &&& !cancelled.spec_wants_more()
            &&& cancelled.report(ReceiveEvent::End) == Some(ReceiveProgressState::Cancelled)
            &&& cancelled.next(ReceiveEvent::ChunkRead { bytes }).report(ReceiveEvent::End) == Some(
                ReceiveProgressState::Cancelled,
            )
        }),
{
}

/// Name of the file that a transfer without a file name is written to.
pub const DEFAULT_FILE_NAME: &'static str = "temp.zip";

/// The size that a request announces: that of its file, and none for a
/// text.
pub open spec fn announced_event(intent: IntentView) -> ReceiveEvent {
    match intent {
        IntentView::FileTransfer(file) => ReceiveEvent::AcceptedFile { file_size: file.file_size },
        IntentView::Clipboard(_) => ReceiveEvent::AcceptedClipboard,
    }
}

/// A transfer request that came in over an encrypted stream and waits for
/// the user's answer. It owns the stream until the transfer has ended.
pub struct ConnectionRequest<T: Stream> {
    transfer_request: TransferRequest,
    connection: EncryptedStream<T>,
    file_storage: String,
    pipeline: ReceivePipeline,
}

impl<T: Stream> ConnectionRequest<T> {
    /// The request as the sender wrote it.
    pub closed spec fn request(&self) -> TransferRequestView {
        self.transfer_request@
    }

    /// The directory into which a file is written.
    pub closed spec fn storage(&self) -> Seq<char> {
        self.file_storage@
    }

    /// Where the reception stands.
    pub closed spec fn course(&self) -> ReceivePipeline {
        self.pipeline
    }

    /// The encrypted stream over which the request came.
    pub closed spec fn connection(&self) -> EncryptedStream<T> {
        self.connection
    }

    /// A request that waits for the user's answer.
    pub fn new(transfer_request: TransferRequest, connection: EncryptedStream<T>, file_storage: String) -> (request:
        ConnectionRequest<T>)
        ensures
            request.request() == transfer_request@,
            request.storage() == file_storage@,
            request.connection() == connection,
            request.course() == (ReceivePipeline {
                stage: ReceiveStage::Pending,
                file_size: 0,
                received: 0,
                cancelled: false,
                failed: false,
            }),
    {
        ConnectionRequest {
            transfer_request,
            connection,
            file_storage,
            pipeline: ReceivePipeline::new(),
        }
    }

    /// Who sent the request.
    pub fn get_sender(&self) -> (sender: Device)
        ensures
            sender@ == self.request().device,
    {
        self.transfer_request.device.clone()
    }

    /// What the sender wishes to transfer.
    pub fn get_intent(&self) -> (intent: Intent)
        ensures
            intent@ == self.request().intent,
    {
        self.transfer_request.intent.clone()
    }

    /// The kind of the intent.
    pub fn get_intent_type(&self) -> (kind: ConnectionIntentType)
        ensures
            kind == match self.request().intent {
                IntentView::FileTransfer(_) => ConnectionIntentType::FileTransfer,
                IntentView::Clipboard(_) => ConnectionIntentType::Clipboard,
            },
    {
        match &self.transfer_request.intent {
            Intent::FileTransfer(_) => ConnectionIntentType::FileTransfer,
            Intent::Clipboard(_) => ConnectionIntentType::Clipboard,
        }
    }

    /// The intent, where it is one to send a file.
    pub fn get_file_transfer_intent(&self) -> (intent: Option<FileTransferIntent>)
        ensures
            match intent {
                Some(file) => self.request().intent == IntentView::FileTransfer(file@),
                None => self.request().intent is Clipboard,
            },
    {
        match &self.transfer_request.intent {
            Intent::FileTransfer(file) => Some(file.clone()),
            Intent::Clipboard(_) => None,
        }
    }

    /// The intent, where it is one to send a text.
    pub fn get_clipboard_intent(&self) -> (intent: Option<ClipboardTransferIntent>)
        ensures
            match intent {
                Some(text) => self.request().intent == IntentView::Clipboard(text@),
                None => self.request().intent is FileTransfer,
            },
    {
        match &self.transfer_request.intent {
            Intent::FileTransfer(_) => None,
            Intent::Clipboard(text) => Some(text.clone()),
        }
    }

    /// The directory into which a file is written.
    pub fn get_file_storage(&self) -> (directory: String)
        ensures
            directory@ == self.storage(),
    {
        self.file_storage.clone()
    }

    /// The name under which a file is written into the directory: the name
    /// that the request gives, or `temp.zip` where it gives none. `None` for
    /// a request that announces no file.
    pub fn destination_file_name(&self) -> (name: Option<String>)
        ensures
            match self.request().intent {
                IntentView::FileTransfer(file) => name is Some && name.unwrap()@ == (match file.file_name {
                    Some(given) => given,
                    None => DEFAULT_FILE_NAME@,
                }),
                IntentView::Clipboard(_) => name is None,
            },
    {
        match &self.transfer_request.intent {
            Intent::FileTransfer(file) => match &file.file_name {
                Some(given) => Some(given.clone()),
                None => Some(DEFAULT_FILE_NAME.to_owned()),
            },
            Intent::Clipboard(_) => None,
        }
    }

    /// Declines the request: the sender is told so and the stream is
    /// closed. A request that was answered before is left alone.
    pub fn decline(&mut self)
        ensures
            final(self).request() == old(self).request(),
            final(self).storage() == old(self).storage(),
            final(self).course() == old(self).course().next(ReceiveEvent::Declined),
            same_session(final(self).connection().cipher, old(self).connection().cipher),
    {
        if self.pipeline.stage == ReceiveStage::Pending {
            let response = TransferRequestResponse { accepted: false };
            let _ = self.connection.send_frame(response.encode_to_vec().as_slice());
            self.connection.close();
        }
        let _ = self.pipeline.advance(ReceiveEvent::Declined);
    }

    /// Notes that the user cancelled: the loop that reads stops at its next
    /// turn.
    pub fn cancel(&mut self)
        ensures
            final(self).request() == old(self).request(),
            final(self).storage() == old(self).storage(),
            final(self).course() == old(self).course().next(ReceiveEvent::Cancel),
            final(self).connection() == old(self).connection(),
    {
        let _ = self.pipeline.advance(ReceiveEvent::Cancel);
    }

    /// Accepts the request: the delegate hears of the handshake, the sender
    /// is told of the acceptance, and the reception of what was announced
    /// begins. Hands out what was reported, which is nothing for a request
    /// that was answered before.
    pub fn accept<P: ReceiveProgressDelegate>(&mut self, delegate: &Option<P>) -> (report: Option<
        ReceiveProgressState,
    >)
        ensures
            final(self).request() == old(self).request(),
            final(self).storage() == old(self).storage(),
            final(self).course() == old(self).course().next(
                announced_event(old(self).request().intent),
            ),
            report == old(self).course().report(announced_event(old(self).request().intent)),
            same_session(final(self).connection().cipher, old(self).connection().cipher),
    {
        let pending = self.pipeline.stage == ReceiveStage::Pending;
        let event = self.announced();
        let report = self.pipeline.advance(event);
        update_progress(delegate, report);
        if pending {
            self.send_acceptance();
        }
        report
    }

    /// The event that stands for the acceptance of what was announced.
    fn announced(&self) -> (event: ReceiveEvent)
        ensures
            event == announced_event(self.request().intent),
    {
        match &self.transfer_request.intent {
            Intent::FileTransfer(file) => ReceiveEvent::AcceptedFile { file_size: file.file_size },
            Intent::Clipboard(_) => ReceiveEvent::AcceptedClipboard,
        }
    }

    /// Tells the sender that the request is accepted.
    fn send_acceptance(&mut self)
        ensures
            final(self).request() == old(self).request(),
            final(self).storage() == old(self).storage(),
            final(self).course() == old(self).course(),
            same_session(final(self).connection().cipher, old(self).connection().cipher),
    {
        let response = TransferRequestResponse { accepted: true };
        let _ = self.connection.send_frame(response.encode_to_vec().as_slice());
    }

    /// Whether another read is due.
    pub fn wants_more(&self) -> (more: bool)
        ensures
            more == self.course().spec_wants_more(),
    {
        self.pipeline.wants_more()
    }

    /// One read of the loop that takes in a file: the next bytes of the
    /// stream, no more than the file still lacks, to be written to the
    /// file. Nothing is read, and nothing handed out, where no read is due.
    /// Nothing is handed out either where the stream has ended, which stops
    /// the loop, or where it failed, which ends the reception as cancelled.
    /// Bytes that are handed out are not counted yet: `record_write` counts
    /// them once the file took them. The keystream moves on by the bytes
    /// that are handed out.
    pub fn handle_file(&mut self) -> (chunk: Option<Vec<u8>>)
        ensures
            final(self).request() == old(self).request(),
            final(self).storage() == old(self).storage(),
            same_session(final(self).connection().cipher, old(self).connection().cipher),
            final(self).connection().cipher.position() == old(self).connection().cipher.position()
                + (match chunk {
                Some(bytes) => bytes@.len(),
                None => 0,
            }),
            !old(self).course().spec_wants_more() ==> chunk is None && final(self).course()
                == old(self).course(),
            old(self).course().spec_wants_more() ==> match chunk {
                Some(bytes) => 0 < bytes@.len() <= old(self).course().spec_read_limit() 
                    && final(self).course() == old(self).course(),
                None => stopped_reading(old(self).course(), final(self).course()),
            },
    {
        if !self.pipeline.wants_more() {
            return None;
        }
        let limit = self.pipeline.read_limit();
        let (event, chunk) = read_step(self.connection.read(limit));
        let _ = self.pipeline.advance(event);
        chunk
    }

    /// Takes note of what the file did with a chunk: bytes that it took are
    /// counted and reported, and bytes that it refused end the reception as
    /// cancelled.
    pub fn record_write(&mut self, bytes: u64, taken: bool) -> (report: Option<
        ReceiveProgressState,
    >)
        ensures
            final(self).request() == old(self).request(),
            final(self).storage() == old(self).storage(),
            final(self).course() == old(self).course().next(write_event(bytes, taken)),
            report == old(self).course().report(write_event(bytes, taken)),
            final(self).connection() == old(self).connection(),
    {
        if taken {
            self.pipeline.advance(ReceiveEvent::ChunkWritten { bytes })
        } else {
            self.pipeline.advance(ReceiveEvent::Failed)
        }
    }

    /// Ends the reception: the stream is closed, and what is reported tells
    /// whether the transfer finished or was cancelled. After a cancellation
    /// the caller removes what it wrote of the file.
    pub fn finish(&mut self) -> (report: Option<ReceiveProgressState>)
        ensures
            final(self).request() == old(self).request(),
            final(self).storage() == old(self).storage(),
            final(self).course() == old(self).course().next(ReceiveEvent::End),
            report == old(self).course().report(ReceiveEvent::End),
            final(self).connection() == old(self).connection(),
    {
        if self.pipeline.stage != ReceiveStage::Done && self.pipeline.stage != ReceiveStage::Pending {
            self.connection.close();
        }
        self.pipeline.advance(ReceiveEvent::End)
    }
}

/// What the loop that takes in a file makes of the answer of its stream:
/// the event that stands for it, and the chunk to be written. Bytes that
/// came are a chunk; no bytes, at the end of the stream, and a failure are
/// none.
pub fn read_step(answer: Result<Vec<u8>, StreamError>) -> (step: (ReceiveEvent, Option<Vec<u8>>))
    ensures
        match answer {
            Ok(chunk) => {
                &&& step.0 == (ReceiveEvent::ChunkRead { bytes: chunk@.len() as u64 })
                &&& step.1 == (if chunk@.len() > 0 {
                    Some(chunk)
                } else {
                    None
                })
            },
            Err(_) => step.0 == ReceiveEvent::Failed && step.1 is None,
        },
{
    match answer {
        Ok(chunk) => {
            let event = ReceiveEvent::ChunkRead { bytes: chunk.len() as u64 };
            if chunk.len() == 0 {
                (event, None)
            } else {
                (event, Some(chunk))
            }
        },
        Err(_) => (ReceiveEvent::Failed, None),
    }
}

/// The event that stands for what the file did with a chunk.
pub open spec fn write_event(bytes: u64, taken: bool) -> ReceiveEvent {
    if taken {
        ReceiveEvent::ChunkWritten { bytes }
    } else {
        ReceiveEvent::Failed
    }
}

/// Whether a reception went from `before` to `after` by a read that stopped
/// the loop: the stream had ended, or it failed.
pub open spec fn stopped_reading(before: ReceivePipeline, after: ReceivePipeline) -> bool {
    after == before.next(ReceiveEvent::ChunkRead { bytes: 0 }) || after == before.next(
        ReceiveEvent::Failed,
    )
}

/// What holds at the end of a reception that was accepted: it is done; for
/// a file, no more than the announced number of bytes is written, and it
/// ended as finished exactly where all of them are written and neither the
/// stream nor the file failed, and as cancelled otherwise; for a text, it
/// ended as finished.
pub open spec fn received_as_announced(
    intent: IntentView,
    course: ReceivePipeline,
    end: Option<ReceiveProgressState>,
) -> bool {
    &&& course.stage == ReceiveStage::Done
    &&& match intent {
        IntentView::FileTransfer(announced) => {
            &&& course.file_size == announced.file_size
            &&& course.received <= announced.file_size
            &&& end == Some(ReceiveProgressState::Finished) <==> (course.received
                == announced.file_size && !course.failed)
            &&& end == Some(ReceiveProgressState::Cancelled) <==> !(course.received
                == announced.file_size && !course.failed)
        },
        IntentView::Clipboard(_) => end == Some(ReceiveProgressState::Finished),
    }
}

/// Whether a request announces a file of no bytes.
pub open spec fn announces_nothing(intent: IntentView) -> bool {
    match intent {
        IntentView::FileTransfer(announced) => announced.file_size == 0,
        IntentView::Clipboard(_) => false,
    }
}

/// Tells a delegate, if there is one, of a state.
pub fn update_progress<P: ReceiveProgressDelegate>(delegate: &Option<P>, report: Option<
    ReceiveProgressState,
>) {
    match (delegate, report) {
        (Some(delegate), Some(state)) => {
            delegate.progress_changed(state);
        },
        _ => {},
    }
}

impl<T: Stream> ConnectionRequest<T> {
    /// Accepts the request and takes in what was announced: the delegate
    /// hears of the handshake, the sender is told of the acceptance, and the
    /// bytes of a file are read from the stream, one buffer at most at a
    /// time, and written to `file` until the announced size is reached, the
    /// stream ends or the user cancels. Bytes count once `file` took them;
    /// a chunk that `file` does not take in full, and a failure of the
    /// stream, end the reception as cancelled. The delegate hears of every
    /// step.
    ///
    /// Hands out the state in which the reception ended: for a file,
    /// `Finished` exactly where the announced number of bytes is written
    /// and nothing failed, and `Cancelled` otherwise, in which case the
    /// caller removes the file. A request that was answered before is left
    /// alone, and nothing is handed out.
    pub fn accept_into<W: StreamWrite, P: ReceiveProgressDelegate>(
        &mut self,
        file: &mut W,
        delegate: &Option<P>,
    ) -> (end: Option<ReceiveProgressState>)
        ensures
            final(self).request() == old(self).request(),
            final(self).storage() == old(self).storage(),
            old(self).course().stage != ReceiveStage::Pending ==> end is None,
            old(self).course().stage != ReceiveStage::Pending ==> final(self).course()
                == old(self).course(),
            old(self).course().stage == ReceiveStage::Pending ==> received_as_announced(
                old(self).request().intent,
                final(self).course(),
                end,
            ),
            old(self).course().stage == ReceiveStage::Pending && !old(self).course().failed
                && announces_nothing(old(self).request().intent) ==> end == Some(
                ReceiveProgressState::Finished,
            ),
            same_session(final(self).connection().cipher, old(self).connection().cipher),
    {
        if self.pipeline.stage != ReceiveStage::Pending {
            return None;
        }
        let _ = self.accept(delegate);
        while self.wants_more()
            invariant
                self.request() == old(self).request(),
                self.storage() == old(self).storage(),
                same_session(self.connection().cipher, old(self).connection().cipher),
                self.course().file_size == 0 ==> self.course().failed == old(self).course().failed
                    && self.course().received == 0,
                self.course().received <= self.course().file_size,
                self.course().stage == ReceiveStage::Receiving || self.course().stage
                    == ReceiveStage::Stopped || self.course().stage == ReceiveStage::Delivering,
                match old(self).request().intent {
                    IntentView::FileTransfer(announced) => self.course().file_size
                        == announced.file_size && self.course().stage != ReceiveStage::Delivering,
                    IntentView::Clipboard(_) => self.course().stage == ReceiveStage::Delivering,
                },
            decreases self.course().file_size - self.course().received,
        {
            let chunk = match self.handle_file() {
                Some(chunk) => chunk,
                None => {
                    break ;
                },
            };
            let taken = match write_all(file, chunk.as_slice()) {
                Ok(()) => true,
                Err(_) => false,
            };
            let report = self.record_write(chunk.len() as u64, taken);
            update_progress(delegate, report);
            if !taken {
                break ;
            }
        }
        let end = self.finish();
        update_progress(delegate, end);
        end
    }
}

} // verus!
