//! Messages of a session: the key exchange, the transfer request and its
//! answer.

use vstd::prelude::*;
use vstd::utf8::encode_utf8;
use crate::errors::FramingError;
use crate::protocol::framing::decode_frame;
use crate::protocol::framing::encode_frame;
use crate::protocol::framing::frame;
use crate::protocol::framing::lemma_unframe_frame;
use crate::protocol::framing::unframe;
use crate::protocol::discovery::Device;
use crate::protocol::discovery::DeviceView;
use crate::protocol::scalar::bool_slot;
use crate::protocol::scalar::bytes_slot;
use crate::protocol::scalar::get_block;
use crate::protocol::scalar::get_bool;
use crate::protocol::scalar::get_bytes;
use crate::protocol::scalar::get_opt_string;
use crate::protocol::scalar::get_string;
use crate::protocol::scalar::get_uint64;
use crate::protocol::scalar::lemma_string_roundtrip;
use crate::protocol::scalar::opt_string_slot;
use crate::protocol::scalar::set_bool;
use crate::protocol::scalar::set_bytes;
use crate::protocol::scalar::set_opt_string;
use crate::protocol::scalar::set_string;
use crate::protocol::scalar::set_uint64;
use crate::protocol::scalar::slot_block;
use crate::protocol::scalar::slot_bool;
use crate::protocol::scalar::slot_bytes;
use crate::protocol::scalar::slot_opt_string;
use crate::protocol::scalar::slot_string;
use crate::protocol::scalar::slot_uint64;
use crate::protocol::scalar::string_slot;
use crate::protocol::scalar::uint64_slot;
use crate::protocol::wire::bytes_slot_kind;
use crate::protocol::wire::decode_slots;
use crate::protocol::wire::encode_slots;
use crate::protocol::wire::is_body;
use crate::protocol::wire::lemma_encoded_slots_are_a_body;
use crate::protocol::wire::lemma_slots_roundtrip;
use crate::protocol::wire::message_choice_slot;
use crate::protocol::wire::message_slot;
use crate::protocol::wire::spec_message_choice_slot;
use crate::protocol::wire::spec_message_slot;
use crate::protocol::wire::spec_text_slot;
use crate::protocol::wire::text_slot;
use crate::protocol::wire::read_slots;
use crate::protocol::wire::spec_bytes_slot;
use crate::protocol::wire::spec_unused_slot;
use crate::protocol::wire::spec_varint_slot;
use crate::protocol::wire::unused_slot;
use crate::protocol::wire::varint_slot;
use crate::protocol::wire::write_slots;
use crate::protocol::wire::FieldValue;
use crate::protocol::wire::Shape;
use crate::protocol::wire::SlotValue;
use crate::protocol::wire::Slots;
use crate::protocol::wire::SlotsView;

verus! {

/// First message of the key exchange: the initiator's public key.
#[derive(Debug, PartialEq, Eq)]
pub struct EncryptionRequest {
    pub public_key: Vec<u8>,
}

/// Mathematical content of an `EncryptionRequest`.
pub ghost struct EncryptionRequestView {
    pub public_key: Seq<u8>,
}

impl View for EncryptionRequest {
    type V = EncryptionRequestView;

    open spec fn view(&self) -> EncryptionRequestView {
        EncryptionRequestView { public_key: self.public_key@ }
    }
}

impl EncryptionRequestView {
    /// Fields: 1 public key.
    pub open spec fn shape() -> Shape {
        Shape {
            k1: spec_bytes_slot(),
            k2: spec_unused_slot(),
            k3: spec_unused_slot(),
            k4: spec_unused_slot(),
        }
    }

    /// The slots that hold this value: what the encoder writes.
    pub open spec fn slots(self) -> SlotsView {
        SlotsView { f1: bytes_slot(self.public_key), f2: None, f3: None, f4: None }
    }

    /// The value that decoded slots stand for, if they stand for one.
    pub open spec fn from_slots(s: SlotsView) -> Option<EncryptionRequestView> {
        Some(EncryptionRequestView { public_key: slot_bytes(s.f1) })
    }

    /// The body that stands for this message.
    pub open spec fn encode(self) -> Seq<u8> {
        encode_slots(self.slots())
    }

    /// The message that a body stands for, if it stands for one.
    pub open spec fn decode(bytes: Seq<u8>) -> Option<EncryptionRequestView> {
        match decode_slots(bytes, Self::shape()) {
            Some(s) => Self::from_slots(s),
            None => None,
        }
    }

    /// Whether the key is short enough for its length to be written.
    pub open spec fn encodable(self) -> bool {
        self.public_key.len() <= u64::MAX
    }

    /// Decoding the body of a message gives that message.
    pub proof fn lemma_roundtrip(self)
        requires
            self.encodable(),
        ensures
            Self::decode(self.encode()) == Some(self),
    {
        lemma_slots_roundtrip(self.slots(), Self::shape());
        if self.public_key.len() == 0 {
            assert(self.public_key =~= Seq::<u8>::empty());
        }
    }
}

impl EncryptionRequest {
    /// The body that stands for this message.
    pub fn encode_to_vec(&self) -> (out: Vec<u8>)
        ensures
            out@ == self@.encode(),
    {
        let slots = Slots { f1: set_bytes(self.public_key.as_slice()), f2: None, f3: None, f4: None };
        write_slots(&slots)
    }

    /// Reads a message from its body; `None` where the body is not one of
    /// this schema.
    pub fn decode(bytes: &[u8]) -> (r: Option<EncryptionRequest>)
        ensures
            match r {
                Some(d) => EncryptionRequestView::decode(bytes@) == Some(d@),
                None => EncryptionRequestView::decode(bytes@) is None,
            },
    {
        let shape = Shape {
            k1: bytes_slot_kind(),
            k2: unused_slot(),
            k3: unused_slot(),
            k4: unused_slot(),
        };
        match read_slots(bytes, &shape) {
            Some(slots) => Some(EncryptionRequest { public_key: get_bytes(slots.f1) }),
            None => None,
        }
    }
}

/// Second message of the key exchange: the responder's public key and the
/// nonce of the session.
#[derive(Debug, PartialEq, Eq)]
pub struct EncryptionResponse {
    pub public_key: Vec<u8>,
    pub iv: Vec<u8>,
}

/// Mathematical content of an `EncryptionResponse`.
pub ghost struct EncryptionResponseView {
    pub public_key: Seq<u8>,
    pub iv: Seq<u8>,
}

impl View for EncryptionResponse {
    type V = EncryptionResponseView;

    open spec fn view(&self) -> EncryptionResponseView {
        EncryptionResponseView { public_key: self.public_key@, iv: self.iv@ }
    }
}

impl EncryptionResponseView {
    /// Fields: 1 public key, 2 nonce.
    pub open spec fn shape() -> Shape {
        Shape {
            k1: spec_bytes_slot(),
            k2: spec_bytes_slot(),
            k3: spec_unused_slot(),
            k4: spec_unused_slot(),
        }
    }

    /// The slots that hold this value: what the encoder writes.
    pub open spec fn slots(self) -> SlotsView {
        SlotsView { f1: bytes_slot(self.public_key), f2: bytes_slot(self.iv), f3: None, f4: None }
    }

    /// The value that decoded slots stand for, if they stand for one.
    pub open spec fn from_slots(s: SlotsView) -> Option<EncryptionResponseView> {
        Some(EncryptionResponseView { public_key: slot_bytes(s.f1), iv: slot_bytes(s.f2) })
    }

    /// The body that stands for this message.
    pub open spec fn encode(self) -> Seq<u8> {
        encode_slots(self.slots())
    }

    /// The message that a body stands for, if it stands for one.
    pub open spec fn decode(bytes: Seq<u8>) -> Option<EncryptionResponseView> {
        match decode_slots(bytes, Self::shape()) {
            Some(s) => Self::from_slots(s),
            None => None,
        }
    }

    /// Whether key and nonce are short enough for their lengths to be
    /// written.
    pub open spec fn encodable(self) -> bool {
        self.public_key.len() <= u64::MAX && self.iv.len() <= u64::MAX
    }

    /// Decoding the body of a message gives that message.
    pub proof fn lemma_roundtrip(self)
        requires
            self.encodable(),
        ensures
            Self::decode(self.encode()) == Some(self),
    {
        lemma_slots_roundtrip(self.slots(), Self::shape());
        if self.public_key.len() == 0 {
            assert(self.public_key =~= Seq::<u8>::empty());
        }
        if self.iv.len() == 0 {
            assert(self.iv =~= Seq::<u8>::empty());
        }
    }
}

impl EncryptionResponse {
    /// The body that stands for this message.
    pub fn encode_to_vec(&self) -> (out: Vec<u8>)
        ensures
            out@ == self@.encode(),
    {
        let slots = Slots {
            f1: set_bytes(self.public_key.as_slice()),
            f2: set_bytes(self.iv.as_slice()),
            f3: None,
            f4: None,
        };
        write_slots(&slots)
    }

    /// Reads a message from its body; `None` where the body is not one of
    /// this schema.
    pub fn decode(bytes: &[u8]) -> (r: Option<EncryptionResponse>)
        ensures
            match r {
                Some(d) => EncryptionResponseView::decode(bytes@) == Some(d@),
                None => EncryptionResponseView::decode(bytes@) is None,
            },
    {
        let shape = Shape {
            k1: bytes_slot_kind(),
            k2: bytes_slot_kind(),
            k3: unused_slot(),
            k4: unused_slot(),
        };
        match read_slots(bytes, &shape) {
            Some(slots) => Some(
                EncryptionResponse { public_key: get_bytes(slots.f1), iv: get_bytes(slots.f2) },
            ),
            None => None,
        }
    }
}

/// The answer to a transfer request.
#[derive(Clone, Copy, Debug, PartialEq, Eq, Structural)]
pub struct TransferRequestResponse {
    pub accepted: bool,
}

impl TransferRequestResponse {
    /// Fields: 1 accepted.
    pub open spec fn shape() -> Shape {
        Shape {
            k1: spec_varint_slot(),
            k2: spec_unused_slot(),
            k3: spec_unused_slot(),
            k4: spec_unused_slot(),
        }
    }

    /// The slots that hold this value: what the encoder writes.
    pub open spec fn slots(self) -> SlotsView {
        SlotsView { f1: bool_slot(self.accepted), f2: None, f3: None, f4: None }
    }

    /// The value that decoded slots stand for, if they stand for one.
    pub open spec fn from_slots(s: SlotsView) -> Option<TransferRequestResponse> {
        Some(TransferRequestResponse { accepted: slot_bool(s.f1) })
    }

    /// The body that stands for this answer.
    pub open spec fn encode(self) -> Seq<u8> {
        encode_slots(self.slots())
    }

    /// The answer that a body stands for, if it stands for one.
    pub open spec fn spec_decode(bytes: Seq<u8>) -> Option<TransferRequestResponse> {
        match decode_slots(bytes, Self::shape()) {
            Some(s) => Self::from_slots(s),
            None => None,
        }
    }

    /// Decoding the body of an answer gives that answer.
    pub proof fn lemma_roundtrip(self)
        ensures
            Self::spec_decode(self.encode()) == Some(self),
    {
        lemma_slots_roundtrip(self.slots(), Self::shape());
    }

    /// The body that stands for this answer.
    pub fn encode_to_vec(&self) -> (out: Vec<u8>)
        ensures
            out@ == self.encode(),
    {
        let slots = Slots { f1: set_bool(self.accepted), f2: None, f3: None, f4: None };
        write_slots(&slots)
    }

    /// Reads an answer from its body; `None` where the body is not one of
    /// this schema.
    pub fn decode(bytes: &[u8]) -> (r: Option<TransferRequestResponse>)
        ensures
            r == Self::spec_decode(bytes@),
    {
        let shape = Shape {
            k1: varint_slot(),
            k2: unused_slot(),
            k3: unused_slot(),
            k4: unused_slot(),
        };
        match read_slots(bytes, &shape) {
            Some(slots) => Some(TransferRequestResponse { accepted: get_bool(&slots.f1) }),
            None => None,
        }
    }
}

/// The wish to send one file.
#[derive(Debug, PartialEq, Eq)]
pub struct FileTransferIntent {
    pub file_name: Option<String>,
    pub file_size: u64,
    pub multiple: bool,
}

/// Mathematical content of a `FileTransferIntent`.
pub ghost struct FileTransferIntentView {
    pub file_name: Option<Seq<char>>,
    pub file_size: u64,
    pub multiple: bool,
}

/// The view of an optional text.
pub open spec fn opt_string_view(s: Option<String>) -> Option<Seq<char>> {
    match s {
        Some(text) => Some(text@),
        None => None,
    }
}

impl View for FileTransferIntent {
    type V = FileTransferIntentView;

    open spec fn view(&self) -> FileTransferIntentView {
        FileTransferIntentView {
            file_name: opt_string_view(self.file_name),
            file_size: self.file_size,
            multiple: self.multiple,
        }
    }
}

impl Clone for FileTransferIntent {
    fn clone(&self) -> (r: FileTransferIntent)
        ensures
            r@ == self@,
    {
        FileTransferIntent {
            file_name: match &self.file_name {
                Some(name) => Some(name.clone()),
                None => None,
            },
            file_size: self.file_size,
            multiple: self.multiple,
        }
    }
}

impl FileTransferIntentView {
    /// Fields: 1 file name, 2 file size, 3 multiple.
    pub open spec fn shape() -> Shape {
        Shape {
            k1: spec_text_slot(),
            k2: spec_varint_slot(),
            k3: spec_varint_slot(),
            k4: spec_unused_slot(),
        }
    }

    /// The slots that hold this value: what the encoder writes.
    pub open spec fn slots(self) -> SlotsView {
        SlotsView {
            f1: opt_string_slot(self.file_name),
            f2: uint64_slot(self.file_size),
            f3: bool_slot(self.multiple),
            f4: None,
        }
    }

    /// The value that decoded slots stand for, if they stand for one.
    pub open spec fn from_slots(s: SlotsView) -> Option<FileTransferIntentView> {
        match slot_opt_string(s.f1) {
            Some(file_name) => Some(
                FileTransferIntentView {
                    file_name,
                    file_size: slot_uint64(s.f2),
                    multiple: slot_bool(s.f3),
                },
            ),
            None => None,
        }
    }

    /// The body that stands for this intent.
    pub open spec fn encode(self) -> Seq<u8> {
        encode_slots(self.slots())
    }

    /// The intent that a body stands for, if it stands for one.
    pub open spec fn decode(bytes: Seq<u8>) -> Option<FileTransferIntentView> {
        match decode_slots(bytes, Self::shape()) {
            Some(s) => Self::from_slots(s),
            None => None,
        }
    }

    /// Whether the file name is short enough for its length to be written.
    pub open spec fn encodable(self) -> bool {
        match self.file_name {
            Some(name) => encode_utf8(name).len() <= u64::MAX,
            None => true,
        }
    }

    /// Decoding the body of an intent gives that intent, and that body is
    /// a sequence of fields.
    pub proof fn lemma_roundtrip(self)
        requires
            self.encodable(),
        ensures
            Self::decode(self.encode()) == Some(self),
            is_body(self.encode()),
    {
        if let Some(name) = self.file_name {
            lemma_string_roundtrip(name);
        }
        lemma_slots_roundtrip(self.slots(), Self::shape());
        lemma_encoded_slots_are_a_body(self.slots());
    }
}

impl FileTransferIntent {
    /// The body that stands for this intent.
    pub fn encode_to_vec(&self) -> (out: Vec<u8>)
        ensures
            out@ == self@.encode(),
    {
        let slots = Slots {
            f1: set_opt_string(&self.file_name),
            f2: set_uint64(self.file_size),
            f3: set_bool(self.multiple),
            f4: None,
        };
        write_slots(&slots)
    }

    /// Reads an intent from its body; `None` where the body is not one of
    /// this schema.
    pub fn decode(bytes: &[u8]) -> (r: Option<FileTransferIntent>)
        ensures
            match r {
                Some(d) => FileTransferIntentView::decode(bytes@) == Some(d@),
                None => FileTransferIntentView::decode(bytes@) is None,
            },
    {
        let shape = Shape {
            k1: text_slot(),
            k2: varint_slot(),
            k3: varint_slot(),
            k4: unused_slot(),
        };
        let slots = match read_slots(bytes, &shape) {
            Some(s) => s,
            None => {
                return None;
            },
        };
        let file_size = get_uint64(&slots.f2);
        let multiple = get_bool(&slots.f3);
        match get_opt_string(slots.f1) {
            Some(file_name) => Some(FileTransferIntent { file_name, file_size, multiple }),
            None => None,
        }
    }
}

/// The wish to send a piece of text for the clipboard.
#[derive(Debug, PartialEq, Eq)]
pub struct ClipboardTransferIntent {
    pub text: String,
}

/// Mathematical content of a `ClipboardTransferIntent`.
pub ghost struct ClipboardTransferIntentView {
    pub text: Seq<char>,
}

impl View for ClipboardTransferIntent {
    type V = ClipboardTransferIntentView;

    open spec fn view(&self) -> ClipboardTransferIntentView {
        ClipboardTransferIntentView { text: self.text@ }
    }
}

impl Clone for ClipboardTransferIntent {
    fn clone(&self) -> (r: ClipboardTransferIntent)
        ensures
            r@ == self@,
    {
        ClipboardTransferIntent { text: self.text.clone() }
    }
}

impl ClipboardTransferIntentView {
    /// Fields: 1 text.
    pub open spec fn shape() -> Shape {
        Shape {
            k1: spec_text_slot(),
            k2: spec_unused_slot(),
            k3: spec_unused_slot(),
            k4: spec_unused_slot(),
        }
    }

    /// The slots that hold this value: what the encoder writes.
    pub open spec fn slots(self) -> SlotsView {
        SlotsView { f1: string_slot(self.text), f2: None, f3: None, f4: None }
    }

    /// The value that decoded slots stand for, if they stand for one.
    pub open spec fn from_slots(s: SlotsView) -> Option<ClipboardTransferIntentView> {
        match slot_string(s.f1) {
            Some(text) => Some(ClipboardTransferIntentView { text }),
            None => None,
        }
    }

    /// The body that stands for this intent.
    pub open spec fn encode(self) -> Seq<u8> {
        encode_slots(self.slots())
    }

    /// The intent that a body stands for, if it stands for one.
    pub open spec fn decode(bytes: Seq<u8>) -> Option<ClipboardTransferIntentView> {
        match decode_slots(bytes, Self::shape()) {
            Some(s) => Self::from_slots(s),
            None => None,
        }
    }

    /// Whether the text is short enough for its length to be written.
    pub open spec fn encodable(self) -> bool {
        encode_utf8(self.text).len() <= u64::MAX
    }

    /// Decoding the body of an intent gives that intent, and that body is
    /// a sequence of fields.
    pub proof fn lemma_roundtrip(self)
        requires
            self.encodable(),
        ensures
            Self::decode(self.encode()) == Some(self),
            is_body(self.encode()),
    {
        lemma_string_roundtrip(self.text);
        lemma_slots_roundtrip(self.slots(), Self::shape());
        lemma_encoded_slots_are_a_body(self.slots());
    }
}

impl ClipboardTransferIntent {
    /// The body that stands for this intent.
    pub fn encode_to_vec(&self) -> (out: Vec<u8>)
        ensures
            out@ == self@.encode(),
    {
        let slots = Slots { f1: set_string(&self.text), f2: None, f3: None, f4: None };
        write_slots(&slots)
    }

    /// Reads an intent from its body; `None` where the body is not one of
    /// this schema.
    pub fn decode(bytes: &[u8]) -> (r: Option<ClipboardTransferIntent>)
        ensures
            match r {
                Some(d) => ClipboardTransferIntentView::decode(bytes@) == Some(d@),
                None => ClipboardTransferIntentView::decode(bytes@) is None,
            },
    {
        let shape = Shape {
            k1: text_slot(),
            k2: unused_slot(),
            k3: unused_slot(),
            k4: unused_slot(),
        };
        let slots = match read_slots(bytes, &shape) {
            Some(s) => s,
            None => {
                return None;
            },
        };
        match get_string(slots.f1) {
            Some(text) => Some(ClipboardTransferIntent { text }),
            None => None,
        }
    }
}

/// What a sender wishes to transfer.
#[derive(Debug, PartialEq, Eq)]
pub enum Intent {
    FileTransfer(FileTransferIntent),
    Clipboard(ClipboardTransferIntent),
}

/// Mathematical content of an `Intent`.
pub ghost enum IntentView {
    FileTransfer(FileTransferIntentView),
    Clipboard(ClipboardTransferIntentView),
}

impl View for Intent {
    type V = IntentView;

    open spec fn view(&self) -> IntentView {
        match self {
            Intent::FileTransfer(f) => IntentView::FileTransfer(f@),
            Intent::Clipboard(c) => IntentView::Clipboard(c@),
        }
    }
}

impl Clone for Intent {
    fn clone(&self) -> (r: Intent)
        ensures
            r@ == self@,
    {
        match self {
            Intent::FileTransfer(f) => Intent::FileTransfer(f.clone()),
            Intent::Clipboard(c) => Intent::Clipboard(c.clone()),
        }
    }
}

/// The first message on an encrypted stream: who sends, and what.
#[derive(Debug, PartialEq, Eq)]
pub struct TransferRequest {
    pub device: Device,
    pub intent: Intent,
}

/// Mathematical content of a `TransferRequest`.
pub ghost struct TransferRequestView {
    pub device: DeviceView,
    pub intent: IntentView,
}

impl View for TransferRequest {
    type V = TransferRequestView;

    open spec fn view(&self) -> TransferRequestView {
        TransferRequestView { device: self.device@, intent: self.intent@ }
    }
}

impl Clone for TransferRequest {
    fn clone(&self) -> (r: TransferRequest)
        ensures
            r@ == self@,
    {
        TransferRequest { device: self.device.clone(), intent: self.intent.clone() }
    }
}

impl TransferRequestView {
    /// Fields: 1 device; then exactly one of 2 file transfer, 3 clipboard.
    pub open spec fn shape() -> Shape {
        Shape {
            k1: spec_message_slot(),
            k2: spec_message_choice_slot(),
            k3: spec_message_choice_slot(),
            k4: spec_unused_slot(),
        }
    }

    /// The slots that hold this value: what the encoder writes.
    pub open spec fn slots(self) -> SlotsView {
        SlotsView {
            f1: Some(FieldValue::Bytes(self.device.encode())),
            f2: match self.intent {
                IntentView::FileTransfer(f) => Some(FieldValue::Bytes(f.encode())),
                IntentView::Clipboard(_) => None,
            },
            f3: match self.intent {
                IntentView::FileTransfer(_) => None,
                IntentView::Clipboard(c) => Some(FieldValue::Bytes(c.encode())),
            },
            f4: None,
        }
    }

    /// The intent that the two slots of the group stand for: the member that
    /// was read last decides.
    pub open spec fn intent_of(file: Option<FieldValue>, clipboard: Option<FieldValue>) -> Option<
        IntentView,
    > {
        match slot_block(file) {
            Some(b) => match FileTransferIntentView::decode(b) {
                Some(f) => Some(IntentView::FileTransfer(f)),
                None => None,
            },
            None => match slot_block(clipboard) {
                Some(b) => match ClipboardTransferIntentView::decode(b) {
                    Some(c) => Some(IntentView::Clipboard(c)),
                    None => None,
                },
                None => None,
            },
        }
    }

    /// Device and intent are both required.
    pub open spec fn from_slots(s: SlotsView) -> Option<TransferRequestView> {
        match slot_block(s.f1) {
            Some(b) => match (DeviceView::decode(b), Self::intent_of(s.f2, s.f3)) {
                (Some(device), Some(intent)) => Some(TransferRequestView { device, intent }),
                _ => None,
            },
            None => None,
        }
    }

    /// The body that stands for this request.
    pub open spec fn encode(self) -> Seq<u8> {
        encode_slots(self.slots())
    }

    /// The request that a body stands for, if it stands for one.
    pub open spec fn decode(bytes: Seq<u8>) -> Option<TransferRequestView> {
        match decode_slots(bytes, Self::shape()) {
            Some(s) => Self::from_slots(s),
            None => None,
        }
    }

    /// Whether every text and every nested body is short enough for its
    /// length to be written.
    pub open spec fn encodable(self) -> bool {
        &&& self.device.encodable()
        &&& self.device.encode().len() <= u64::MAX
        &&& match self.intent {
            IntentView::FileTransfer(f) => f.encodable() && f.encode().len() <= u64::MAX,
            IntentView::Clipboard(c) => c.encodable() && c.encode().len() <= u64::MAX,
        }
    }

    /// Decoding the body of a request gives that request.
    pub proof fn lemma_roundtrip(self)
        requires
            self.encodable(),
        ensures
            Self::decode(self.encode()) == Some(self),
    {
        self.device.lemma_roundtrip();
        match self.intent {
            IntentView::FileTransfer(f) => {
                f.lemma_roundtrip();
            },
            IntentView::Clipboard(c) => {
                c.lemma_roundtrip();
            },
        }
        lemma_slots_roundtrip(self.slots(), Self::shape());
    }
}

impl TransferRequest {
    /// The body that stands for this request.
    pub fn encode_to_vec(&self) -> (out: Vec<u8>)
        ensures
            out@ == self@.encode(),
    {
        let slots = Slots {
            f1: Some(SlotValue::Bytes(self.device.encode_to_vec())),
            f2: match &self.intent {
                Intent::FileTransfer(f) => Some(SlotValue::Bytes(f.encode_to_vec())),
                Intent::Clipboard(_) => None,
            },
            f3: match &self.intent {
                Intent::FileTransfer(_) => None,
                Intent::Clipboard(c) => Some(SlotValue::Bytes(c.encode_to_vec())),
            },
            f4: None,
        };
        write_slots(&slots)
    }

    /// Reads a request from its body; `None` where the body is not one of
    /// this schema.
    pub fn decode(bytes: &[u8]) -> (r: Option<TransferRequest>)
        ensures
            match r {
                Some(d) => TransferRequestView::decode(bytes@) == Some(d@),
                None => TransferRequestView::decode(bytes@) is None,
            },
    {
        let shape = Shape {
            k1: message_slot(),
            k2: message_choice_slot(),
            k3: message_choice_slot(),
            k4: unused_slot(),
        };
        let slots = match read_slots(bytes, &shape) {
            Some(s) => s,
            None => {
                return None;
            },
        };
        let device = match get_block(slots.f1) {
            Some(b) => match Device::decode(b.as_slice()) {
                Some(d) => d,
                None => {
                    return None;
                },
            },
            None => {
                return None;
            },
        };
        let intent = match get_block(slots.f2) {
            Some(b) => match FileTransferIntent::decode(b.as_slice()) {
                Some(f) => Intent::FileTransfer(f),
                None => {
                    return None;
                },
            },
            None => match get_block(slots.f3) {
                Some(b) => match ClipboardTransferIntent::decode(b.as_slice()) {
                    Some(c) => Intent::Clipboard(c),
                    None => {
                        return None;
                    },
                },
                None => {
                    return None;
                },
            },
        };
        Some(TransferRequest { device, intent })
    }
}

impl EncryptionRequestView {
    /// The frame that carries this key exchange request.
    pub open spec fn encode_framed(self) -> Seq<u8> {
        frame(self.encode())
    }

    /// The key exchange request in the frame at the front of `bytes`. Bytes behind the
    /// frame are left alone.
    pub open spec fn decode_framed(bytes: Seq<u8>) -> Result<EncryptionRequestView, FramingError> {
        match unframe(bytes) {
            Ok((body, _)) => match Self::decode(body) {
                Some(m) => Ok(m),
                None => Err(FramingError::SchemaMismatch),
            },
            Err(e) => Err(e),
        }
    }

    /// Decoding the frame of a key exchange request gives that key exchange request.
    pub proof fn lemma_framed_roundtrip(self)
        requires
            self.encodable(),
            self.encode().len() <= u64::MAX,
        ensures
            Self::decode_framed(self.encode_framed()) == Ok::<EncryptionRequestView, FramingError>(self),
    {
        self.lemma_roundtrip();
        lemma_unframe_frame(self.encode(), Seq::<u8>::empty());
        assert(self.encode_framed() + Seq::<u8>::empty() =~= self.encode_framed());
    }
}

impl EncryptionRequest {
    /// The frame that carries this key exchange request.
    pub fn encode_length_delimited_to_vec(&self) -> (out: Vec<u8>)
        ensures
            out@ == self@.encode_framed(),
    {
        let body = self.encode_to_vec();
        encode_frame(body.as_slice())
    }

    /// Reads the key exchange request in the frame at the front of `bytes`.
    pub fn decode_length_delimited(bytes: &[u8]) -> (r: Result<EncryptionRequest, FramingError>)
        ensures
            match r {
                Ok(m) => EncryptionRequestView::decode_framed(bytes@) == Ok::<EncryptionRequestView, FramingError>(m@),
                Err(e) => EncryptionRequestView::decode_framed(bytes@) == Err::<EncryptionRequestView, FramingError>(e),
            },
    {
        match decode_frame(bytes) {
            Ok((body, _)) => match EncryptionRequest::decode(body.as_slice()) {
                Some(m) => Ok(m),
                None => Err(FramingError::SchemaMismatch),
            },
            Err(e) => Err(e),
        }
    }
}

impl EncryptionResponseView {
    /// The frame that carries this key exchange response.
    pub open spec fn encode_framed(self) -> Seq<u8> {
        frame(self.encode())
    }

    /// The key exchange response in the frame at the front of `bytes`. Bytes behind the
    /// frame are left alone.
    pub open spec fn decode_framed(bytes: Seq<u8>) -> Result<EncryptionResponseView, FramingError> {
        match unframe(bytes) {
            Ok((body, _)) => match Self::decode(body) {
                Some(m) => Ok(m),
                None => Err(FramingError::SchemaMismatch),
            },
            Err(e) => Err(e),
        }
    }

    /// Decoding the frame of a key exchange response gives that key exchange response.
    pub proof fn lemma_framed_roundtrip(self)
        requires
            self.encodable(),
            self.encode().len() <= u64::MAX,
        ensures
            Self::decode_framed(self.encode_framed()) == Ok::<EncryptionResponseView, FramingError>(self),
    {
        self.lemma_roundtrip();
        lemma_unframe_frame(self.encode(), Seq::<u8>::empty());
        assert(self.encode_framed() + Seq::<u8>::empty() =~= self.encode_framed());
    }
}

impl EncryptionResponse {
    /// The frame that carries this key exchange response.
    pub fn encode_length_delimited_to_vec(&self) -> (out: Vec<u8>)
        ensures
            out@ == self@.encode_framed(),
    {
        let body = self.encode_to_vec();
        encode_frame(body.as_slice())
    }

    /// Reads the key exchange response in the frame at the front of `bytes`.
    pub fn decode_length_delimited(bytes: &[u8]) -> (r: Result<EncryptionResponse, FramingError>)
        ensures
            match r {
                Ok(m) => EncryptionResponseView::decode_framed(bytes@) == Ok::<EncryptionResponseView, FramingError>(m@),
                Err(e) => EncryptionResponseView::decode_framed(bytes@) == Err::<EncryptionResponseView, FramingError>(e),
            },
    {
        match decode_frame(bytes) {
            Ok((body, _)) => match EncryptionResponse::decode(body.as_slice()) {
                Some(m) => Ok(m),
                None => Err(FramingError::SchemaMismatch),
            },
            Err(e) => Err(e),
        }
    }
}

impl TransferRequestView {
    /// The frame that carries this transfer request.
    pub open spec fn encode_framed(self) -> Seq<u8> {
        frame(self.encode())
    }

    /// The transfer request in the frame at the front of `bytes`. Bytes behind the
    /// frame are left alone.
    pub open spec fn decode_framed(bytes: Seq<u8>) -> Result<TransferRequestView, FramingError> {
        match unframe(bytes) {
            Ok((body, _)) => match Self::decode(body) {
                Some(m) => Ok(m),
                None => Err(FramingError::SchemaMismatch),
            },
            Err(e) => Err(e),
        }
    }

    /// Decoding the frame of a transfer request gives that transfer request.
    pub proof fn lemma_framed_roundtrip(self)
        requires
            self.encodable(),
            self.encode().len() <= u64::MAX,
        ensures
            Self::decode_framed(self.encode_framed()) == Ok::<TransferRequestView, FramingError>(self),
    {
        self.lemma_roundtrip();
        lemma_unframe_frame(self.encode(), Seq::<u8>::empty());
        assert(self.encode_framed() + Seq::<u8>::empty() =~= self.encode_framed());
    }
}

impl TransferRequest {
    /// The frame that carries this transfer request.
    pub fn encode_length_delimited_to_vec(&self) -> (out: Vec<u8>)
        ensures
            out@ == self@.encode_framed(),
    {
        let body = self.encode_to_vec();
        encode_frame(body.as_slice())
    }

    /// Reads the transfer request in the frame at the front of `bytes`.
    pub fn decode_length_delimited(bytes: &[u8]) -> (r: Result<TransferRequest, FramingError>)
        ensures
            match r {
                Ok(m) => TransferRequestView::decode_framed(bytes@) == Ok::<TransferRequestView, FramingError>(m@),
                Err(e) => TransferRequestView::decode_framed(bytes@) == Err::<TransferRequestView, FramingError>(e),
            },
    {
        match decode_frame(bytes) {
            Ok((body, _)) => match TransferRequest::decode(body.as_slice()) {
                Some(m) => Ok(m),
                None => Err(FramingError::SchemaMismatch),
            },
            Err(e) => Err(e),
        }
    }
}

impl TransferRequestResponse {
    /// The frame that carries this answer.
    pub open spec fn encode_framed(self) -> Seq<u8> {
        frame(self.encode())
    }

    /// The answer in the frame at the front of `bytes`. Bytes behind the
    /// frame are left alone.
    pub open spec fn decode_framed(bytes: Seq<u8>) -> Result<TransferRequestResponse, FramingError> {
        match unframe(bytes) {
            Ok((body, _)) => match Self::spec_decode(body) {
                Some(m) => Ok(m),
                None => Err(FramingError::SchemaMismatch),
            },
            Err(e) => Err(e),
        }
    }

    /// Decoding the frame of a answer gives that answer.
    pub proof fn lemma_framed_roundtrip(self)
        requires
            self.encode().len() <= u64::MAX,
        ensures
            Self::decode_framed(self.encode_framed()) == Ok::<TransferRequestResponse, FramingError>(self),
    {
        self.lemma_roundtrip();
        lemma_unframe_frame(self.encode(), Seq::<u8>::empty());
        assert(self.encode_framed() + Seq::<u8>::empty() =~= self.encode_framed());
    }
}

impl TransferRequestResponse {
    /// The frame that carries this answer.
    pub fn encode_length_delimited_to_vec(&self) -> (out: Vec<u8>)
        ensures
            out@ == self.encode_framed(),
    {
        let body = self.encode_to_vec();
        encode_frame(body.as_slice())
    }

    /// Reads the answer in the frame at the front of `bytes`.
    pub fn decode_length_delimited(bytes: &[u8]) -> (r: Result<TransferRequestResponse, FramingError>)
        ensures
            match r {
                Ok(m) => TransferRequestResponse::decode_framed(bytes@) == Ok::<TransferRequestResponse, FramingError>(m),
                Err(e) => TransferRequestResponse::decode_framed(bytes@) == Err::<TransferRequestResponse, FramingError>(e),
            },
    {
        match decode_frame(bytes) {
            Ok((body, _)) => match TransferRequestResponse::decode(body.as_slice()) {
                Some(m) => Ok(m),
                None => Err(FramingError::SchemaMismatch),
            },
            Err(e) => Err(e),
        }
    }
}

} // verus!
