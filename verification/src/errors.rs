//! Error types of the library, each with the text that describes it.

use vstd::prelude::*;
use vstd::string::StringExecFns;

verus! {

/// The error type of the standard library's I/O operations.
#[verifier::external_type_specification]
#[verifier::external_body]
pub struct ExIoError(std::io::Error);

/// The error of a failed conversion of bytes to text.
#[verifier::external_type_specification]
#[verifier::external_body]
pub struct ExFromUtf8Error(std::string::FromUtf8Error);

/// Why a framed message could not be read.
#[derive(Clone, Copy, Debug, PartialEq, Eq, Structural)]
pub enum FramingError {
    /// The length prefix is not a valid variable-length integer.
    InvalidFraming,
    /// Fewer bytes follow the length prefix than it announces.
    TruncatedBody,
    /// The body is not one of the expected schema.
    SchemaMismatch,
}

impl FramingError {
    /// The text that describes this error.
    pub open spec fn spec_message(self) -> Seq<char> {
        match self {
            FramingError::InvalidFraming => "Invalid length prefix"@,
            FramingError::TruncatedBody => "Message body is truncated"@,
            FramingError::SchemaMismatch => "Message body does not match its schema"@,
        }
    }

    /// The text that describes this error.
    pub fn message(&self) -> (text: String)
        ensures
            text@ == self.spec_message(),
    {
        match self {
            FramingError::InvalidFraming => "Invalid length prefix".to_owned(),
            FramingError::TruncatedBody => "Message body is truncated".to_owned(),
            FramingError::SchemaMismatch => "Message body does not match its schema".to_owned(),
        }
    }
}

/// Why an outgoing connection or a send failed.
#[derive(Debug, PartialEq, Eq)]
pub enum ConnectErrors {
    Unreachable,
    FailedToGetConnectionDetails,
    Declined,
    FailedToGetTcpDetails,
    FailedToGetSocketAddress,
    FailedToOpenTcpStream,
    FailedToGetBleDetails,
    InternalBleHandlerNotAvailable,
    FailedToEstablishBleConnection,
    FailedToEncryptStream { error: String },
    FailedToDetermineFileSize { error: String },
    FailedToGetTransferRequestResponse { error: String },
    FailedToGetFilename,
    FailedToGetFileMetadata,
}

/// Mathematical content of a `ConnectErrors`.
pub ghost enum ConnectErrorsView {
    Unreachable,
    FailedToGetConnectionDetails,
    Declined,
    FailedToGetTcpDetails,
    FailedToGetSocketAddress,
    FailedToOpenTcpStream,
    FailedToGetBleDetails,
    InternalBleHandlerNotAvailable,
    FailedToEstablishBleConnection,
    FailedToEncryptStream { error: Seq<char> },
    FailedToDetermineFileSize { error: Seq<char> },
    FailedToGetTransferRequestResponse { error: Seq<char> },
    FailedToGetFilename,
    FailedToGetFileMetadata,
}

impl View for ConnectErrors {
    type V = ConnectErrorsView;

    open spec fn view(&self) -> ConnectErrorsView {
        match self {
            ConnectErrors::Unreachable => ConnectErrorsView::Unreachable,
            ConnectErrors::FailedToGetConnectionDetails => ConnectErrorsView::FailedToGetConnectionDetails,
            ConnectErrors::Declined => ConnectErrorsView::Declined,
            ConnectErrors::FailedToGetTcpDetails => ConnectErrorsView::FailedToGetTcpDetails,
            ConnectErrors::FailedToGetSocketAddress => ConnectErrorsView::FailedToGetSocketAddress,
            ConnectErrors::FailedToOpenTcpStream => ConnectErrorsView::FailedToOpenTcpStream,
            ConnectErrors::FailedToGetBleDetails => ConnectErrorsView::FailedToGetBleDetails,
            ConnectErrors::InternalBleHandlerNotAvailable => ConnectErrorsView::InternalBleHandlerNotAvailable,
            ConnectErrors::FailedToEstablishBleConnection => ConnectErrorsView::FailedToEstablishBleConnection,
            ConnectErrors::FailedToEncryptStream { error } => ConnectErrorsView::FailedToEncryptStream {
                error: error@,
            },
            ConnectErrors::FailedToDetermineFileSize { error } => ConnectErrorsView::FailedToDetermineFileSize {
                error: error@,
            },
            ConnectErrors::FailedToGetTransferRequestResponse { error } => ConnectErrorsView::FailedToGetTransferRequestResponse {
                error: error@,
            },
            ConnectErrors::FailedToGetFilename => ConnectErrorsView::FailedToGetFilename,
            ConnectErrors::FailedToGetFileMetadata => ConnectErrorsView::FailedToGetFileMetadata,
        }
    }
}

impl ConnectErrorsView {
    /// The text that describes this error.
    pub open spec fn message(self) -> Seq<char> {
        match self {
            ConnectErrorsView::Unreachable => "Peripheral is unreachable"@,
            ConnectErrorsView::FailedToGetConnectionDetails => "Failed to get connection details"@,
            ConnectErrorsView::Declined => "Peripheral declined the connection"@,
            ConnectErrorsView::FailedToGetTcpDetails => "Failed to get TCP connection details"@,
            ConnectErrorsView::FailedToGetSocketAddress => "Failed to get socket address"@,
            ConnectErrorsView::FailedToOpenTcpStream => "Failed to open TCP stream"@,
            ConnectErrorsView::FailedToGetBleDetails => "Failed to get BLE connection details"@,
            ConnectErrorsView::InternalBleHandlerNotAvailable => "No available internal BLE handler found."@,
            ConnectErrorsView::FailedToEstablishBleConnection => "Failed to establish a BLE connection to the peripheral."@,
            ConnectErrorsView::FailedToEncryptStream { error } => "Failed to encrypt stream: "@
                + error,
            ConnectErrorsView::FailedToDetermineFileSize { error } => "Failed to determine file size: "@
                + error,
            ConnectErrorsView::FailedToGetTransferRequestResponse { error } => "Failed to get transfer request response: "@
                + error,
            ConnectErrorsView::FailedToGetFilename => "Failed to get file name"@,
            ConnectErrorsView::FailedToGetFileMetadata => "Failed to get metadata for file"@,
        }
    }
}

impl ConnectErrors {
    /// The text that describes this error.
    pub fn message(&self) -> (text: String)
        ensures
            text@ == self@.message(),
    {
        match self {
            ConnectErrors::Unreachable => "Peripheral is unreachable".to_owned(),
            ConnectErrors::FailedToGetConnectionDetails => "Failed to get connection details".to_owned(),
            ConnectErrors::Declined => "Peripheral declined the connection".to_owned(),
            ConnectErrors::FailedToGetTcpDetails => "Failed to get TCP connection details".to_owned(),
            ConnectErrors::FailedToGetSocketAddress => "Failed to get socket address".to_owned(),
            ConnectErrors::FailedToOpenTcpStream => "Failed to open TCP stream".to_owned(),
            ConnectErrors::FailedToGetBleDetails => "Failed to get BLE connection details".to_owned(),
            ConnectErrors::InternalBleHandlerNotAvailable => "No available internal BLE handler found.".to_owned(),
            ConnectErrors::FailedToEstablishBleConnection => "Failed to establish a BLE connection to the peripheral.".to_owned(),
            ConnectErrors::FailedToEncryptStream { error } => "Failed to encrypt stream: ".to_owned().concat(
                error.as_str(),
            ),
            ConnectErrors::FailedToDetermineFileSize { error } => "Failed to determine file size: ".to_owned().concat(
                error.as_str(),
            ),
            ConnectErrors::FailedToGetTransferRequestResponse { error } => "Failed to get transfer request response: ".to_owned().concat(
                error.as_str(),
            ),
            ConnectErrors::FailedToGetFilename => "Failed to get file name".to_owned(),
            ConnectErrors::FailedToGetFileMetadata => "Failed to get metadata for file".to_owned(),
        }
    }
}

/// Why an incoming connection was given up.
#[derive(Debug)]
pub enum IncomingErrors {
    UnknownReadError(std::io::Error),
    StringConversionError(std::string::FromUtf8Error),
    MissingProtocolVersion,
    InvalidVersion,
    InvalidUUID,
    InvalidForeignPublicKey,
    ErrorSendingPublicKey,
    InvalidNonce,
    EncryptionError,
    InvalidSenderId,
    InvalidSenderName,
    Rejected,
    ParseError(FramingError),
}

/// The text of an I/O error, as the standard library words it.
#[verifier::external_body]
fn io_error_text(error: &std::io::Error) -> String {
    error.to_string()
}

/// The text of a failed conversion to UTF-8, as the standard library words
/// it.
#[verifier::external_body]
fn utf8_error_text(error: &std::string::FromUtf8Error) -> String {
    error.to_string()
}

impl IncomingErrors {
    /// The text that describes this error, but for the two variants that
    /// carry an error of the standard library, whose text follows a fixed
    /// prefix.
    pub open spec fn spec_prefix(&self) -> Seq<char> {
        match self {
            IncomingErrors::UnknownReadError(_) => "Unknown reading error: "@,
            IncomingErrors::StringConversionError(_) => "Error while trying to convert utf8-sequence to string: "@,
            IncomingErrors::MissingProtocolVersion => "Missing protocol version"@,
            IncomingErrors::InvalidVersion => "Invalid version"@,
            IncomingErrors::InvalidUUID => "Invalid uuid"@,
            IncomingErrors::InvalidForeignPublicKey => "Invalid foreign public key"@,
            IncomingErrors::ErrorSendingPublicKey => "Error sending public key"@,
            IncomingErrors::InvalidNonce => "Invalid nonce"@,
            IncomingErrors::EncryptionError => "Encryption error"@,
            IncomingErrors::InvalidSenderId => "Invalid sender-id"@,
            IncomingErrors::InvalidSenderName => "Invalid sender-name"@,
            IncomingErrors::Rejected => "Recipient rejected the transmission"@,
            IncomingErrors::ParseError(cause) => cause.spec_message(),
        }
    }

    /// Whether this error carries one of the standard library.
    pub open spec fn carries_cause(&self) -> bool {
        self is UnknownReadError || self is StringConversionError
    }

    /// The text that describes this error.
    pub fn message(&self) -> (text: String)
        ensures
            !self.carries_cause() ==> text@ == self.spec_prefix(),
            self.carries_cause() ==> text@.len() >= self.spec_prefix().len() && text@.take(
                self.spec_prefix().len() as int,
            ) == self.spec_prefix(),
    {
        match self {
            IncomingErrors::UnknownReadError(error) => {
                let cause = io_error_text(error);
                let head = "Unknown reading error: ".to_owned();
                let text = head.concat(cause.as_str());
                proof {
                    assert(text@.take(head@.len() as int) =~= head@);
                }
                text
            },
            IncomingErrors::StringConversionError(error) => {
                let cause = utf8_error_text(error);
                let head = "Error while trying to convert utf8-sequence to string: ".to_owned();
                let text = head.concat(cause.as_str());
                proof {
                    assert(text@.take(head@.len() as int) =~= head@);
                }
                text
            },
            IncomingErrors::MissingProtocolVersion => "Missing protocol version".to_owned(),
            IncomingErrors::InvalidVersion => "Invalid version".to_owned(),
            IncomingErrors::InvalidUUID => "Invalid uuid".to_owned(),
            IncomingErrors::InvalidForeignPublicKey => "Invalid foreign public key".to_owned(),
            IncomingErrors::ErrorSendingPublicKey => "Error sending public key".to_owned(),
            IncomingErrors::InvalidNonce => "Invalid nonce".to_owned(),
            IncomingErrors::EncryptionError => "Encryption error".to_owned(),
            IncomingErrors::InvalidSenderId => "Invalid sender-id".to_owned(),
            IncomingErrors::InvalidSenderName => "Invalid sender-name".to_owned(),
            IncomingErrors::Rejected => "Recipient rejected the transmission".to_owned(),
            IncomingErrors::ParseError(cause) => cause.message(),
        }
    }
}

/// Why a stream could not hand out or take bytes.
#[derive(Debug)]
pub enum StreamError {
    /// The operating system, or the platform below, reported a failure.
    Io(std::io::Error),
    /// The cipher of the session has no keystream left.
    EndOfKeystream,
    /// The stream ended before the bytes that were asked for had come.
    EndOfStream,
    /// The stream stopped taking bytes before all of them were written.
    WriteZero,
}

impl StreamError {
    /// The text that describes this error, but for a failure of the
    /// operating system, whose own text follows a fixed prefix.
    pub open spec fn spec_prefix(&self) -> Seq<char> {
        match self {
            StreamError::Io(_) => "Stream failed: "@,
            StreamError::EndOfKeystream => "End of keystream"@,
            StreamError::EndOfStream => "Unexpected end of stream"@,
            StreamError::WriteZero => "Stream takes no more bytes"@,
        }
    }

    /// The text that describes this error.
    pub fn message(&self) -> (text: String)
        ensures
            !(self is Io) ==> text@ == self.spec_prefix(),
            self is Io ==> text@.len() >= self.spec_prefix().len() && text@.take(
                self.spec_prefix().len() as int,
            ) == self.spec_prefix(),
    {
        match self {
            StreamError::Io(error) => {
                let cause = io_error_text(error);
                let head = "Stream failed: ".to_owned();
                let text = head.concat(cause.as_str());
                proof {
                    assert(text@.take(head@.len() as int) =~= head@);
                }
                text
            },
            StreamError::EndOfKeystream => "End of keystream".to_owned(),
            StreamError::EndOfStream => "Unexpected end of stream".to_owned(),
            StreamError::WriteZero => "Stream takes no more bytes".to_owned(),
        }
    }
}

/// The error with which a handshake ends where its stream fails: a failure
/// of the operating system is an unknown read error, the end of the
/// keystream an encryption error, the end of the stream a truncated
/// message, and a stream that takes no more bytes a failure to send.
pub open spec fn spec_incoming_error(error: StreamError) -> IncomingErrors {
    match error {
        StreamError::Io(cause) => IncomingErrors::UnknownReadError(cause),
        StreamError::EndOfKeystream => IncomingErrors::EncryptionError,
        StreamError::EndOfStream => IncomingErrors::ParseError(FramingError::TruncatedBody),
        StreamError::WriteZero => IncomingErrors::ErrorSendingPublicKey,
    }
}

/// The error with which a handshake ends where its stream fails.
pub fn incoming_error(error: StreamError) -> (incoming: IncomingErrors)
    ensures
        incoming == spec_incoming_error(error),
{
    match error {
        StreamError::Io(cause) => IncomingErrors::UnknownReadError(cause),
        StreamError::EndOfKeystream => IncomingErrors::EncryptionError,
        StreamError::EndOfStream => IncomingErrors::ParseError(FramingError::TruncatedBody),
        StreamError::WriteZero => IncomingErrors::ErrorSendingPublicKey,
    }
}

/// Why discovery could not be set up.
#[derive(Clone, Copy, Debug, PartialEq, Eq, Structural)]
pub enum DiscoverySetupError {
    UnableToSetupUdp,
    UnableToSetupMdns,
}

impl DiscoverySetupError {
    /// The text that describes this error.
    pub open spec fn spec_message(self) -> Seq<char> {
        match self {
            DiscoverySetupError::UnableToSetupUdp => "Unable to setup UDP Discovery"@,
            DiscoverySetupError::UnableToSetupMdns => "Unable to setup MDNS-SD Discovery"@,
        }
    }

    /// The text that describes this error.
    pub fn message(&self) -> (text: String)
        ensures
            text@ == self.spec_message(),
    {
        match self {
            DiscoverySetupError::UnableToSetupUdp => "Unable to setup UDP Discovery".to_owned(),
            DiscoverySetupError::UnableToSetupMdns => "Unable to setup MDNS-SD Discovery".to_owned(),
        }
    }
}

/// Why the TCP listener could not be set up.
#[derive(Debug, PartialEq, Eq)]
pub enum TransmissionSetupError {
    UnableToStartTcpServer { error: String },
}

impl TransmissionSetupError {
    /// The text that describes this error.
    pub open spec fn spec_message(&self) -> Seq<char> {
        match self {
            TransmissionSetupError::UnableToStartTcpServer { error } => "Unable to start TCP server: "@
                + error@,
        }
    }

    /// The text that describes this error.
    pub fn message(&self) -> (text: String)
        ensures
            text@ == self.spec_message(),
    {
        match self {
            TransmissionSetupError::UnableToStartTcpServer { error } => "Unable to start TCP server: ".to_owned().concat(
                error.as_str(),
            ),
        }
    }
}

/// An I/O failure as it is handed to callers in other languages.
#[derive(Debug, PartialEq, Eq)]
pub enum ExternalIOError {
    IOError { reason: String },
}

impl ExternalIOError {
    /// The text that describes this error.
    pub open spec fn spec_message(&self) -> Seq<char> {
        match self {
            ExternalIOError::IOError { reason } => "IO Error: "@ + reason@,
        }
    }

    /// The text that describes this error.
    pub fn message(&self) -> (text: String)
        ensures
            text@ == self.spec_message(),
    {
        match self {
            ExternalIOError::IOError { reason } => "IO Error: ".to_owned().concat(reason.as_str()),
        }
    }
}

/// Judges the outcome of a read that was to deliver at most
/// `expected_length` bytes: a failed read is an unknown read error, a read of
/// more bytes than expected is `error`, anything else is no error.
pub fn check_result(
    result: Result<usize, std::io::Error>,
    error: IncomingErrors,
    expected_length: Option<usize>,
) -> (verdict: Option<IncomingErrors>)
    ensures
        match result {
            Err(cause) => verdict == Some(IncomingErrors::UnknownReadError(cause)),
            Ok(bytes_read) => match expected_length {
                Some(expected) if bytes_read > expected => verdict == Some(error),
                _ => verdict is None,
            },
        },
{
    match result {
        Err(cause) => Some(IncomingErrors::UnknownReadError(cause)),
        Ok(bytes_read) => match expected_length {
            Some(expected) => if bytes_read > expected {
                Some(error)
            } else {
                None
            },
            None => None,
        },
    }
}

} // verus!
