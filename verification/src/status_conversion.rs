//! Translation of what the transfer engine reports into the service's own
//! status taxonomy.

use crate::status_wrapper::{StatusView, StatusWrapper, StatusWrapperKind};
use vstd::prelude::*;
use vstd::string::StringExecFns;

verus! {

/// A report that has a place in the service's status taxonomy.
pub trait IntoStatusWrapper: Sized {
    /// The status that the report stands for.
    spec fn translated(&self) -> StatusView;

    /// Turns the report into the status that it stands for.
    fn into_status_wrapper(self) -> (status: StatusWrapper)
        ensures
            status@ == self.translated(),
    ;
}

/// The state that the engine's status tracker reports for a transfer.
#[derive(Debug)]
pub enum DownloaderStatusWrapper {
    NoStart,
    Running,
    /// The transfer waits, for a connection or for a permit.
    Pending,
    /// The transfer failed; the engine's description is attached.
    Error(String),
    Finished,
}

/// Why a transfer came to its end without an error.
#[derive(Debug, Clone, Copy, PartialEq, Eq, Structural)]
pub enum DownloadingEndCause {
    DownloadFinished,
    Cancelled,
}

/// The failures with which the engine gives a transfer up. Where the engine
/// attaches a cause, the variant carries the cause's text.
#[derive(Debug)]
pub enum DownloadError {
    Other(String),
    ArchiveDataLoadError(String),
    IoError(String),
    JoinError(String),
    ChunkRemoveFailed,
    DownloadingChunkRemoveFailed,
    HttpRequestFailed(String),
    /// The response was not what the request allows: the reason, then the
    /// response.
    HttpRequestResponseInvalid(String, String),
    ServerFileAlreadyChanged,
    RedirectionTimesTooMany,
}

/// An error status with the given message.
pub open spec fn error_status(message: Seq<char>) -> StatusView {
    StatusView { kind: StatusWrapperKind::Error, message: Some(message) }
}

/// A status of the given kind without a message.
pub open spec fn plain_status(kind: StatusWrapperKind) -> StatusView {
    StatusView { kind, message: None }
}

/// The message for a response that the request does not allow.
pub open spec fn invalid_response_message(cause: Seq<char>, response: Seq<char>) -> Seq<char> {
    "Invalid http response: "@ + cause + ", response: "@ + response
}

fn error_with_text(text: &str) -> (status: StatusWrapper)
    ensures
        status@ == error_status(text@),
{
    StatusWrapper::new(StatusWrapperKind::Error).with_message(String::from_str(text))
}

impl IntoStatusWrapper for DownloaderStatusWrapper {
    open spec fn translated(&self) -> StatusView {
        match self {
            DownloaderStatusWrapper::NoStart => plain_status(StatusWrapperKind::NoStart),
            DownloaderStatusWrapper::Running => plain_status(StatusWrapperKind::Running),
            DownloaderStatusWrapper::Pending => plain_status(StatusWrapperKind::Pending),
            DownloaderStatusWrapper::Error(message) => error_status(message@),
            DownloaderStatusWrapper::Finished => plain_status(StatusWrapperKind::Finished),
        }
    }

    fn into_status_wrapper(self) -> (status: StatusWrapper) {
        match self {
            DownloaderStatusWrapper::NoStart => StatusWrapper::new(StatusWrapperKind::NoStart),
            DownloaderStatusWrapper::Running => StatusWrapper::new(StatusWrapperKind::Running),
            DownloaderStatusWrapper::Pending => StatusWrapper::new(StatusWrapperKind::Pending),
            DownloaderStatusWrapper::Error(message) => StatusWrapper::new(
                StatusWrapperKind::Error,
            ).with_message(message),
            DownloaderStatusWrapper::Finished => StatusWrapper::new(StatusWrapperKind::Finished),
        }
    }
}

impl IntoStatusWrapper for DownloadingEndCause {
    open spec fn translated(&self) -> StatusView {
        match self {
            DownloadingEndCause::DownloadFinished => plain_status(StatusWrapperKind::Finished),
            DownloadingEndCause::Cancelled => plain_status(StatusWrapperKind::NoStart),
        }
    }

    fn into_status_wrapper(self) -> (status: StatusWrapper) {
        match self {
            DownloadingEndCause::DownloadFinished => StatusWrapper::new(
                StatusWrapperKind::Finished,
            ),
            DownloadingEndCause::Cancelled => StatusWrapper::new(StatusWrapperKind::NoStart),
        }
    }
}

impl IntoStatusWrapper for DownloadError {
    open spec fn translated(&self) -> StatusView {
        match self {
            DownloadError::Other(text) => error_status(text@),
            DownloadError::ArchiveDataLoadError(text) => error_status(text@),
            DownloadError::IoError(text) => error_status(text@),
            DownloadError::JoinError(text) => error_status(text@),
            DownloadError::ChunkRemoveFailed => error_status("Failed to remove chunk file"@),
            DownloadError::DownloadingChunkRemoveFailed => error_status(
                "Failed to remove downloading chunk file"@,
            ),
            DownloadError::HttpRequestFailed(text) => error_status(text@),
            DownloadError::HttpRequestResponseInvalid(cause, response) => error_status(
                invalid_response_message(cause@, response@),
            ),
            DownloadError::ServerFileAlreadyChanged => error_status("Server file already changed"@),
            DownloadError::RedirectionTimesTooMany => error_status("Redirection times too many"@),
        }
    }

    fn into_status_wrapper(self) -> (status: StatusWrapper) {
        match self {
            DownloadError::Other(text) => StatusWrapper::new(
                StatusWrapperKind::Error,
            ).with_message(text),
            DownloadError::ArchiveDataLoadError(text) => StatusWrapper::new(
                StatusWrapperKind::Error,
            ).with_message(text),
            DownloadError::IoError(text) => StatusWrapper::new(
                StatusWrapperKind::Error,
            ).with_message(text),
            DownloadError::JoinError(text) => StatusWrapper::new(
                StatusWrapperKind::Error,
            ).with_message(text),
            DownloadError::ChunkRemoveFailed => error_with_text("Failed to remove chunk file"),
            DownloadError::DownloadingChunkRemoveFailed => error_with_text(
                "Failed to remove downloading chunk file",
            ),
            DownloadError::HttpRequestFailed(text) => StatusWrapper::new(
                StatusWrapperKind::Error,
            ).with_message(text),
            DownloadError::HttpRequestResponseInvalid(cause, response) => {
                let message = String::from_str("Invalid http response: ").concat(
                    cause.as_str(),
                ).concat(", response: ").concat(response.as_str());
                StatusWrapper::new(StatusWrapperKind::Error).with_message(message)
            },
            DownloadError::ServerFileAlreadyChanged => error_with_text(
                "Server file already changed",
            ),
            DownloadError::RedirectionTimesTooMany => error_with_text("Redirection times too many"),
        }
    }
}

/// Translates any report of the engine into the status that it stands for.
pub fn convert_status<T>(status: T) -> (translated: StatusWrapper) where T: IntoStatusWrapper
    ensures
        translated@ == status.translated(),
{
    status.into_status_wrapper()
}

/// Every failure of the engine is reported as an error with a message.
pub proof fn every_failure_is_an_error(failure: DownloadError)
    ensures
        failure.translated().kind == StatusWrapperKind::Error,
        failure.translated().message.is_some(),
{
}

/// A cancelled transfer can be started again; a finished one is finished.
pub proof fn end_cause_translation(cause: DownloadingEndCause)
    ensures
        cause == DownloadingEndCause::Cancelled ==> cause.translated() == plain_status(
            StatusWrapperKind::NoStart,
        ),
        cause == DownloadingEndCause::DownloadFinished ==> cause.translated() == plain_status(
            StatusWrapperKind::Finished,
        ),
{
}

/// The engine's own states keep their kind, and only an error carries a
/// message.
pub proof fn engine_status_keeps_kind(status: DownloaderStatusWrapper)
    ensures
        status.translated().message.is_some() <==> status.translated().kind
            == StatusWrapperKind::Error,
        (status is NoStart) <==> status.translated().kind == StatusWrapperKind::NoStart,
        (status is Running) <==> status.translated().kind == StatusWrapperKind::Running,
        (status is Pending) <==> status.translated().kind == StatusWrapperKind::Pending,
        (status is Error) <==> status.translated().kind == StatusWrapperKind::Error,
        (status is Finished) <==> status.translated().kind == StatusWrapperKind::Finished,
{
}

} // verus!
