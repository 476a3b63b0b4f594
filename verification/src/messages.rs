//! What the relay server says: the replies on an upload connection, the
//! events that report an upload, the answer to a download request, and the
//! words for each failure.

use vstd::prelude::*;
use crate::error::name_of;
use crate::error::worker_name;
use crate::error::CoreError;
use crate::reassembly::FragmentOutcome;
use crate::reassembly::MAX_CHUNKS;
use crate::text::decimal;
use crate::text::decimal_digits;
use crate::types::ChunkMetadata;
use crate::types::DownloadRequest;
use crate::types::MetadataView;
use crate::types::ToastEvent;
use crate::types::UploadError;
use crate::types::UploadFileEvent;

verus! {

/// The short reason that stands for a failure.
pub open spec fn reason_text(e: CoreError) -> Seq<char> {
    match e {
        CoreError::InvalidPort => "Port must be > 0"@,
        CoreError::AlreadyRunning => "Services already running"@,
        CoreError::PortInUse(_, port) => "Port "@ + decimal_digits(port as nat) + " in use"@,
        CoreError::PermissionDenied(role) => "Permission denied for "@ + name_of(role),
        CoreError::SpawnFailed(role, detail) => "Failed to spawn "@ + name_of(role) + ": "@
            + detail@,
        CoreError::DecodeFailed => "Base64 decode failed"@,
        CoreError::InvalidChunkMetadata => "Invalid chunk metadata"@,
        CoreError::AllocationFailed => "Memory allocation for chunk vector failed"@,
        CoreError::BackendUploadFailed(detail) => detail@,
    }
}

/// The short reason that stands for a failure.
pub fn reason(e: &CoreError) -> (r: String)
    ensures
        r@ == reason_text(*e),
{
    match e {
        CoreError::InvalidPort => String::from_str("Port must be > 0"),
        CoreError::AlreadyRunning => String::from_str("Services already running"),
        CoreError::PortInUse(_, port) => {
            let mut r = String::from_str("Port ");
            let digits = decimal(*port as u64);
            r.append(digits.as_str());
            r.append(" in use");
            r
        },
        CoreError::PermissionDenied(role) => {
            let mut r = String::from_str("Permission denied for ");
            r.append(worker_name(*role));
            r
        },
        CoreError::SpawnFailed(role, detail) => {
            let mut r = String::from_str("Failed to spawn ");
            r.append(worker_name(*role));
            r.append(": ");
            r.append(detail.as_str());
            r
        },
        CoreError::DecodeFailed => String::from_str("Base64 decode failed"),
        CoreError::InvalidChunkMetadata => String::from_str("Invalid chunk metadata"),
        CoreError::AllocationFailed => String::from_str(
            "Memory allocation for chunk vector failed",
        ),
        CoreError::BackendUploadFailed(detail) => detail.clone(),
    }
}

/// The words that tell a caller why its fragment was rejected. Metadata out
/// of range is reported with the numbers that were out of range.
pub open spec fn rejection_text(e: CoreError, m: MetadataView) -> Seq<char> {
    if e is InvalidChunkMetadata {
        if m.total_chunks == 0 || m.total_chunks > MAX_CHUNKS {
            "Invalid total_chunks: "@ + decimal_digits(m.total_chunks)
        } else {
            "Invalid chunk_index "@ + decimal_digits(m.chunk_index) + " for total_chunks "@
                + decimal_digits(m.total_chunks)
        }
    } else {
        reason_text(e)
    }
}

/// One message to the caller of an upload connection, as mathematical
/// values.
pub enum ReplyView {
    ChunkReceived { upload_id: Seq<char>, chunk_index: nat },
    UploadError { upload_id: Seq<char>, error: Seq<char> },
    UploadComplete { upload_id: Seq<char>, xorname: Seq<char> },
}

/// One message to the caller of an upload connection.
#[derive(Clone, Debug, PartialEq, Eq)]
pub enum UploadReply {
    /// The fragment at `chunk_index` has been stored.
    ChunkReceived { upload_id: String, chunk_index: usize },
    /// A fragment was rejected, or the backend failed.
    UploadError { upload_id: String, error: String },
    /// The backend took the file and named it `xorname`.
    UploadComplete { upload_id: String, xorname: String },
}

impl View for UploadReply {
    type V = ReplyView;

    open spec fn view(&self) -> ReplyView {
        match *self {
            UploadReply::ChunkReceived { upload_id, chunk_index } => ReplyView::ChunkReceived {
                upload_id: upload_id@,
                chunk_index: chunk_index as nat,
            },
            UploadReply::UploadError { upload_id, error } => ReplyView::UploadError {
                upload_id: upload_id@,
                error: error@,
            },
            UploadReply::UploadComplete { upload_id, xorname } => ReplyView::UploadComplete {
                upload_id: upload_id@,
                xorname: xorname@,
            },
        }
    }
}

/// The reply that a fragment's outcome calls for.
pub open spec fn reply_view_for(m: MetadataView, out: FragmentOutcome) -> ReplyView {
    match out {
        FragmentOutcome::Rejected(e) => ReplyView::UploadError {
            upload_id: m.upload_id,
            error: rejection_text(e, m),
        },
        FragmentOutcome::Stored { chunk_index } => ReplyView::ChunkReceived {
            upload_id: m.upload_id,
            chunk_index: chunk_index as nat,
        },
        FragmentOutcome::Completed { chunk_index, payload } => ReplyView::ChunkReceived {
            upload_id: m.upload_id,
            chunk_index: chunk_index as nat,
        },
    }
}

/// The reply to a fragment: an acknowledgement of its index where it was
/// stored, an error that names the upload where it was rejected.
pub fn reply_for(metadata: &ChunkMetadata, outcome: &FragmentOutcome) -> (reply: UploadReply)
    ensures
        reply@ == reply_view_for(metadata@, *outcome),
{
    match outcome {
        FragmentOutcome::Rejected(e) => {
            let error = match e {
                CoreError::InvalidChunkMetadata => {
                    if metadata.total_chunks == 0 || metadata.total_chunks > MAX_CHUNKS {
                        let mut r = String::from_str("Invalid total_chunks: ");
                        let total = decimal(metadata.total_chunks as u64);
                        r.append(total.as_str());
                        r
                    } else {
                        let mut r = String::from_str("Invalid chunk_index ");
                        let index = decimal(metadata.chunk_index as u64);
                        r.append(index.as_str());
                        r.append(" for total_chunks ");
                        let total = decimal(metadata.total_chunks as u64);
                        r.append(total.as_str());
                        r
                    }
                },
                _ => reason(e),
            };
            UploadReply::UploadError { upload_id: metadata.upload_id.clone(), error }
        },
        FragmentOutcome::Stored { chunk_index } => UploadReply::ChunkReceived {
            upload_id: metadata.upload_id.clone(),
            chunk_index: *chunk_index,
        },
        FragmentOutcome::Completed { chunk_index, payload: _ } => UploadReply::ChunkReceived {
            upload_id: metadata.upload_id.clone(),
            chunk_index: *chunk_index,
        },
    }
}

/// How an upload ended: the reply on the connection and the event for the
/// whole process.
#[derive(Clone, Debug, PartialEq, Eq)]
pub struct UploadReport {
    pub reply: UploadReply,
    pub event: UploadFileEvent,
    /// The failure that the upload ended with, if it failed.
    pub failure: Option<CoreError>,
}

/// The backend's answer, as mathematical values.
pub open spec fn result_view(r: Result<String, String>) -> Result<Seq<char>, Seq<char>> {
    match r {
        Ok(x) => Ok(x@),
        Err(d) => Err(d@),
    }
}

/// The failure that a backend's answer is recorded as.
pub open spec fn failure_of(r: Result<String, String>) -> Option<CoreError> {
    match r {
        Ok(_) => None,
        Err(d) => Some(CoreError::BackendUploadFailed(d)),
    }
}

/// The report says what the backend answered for this upload: success with
/// the content identifier, or failure with the backend's words unchanged.
pub open spec fn report_matches(
    report: UploadReport,
    upload_id: Seq<char>,
    name: Seq<char>,
    mime_type: Seq<char>,
    result: Result<Seq<char>, Seq<char>>,
) -> bool {
    &&& report.event.name@ == name
    &&& report.event.mime_type@ == mime_type
    &&& match result {
        Ok(xorname) => {
            &&& report.reply@ == (ReplyView::UploadComplete { upload_id, xorname })
            &&& report.event.success
            &&& report.event.error is None
            &&& report.event.xorname is Some
            &&& report.event.xorname->Some_0@ == xorname
        },
        Err(detail) => {
            &&& report.reply@ == (ReplyView::UploadError { upload_id, error: detail })
            &&& !report.event.success
            &&& report.event.xorname is None
            &&& report.event.error is Some
            &&& report.event.error->Some_0.title@ == "Upload Failed"@
            &&& report.event.error->Some_0.description@ == detail
        },
    }
}

/// Reports the backend's answer for a completed upload.
pub fn report_upload(
    upload_id: &String,
    name: &String,
    mime_type: &String,
    result: Result<String, String>,
) -> (report: UploadReport)
    ensures
        report_matches(report, upload_id@, name@, mime_type@, result_view(result)),
        report.failure == failure_of(result),
{
    match result {
        Ok(xorname) => UploadReport {
            reply: UploadReply::UploadComplete {
                upload_id: upload_id.clone(),
                xorname: xorname.clone(),
            },
            event: UploadFileEvent {
                name: name.clone(),
                mime_type: mime_type.clone(),
                success: true,
                error: None,
                xorname: Some(xorname),
            },
            failure: None,
        },
        Err(detail) => UploadReport {
            reply: UploadReply::UploadError { upload_id: upload_id.clone(), error: detail.clone() },
            event: UploadFileEvent {
                name: name.clone(),
                mime_type: mime_type.clone(),
                success: false,
                error: Some(
                    UploadError {
                        title: String::from_str("Upload Failed"),
                        description: detail.clone(),
                    },
                ),
                xorname: None,
            },
            failure: Some(CoreError::BackendUploadFailed(detail)),
        },
    }
}

/// What a download connection answers to its one request.
#[derive(Clone, Debug, PartialEq, Eq)]
pub enum DownloadOutcome {
    /// The request was taken: show this notice.
    Accepted(ToastEvent),
    /// The request was not understood: send these words back.
    Refused(String),
}

/// The request is a well-formed download request.
pub open spec fn is_download(request: Option<DownloadRequest>) -> bool {
    request matches Some(r) && r.action@ == "download"@
}

/// Answers the one request of a download connection; `None` stands for a
/// message that could not be read as a request. A request whose action is
/// `download` is taken and a notice is shown; anything else is refused.
pub fn handle_download(request: Option<DownloadRequest>) -> (out: DownloadOutcome)
    ensures
        is_download(request) ==> (out matches DownloadOutcome::Accepted(toast) && toast.title@
            == "Success"@ && toast.description@ == "Download request sent to client"@),
        !is_download(request) ==> (out matches DownloadOutcome::Refused(words) && words@
            == "Invalid request format or xorname"@),
{
    let wanted = String::from_str("download");
    match request {
        Some(r) => {
            if r.action == wanted {
                return DownloadOutcome::Accepted(
                    ToastEvent {
                        title: String::from_str("Success"),
                        description: String::from_str("Download request sent to client"),
                    },
                );
            }
        },
        None => {},
    }
    DownloadOutcome::Refused(String::from_str("Invalid request format or xorname"))
}

/// The greeting sent on a connection to the liveness root.
pub fn root_greeting() -> (r: &'static str)
    ensures
        r@ == "Connected to SafeBox Client WebSocket"@,
{
    "Connected to SafeBox Client WebSocket"
}

} // verus!
