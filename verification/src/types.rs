//! Plain data carried between the relay server, the reassembly engine and the
//! event sink.

use vstd::prelude::*;

verus! {

/// A fully assembled file, ready for the upload backend.
#[derive(Clone, Debug, PartialEq, Eq)]
pub struct UploadFilePayload {
    pub name: String,
    pub mime_type: String,
    /// The file's bytes.
    pub data: Vec<u8>,
}

/// Process-wide event that reports how an upload ended.
#[derive(Clone, Debug, PartialEq, Eq)]
pub struct UploadFileEvent {
    pub name: String,
    pub mime_type: String,
    pub success: bool,
    pub error: Option<UploadError>,
    pub xorname: Option<String>,
}

/// Title and description of a failed upload.
#[derive(Clone, Debug, PartialEq, Eq)]
pub struct UploadError {
    pub title: String,
    pub description: String,
}

/// A short notice for the user.
#[derive(Clone, Debug, PartialEq, Eq)]
pub struct ToastEvent {
    pub title: String,
    pub description: String,
}

/// One fragment message as it arrives on the upload channel. `data` is the
/// fragment's bytes in base64.
#[derive(Clone, Debug, PartialEq, Eq)]
pub struct Chunk {
    pub msg_type: String,
    pub metadata: ChunkMetadata,
    pub data: String,
}

/// Where a fragment belongs.
#[derive(Clone, Debug, PartialEq, Eq)]
pub struct ChunkMetadata {
    pub filename: String,
    pub mime_type: String,
    pub chunk_index: usize,
    pub total_chunks: usize,
    pub upload_id: String,
}

/// What a fragment's metadata says, as mathematical values.
pub struct MetadataView {
    pub filename: Seq<char>,
    pub mime_type: Seq<char>,
    pub chunk_index: nat,
    pub total_chunks: nat,
    pub upload_id: Seq<char>,
}

impl View for ChunkMetadata {
    type V = MetadataView;

    open spec fn view(&self) -> MetadataView {
        MetadataView {
            filename: self.filename@,
            mime_type: self.mime_type@,
            chunk_index: self.chunk_index as nat,
            total_chunks: self.total_chunks as nat,
            upload_id: self.upload_id@,
        }
    }
}

/// The single request of a download connection.
#[derive(Clone, Debug, PartialEq, Eq)]
pub struct DownloadRequest {
    pub action: String,
    pub xorname: String,
}

} // verus!
