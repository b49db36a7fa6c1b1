//! The shapes of an upload in parts.

use vstd::prelude::*;

verus! {

/// A request to start an upload.
#[derive(Debug, Clone, PartialEq, Eq)]
pub struct InitiateUploadRequest {
    pub project_id: String,
    pub block_id: String,
    pub file_name: String,
    pub content_type: String,
    pub file_size: usize,
}

/// One part of an upload and the address to send it to.
#[derive(Debug, Clone, PartialEq, Eq)]
pub struct UploadPart {
    pub part_number: i32,
    pub upload_url: String,
}

/// The answer to the start of an upload.
#[derive(Debug, Clone, PartialEq, Eq)]
pub struct InitiateUploadResponse {
    pub image_id: String,
    /// The identifier of the upload, where it goes in parts.
    pub upload_id: Option<String>,
    pub upload_urls: Vec<UploadPart>,
    pub is_multipart: bool,
    pub extension: String,
}

/// A part that was sent, with the tag the storage gave it.
#[derive(Debug, Clone, PartialEq, Eq)]
pub struct CompletedPart {
    pub part_number: i32,
    pub etag: String,
}

/// A request to close an upload in parts.
#[derive(Debug, Clone, PartialEq, Eq)]
pub struct CompleteMultipartRequest {
    pub project_id: String,
    pub block_id: String,
    pub image_id: String,
    pub upload_id: String,
    pub extension: String,
    pub parts: Vec<CompletedPart>,
}

/// The answer to a closed upload.
#[derive(Debug, Clone, PartialEq, Eq)]
pub struct UploadCompleteResponse {
    pub image_id: String,
    pub url: String,
}

} // verus!
