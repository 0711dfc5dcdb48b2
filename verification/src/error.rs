//! What can go wrong, and how it is told.

use vstd::prelude::*;
use vstd::string::*;

verus! {

/// No image path was given.
#[derive(Debug, Clone, Copy, PartialEq, Eq)]
pub struct ArgumentError;

/// The token cannot stand in a request header.
#[derive(Debug, Clone, Copy, PartialEq, Eq)]
pub struct ClientError;

/// An upload was answered, but not with the address of the image. Both
/// variants hold the address of the request and the answer as it came.
#[derive(Debug, Clone, PartialEq, Eq)]
pub enum UploadError {
    /// The answer is not JSON.
    InvalidResponse { url: String, response: String },
    /// The answer holds no string at `content.download_url`.
    MissingDownloadUrl { url: String, response: String },
}

/// The sentence that tells of a failed upload.
pub open spec fn upload_error_text(e: UploadError) -> Seq<char> {
    match e {
        UploadError::InvalidResponse { url, response } => "error decoding response body: "@ + url@
            + " "@ + response@,
        UploadError::MissingDownloadUrl { url, response } => "commit failed: "@ + url@ + " "@
            + response@,
    }
}

impl ArgumentError {
    /// The sentence to show for this error.
    pub fn message(&self) -> (text: String)
        ensures
            text@ == "No image paths provided"@,
    {
        String::from_str("No image paths provided")
    }
}

impl ClientError {
    /// The sentence to show for this error.
    pub fn message(&self) -> (text: String)
        ensures
            text@ == "failed to parse header value"@,
    {
        String::from_str("failed to parse header value")
    }
}

impl UploadError {
    /// The sentence to show for this error: it holds the address of the
    /// request and the answer.
    pub fn message(&self) -> (text: String)
        ensures
            text@ == upload_error_text(*self),
    {
        let mut text: String;
        match self {
            UploadError::InvalidResponse { url, response } => {
                text = String::from_str("error decoding response body: ");
                text.append(url.as_str());
                text.append(" ");
                text.append(response.as_str());
            },
            UploadError::MissingDownloadUrl { url, response } => {
                text = String::from_str("commit failed: ");
                text.append(url.as_str());
                text.append(" ");
                text.append(response.as_str());
            },
        }
        text
    }
}

} // verus!
