//! One upload: what is sent, and what is made of the answer.

use vstd::prelude::*;
use vstd::string::*;
use crate::config::Committer;
use crate::error::UploadError;
use crate::json::{
    as_string, document_strings, lemma_string_under_two_keys, member, parse_json, string_at,
};

verus! {

/// The commit message of every upload.
pub const COMMIT_MESSAGE: &'static str = "add image";

/// The standard base64 text, with padding, of `bytes`.
pub uninterp spec fn base64_standard(bytes: Seq<u8>) -> Seq<char>;

/// Whether the base64 text of `len` bytes has a length that fits in `usize`.
pub open spec fn base64_fits(len: nat) -> bool {
    len / 3 * 4 + 4 <= usize::MAX
}

/// Whether an image of `len` bytes can be encoded.
pub fn can_encode(len: usize) -> (ok: bool)
    ensures
        ok == base64_fits(len as nat),
{
    len / 3 <= (usize::MAX - 4) / 4
}

/// `Engine::encode` of the `base64` crate on its `STANDARD` engine: the
/// result is a function of the bytes alone. The call panics where the
/// length of the text overflows `usize`, so such inputs are left out.
#[verifier::external_body]
fn base64_encode(bytes: &[u8]) -> (text: String)
    requires
        base64_fits(bytes@.len()),
    ensures
        text@ == base64_standard(bytes@),
{
    base64::Engine::encode(&base64::engine::general_purpose::STANDARD, bytes)
}

/// The contents of an image file as they are sent: standard base64 text.
pub fn encode_img(image: &[u8]) -> (text: String)
    requires
        base64_fits(image@.len()),
    ensures
        text@ == base64_standard(image@),
{
    base64_encode(image)
}

/// The body of the request that creates one image.
#[derive(Debug, Clone, PartialEq, Eq)]
pub struct UploadRequest {
    pub message: String,
    pub committer: Committer,
    pub content: String,
}

/// Whether `request` is the one that creates `image` in the name of
/// `committer`: the fixed message, the committer, and the image in base64.
pub open spec fn is_request_for(
    request: UploadRequest,
    committer: Committer,
    image: Seq<u8>,
) -> bool {
    &&& request.message@ == COMMIT_MESSAGE@
    &&& request.committer@ == committer@
    &&& request.content@ == base64_standard(image)
}

impl UploadRequest {
    /// The request for `image`, committed in the name of `committer` with the
    /// fixed message.
    pub fn new(committer: &Committer, image: &[u8]) -> (request: UploadRequest)
        requires
            base64_fits(image@.len()),
        ensures
            is_request_for(request, *committer, image@),
    {
        UploadRequest {
            message: String::from_str(COMMIT_MESSAGE),
            committer: Committer { name: committer.name.clone(), email: committer.email.clone() },
            content: encode_img(image),
        }
    }
}

/// The string at `content.download_url` of the JSON document `response`.
/// There is none where `response` is no JSON document, and where the
/// document has no string there.
pub open spec fn download_url_in(response: Seq<char>) -> Option<Seq<char>> {
    match document_strings(response) {
        Some(strings) => string_at(strings, seq!["content"@, "download_url"@]),
        None => None,
    }
}

/// What is printed for an image: the proxy prefix and the download URL, with
/// nothing put between them.
pub open spec fn printed_line(proxy: Seq<char>, download_url: Seq<char>) -> Seq<char> {
    proxy + download_url
}

/// Whether `e` is the error for the answer `response` to the request to
/// `url`, which holds both: of one kind where the answer is no JSON, of the
/// other where it is.
pub open spec fn is_error_for(e: UploadError, url: Seq<char>, response: Seq<char>) -> bool {
    match e {
        UploadError::InvalidResponse { url: u, response: r } => {
            &&& document_strings(response) is None
            &&& u@ == url
            &&& r@ == response
        },
        UploadError::MissingDownloadUrl { url: u, response: r } => {
            &&& document_strings(response) is Some
            &&& u@ == url
            &&& r@ == response
        },
    }
}

/// Whether `out` ends the upload to `url` that was answered with `response`
/// as it must: with the line to print where the answer holds a download URL,
/// and with the error for it where it holds none.
pub open spec fn is_outcome_for(
    out: Result<String, UploadError>,
    proxy: Seq<char>,
    url: Seq<char>,
    response: Seq<char>,
) -> bool {
    match download_url_in(response) {
        Some(download_url) => out matches Ok(line) && line@ == printed_line(proxy, download_url),
        None => out matches Err(e) && is_error_for(e, url, response),
    }
}

/// The end of an upload whose answer `response` was read as JSON, with
/// `found` the string at `content.download_url`, if there is one: the line to
/// print, or the error that holds the address of the request and the answer.
pub fn upload_outcome(proxy: &str, url: &str, response: &str, found: Option<&str>) -> (out: Result<
    String,
    UploadError,
>)
    ensures
        match found {
            Some(download_url) => out matches Ok(line) && line@ == printed_line(
                proxy@,
                download_url@,
            ),
            None => out matches Err(UploadError::MissingDownloadUrl { url: u, response: r }) && u@
                == url@ && r@ == response@,
        },
{
    match found {
        Some(download_url) => {
            let mut line = String::from_str(proxy);
            line.append(download_url);
            Ok(line)
        },
        None => Err(
            UploadError::MissingDownloadUrl {
                url: String::from_str(url),
                response: String::from_str(response),
            },
        ),
    }
}

/// The end of an upload to `url` that was answered with `response`: the
/// line to print where the answer is a JSON document with a string at
/// `content.download_url`, and else the error, which holds `url` and the
/// answer as it came.
pub fn finish_upload(proxy: &str, url: &str, response: &str) -> (out: Result<String, UploadError>)
    ensures
        is_outcome_for(out, proxy@, url@, response@),
{
    match parse_json(response) {
        Ok(document) => {
            let found = as_string(member(member(&document, "content"), "download_url"));
            proof {
                lemma_string_under_two_keys(
                    document_strings(response@).unwrap(),
                    "content"@,
                    "download_url"@,
                );
            }
            upload_outcome(proxy, url, response, found)
        },
        Err(_) => Err(
            UploadError::InvalidResponse {
                url: String::from_str(url),
                response: String::from_str(response),
            },
        ),
    }
}

} // verus!
