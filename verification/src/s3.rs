//! Uploads of images to object storage: the shapes of request and answer,
//! and how the address of a stored object is taken apart.

use crate::text::{
    begins_with, find_char, find_text, first_index_of, first_occurrence, head_to, starts_with,
    tail_from, text_after, text_before,
};
use vstd::prelude::*;

verus! {

/// A request to upload an image in one piece.
#[derive(Debug, Clone, PartialEq, Eq)]
pub struct UploadImageRequest {
    pub project_id: String,
    pub block_id: String,
    pub file_name: String,
    pub content_type: String,
    /// The file, base64-encoded.
    pub file_data: String,
}

/// The answer to an upload: the image's identifier and where it is.
#[derive(Debug, Clone, PartialEq, Eq)]
pub struct UploadImageResponse {
    pub image_id: String,
    pub url: String,
}

/// An address without its scheme, where it has `https://` or `http://`.
pub open spec fn without_scheme(url: Seq<char>) -> Seq<char> {
    if begins_with(url, "https://"@) {
        tail_from(url, "https://"@.len() as int)
    } else if begins_with(url, "http://"@) {
        tail_from(url, "http://"@.len() as int)
    } else {
        url
    }
}

/// The two parts of `text` around its first `/`, where it has one.
pub open spec fn split_at_slash(text: Seq<char>) -> Option<(Seq<char>, Seq<char>)> {
    let at = first_index_of(text, '/');
    if at < text.len() {
        Some((head_to(text, at), tail_from(text, at + 1)))
    } else {
        None
    }
}

/// Bucket and key of the object that an address names. With a host that
/// begins with `s3.` the bucket is the first segment of the path; otherwise
/// the bucket is the host up to its first `.s3`, and the key is the path.
pub open spec fn bucket_and_key(url: Seq<char>) -> Option<(Seq<char>, Seq<char>)> {
    match split_at_slash(without_scheme(url)) {
        None => None,
        Some((host, path)) => if begins_with(host, "s3."@) {
            split_at_slash(path)
        } else {
            Some((head_to(host, first_occurrence(host, ".s3"@)), path))
        },
    }
}

/// A pair of texts as contracts see it.
pub open spec fn pair_view(pair: Option<(String, String)>) -> Option<(Seq<char>, Seq<char>)> {
    match pair {
        Some((a, b)) => Some((a@, b@)),
        None => None,
    }
}

/// Splits a text at its first `/`.
fn split_once_slash(text: &str) -> (parts: Option<(String, String)>)
    ensures
        pair_view(parts) == split_at_slash(text@),
{
    match find_char(text, '/') {
        Some(at) => Some((text_before(text, at), text_after(text, at + 1))),
        None => None,
    }
}

/// Takes the scheme off an address.
fn strip_scheme(url: &str) -> (rest: String)
    ensures
        rest@ == without_scheme(url@),
{
    proof {
        reveal_strlit("https://");
        reveal_strlit("http://");
    }
    if starts_with(url, "https://") {
        text_after(url, 8)
    } else if starts_with(url, "http://") {
        text_after(url, 7)
    } else {
        let rest = text_after(url, 0);
        assert(rest@ =~= url@);
        rest
    }
}

/// Finds bucket and key in the address of a stored object, of the form
/// `https://bucket.s3.amazonaws.com/key` or
/// `https://s3.region.amazonaws.com/bucket/key`.
pub fn _parse_bucket_and_key(url: &str) -> (parts: Option<(String, String)>)
    ensures
        pair_view(parts) == bucket_and_key(url@),
{
    let no_scheme = strip_scheme(url);
    let (host, path) = match split_once_slash(no_scheme.as_str()) {
        Some(parts) => parts,
        None => {
            return None;
        },
    };
    if starts_with(host.as_str(), "s3.") {
        split_once_slash(path.as_str())
    } else {
        let bucket = match find_text(host.as_str(), ".s3") {
            Some(at) => text_before(host.as_str(), at),
            None => {
                let whole = text_before(host.as_str(), host.as_str().unicode_len());
                whole
            },
        };
        Some((bucket, path))
    }
}

} // verus!
