//! The static files that are served beside the operations: how a request
//! path names a file, what is answered for it, and how the files are listed.

use vstd::prelude::*;
use vstd::string::StringSliceAdditionalSpecFns;

verus! {

/// What is answered to a request for a static file.
#[derive(Debug, PartialEq, Eq)]
pub struct StaticResponse {
    /// The HTTP status
    pub status: u16,
    /// The media type of the body, where the answer carries a file
    pub content_type: Option<String>,
    pub body: Vec<u8>,
}

/// The heading of the list of files.
pub open spec fn list_heading() -> Seq<char> {
    "Static files served:"@
}

/// The line that lists the file `name`.
pub open spec fn list_line(name: Seq<char>) -> Seq<char> {
    "- "@ + name
}

/// The text of the answer for a file that does not exist.
pub open spec fn not_found_text() -> Seq<u8> {
    "404 Not Found".spec_bytes()
}

/// The lines that list the files served: a heading, then one line for each
/// file, in the order given.
pub fn list_assets(filenames: &Vec<String>) -> (lines: Vec<String>)
    ensures
        lines@.len() == filenames@.len() + 1,
        lines@[0]@ == list_heading(),
        forall|i: int| 1 <= i < lines@.len() ==> (#[trigger] lines@[i])@ == list_line(filenames@[i - 1]@),
{
    let mut lines: Vec<String> = Vec::new();
    lines.push(String::from_str("Static files served:"));
    let mut i: usize = 0;
    while i < filenames.len()
        invariant
            i <= filenames.len(),
            lines@.len() == i + 1,
            lines@[0]@ == list_heading(),
            forall|k: int| 1 <= k <= i ==> (#[trigger] lines@[k])@ == list_line(filenames@[k - 1]@),
        decreases filenames.len() - i,
    {
        let line = String::from_str("- ").concat(filenames[i].as_str());
        lines.push(line);
        i += 1;
    }
    lines
}

/// The name of the file that a request path asks for: the path without the
/// slashes it starts with.
pub fn asset_path(uri_path: &str) -> (path: &str)
    ensures
        path@.len() <= uri_path@.len(),
        path@ == uri_path@.skip(uri_path@.len() - path@.len()),
        forall|i: int| 0 <= i < uri_path@.len() - path@.len() ==> uri_path@[i] == '/',
        path@.len() > 0 ==> path@[0] != '/',
{
    let len = uri_path.unicode_len();
    let mut start: usize = 0;
    while start < len && uri_path.get_char(start) == '/'
        invariant
            start <= len,
            len == uri_path@.len(),
            forall|i: int| 0 <= i < start ==> uri_path@[i] == '/',
        decreases len - start,
    {
        start += 1;
    }
    uri_path.substring_char(start, len)
}

/// Asks `mime_guess::from_path` for the media types that the extension of
/// `path` stands for and takes the first, or `application/octet-stream`
/// where it knows none. Nothing is claimed of the answer: it rests on a table
/// inside that crate and on how the platform reads a path.
#[verifier::external_body]
fn guess_content_type(path: &str) -> (content_type: String) {
    mime_guess::from_path(path).first_or_octet_stream().as_ref().to_string()
}

/// The answer that carries the file `data` of media type `content_type`.
pub fn found(content_type: String, data: Vec<u8>) -> (response: StaticResponse)
    ensures
        response == (StaticResponse { status: 200, content_type: Some(content_type), body: data }),
{
    StaticResponse { status: 200, content_type: Some(content_type), body: data }
}

/// The answer for a file that does not exist.
pub fn not_found() -> (response: StaticResponse)
    ensures
        response.status == 404,
        response.content_type is None,
        response.body@ == not_found_text(),
{
    StaticResponse { status: 404, content_type: None, body: "404 Not Found".as_bytes_vec() }
}

/// The answer to a request for the file `path`, where `content` is what the
/// file holds (`None`: there is no such file). A file is answered with
/// status 200, its content and the media type guessed from its name; a
/// missing file with status 404.
pub fn static_response(path: &str, content: Option<Vec<u8>>) -> (response: StaticResponse)
    ensures
        match content {
            Some(data) => {
                &&& response.status == 200
                &&& response.content_type is Some
                &&& response.body == data
            },
            None => {
                &&& response.status == 404
                &&& response.content_type is None
                &&& response.body@ == not_found_text()
            },
        },
{
    match content {
        Some(data) => found(guess_content_type(path), data),
        None => not_found(),
    }
}

} // verus!
