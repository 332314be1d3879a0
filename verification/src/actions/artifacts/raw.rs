//! Requests to the artifact store: what each one carries, how a file is
//! cut into chunks, and what is made of the store's answers.

use crate::text::concat3;
use crate::text::decimal;
use crate::text::decimal_text;
use vstd::prelude::*;
use vstd::string::*;

verus! {

/// The bytes of a file that a request carries: from `start` up to and
/// including `end`, out of `total` where that is known.
#[derive(Debug, Clone, Copy, PartialEq, Eq, Structural)]
pub struct ContentRange {
    pub start: usize,
    pub end: usize,
    pub total: Option<usize>,
}

impl ContentRange {
    /// The range that covers a whole file of `len` bytes.
    pub fn whole(len: usize) -> (range: Self)
        ensures
            range.start == 0,
            range.end == if len == 0 {
                0
            } else {
                len - 1
            },
            range.total == Some(len),
    {
        ContentRange { start: 0, end: len.saturating_sub(1), total: Some(len) }
    }

    /// The number of bytes that the range spans.
    pub open spec fn span(self) -> int {
        1 + self.end - self.start
    }

    /// The number of bytes that the range spans, where that can be told: a
    /// range whose end lies before its start spans nothing that could be
    /// counted, and neither does one that spans more than there are
    /// numbers.
    pub fn len(&self) -> (len: Option<usize>)
        ensures
            match len {
                Some(len) => self.start <= self.end && len == self.span(),
                None => self.start > self.end || self.span() > usize::MAX,
            },
    {
        if self.start > self.end {
            None
        } else {
            (self.end - self.start).checked_add(1)
        }
    }

    /// The range as the header of a request states it.
    pub open spec fn text(self) -> Seq<char> {
        "bytes "@ + decimal(self.start as nat) + "-"@ + decimal(self.end as nat) + "/"@ + match self.total {
            Some(total) => decimal(total as nat),
            None => "*"@,
        }
    }

    /// Writes the range as the header of a request states it.
    pub fn to_string(&self) -> (text: String)
        ensures
            text@ == self.text(),
    {
        let mut text = concat3("bytes ", decimal_text(self.start as u64).as_str(), "-");
        text.append(decimal_text(self.end as u64).as_str());
        text.append("/");
        match self.total {
            Some(total) => text.append(decimal_text(total as u64).as_str()),
            None => text.append("*"),
        }
        text
    }
}

/// What the store's refusal to make a container most likely means, going
/// by the status of its answer.
pub open spec fn refusal(status: u16, artifact_name: Seq<char>) -> Option<Seq<char>> {
    if status == 403 {
        Some("Artifact storage quota has been hit. Unable to upload any new artifacts."@)
    } else if status == 400 {
        Some("Server rejected the request. Is the artifact name "@ + artifact_name + " valid?"@)
    } else {
        None
    }
}

/// Explains why the store did not make a container for a new artifact,
/// where the status of its answer tells.
pub fn create_container(status: u16, artifact_name: &str) -> (explanation: Option<String>)
    ensures
        match explanation {
            Some(text) => refusal(status, artifact_name@) == Some(text@),
            None => refusal(status, artifact_name@) is None,
        },
{
    if status == 403 {
        Some(
            String::from_str(
                "Artifact storage quota has been hit. Unable to upload any new artifacts.",
            ),
        )
    } else if status == 400 {
        Some(concat3("Server rejected the request. Is the artifact name ", artifact_name, " valid?"))
    } else {
        None
    }
}

/// Calls `path_slash::PathExt::to_slash_lossy` on the path. What comes
/// back depends on the system that the library was compiled for, so
/// nothing is claimed of it.
#[verifier::external_body]
fn to_slash(path: &str) -> (slashed: String) {
    path_slash::PathExt::to_slash_lossy(std::path::Path::new(path)).into_owned()
}

/// What a request that uploads a chunk carries besides the chunk.
#[derive(Debug)]
pub struct ChunkRequest {
    /// The parameter of the query that names the item, with its value.
    pub query: (String, String),
    /// The headers that state the length and the range of the chunk.
    pub headers: Vec<(String, String)>,
}

/// The request for a chunk, given the path of the item as it goes into
/// the query.
pub fn chunk_request(range: ContentRange, item_path: String) -> (request: Option<ChunkRequest>)
    ensures
        match request {
            None => range.start > range.end || range.span() > usize::MAX,
            Some(request) => {
                &&& range.start <= range.end
                &&& range.span() <= usize::MAX
                &&& request.query.0@ == "itemPath"@
                &&& request.query.1 == item_path
                &&& request.headers@.len() == 2
                &&& request.headers@[0].0@ == "content-length"@
                &&& request.headers@[0].1@ == decimal(range.span() as nat)
                &&& request.headers@[1].0@ == "content-range"@
                &&& request.headers@[1].1@ == range.text()
            },
        },
{
    match range.len() {
        None => None,
        Some(len) => {
            let mut headers: Vec<(String, String)> = Vec::new();
            headers.push((String::from_str("content-length"), decimal_text(len as u64)));
            headers.push((String::from_str("content-range"), range.to_string()));
            Some(ChunkRequest { query: (String::from_str("itemPath"), item_path), headers })
        },
    }
}

/// The request that uploads the chunk `range` of the item at
/// `remote_path`: the path goes into the query with `/` between its
/// segments.
pub fn upload_file_chunk(range: ContentRange, remote_path: &str) -> (request: Option<ChunkRequest>)
    ensures
        request is None <==> range.start > range.end || range.span() > usize::MAX,
        request matches Some(request) ==> {
            &&& request.query.0@ == "itemPath"@
            &&& request.headers@.len() == 2
            &&& request.headers@[0].0@ == "content-length"@
            &&& request.headers@[0].1@ == decimal(range.span() as nat)
            &&& request.headers@[1].0@ == "content-range"@
            &&& request.headers@[1].1@ == range.text()
        },
{
    chunk_request(range, to_slash(remote_path))
}

/// The parameter of a query that names an item.
pub fn item_path_query(artifact_name: &str) -> (query: Vec<(String, String)>)
    ensures
        query@.len() == 1,
        query@[0].0@ == "itemPath"@,
        query@[0].1@ == artifact_name@,
{
    let mut query: Vec<(String, String)> = Vec::new();
    query.push((String::from_str("itemPath"), String::from_str(artifact_name)));
    query
}

/// The parameter of the query that names the artifact whose size is
/// patched.
pub fn patch_artifact_size(artifact_name: &str, size: usize) -> (request: ((String, String), usize))
    ensures
        request.0.0@ == "artifactName"@,
        request.0.1@ == artifact_name@,
        request.1 == size,
{
    ((String::from_str("artifactName"), String::from_str(artifact_name)), size)
}

/// How a file is uploaded.
#[derive(Debug, Clone, Copy, PartialEq, Eq, Structural)]
pub enum UploadMode {
    /// In one request that carries the whole file.
    Whole(ContentRange),
    /// Chunk by chunk, as the chunks are read.
    Chunked,
}

/// How a file of `len` bytes is uploaded when chunks hold `chunk_size`
/// bytes: in one request if it is not empty and smaller than a chunk,
/// else chunk by chunk.
pub open spec fn upload_mode(len: usize, chunk_size: usize) -> UploadMode {
    if len < chunk_size && len > 0 {
        UploadMode::Whole(ContentRange { start: 0, end: (len - 1) as usize, total: Some(len) })
    } else {
        UploadMode::Chunked
    }
}

/// Where an upload in chunks stands.
#[derive(Debug, Clone, Copy, PartialEq, Eq, Structural)]
pub struct ChunkedUpload {
    /// The number of bytes that have been sent.
    pub position: usize,
    /// The size of the file.
    pub total: usize,
}

impl ChunkedUpload {
    /// The range of the next chunk, which holds `read_bytes` bytes, and the
    /// upload after the chunk is sent. A chunk is cut right behind the one
    /// before it.
    pub open spec fn chunk(self, read_bytes: usize) -> (ContentRange, ChunkedUpload) {
        (
            ContentRange {
                start: self.position,
                end: (self.position + if read_bytes == 0 {
                    0
                } else {
                    read_bytes - 1
                }) as usize,
                total: Some(self.total),
            },
            ChunkedUpload { position: (self.position + read_bytes) as usize, total: self.total },
        )
    }

    /// Cuts the next chunk, unless the position would run over.
    pub fn next_chunk(&self, read_bytes: usize) -> (next: Option<(ContentRange, ChunkedUpload)>)
        ensures
            match next {
                Some(next) => self.position + read_bytes <= usize::MAX && next == self.chunk(
                    read_bytes,
                ),
                None => self.position + read_bytes > usize::MAX,
            },
    {
        match self.position.checked_add(read_bytes) {
            None => None,
            Some(position) => Some(
                (
                    ContentRange {
                        start: self.position,
                        end: self.position + read_bytes.saturating_sub(1),
                        total: Some(self.total),
                    },
                    ChunkedUpload { position, total: self.total },
                ),
            ),
        }
    }
}

/// Decides how a file of `len` bytes is uploaded.
pub fn upload_file(len: usize, chunk_size: usize) -> (mode: UploadMode)
    ensures
        mode == upload_mode(len, chunk_size),
{
    if len < chunk_size && len > 0 {
        UploadMode::Whole(ContentRange::whole(len))
    } else {
        UploadMode::Chunked
    }
}

/// The upload of a file in chunks, before its first chunk.
pub fn begin_chunked(len: usize) -> (upload: ChunkedUpload)
    ensures
        upload == (ChunkedUpload { position: 0, total: len }),
{
    ChunkedUpload { position: 0, total: len }
}

/// The position of an upload after chunks of the given sizes.
pub open spec fn position_after(sizes: Seq<usize>) -> int
    decreases sizes.len(),
{
    if sizes.len() == 0 {
        0
    } else {
        position_after(sizes.drop_last()) + sizes.last()
    }
}

/// The chunks of an upload tile the file: each chunk with content starts
/// where the one before it ended, spans as many bytes as it holds, and the
/// position after it is the number of bytes sent so far.
pub proof fn lemma_chunks_tile(upload: ChunkedUpload, read_bytes: usize)
    requires
        read_bytes > 0,
        upload.position + read_bytes <= usize::MAX,
    ensures
        upload.chunk(read_bytes).0.start == upload.position,
        upload.chunk(read_bytes).0.span() == read_bytes,
        upload.chunk(read_bytes).0.end + 1 == upload.chunk(read_bytes).1.position,
        upload.chunk(read_bytes).1.position == upload.position + read_bytes,
        upload.chunk(read_bytes).1.total == upload.total,
{
}

/// Whether a chunk that is being read is done: nothing more came, or the
/// chunk is full.
pub fn stream_file_in_chunks(read_now: usize, buffered: usize, chunk_size: usize) -> (done: bool)
    ensures
        done == (read_now == 0 || buffered >= chunk_size),
{
    !(read_now > 0 && buffered < chunk_size)
}

/// Calls `reqwest::StatusCode::is_success`, which tells whether a status
/// is within 200-299; a number that is no status is none of success.
#[verifier::external_body]
fn status_is_success(status: u16) -> (success: bool)
    ensures
        success == (200 <= status <= 299),
{
    match reqwest::StatusCode::from_u16(status) {
        Ok(status) => status.is_success(),
        Err(_) => false,
    }
}

/// What an answer of the store comes to.
#[derive(Debug)]
pub enum Checked {
    /// The answer is good: its body.
    Body(Vec<u8>),
    /// The store refused: the status and, where it is text, the body.
    Refused { status: u16, body: Option<String> },
}

/// Checks the answer of the store: the body of a good answer is handed
/// on; any other answer is a refusal, which is told with its status and
/// with the body where that is text.
pub fn check_response(status: u16, body: Vec<u8>, body_text: Option<String>) -> (checked: Checked)
    ensures
        checked == if 200 <= status <= 299 {
            Checked::Body(body)
        } else {
            Checked::Refused { status, body: body_text }
        },
{
    if status_is_success(status) {
        Checked::Body(body)
    } else {
        Checked::Refused { status, body: body_text }
    }
}

/// What a refusal says, for the user.
pub open spec fn refusal_text(status: u16, body: Option<String>) -> Seq<char> {
    match body {
        Some(body) => "Error response body was: "@ + body@ + "\n"@
            + "Server replied with status "@ + decimal(status as nat) + "."@,
        None => "Server replied with status "@ + decimal(status as nat) + "."@,
    }
}

/// Writes what a refusal says: the status, and above it the body where
/// there is one.
pub fn describe_refusal(status: u16, body: &Option<String>) -> (text: String)
    ensures
        text@ == refusal_text(status, *body),
{
    let replied = concat3("Server replied with status ", decimal_text(status as u64).as_str(), ".");
    match body {
        Some(body) => {
            let mut text = concat3("Error response body was: ", body.as_str(), "\n");
            text.append(replied.as_str());
            text
        },
        None => replied,
    }
}

} // verus!
