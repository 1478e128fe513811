//! Streaming a track: the content type of an audio file, the
//! `206 Partial Content` reply for one byte range, and the decisions that
//! turn a request into that reply.

use vstd::prelude::*;
use crate::paths::{extension, extension_spec};
use crate::range::{
    byte_range_spec, parse_byte_range, range_start_spec, requested_range_start, view_header,
    MAX_CHUNK_SIZE,
};
use crate::text::{append_chars, chars_of, decimal, string_of, u64_decimal};

verus! {

pub open spec fn mp3_ext() -> Seq<char> {
    seq!['m', 'p', '3']
}

pub open spec fn flac_ext() -> Seq<char> {
    seq!['f', 'l', 'a', 'c']
}

pub open spec fn ogg_ext() -> Seq<char> {
    seq!['o', 'g', 'g']
}

pub open spec fn wav_ext() -> Seq<char> {
    seq!['w', 'a', 'v']
}

pub open spec fn m4a_ext() -> Seq<char> {
    seq!['m', '4', 'a']
}

/// The MIME type served for a file with this extension (compared exactly,
/// case included).
pub open spec fn content_type_spec(ext: Option<Seq<char>>) -> Seq<char> {
    match ext {
        Some(e) => if e == mp3_ext() {
            "audio/mpeg"@
        } else if e == flac_ext() {
            "audio/flac"@
        } else if e == ogg_ext() {
            "audio/ogg"@
        } else if e == wav_ext() {
            "audio/wav"@
        } else if e == m4a_ext() {
            "audio/mp4"@
        } else {
            "application/octet-stream"@
        },
        None => "application/octet-stream"@,
    }
}

/// Whether two character sequences are equal.
pub fn same_chars(a: &[char], b: &[char]) -> (r: bool)
    ensures
        r == (a@ == b@),
{
    if a.len() != b.len() {
        return false;
    }
    let mut i: usize = 0;
    while i < a.len()
        invariant
            0 <= i <= a@.len(),
            a@.len() == b@.len(),
            forall|j: int| 0 <= j < i ==> a@[j] == b@[j],
        decreases a@.len() - i,
    {
        if a[i] != b[i] {
            return false;
        }
        i = i + 1;
    }
    assert(a@ =~= b@);
    true
}

/// The MIME type served for a file with extension `ext`.
pub fn content_type_for_extension(ext: Option<&[char]>) -> (r: &'static str)
    ensures
        r@ == content_type_spec(
            match ext {
                Some(e) => Some(e@),
                None => None,
            },
        ),
{
    match ext {
        Some(e) => {
            let mp3: Vec<char> = vec!['m', 'p', '3'];
            let flac: Vec<char> = vec!['f', 'l', 'a', 'c'];
            let ogg: Vec<char> = vec!['o', 'g', 'g'];
            let wav: Vec<char> = vec!['w', 'a', 'v'];
            let m4a: Vec<char> = vec!['m', '4', 'a'];
            if same_chars(e, mp3.as_slice()) {
                "audio/mpeg"
            } else if same_chars(e, flac.as_slice()) {
                "audio/flac"
            } else if same_chars(e, ogg.as_slice()) {
                "audio/ogg"
            } else if same_chars(e, wav.as_slice()) {
                "audio/wav"
            } else if same_chars(e, m4a.as_slice()) {
                "audio/mp4"
            } else {
                "application/octet-stream"
            }
        },
        None => "application/octet-stream",
    }
}

/// The MIME type served for the file at `file_path`, chosen by the
/// extension of its last component.
pub fn content_type_for_path(file_path: &str) -> (r: &'static str)
    ensures
        r@ == content_type_spec(extension_spec(file_path@)),
{
    let path = chars_of(file_path);
    match extension(path.as_slice()) {
        Some(e) => content_type_for_extension(Some(e.as_slice())),
        None => content_type_for_extension(None),
    }
}

/// A `206 Partial Content` reply: status, headers in order, body.
pub struct PartialContent {
    pub status: u16,
    pub headers: Vec<(String, String)>,
    pub body: Vec<u8>,
}

/// `bytes <start>-<end>/<size>`.
pub open spec fn content_range_spec(start: u64, end: u64, file_size: u64) -> Seq<char> {
    "bytes "@ + decimal(start as nat) + "-"@ + decimal(end as nat) + "/"@ + decimal(
        file_size as nat,
    )
}

/// What `build_partial_content_response` gives.
pub open spec fn is_partial_content(
    r: PartialContent,
    content_type: Seq<char>,
    start: u64,
    end: u64,
    file_size: u64,
    body: Seq<u8>,
) -> bool {
    &&& r.status == 206
    &&& r.body@ == body
    &&& r.headers@.len() == 4
    &&& r.headers@[0].0@ == "Content-Type"@
    &&& r.headers@[0].1@ == content_type
    &&& r.headers@[1].0@ == "Content-Range"@
    &&& r.headers@[1].1@ == content_range_spec(start, end, file_size)
    &&& r.headers@[2].0@ == "Accept-Ranges"@
    &&& r.headers@[2].1@ == "bytes"@
    &&& r.headers@[3].0@ == "Content-Length"@
    &&& r.headers@[3].1@ == decimal(body.len())
}

/// The reply that carries bytes `start..=end` of a file of `file_size`
/// bytes.
pub fn build_partial_content_response(
    content_type: &str,
    start: u64,
    end: u64,
    file_size: u64,
    buffer: Vec<u8>,
) -> (r: PartialContent)
    ensures
        is_partial_content(r, content_type@, start, end, file_size, buffer@),
{
    let mut range = chars_of("bytes ");
    let s = u64_decimal(start);
    append_chars(&mut range, &s);
    let dash = chars_of("-");
    append_chars(&mut range, &dash);
    let e = u64_decimal(end);
    append_chars(&mut range, &e);
    let slash = chars_of("/");
    append_chars(&mut range, &slash);
    let z = u64_decimal(file_size);
    append_chars(&mut range, &z);
    let length = u64_decimal(buffer.len() as u64);
    let mut headers: Vec<(String, String)> = Vec::new();
    headers.push((String::from_str("Content-Type"), String::from_str(content_type)));
    headers.push((String::from_str("Content-Range"), string_of(range.as_slice())));
    headers.push((String::from_str("Accept-Ranges"), String::from_str("bytes")));
    headers.push((String::from_str("Content-Length"), string_of(length.as_slice())));
    PartialContent { status: 206, headers, body: buffer }
}

/// Where answering one stream request stands.
pub enum StreamState {
    /// The track is being looked up.
    FindingTrack,
    /// The track's file is being opened.
    Opening { file_path: String },
    /// The file's size is being read.
    Measuring { file_path: String },
    /// The chosen bytes are being read.
    Reading { file_path: String, start: u64, end: u64, file_size: u64 },
    /// The reply has been chosen.
    Finished,
}

/// What the outside work reports back.
pub enum StreamEvent {
    TrackFound { file_path: String },
    TrackMissing,
    FileOpened,
    OpenFailed,
    SizeKnown { file_size: u64 },
    SizeUnknown,
    ChunkRead { bytes: Vec<u8> },
    ReadFailed,
}

/// The reply to send.
pub enum StreamReply {
    NotFound,
    InternalError,
    Partial(PartialContent),
}

/// The outside work to do next.
pub enum StreamAction {
    OpenFile { file_path: String },
    ReadSize,
    /// Read exactly `len` bytes from offset `start`.
    ReadChunk { start: u64, len: u64 },
    Respond(StreamReply),
}

/// Whether `event` answers the work that `state` waits for.
pub open spec fn stream_event_fits(state: StreamState, event: StreamEvent) -> bool {
    match state {
        StreamState::FindingTrack => event is TrackFound || event is TrackMissing,
        StreamState::Opening { .. } => event is FileOpened || event is OpenFailed,
        StreamState::Measuring { .. } => event is SizeKnown || event is SizeUnknown,
        StreamState::Reading { .. } => event is ChunkRead || event is ReadFailed,
        StreamState::Finished => false,
    }
}

/// Whether a file of `file_size` bytes can be served for this header:
/// it has a byte, the range's end can be computed, and the range is not
/// empty (its first byte lies in the file and not past its last byte).
pub open spec fn servable(h: Option<Seq<u8>>, file_size: u64) -> bool {
    &&& file_size >= 1
    &&& range_start_spec(h) + MAX_CHUNK_SIZE <= u64::MAX
    &&& byte_range_spec(h, file_size).0 <= byte_range_spec(h, file_size).1
}

/// Whether a file of `file_size` bytes can be served for this header.
pub fn is_servable(range_header: Option<&[u8]>, file_size: u64) -> (r: bool)
    ensures
        r == servable(view_header(range_header), file_size),
{
    if file_size == 0 {
        return false;
    }
    let start = requested_range_start(range_header);
    if start > u64::MAX - MAX_CHUNK_SIZE {
        return false;
    }
    let (first, last) = parse_byte_range(range_header, file_size);
    first <= last
}

/// Law: one reply carries at most `MAX_CHUNK_SIZE + 1` bytes, however
/// large the file, with a `Range` header or without one, and never a byte
/// past the file's end.
pub proof fn lemma_chunk_bounded(range_header: Option<Seq<u8>>, file_size: u64)
    requires
        servable(range_header, file_size),
    ensures
        ({
            let (start, end) = byte_range_spec(range_header, file_size);
            &&& end - start + 1 <= MAX_CHUNK_SIZE + 1
            &&& end < file_size
        }),
{
}

/// One decision in answering `GET /api/tracks/:id/stream`: a missing track
/// is `404`, a file that cannot be opened, measured or read is `500`, and
/// otherwise the bytes chosen by the `Range` header (at most one chunk,
/// all inside the file) go out as `206`.
pub fn stream_step(state: StreamState, event: StreamEvent, range_header: Option<&[u8]>) -> (r: (
    StreamState,
    StreamAction,
))
    requires
        stream_event_fits(state, event),
        (state is Measuring && event is SizeKnown) ==> servable(
            view_header(range_header),
            event->file_size,
        ),
    ensures
        match (state, event) {
            (StreamState::FindingTrack, StreamEvent::TrackFound { file_path }) => {
                &&& r.0 matches StreamState::Opening { file_path: p } && p@ == file_path@
                &&& r.1 matches StreamAction::OpenFile { file_path: p } && p@ == file_path@
            },
            (StreamState::Opening { file_path }, StreamEvent::FileOpened) => {
                &&& r.0 matches StreamState::Measuring { file_path: p } && p@ == file_path@
                &&& r.1 is ReadSize
            },
            (StreamState::Measuring { file_path }, StreamEvent::SizeKnown { file_size }) => {
                let (start, end) = byte_range_spec(view_header(range_header), file_size);
                &&& r.0 matches StreamState::Reading { file_path: p, start: s, end: e, file_size: z }
                    && p@ == file_path@ && s == start && e == end && z == file_size
                &&& r.1 == StreamAction::ReadChunk { start, len: (end - start + 1) as u64 }
            },
            (
                StreamState::Reading { file_path, start, end, file_size },
                StreamEvent::ChunkRead { bytes },
            ) => {
                &&& r.0 is Finished
                &&& r.1 matches StreamAction::Respond(StreamReply::Partial(reply))
                    && is_partial_content(
                    reply,
                    content_type_spec(extension_spec(file_path@)),
                    start,
                    end,
                    file_size,
                    bytes@,
                )
            },
            (_, StreamEvent::TrackMissing) => r.0 is Finished && r.1 matches StreamAction::Respond(
                StreamReply::NotFound,
            ),
            _ => r.0 is Finished && r.1 matches StreamAction::Respond(StreamReply::InternalError),
        },
{
    match (state, event) {
        (StreamState::FindingTrack, StreamEvent::TrackFound { file_path }) => {
            let p = string_copy(&file_path);
            (StreamState::Opening { file_path }, StreamAction::OpenFile { file_path: p })
        },
        (StreamState::Opening { file_path }, StreamEvent::FileOpened) => {
            (StreamState::Measuring { file_path }, StreamAction::ReadSize)
        },
        (StreamState::Measuring { file_path }, StreamEvent::SizeKnown { file_size }) => {
            let (start, end) = parse_byte_range(range_header, file_size);
            (
                StreamState::Reading { file_path, start, end, file_size },
                StreamAction::ReadChunk { start, len: end - start + 1 },
            )
        },
        (
            StreamState::Reading { file_path, start, end, file_size },
            StreamEvent::ChunkRead { bytes },
        ) => {
            let content_type = content_type_for_path(file_path.as_str());
            let reply = build_partial_content_response(content_type, start, end, file_size, bytes);
            (StreamState::Finished, StreamAction::Respond(StreamReply::Partial(reply)))
        },
        (_, StreamEvent::TrackMissing) => (
            StreamState::Finished,
            StreamAction::Respond(StreamReply::NotFound),
        ),
        _ => (StreamState::Finished, StreamAction::Respond(StreamReply::InternalError)),
    }
}

/// A copy of a string.
pub fn string_copy(s: &String) -> (r: String)
    ensures
        r@ == s@,
{
    String::from_str(s.as_str())
}

} // verus!
