use ferrite::range::{parse_byte_range, requested_range_start, MAX_CHUNK_SIZE};
use ferrite::stream::{
    build_partial_content_response, content_type_for_path, is_servable, stream_step, StreamAction,
    StreamEvent, StreamReply, StreamState,
};

fn range(h: &str, size: u64) -> (u64, u64) {
    parse_byte_range(Some(h.as_bytes()), size)
}

#[test]
fn no_range_header_means_the_first_chunk() {
    assert_eq!(parse_byte_range(None, 1), (0, 0));
    assert_eq!(parse_byte_range(None, 1000), (0, 999));
    assert_eq!(parse_byte_range(None, 10_000_000), (0, MAX_CHUNK_SIZE));
}

#[test]
fn explicit_range_is_served_as_asked() {
    assert_eq!(range("bytes=0-99", 1000), (0, 99));
    assert_eq!(range("bytes=100-199", 1000), (100, 199));
}

#[test]
fn open_range_runs_to_the_end_or_the_chunk_limit() {
    assert_eq!(range("bytes=100-", 1000), (100, 999));
    assert_eq!(range("bytes=0-", 10_000_000), (0, MAX_CHUNK_SIZE));
    assert_eq!(range("bytes=5-", 10_000_000), (5, 5 + MAX_CHUNK_SIZE));
}

#[test]
fn long_range_is_cut_at_the_chunk_limit() {
    assert_eq!(range("bytes=0-9999999", 10_000_000), (0, 512_000));
    assert_eq!(range("bytes=10-600000", 10_000_000), (10, 512_010));
}

#[test]
fn unreadable_fields_fall_back() {
    // An unparsable start is 0; an unparsable end is the file's last byte.
    assert_eq!(range("bytes=x-50", 1000), (0, 50));
    assert_eq!(range("bytes=20-y", 1000), (20, 999));
    assert_eq!(range("garbage", 1000), (0, 999));
    assert_eq!(range("bytes=-500", 1000), (0, 500));
    // The end never passes the file's last byte.
    assert_eq!(range("bytes=0-1999", 1000), (0, 999));
    assert_eq!(range("bytes=0-5000", 1000), (0, 999));
}

#[test]
fn every_unit_prefix_is_stripped() {
    assert_eq!(range("bytes=bytes=5-10", 1000), (5, 10));
    assert_eq!(range("bytes=+5-+10", 1000), (5, 10));
}

#[test]
fn a_header_that_is_not_text_reads_as_bytes_zero() {
    let bad: &[u8] = &[b'b', b'y', b't', b'e', b's', b'=', b'5', b'-', 0xff];
    assert_eq!(parse_byte_range(Some(bad), 1000), (0, 999));
    let tab: &[u8] = b"bytes=7-\t";
    assert_eq!(parse_byte_range(Some(tab), 1000), (7, 999));
    assert_eq!(requested_range_start(Some(bad)), 0);
    assert_eq!(requested_range_start(Some(b"bytes=42-1")), 42);
}

#[test]
fn servable_ranges() {
    assert!(is_servable(None, 10));
    assert!(!is_servable(None, 0));
    assert!(!is_servable(Some(b"bytes=100-50"), 1000));
    assert!(!is_servable(Some(b"bytes=18446744073709551615-"), 1000));
    assert!(is_servable(Some(b"bytes=0-0"), 1));
    assert!(!is_servable(Some(b"bytes=1000-"), 1000));
}

#[test]
fn content_types_by_extension() {
    assert_eq!(content_type_for_path("Music/a.mp3"), "audio/mpeg");
    assert_eq!(content_type_for_path("Music/a.flac"), "audio/flac");
    assert_eq!(content_type_for_path("a.ogg"), "audio/ogg");
    assert_eq!(content_type_for_path("/x/y/a.wav"), "audio/wav");
    assert_eq!(content_type_for_path("a.m4a"), "audio/mp4");
    assert_eq!(content_type_for_path("a.MP3"), "application/octet-stream");
    assert_eq!(content_type_for_path("a.aac"), "application/octet-stream");
    assert_eq!(content_type_for_path(".mp3"), "application/octet-stream");
    assert_eq!(content_type_for_path("noext"), "application/octet-stream");
}

fn header(r: &ferrite::stream::PartialContent, i: usize) -> (String, String) {
    (r.headers[i].0.clone(), r.headers[i].1.clone())
}

#[test]
fn partial_content_reply() {
    let r = build_partial_content_response("audio/mpeg", 0, 3, 10, vec![1, 2, 3, 4]);
    assert_eq!(r.status, 206);
    assert_eq!(r.headers.len(), 4);
    assert_eq!(header(&r, 0), ("Content-Type".to_string(), "audio/mpeg".to_string()));
    assert_eq!(header(&r, 1), ("Content-Range".to_string(), "bytes 0-3/10".to_string()));
    assert_eq!(header(&r, 2), ("Accept-Ranges".to_string(), "bytes".to_string()));
    assert_eq!(header(&r, 3), ("Content-Length".to_string(), "4".to_string()));
    assert_eq!(r.body, vec![1, 2, 3, 4]);
}

#[test]
fn stream_request_end_to_end() {
    let h: Option<&[u8]> = Some(b"bytes=2-5");
    let (s, a) = stream_step(
        StreamState::FindingTrack,
        StreamEvent::TrackFound { file_path: "Music/x.flac".to_string() },
        h,
    );
    assert!(matches!(a, StreamAction::OpenFile { ref file_path } if file_path == "Music/x.flac"));
    let (s, a) = stream_step(s, StreamEvent::FileOpened, h);
    assert!(matches!(a, StreamAction::ReadSize));
    let (s, a) = stream_step(s, StreamEvent::SizeKnown { file_size: 100 }, h);
    assert!(matches!(a, StreamAction::ReadChunk { start: 2, len: 4 }));
    let (s, a) = stream_step(s, StreamEvent::ChunkRead { bytes: vec![9, 9, 9, 9] }, h);
    assert!(matches!(s, StreamState::Finished));
    match a {
        StreamAction::Respond(StreamReply::Partial(r)) => {
            assert_eq!(header(&r, 0).1, "audio/flac");
            assert_eq!(header(&r, 1).1, "bytes 2-5/100");
            assert_eq!(header(&r, 3).1, "4");
        }
        _ => panic!("expected a partial reply"),
    }
}

#[test]
fn stream_failures() {
    let (_, a) = stream_step(StreamState::FindingTrack, StreamEvent::TrackMissing, None);
    assert!(matches!(a, StreamAction::Respond(StreamReply::NotFound)));
    let opening = StreamState::Opening { file_path: "a.mp3".to_string() };
    let (_, a) = stream_step(opening, StreamEvent::OpenFailed, None);
    assert!(matches!(a, StreamAction::Respond(StreamReply::InternalError)));
    let measuring = StreamState::Measuring { file_path: "a.mp3".to_string() };
    let (_, a) = stream_step(measuring, StreamEvent::SizeUnknown, None);
    assert!(matches!(a, StreamAction::Respond(StreamReply::InternalError)));
    let reading = StreamState::Reading { file_path: "a.mp3".to_string(), start: 0, end: 9, file_size: 10 };
    let (_, a) = stream_step(reading, StreamEvent::ReadFailed, None);
    assert!(matches!(a, StreamAction::Respond(StreamReply::InternalError)));
}

#[test]
fn first_chunk_without_header() {
    let measuring = StreamState::Measuring { file_path: "a.mp3".to_string() };
    let (_, a) = stream_step(measuring, StreamEvent::SizeKnown { file_size: 10 }, None);
    assert!(matches!(a, StreamAction::ReadChunk { start: 0, len: 10 }));
    let measuring = StreamState::Measuring { file_path: "a.mp3".to_string() };
    let (_, a) = stream_step(measuring, StreamEvent::SizeKnown { file_size: 1_000_000 }, None);
    assert!(matches!(a, StreamAction::ReadChunk { start: 0, len: 512_001 }));
}

#[test]
fn range_past_the_end_is_cut_at_the_file() {
    let h: Option<&[u8]> = Some(b"bytes=0-1999");
    let measuring = StreamState::Measuring { file_path: "a.mp3".to_string() };
    let (s, a) = stream_step(measuring, StreamEvent::SizeKnown { file_size: 1000 }, h);
    assert!(matches!(a, StreamAction::ReadChunk { start: 0, len: 1000 }));
    let (_, a) = stream_step(s, StreamEvent::ChunkRead { bytes: vec![0; 1000] }, h);
    match a {
        StreamAction::Respond(StreamReply::Partial(r)) => {
            assert_eq!(r.status, 206);
            assert_eq!(header(&r, 1).1, "bytes 0-999/1000");
            assert_eq!(header(&r, 3).1, "1000");
        }
        _ => panic!("expected a partial reply"),
    }
}

#[test]
fn seeking_request_is_served_from_the_seek_point() {
    // bytes=<a>- : from a through the end, or a + MAX_CHUNK_SIZE.
    assert_eq!(range("bytes=12345-", 100_000), (12345, 99_999));
    assert_eq!(range("bytes=12345-", 1_000_000_000), (12345, 12345 + MAX_CHUNK_SIZE));
}

#[test]
fn explicit_request_law_instances() {
    // bytes=<a>-<b> : from a through b, or a + MAX_CHUNK_SIZE when b lies further.
    assert_eq!(range("bytes=7-700000", 1_000_000), (7, 7 + MAX_CHUNK_SIZE));
    assert_eq!(range("bytes=7-70", 1_000_000), (7, 70));
    assert_eq!(range("bytes=7-70", 50), (7, 49));
}

#[test]
fn ranged_chunks_stay_small() {
    for h in ["bytes=0-", "bytes=0-99999999", "bytes=5-", "x", "bytes=-9999999"] {
        let (s, e) = range(h, u64::MAX / 2);
        assert!(e - s + 1 <= MAX_CHUNK_SIZE + 1, "header {:?}", h);
    }
    let (s, e) = parse_byte_range(None, u64::MAX / 2);
    assert!(e - s + 1 <= MAX_CHUNK_SIZE + 1);
}
