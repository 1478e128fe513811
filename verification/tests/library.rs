use ferrite::library::Track;
use ferrite::scanner::{
    audio_files, is_audio_extension, is_audio_file, process_file, scan_directory, AudioRead,
    ScanCandidate, TagFields, WalkEntry,
};
use ferrite::watcher::{fingerprint_of, fingerprint_or_empty, watch_step, Fingerprint};
use ferrite::web::{
    get_track_by_id, index_page, static_asset, static_asset_response, StaticAssetPlan,
};

#[test]
fn audio_files_by_extension() {
    assert!(is_audio_file("Music/a.mp3"));
    assert!(is_audio_file("Music/a.MP3"));
    assert!(is_audio_file("Music/a.Flac"));
    assert!(is_audio_file("x.aac"));
    assert!(is_audio_file("x.m4a"));
    assert!(!is_audio_file("x.txt"));
    assert!(!is_audio_file(".mp3"));
    assert!(!is_audio_file("mp3"));
    assert!(is_audio_extension(&['o', 'g', 'g']));
    assert!(!is_audio_extension(&['O', 'G', 'G']));
}

fn read(tag: Option<TagFields>, secs: u64) -> Option<AudioRead> {
    Some(AudioRead { tag, duration_secs: secs })
}

#[test]
fn track_from_tags() {
    let tag = TagFields {
        title: Some("T".to_string()),
        artist: Some("A".to_string()),
        album: Some("L".to_string()),
        track: Some(3),
    };
    let t = process_file(b"Music/x.mp3", read(Some(tag), 215)).unwrap();
    assert_eq!(t.title, "T");
    assert_eq!(t.artist, "A");
    assert_eq!(t.album.as_deref(), Some("L"));
    assert_eq!(t.file_path, "Music/x.mp3");
    assert_eq!(t.duration, Some(215));
    assert_eq!(t.track_number, Some(3));
    assert!(t.kind.is_none());
}

#[test]
fn track_without_tags() {
    let t = process_file(b"Music/My Song.flac", read(None, u64::MAX)).unwrap();
    assert_eq!(t.title, "My Song");
    assert_eq!(t.artist, "Unknown Artist");
    assert!(t.album.is_none());
    assert_eq!(t.duration, None);
    assert_eq!(t.track_number, None);
    let t = process_file(b"/", read(None, 1)).unwrap();
    assert_eq!(t.title, "Unknown Title");
    assert!(process_file(b"Music/broken.mp3", None).is_none());
}

#[test]
fn walking_the_folder() {
    let entries = vec![
        WalkEntry { path: "Music".to_string(), is_file: false },
        WalkEntry { path: "Music/a.mp3".to_string(), is_file: true },
        WalkEntry { path: "Music/cover.jpg".to_string(), is_file: true },
        WalkEntry { path: "Music/dir.mp3".to_string(), is_file: false },
        WalkEntry { path: "Music/b.OGG".to_string(), is_file: true },
    ];
    assert_eq!(audio_files(&entries), vec![1, 4]);
    let found = scan_directory(vec![
        ScanCandidate { path: b"Music/a.mp3".to_vec(), read: read(None, 1) },
        ScanCandidate { path: b"Music/bad.mp3".to_vec(), read: None },
        ScanCandidate { path: b"Music/b.ogg".to_vec(), read: read(None, 2) },
    ]);
    assert_eq!(found.len(), 2);
    assert_eq!(found[0].title, "a");
    assert_eq!(found[1].title, "b");
}

#[test]
fn folder_fingerprints() {
    let f = fingerprint_of(&vec![10, 20, 30]);
    assert_eq!((f.files, f.bytes), (3, 60));
    let f = fingerprint_of(&vec![u64::MAX, 1]);
    assert_eq!((f.files, f.bytes), (2, u64::MAX));
    let f = fingerprint_or_empty(None);
    assert_eq!((f.files, f.bytes), (0, 0));
    let d = watch_step(Fingerprint { files: 1, bytes: 5 }, Fingerprint { files: 1, bytes: 5 });
    assert!(!d.sync);
    let d = watch_step(Fingerprint { files: 1, bytes: 5 }, Fingerprint { files: 2, bytes: 5 });
    assert!(d.sync);
    assert_eq!((d.last.files, d.last.bytes), (2, 5));
}

#[test]
fn pages_and_assets() {
    assert_eq!(index_page(Some("<html/>".to_string())), "<html/>");
    assert_eq!(index_page(None), "<h1>Could not load page</h1>");
    assert!(matches!(static_asset("../secret"), StaticAssetPlan::Reject));
    assert!(matches!(static_asset("a/..b"), StaticAssetPlan::Reject));
    match static_asset("app.js") {
        StaticAssetPlan::Read { file, content_type } => {
            assert_eq!(file, "frontend/app.js");
            assert_eq!(content_type, "text/javascript; charset=utf-8");
        }
        _ => panic!("expected a read"),
    }
    let plan = static_asset("style.css");
    assert!(matches!(plan, StaticAssetPlan::Read { content_type: "text/css; charset=utf-8", .. }));
    let r = static_asset_response(&plan, None);
    assert_eq!((r.status, r.content_type, r.body), (404, Some("text/plain; charset=utf-8"), b"Not found".to_vec()));
    let r = static_asset_response(&plan, Some(vec![1]));
    assert_eq!((r.status, r.content_type, r.body), (200, Some("text/css; charset=utf-8"), vec![1]));
    let r = static_asset_response(&StaticAssetPlan::Reject, None);
    assert_eq!((r.status, r.body), (400, b"Invalid path".to_vec()));
    assert!(matches!(static_asset("logo.png"), StaticAssetPlan::Read { content_type: "application/octet-stream", .. }));
}

#[test]
fn track_lookup() {
    let t = Track {
        id: 1,
        title: "t".to_string(),
        artist: "a".to_string(),
        album: None,
        file_path: "p".to_string(),
        duration: None,
        track_number: None,
        year: None,
    };
    assert_eq!(get_track_by_id(Some(t)).map(|t| t.id).ok(), Some(1));
    assert!(get_track_by_id(None).is_err());
}

#[test]
fn titles_from_names_that_are_not_text() {
    // A stem that is not valid UTF-8 gives no title; the stored path is the
    // lossy text of the bytes.
    let t = process_file(b"Music/\xff\xfe.mp3", read(None, 1)).unwrap();
    assert_eq!(t.title, "Unknown Title");
    assert_eq!(t.file_path, String::from_utf8_lossy(b"Music/\xff\xfe.mp3"));
    // A directory that is not text does not matter when the stem is.
    let t = process_file(b"\xffdir/Caf\xc3\xa9.flac", read(None, 1)).unwrap();
    assert_eq!(t.title, "Caf\u{e9}");
    assert_eq!(t.file_path, "\u{fffd}dir/Caf\u{e9}.flac");
    // Valid UTF-8 that holds U+FFFD itself is a title like any other.
    let t = process_file("Music/\u{fffd}x.ogg".as_bytes(), read(None, 1)).unwrap();
    assert_eq!(t.title, "\u{fffd}x");
}
