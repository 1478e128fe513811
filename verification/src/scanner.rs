//! Indexing the music folder: which files are audio, and what a track's
//! row holds, from the tags read out of its file or, lacking those, from
//! its name.

use vstd::prelude::*;
use crate::paths::{extension, extension_spec, file_stem, file_stem_spec};
use vstd::utf8::{decode_utf8, valid_utf8};
use crate::stream::same_chars;
use crate::text::{chars_of, string_of};

verus! {

/// `s.to_lowercase()`: the Unicode lowercase mapping of every character.
pub uninterp spec fn lowercase(s: Seq<char>) -> Seq<char>;

/// `str::to_lowercase`; its result is `lowercase` of its argument.
#[verifier::external_body]
fn to_lowercase(s: &str) -> (r: String)
    ensures
        r@ == lowercase(s@),
{
    s.to_lowercase()
}

/// The extensions, in lowercase, of the audio files that are indexed.
pub open spec fn is_audio_extension_spec(e: Seq<char>) -> bool {
    ||| e == seq!['m', 'p', '3']
    ||| e == seq!['f', 'l', 'a', 'c']
    ||| e == seq!['o', 'g', 'g']
    ||| e == seq!['w', 'a', 'v']
    ||| e == seq!['m', '4', 'a']
    ||| e == seq!['a', 'a', 'c']
}

/// Whether a lowercased extension is one of the indexed audio formats.
pub fn is_audio_extension(lowercased: &[char]) -> (r: bool)
    ensures
        r == is_audio_extension_spec(lowercased@),
{
    let mp3: Vec<char> = vec!['m', 'p', '3'];
    let flac: Vec<char> = vec!['f', 'l', 'a', 'c'];
    let ogg: Vec<char> = vec!['o', 'g', 'g'];
    let wav: Vec<char> = vec!['w', 'a', 'v'];
    let m4a: Vec<char> = vec!['m', '4', 'a'];
    let aac: Vec<char> = vec!['a', 'a', 'c'];
    same_chars(lowercased, mp3.as_slice()) || same_chars(lowercased, flac.as_slice())
        || same_chars(lowercased, ogg.as_slice()) || same_chars(lowercased, wav.as_slice())
        || same_chars(lowercased, m4a.as_slice()) || same_chars(lowercased, aac.as_slice())
}

/// Whether the file at `path` is indexed: its extension, in lowercase, is
/// `mp3`, `flac`, `ogg`, `wav`, `m4a` or `aac`.
pub open spec fn is_audio_file_spec(path: Seq<char>) -> bool {
    match extension_spec(path) {
        Some(e) => is_audio_extension_spec(lowercase(e)),
        None => false,
    }
}

pub fn is_audio_file(path: &str) -> (r: bool)
    ensures
        r == is_audio_file_spec(path@),
{
    let p = chars_of(path);
    match extension(p.as_slice()) {
        Some(e) => {
            let text = string_of(e.as_slice());
            let lower = to_lowercase(text.as_str());
            let lower_chars = chars_of(lower.as_str());
            is_audio_extension(lower_chars.as_slice())
        },
        None => false,
    }
}

/// Law: exactly six extensions are indexed, `mp3`, `flac`, `ogg`, `wav`,
/// `m4a` and `aac`, compared after lowercasing.
pub proof fn lemma_audio_extensions(e: Seq<char>)
    ensures
        is_audio_extension_spec(e) <==> (e == seq!['m', 'p', '3'] || e == seq!['f', 'l', 'a', 'c']
            || e == seq!['o', 'g', 'g'] || e == seq!['w', 'a', 'v'] || e == seq!['m', '4', 'a']
            || e == seq!['a', 'a', 'c']),
{
}

/// Law: a file whose extension is one of the six indexed formats, written
/// in lowercase, is indexed, whatever its directory and stem.
pub proof fn lemma_audio_file_by_extension(path: Seq<char>, e: Seq<char>)
    requires
        extension_spec(path) == Some(e),
        lowercase(e) == e,
        e == seq!['m', 'p', '3'] || e == seq!['f', 'l', 'a', 'c'] || e == seq!['o', 'g', 'g']
            || e == seq!['w', 'a', 'v'] || e == seq!['m', '4', 'a'] || e == seq!['a', 'a', 'c'],
    ensures
        is_audio_file_spec(path),
{
    lemma_audio_extensions(e);
}

/// Law: a file without an extension is never indexed.
pub proof fn lemma_no_extension_not_audio(path: Seq<char>)
    requires
        extension_spec(path) is None,
    ensures
        !is_audio_file_spec(path),
{
}

/// The fields read out of a file's tag (its primary tag, or else its
/// first one).
pub struct TagFields {
    pub title: Option<String>,
    pub artist: Option<String>,
    pub album: Option<String>,
    pub track: Option<u32>,
}

/// What reading an audio file gave: its tag, when it has one, and its
/// duration in whole seconds.
pub struct AudioRead {
    pub tag: Option<TagFields>,
    pub duration_secs: u64,
}

/// A track found in the music folder, ready to be stored.
pub struct ScannedTrack {
    pub title: String,
    pub artist: String,
    pub album: Option<String>,
    pub file_path: String,
    pub duration: Option<i64>,
    pub track_number: Option<i64>,
    pub kind: Option<String>,
}

pub open spec fn tag_title(tag: Option<TagFields>) -> Option<Seq<char>> {
    match tag {
        Some(t) => match t.title {
            Some(s) => Some(s@),
            None => None,
        },
        None => None,
    }
}

pub open spec fn tag_artist(tag: Option<TagFields>) -> Option<Seq<char>> {
    match tag {
        Some(t) => match t.artist {
            Some(s) => Some(s@),
            None => None,
        },
        None => None,
    }
}

pub open spec fn tag_album(tag: Option<TagFields>) -> Option<Seq<char>> {
    match tag {
        Some(t) => match t.album {
            Some(s) => Some(s@),
            None => None,
        },
        None => None,
    }
}

/// `std::str::from_utf8`: the bytes as text, when they are valid UTF-8.
#[verifier::external_body]
fn utf8_text(bytes: &[u8]) -> (r: Option<String>)
    ensures
        r is Some <==> valid_utf8(bytes@),
        r matches Some(t) ==> t@ == decode_utf8(bytes@),
{
    std::str::from_utf8(bytes).ok().map(|t| t.to_string())
}

/// `String::from_utf8_lossy(bytes)`: the bytes as text, each invalid
/// sequence replaced by U+FFFD.
pub uninterp spec fn lossy_text(bytes: Seq<u8>) -> Seq<char>;

/// `String::from_utf8_lossy`; valid UTF-8 comes through unchanged.
#[verifier::external_body]
fn lossy(bytes: &[u8]) -> (r: String)
    ensures
        r@ == lossy_text(bytes@),
        valid_utf8(bytes@) ==> r@ == decode_utf8(bytes@),
{
    String::from_utf8_lossy(bytes).into_owned()
}

/// A path's bytes read one character per byte: `/` and `.` stay where they
/// are, which is all that the path rules look at.
pub open spec fn byte_chars(p: Seq<u8>) -> Seq<char> {
    p.map_values(|b: u8| b as char)
}

pub open spec fn char_bytes(p: Seq<char>) -> Seq<u8> {
    p.map_values(|c: char| c as u8)
}

/// `Path::file_stem` of a Unix path given as bytes.
pub open spec fn stem_bytes_spec(path: Seq<u8>) -> Option<Seq<u8>> {
    match file_stem_spec(byte_chars(path)) {
        Some(s) => Some(char_bytes(s)),
        None => None,
    }
}

pub open spec fn view_opt_bytes(o: Option<Vec<u8>>) -> Option<Seq<u8>> {
    match o {
        Some(v) => Some(v@),
        None => None,
    }
}

/// The stem of a Unix path given as bytes.
pub fn file_stem_bytes(path: &[u8]) -> (r: Option<Vec<u8>>)
    ensures
        view_opt_bytes(r) == stem_bytes_spec(path@),
{
    let mut chars: Vec<char> = Vec::new();
    let mut i: usize = 0;
    while i < path.len()
        invariant
            0 <= i <= path@.len(),
            chars@ == byte_chars(path@.take(i as int)),
        decreases path@.len() - i,
    {
        chars.push(path[i] as char);
        i = i + 1;
        assert(chars@ =~= byte_chars(path@.take(i as int)));
    }
    assert(path@.take(i as int) =~= path@);
    match file_stem(chars.as_slice()) {
        Some(stem) => {
            let mut out: Vec<u8> = Vec::new();
            let mut j: usize = 0;
            while j < stem.len()
                invariant
                    0 <= j <= stem@.len(),
                    out@ == char_bytes(stem@.take(j as int)),
                decreases stem@.len() - j,
            {
                out.push(stem[j] as u8);
                j = j + 1;
                assert(out@ =~= char_bytes(stem@.take(j as int)));
            }
            assert(stem@.take(j as int) =~= stem@);
            Some(out)
        },
        None => None,
    }
}

/// The title that a file's stem gives: the stem when it is valid UTF-8
/// (`file_stem().and_then(|s| s.to_str())`).
pub open spec fn stem_title(path: Seq<u8>) -> Option<Seq<char>> {
    match stem_bytes_spec(path) {
        Some(b) => if valid_utf8(b) {
            Some(decode_utf8(b))
        } else {
            None
        },
        None => None,
    }
}

/// A track's title: the tag's, else the file's stem when that is text,
/// else `Unknown Title`.
pub open spec fn title_spec(path: Seq<u8>, tag: Option<TagFields>) -> Seq<char> {
    match tag_title(tag) {
        Some(t) => t,
        None => match stem_title(path) {
            Some(s) => s,
            None => "Unknown Title"@,
        },
    }
}

/// A track's artist: the tag's, else `Unknown Artist`.
pub open spec fn artist_spec(tag: Option<TagFields>) -> Seq<char> {
    match tag_artist(tag) {
        Some(a) => a,
        None => "Unknown Artist"@,
    }
}

pub open spec fn view_opt_string(s: Option<String>) -> Option<Seq<char>> {
    match s {
        Some(v) => Some(v@),
        None => None,
    }
}

/// Whether `track` is what the file at `path` (the path's bytes) is stored
/// as, given what reading it gave: the path as lossy text, the duration
/// when it fits an `i64`, the track number when the tag has one.
pub open spec fn is_scan_of(path: Seq<u8>, read: AudioRead, track: ScannedTrack) -> bool {
    &&& track.title@ == title_spec(path, read.tag)
    &&& track.artist@ == artist_spec(read.tag)
    &&& view_opt_string(track.album) == tag_album(read.tag)
    &&& track.file_path@ == lossy_text(path)
    &&& track.duration == (if read.duration_secs <= i64::MAX as u64 {
        Some(read.duration_secs as i64)
    } else {
        None::<i64>
    })
    &&& track.track_number == match read.tag {
        Some(t) => match t.track {
            Some(n) => Some(n as i64),
            None => None::<i64>,
        },
        None => None::<i64>,
    }
    &&& track.kind is None
}

fn copy_opt(s: &Option<String>) -> (r: Option<String>)
    ensures
        view_opt_string(r) == view_opt_string(*s),
{
    match s {
        Some(v) => Some(String::from_str(v.as_str())),
        None => None,
    }
}

/// The track stored for the file at `path`, given what reading it gave;
/// `None` when it could not be read.
pub fn process_file(path: &[u8], read: Option<AudioRead>) -> (r: Option<ScannedTrack>)
    ensures
        read is None <==> r is None,
        r matches Some(t) ==> is_scan_of(path@, read->0, t),
        r matches Some(t) ==> (tag_title(read->0.tag) is None && stem_title(path@) is Some
            ==> t.title@ == stem_title(path@)->0),
{
    let read = match read {
        Some(a) => a,
        None => return None,
    };
    let (title, artist, album, track_number) = match &read.tag {
        Some(t) => (copy_opt(&t.title), copy_opt(&t.artist), copy_opt(&t.album), match t.track {
            Some(n) => Some(n as i64),
            None => None,
        }),
        None => (None, None, None, None),
    };
    let title = match title {
        Some(t) => t,
        None => {
            let from_stem = match file_stem_bytes(path) {
                Some(stem) => utf8_text(stem.as_slice()),
                None => None,
            };
            match from_stem {
                Some(t) => t,
                None => String::from_str("Unknown Title"),
            }
        },
    };
    let artist = match artist {
        Some(a) => a,
        None => String::from_str("Unknown Artist"),
    };
    let duration = if read.duration_secs <= i64::MAX as u64 {
        Some(read.duration_secs as i64)
    } else {
        None
    };
    Some(
        ScannedTrack {
            title,
            artist,
            album,
            file_path: lossy(path),
            duration,
            track_number,
            kind: None,
        },
    )
}

/// Law: a tag's title, when it has one, is the track's title.
pub proof fn lemma_tag_title_wins(path: Seq<u8>, read: AudioRead, track: ScannedTrack, t: TagFields)
    requires
        is_scan_of(path, read, track),
        read.tag == Some(t),
        t.title is Some,
    ensures
        track.title@ == t.title->0@,
{
}

/// Law: when the tag gives no title, whether there is no tag or a tag
/// without a title, the file's stem is the title when it is text, and
/// `Unknown Title` only when it is not.
pub proof fn lemma_untitled_falls_back_to_stem(path: Seq<u8>, read: AudioRead, track: ScannedTrack)
    requires
        is_scan_of(path, read, track),
        read.tag is None || read.tag->0.title is None,
    ensures
        stem_title(path) matches Some(s) ==> track.title@ == s,
        stem_title(path) is None ==> track.title@ == "Unknown Title"@,
{
}

/// Law: a tag without a title gives the same title as no tag at all.
pub proof fn lemma_untitled_tag_same_as_none(
    path: Seq<u8>,
    tagged: AudioRead,
    bare: AudioRead,
    from_tagged: ScannedTrack,
    from_bare: ScannedTrack,
)
    requires
        is_scan_of(path, tagged, from_tagged),
        is_scan_of(path, bare, from_bare),
        tagged.tag matches Some(t) && t.title is None,
        bare.tag is None,
    ensures
        from_tagged.title@ == from_bare.title@,
{
    lemma_untitled_falls_back_to_stem(path, tagged, from_tagged);
    lemma_untitled_falls_back_to_stem(path, bare, from_bare);
}

/// One entry met while walking the music folder.
pub struct WalkEntry {
    pub path: String,
    pub is_file: bool,
}

/// Where in the walk the indexed entries stand: the files with an audio
/// extension, in walking order.
pub open spec fn audio_positions(entries: Seq<WalkEntry>) -> Seq<int>
    decreases entries.len(),
{
    if entries.len() == 0 {
        Seq::empty()
    } else {
        let e = entries.last();
        let before = audio_positions(entries.drop_last());
        if e.is_file && is_audio_file_spec(e.path@) {
            before.push(entries.len() - 1)
        } else {
            before
        }
    }
}

pub open spec fn positions(v: Seq<usize>) -> Seq<int> {
    v.map_values(|i: usize| i as int)
}

/// The entries of the walk that get indexed, by their place in it.
pub fn audio_files(entries: &Vec<WalkEntry>) -> (r: Vec<usize>)
    ensures
        positions(r@) == audio_positions(entries@),
{
    let mut out: Vec<usize> = Vec::new();
    let mut i: usize = 0;
    while i < entries.len()
        invariant
            0 <= i <= entries@.len(),
            positions(out@) == audio_positions(entries@.take(i as int)),
        decreases entries@.len() - i,
    {
        let e = &entries[i];
        assert(entries@.take(i + 1).drop_last() =~= entries@.take(i as int));
        assert(entries@.take(i + 1).last() == entries@[i as int]);
        if e.is_file && is_audio_file(e.path.as_str()) {
            let ghost before = out@;
            out.push(i);
            assert(positions(out@) =~= positions(before).push(i as int));
        }
        i = i + 1;
    }
    assert(entries@.take(i as int) =~= entries@);
    out
}

/// A file to index and what reading it gave.
pub struct ScanCandidate {
    /// The path's bytes.
    pub path: Vec<u8>,
    pub read: Option<AudioRead>,
}

/// The candidates that could be read, as positions in the list.
pub open spec fn readable_positions(c: Seq<ScanCandidate>) -> Seq<int>
    decreases c.len(),
{
    if c.len() == 0 {
        Seq::empty()
    } else if c.last().read is Some {
        readable_positions(c.drop_last()).push(c.len() - 1)
    } else {
        readable_positions(c.drop_last())
    }
}

proof fn lemma_readable_positions_bounded(c: Seq<ScanCandidate>)
    ensures
        forall|k: int|
            0 <= k < readable_positions(c).len() ==> 0 <= #[trigger] readable_positions(c)[k]
                < c.len(),
    decreases c.len(),
{
    if c.len() > 0 {
        lemma_readable_positions_bounded(c.drop_last());
        let before = readable_positions(c.drop_last());
        assert forall|k: int| 0 <= k < readable_positions(c).len() implies 0
            <= #[trigger] readable_positions(c)[k] < c.len() by {
            if k < before.len() {
                assert(readable_positions(c)[k] == before[k]);
            }
        }
    }
}

/// The tracks found in the music folder: one for each candidate that could
/// be read, in order.
pub fn scan_directory(candidates: Vec<ScanCandidate>) -> (r: Vec<ScannedTrack>)
    ensures
        r@.len() == readable_positions(candidates@).len(),
        forall|k: int|
            0 <= k < r@.len() ==> {
                let at = #[trigger] readable_positions(candidates@)[k];
                &&& 0 <= at < candidates@.len()
                &&& is_scan_of(candidates@[at].path@, candidates@[at].read->0, r@[k])
            },
{
    let mut out: Vec<ScannedTrack> = Vec::new();
    let mut i: usize = 0;
    let mut rest = candidates;
    let ghost all = rest@;
    let n = rest.len();
    assert(all.skip(0) =~= all);
    while rest.len() > 0
        invariant
            0 <= i <= all.len(),
            all.len() == n,
            rest@ == all.skip(i as int),
            out@.len() == readable_positions(all.take(i as int)).len(),
            forall|k: int|
                0 <= k < out@.len() ==> {
                    let at = #[trigger] readable_positions(all.take(i as int))[k];
                    &&& 0 <= at < i
                    &&& is_scan_of(all[at].path@, all[at].read->0, out@[k])
                },
        decreases rest@.len(),
    {
        let c = rest.remove(0);
        assert(rest@ =~= all.skip(i + 1));
        let ghost taken = all.take(i + 1);
        assert(c == all[i as int]);
        assert(taken.drop_last() =~= all.take(i as int));
        assert(taken.last() == all[i as int]);
        proof {
            lemma_readable_positions_bounded(all.take(i as int));
        }
        let ghost was = c.read;
        let found = process_file(c.path.as_slice(), c.read);
        match found {
            Some(t) => {
                out.push(t);
            },
            None => {},
        }
        i = i + 1;
    }
    assert(all.take(i as int) =~= all);
    out
}

} // verus!
