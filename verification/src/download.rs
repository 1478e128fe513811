//! Importing a song from a URL: the request is checked, yt-dlp downloads
//! the audio into a scratch directory, the tags are inferred and written,
//! and the finished mp3 moves into `Music/`; the download's status goes
//! from `pending` to `in_progress` to `done` or `failed`.

use vstd::prelude::*;
use crate::metadata::{error_with_detail, with_detail, SongMetadata, VideoInfo};
use crate::paths::{extension, extension_spec, file_name, file_name_spec};
use crate::stream::{mp3_ext, same_chars};
use crate::text::{
    append_chars, append_str, chars_of, ends_with, has_suffix, i64_decimal, matches_at,
    signed_decimal, starts_with, string_of, trim, trimmed,
};

verus! {

/// The body of `POST /api/fetch`.
pub struct ImportRequest {
    pub url: String,
}

/// Why an import request was refused: answered with `400 Bad Request`.
pub enum ImportRejected {
    BadRequest,
}

/// The URL that an import request is accepted with: the request's URL
/// without surrounding whitespace, when it starts with `http://` or
/// `https://`.
pub open spec fn accepted_url_spec(url: Seq<char>) -> Option<Seq<char>> {
    let t = trim(url);
    if t.len() > 0 && (starts_with(t, "http://"@) || starts_with(t, "https://"@)) {
        Some(t)
    } else {
        None
    }
}

/// Checks the URL of an import request. It is handed to yt-dlp as an
/// argument, so only plain `http(s)://` URLs pass; anything else, such as
/// a value that starts with `-`, is refused.
pub fn validate_import_url(url: &str) -> (r: Result<String, ImportRejected>)
    ensures
        match r {
            Ok(u) => accepted_url_spec(url@) == Some(u@),
            Err(_) => accepted_url_spec(url@) is None,
        },
        r matches Ok(u) ==> u@.len() > 0 && u@[0] == 'h',
{
    let raw = chars_of(url);
    let t = trimmed(raw.as_slice());
    let http = chars_of("http://");
    let https = chars_of("https://");
    proof {
        reveal_strlit("http://");
        reveal_strlit("https://");
    }
    assert(t@.skip(0) =~= t@);
    let plain = matches_at(t.as_slice(), 0, http.as_slice());
    let secure = matches_at(t.as_slice(), 0, https.as_slice());
    if t.len() == 0 || !(plain || secure) {
        return Err(ImportRejected::BadRequest);
    }
    proof {
        if plain {
            assert(t@[0] == t@.take(7)[0]);
        } else {
            assert(t@[0] == t@.take(8)[0]);
        }
    }
    Ok(string_of(t.as_slice()))
}

/// The views of a list of strings.
pub open spec fn views(v: Seq<String>) -> Seq<Seq<char>> {
    v.map_values(|s: String| s@)
}

/// The answer to an accepted import request: the download's id and its
/// first status.
pub struct ImportAccepted {
    pub id: i64,
    pub status: String,
}

/// The answer to an import request accepted as download `id`.
pub fn import_accepted(id: i64) -> (r: ImportAccepted)
    ensures
        r.id == id,
        r.status@ == "pending"@,
{
    ImportAccepted { id, status: String::from_str("pending") }
}

/// The arguments that yt-dlp runs with: extract the audio as mp3, no
/// playlist, write the info file, save under `temp_dir` named by title,
/// and then, after `--`, the URL.
pub open spec fn ytdlp_args_spec(temp_dir: Seq<char>, url: Seq<char>) -> Seq<Seq<char>> {
    seq![
        "-x"@,
        "--audio-format"@,
        "mp3"@,
        "--no-playlist"@,
        "--write-info-json"@,
        "-P"@,
        temp_dir,
        "-o"@,
        "%(title)s.%(ext)s"@,
        "--"@,
        url,
    ]
}

/// The arguments that yt-dlp runs with. The URL is always the last one,
/// right after `--`, so it is never read as an option.
pub fn ytdlp_args(temp_dir: &str, url: &str) -> (r: Vec<String>)
    ensures
        views(r@) == ytdlp_args_spec(temp_dir@, url@),
        r@.len() == 11,
        r@[10]@ == url@,
        r@[9]@ == "--"@,
{
    let mut args: Vec<String> = Vec::new();
    args.push(String::from_str("-x"));
    args.push(String::from_str("--audio-format"));
    args.push(String::from_str("mp3"));
    args.push(String::from_str("--no-playlist"));
    args.push(String::from_str("--write-info-json"));
    args.push(String::from_str("-P"));
    args.push(String::from_str(temp_dir));
    args.push(String::from_str("-o"));
    args.push(String::from_str("%(title)s.%(ext)s"));
    args.push(String::from_str("--"));
    args.push(String::from_str(url));
    assert(views(args@) =~= ytdlp_args_spec(temp_dir@, url@));
    args
}

/// The name of the scratch directory for download `id`.
pub open spec fn scratch_dir_name_spec(id: i64) -> Seq<char> {
    "ferrite-yt-dlp-"@ + signed_decimal(id as int)
}

pub fn scratch_dir_name(id: i64) -> (r: String)
    ensures
        r@ == scratch_dir_name_spec(id),
{
    let mut name = chars_of("ferrite-yt-dlp-");
    let digits = i64_decimal(id);
    append_chars(&mut name, &digits);
    string_of(name.as_slice())
}

/// The lines joined with `\n` between them.
pub open spec fn join_lines(lines: Seq<Seq<char>>) -> Seq<char>
    decreases lines.len(),
{
    if lines.len() == 0 {
        Seq::empty()
    } else if lines.len() == 1 {
        lines[0]
    } else {
        join_lines(lines.drop_last()) + seq!['\n'] + lines.last()
    }
}

/// `lines.join("\n")`.
pub fn join_with_newlines(lines: &Vec<String>) -> (r: String)
    ensures
        r@ == join_lines(views(lines@)),
{
    let mut out: Vec<char> = Vec::new();
    let mut i: usize = 0;
    while i < lines.len()
        invariant
            0 <= i <= lines@.len(),
            out@ == join_lines(views(lines@).take(i as int)),
        decreases lines@.len() - i,
    {
        let ghost before = out@;
        if i > 0 {
            out.push('\n');
        }
        append_str(&mut out, lines[i].as_str());
        i = i + 1;
        assert(views(lines@).take(i as int).drop_last() =~= views(lines@).take(i - 1));
        if i == 1 {
            assert(out@ =~= views(lines@).take(1)[0]);
        } else {
            assert(out@ =~= before + seq!['\n'] + views(lines@).take(i as int).last());
        }
    }
    assert(views(lines@).take(i as int) =~= views(lines@));
    string_of(out.as_slice())
}

/// A download's status, as stored.
pub enum DownloadStatus {
    Pending,
    InProgress,
    Done,
    Failed,
}

pub open spec fn status_name_spec(s: DownloadStatus) -> Seq<char> {
    match s {
        DownloadStatus::Pending => "pending"@,
        DownloadStatus::InProgress => "in_progress"@,
        DownloadStatus::Done => "done"@,
        DownloadStatus::Failed => "failed"@,
    }
}

/// The status as the `downloads` table stores it.
pub fn status_name(s: &DownloadStatus) -> (r: &'static str)
    ensures
        r@ == status_name_spec(*s),
{
    match s {
        DownloadStatus::Pending => "pending",
        DownloadStatus::InProgress => "in_progress",
        DownloadStatus::Done => "done",
        DownloadStatus::Failed => "failed",
    }
}

/// One download: its row id, its URL, and its scratch directory.
pub struct DownloadJob {
    pub id: i64,
    pub url: String,
    pub temp_dir: String,
}

/// Where a download stands.
pub enum DownloadState {
    /// Accepted, not yet started.
    Queued,
    /// `in_progress` is being recorded.
    MarkingStarted,
    /// yt-dlp is being started.
    Launching,
    /// yt-dlp runs.
    Running,
    /// yt-dlp's output is being tagged and moved into the library.
    Processing,
    /// The scratch directory is being removed; the outcome is known.
    CleaningUp { outcome: Result<(), String> },
    /// `done` is being recorded.
    RecordingDone,
    /// The library is being synced with the music folder.
    Syncing,
    /// `failed` is being recorded.
    RecordingFailure,
    /// Nothing is left to do.
    Finished,
}

/// What the outside work reports back.
pub enum DownloadEvent {
    Begin,
    StatusRecorded,
    LaunchFailed { error: String },
    Launched,
    /// yt-dlp ended; `stderr_lines` is everything it wrote to stderr.
    Exited { success: bool, stderr_lines: Vec<String> },
    WaitFailed { error: String },
    Processed { outcome: Result<(), String> },
    TempDirRemoved,
    LibrarySynced,
}

/// The outside work to do next.
pub enum DownloadAction {
    RecordStatus { status: DownloadStatus, error: Option<String> },
    /// Start `program` with `args`, its stdout and stderr piped.
    Launch { program: String, args: Vec<String> },
    AwaitExit,
    /// Tag the downloaded mp3 and move it into the library.
    ProcessOutput,
    /// Remove the scratch directory, whatever is in it; a failure is ignored.
    RemoveTempDir,
    SyncLibrary,
    Stop,
}

/// Whether `event` answers the work that `state` waits for.
pub open spec fn download_event_fits(state: DownloadState, event: DownloadEvent) -> bool {
    match state {
        DownloadState::Queued => event is Begin,
        DownloadState::MarkingStarted => event is StatusRecorded,
        DownloadState::Launching => event is LaunchFailed || event is Launched,
        DownloadState::Running => event is Exited || event is WaitFailed,
        DownloadState::Processing => event is Processed,
        DownloadState::CleaningUp { .. } => event is TempDirRemoved,
        DownloadState::RecordingDone => event is StatusRecorded,
        DownloadState::Syncing => event is LibrarySynced,
        DownloadState::RecordingFailure => event is StatusRecorded,
        DownloadState::Finished => false,
    }
}

/// How many decisions are left at most: each step lowers it.
pub open spec fn download_rank(state: DownloadState) -> nat {
    match state {
        DownloadState::Queued => 9,
        DownloadState::MarkingStarted => 8,
        DownloadState::Launching => 7,
        DownloadState::Running => 6,
        DownloadState::Processing => 5,
        DownloadState::CleaningUp { .. } => 4,
        DownloadState::RecordingDone => 3,
        DownloadState::Syncing => 2,
        DownloadState::RecordingFailure => 1,
        DownloadState::Finished => 0,
    }
}

/// Whether `action` records `failed` with the error message `message`.
pub open spec fn records_failure(action: DownloadAction, message: Seq<char>) -> bool {
    action matches DownloadAction::RecordStatus { status: DownloadStatus::Failed, error: Some(e) }
        && e@ == message
}

/// One decision in running download `job`: mark it `in_progress`, start
/// yt-dlp; a failed start is recorded as `failed` at once; a run that
/// fails (its stderr joined by lines) or cannot be awaited, or whose
/// output cannot be processed, is recorded as `failed` after the scratch
/// directory is removed; a run whose output was processed is recorded as
/// `done`, and then the library is synced.
pub fn run_download_step(job: &DownloadJob, state: DownloadState, event: DownloadEvent) -> (r: (
    DownloadState,
    DownloadAction,
))
    requires
        download_event_fits(state, event),
    ensures
        download_rank(r.0) < download_rank(state),
        r.1 matches DownloadAction::RecordStatus { status: DownloadStatus::Done, error } ==> error is None
            && state is CleaningUp,
        r.1 matches DownloadAction::RecordStatus { status: DownloadStatus::Failed, error } ==> error is Some,
        match (state, event) {
            (DownloadState::Queued, _) => r.0 is MarkingStarted && r.1 matches DownloadAction::RecordStatus {
                status: DownloadStatus::InProgress,
                error: None,
            },
            (DownloadState::MarkingStarted, _) => r.0 is Launching && (r.1 matches DownloadAction::Launch {
                program,
                args,
            } && program@ == "yt-dlp"@ && views(args@) == ytdlp_args_spec(job.temp_dir@, job.url@)),
            (DownloadState::Launching, DownloadEvent::LaunchFailed { error }) => r.0 is RecordingFailure
                && records_failure(r.1, error@),
            (DownloadState::Launching, _) => r.0 is Running && r.1 is AwaitExit,
            (DownloadState::Running, DownloadEvent::Exited { success, stderr_lines }) => if success {
                r.0 is Processing && r.1 is ProcessOutput
            } else {
                r.1 is RemoveTempDir && (r.0 matches DownloadState::CleaningUp { outcome: Err(e) }
                    && e@ == join_lines(views(stderr_lines@)))
            },
            (DownloadState::Running, DownloadEvent::WaitFailed { error }) => r.1 is RemoveTempDir && (
            r.0 matches DownloadState::CleaningUp { outcome: Err(e) } && e@ == error@),
            (DownloadState::Processing, DownloadEvent::Processed { outcome }) => r.1 is RemoveTempDir
                && r.0 == DownloadState::CleaningUp { outcome },
            (DownloadState::CleaningUp { outcome: Ok(()) }, _) => r.0 is RecordingDone && r.1 matches DownloadAction::RecordStatus {
                status: DownloadStatus::Done,
                error: None,
            },
            (DownloadState::CleaningUp { outcome: Err(message) }, _) => r.0 is RecordingFailure
                && records_failure(r.1, message@),
            (DownloadState::RecordingDone, _) => r.0 is Syncing && r.1 is SyncLibrary,
            _ => r.0 is Finished && r.1 is Stop,
        },
{
    match (state, event) {
        (DownloadState::Queued, _) => (
            DownloadState::MarkingStarted,
            DownloadAction::RecordStatus { status: DownloadStatus::InProgress, error: None },
        ),
        (DownloadState::MarkingStarted, _) => {
            let args = ytdlp_args(job.temp_dir.as_str(), job.url.as_str());
            (
                DownloadState::Launching,
                DownloadAction::Launch { program: String::from_str("yt-dlp"), args },
            )
        },
        (DownloadState::Launching, DownloadEvent::LaunchFailed { error }) => (
            DownloadState::RecordingFailure,
            DownloadAction::RecordStatus { status: DownloadStatus::Failed, error: Some(error) },
        ),
        (DownloadState::Launching, _) => (DownloadState::Running, DownloadAction::AwaitExit),
        (DownloadState::Running, DownloadEvent::Exited { success, stderr_lines }) => {
            if success {
                (DownloadState::Processing, DownloadAction::ProcessOutput)
            } else {
                let message = join_with_newlines(&stderr_lines);
                (
                    DownloadState::CleaningUp { outcome: Err(message) },
                    DownloadAction::RemoveTempDir,
                )
            }
        },
        (DownloadState::Running, DownloadEvent::WaitFailed { error }) => (
            DownloadState::CleaningUp { outcome: Err(error) },
            DownloadAction::RemoveTempDir,
        ),
        (DownloadState::Processing, DownloadEvent::Processed { outcome }) => (
            DownloadState::CleaningUp { outcome },
            DownloadAction::RemoveTempDir,
        ),
        (DownloadState::CleaningUp { outcome: Ok(()) }, _) => (
            DownloadState::RecordingDone,
            DownloadAction::RecordStatus { status: DownloadStatus::Done, error: None },
        ),
        (DownloadState::CleaningUp { outcome: Err(message) }, _) => (
            DownloadState::RecordingFailure,
            DownloadAction::RecordStatus { status: DownloadStatus::Failed, error: Some(message) },
        ),
        (DownloadState::RecordingDone, _) => (DownloadState::Syncing, DownloadAction::SyncLibrary),
        _ => (DownloadState::Finished, DownloadAction::Stop),
    }
}

/// A file that yt-dlp wrote the video's info to.
pub open spec fn is_info_json(path: Seq<char>) -> bool {
    ends_with(path, ".info.json"@)
}

/// The mp3 that yt-dlp extracted: a file with extension `mp3` that is not
/// an info file.
pub open spec fn is_mp3(path: Seq<char>) -> bool {
    !is_info_json(path) && extension_spec(path) == Some(mp3_ext())
}

/// The last entry that is an info file.
pub open spec fn last_info_json(entries: Seq<Seq<char>>) -> Option<int>
    decreases entries.len(),
{
    if entries.len() == 0 {
        None
    } else if is_info_json(entries.last()) {
        Some(entries.len() - 1)
    } else {
        last_info_json(entries.drop_last())
    }
}

/// The last entry that is an mp3.
pub open spec fn last_mp3(entries: Seq<Seq<char>>) -> Option<int>
    decreases entries.len(),
{
    if entries.len() == 0 {
        None
    } else if is_mp3(entries.last()) {
        Some(entries.len() - 1)
    } else {
        last_mp3(entries.drop_last())
    }
}

pub open spec fn view_index(i: Option<usize>) -> Option<int> {
    match i {
        Some(k) => Some(k as int),
        None => None,
    }
}

/// Which of the scratch directory's entries are the mp3 and the info file:
/// the last of each, in listing order.
pub fn locate_outputs(entries: &Vec<String>) -> (r: (Option<usize>, Option<usize>))
    ensures
        view_index(r.0) == last_mp3(views(entries@)),
        view_index(r.1) == last_info_json(views(entries@)),
{
    let suffix = chars_of(".info.json");
    let mp3: Vec<char> = vec!['m', 'p', '3'];
    let mut mp3_at: Option<usize> = None;
    let mut info_at: Option<usize> = None;
    let mut i: usize = 0;
    while i < entries.len()
        invariant
            0 <= i <= entries@.len(),
            suffix@ == ".info.json"@,
            mp3@ == mp3_ext(),
            view_index(mp3_at) == last_mp3(views(entries@).take(i as int)),
            view_index(info_at) == last_info_json(views(entries@).take(i as int)),
        decreases entries@.len() - i,
    {
        let path = chars_of(entries[i].as_str());
        let ghost seen = views(entries@).take(i + 1);
        assert(seen.drop_last() =~= views(entries@).take(i as int));
        assert(seen.last() == entries@[i as int]@);
        if has_suffix(path.as_slice(), suffix.as_slice()) {
            info_at = Some(i);
        } else {
            match extension(path.as_slice()) {
                Some(ext) => {
                    if same_chars(ext.as_slice(), mp3.as_slice()) {
                        mp3_at = Some(i);
                    }
                },
                None => {},
            }
        }
        i = i + 1;
    }
    assert(views(entries@).take(i as int) =~= views(entries@));
    (mp3_at, info_at)
}

/// The library folder that finished imports move into.
pub const MUSIC_DIR: &'static str = "Music";

/// Where a finished mp3 named `name` goes: `Music/<name>`.
pub open spec fn music_destination_spec(name: Seq<char>) -> Seq<char> {
    MUSIC_DIR@ + "/"@ + name
}

/// Where the import of one download stands.
pub enum ImportState {
    /// The scratch directory is being listed.
    Listing,
    /// The info file is being read; `mp3` is the extracted audio.
    ReadingInfo { mp3: String },
    /// The info file is being parsed.
    ParsingInfo { mp3: String },
    /// The tags are being inferred.
    Inferring { mp3: String },
    /// The tags are being written into the mp3.
    Tagging { mp3: String },
    /// The library folder is being created.
    MakingMusicDir { mp3: String },
    /// The mp3 is being moved into the library.
    Moving,
    /// The outcome has been chosen.
    Finished,
}

/// What the outside work reports back.
pub enum ImportEvent {
    ListFailed { error: String },
    EntryFailed { error: String },
    /// The paths of the scratch directory's entries, in listing order.
    Listed { entries: Vec<String> },
    InfoRead { text: String },
    InfoUnreadable { error: String },
    InfoParsed { info: VideoInfo },
    InfoUnparsable { error: String },
    MetadataReady { metadata: SongMetadata },
    MetadataFailed { error: String },
    Tagged,
    TaggingFailed { error: String },
    /// The blocking tagging task did not come back.
    TaggingPanicked { error: String },
    MusicDirReady,
    MusicDirFailed { error: String },
    Moved,
    MoveFailed { error: String },
}

/// The outside work to do next.
pub enum ImportAction {
    ReadInfo { path: String },
    ParseInfo { text: String },
    InferMetadata { info: VideoInfo },
    WriteTags { path: String, metadata: SongMetadata },
    MakeMusicDir,
    MoveFile { from: String, to: String },
    Finish(Result<(), String>),
}

/// Whether `event` answers the work that `state` waits for.
pub open spec fn import_event_fits(state: ImportState, event: ImportEvent) -> bool {
    match state {
        ImportState::Listing => event is ListFailed || event is EntryFailed || event is Listed,
        ImportState::ReadingInfo { .. } => event is InfoRead || event is InfoUnreadable,
        ImportState::ParsingInfo { .. } => event is InfoParsed || event is InfoUnparsable,
        ImportState::Inferring { .. } => event is MetadataReady || event is MetadataFailed,
        ImportState::Tagging { .. } => event is Tagged || event is TaggingFailed
            || event is TaggingPanicked,
        ImportState::MakingMusicDir { .. } => event is MusicDirReady || event is MusicDirFailed,
        ImportState::Moving => event is Moved || event is MoveFailed,
        ImportState::Finished => false,
    }
}

/// Whether `action` ends the import with the error message `message`.
pub open spec fn import_fails_with(action: ImportAction, message: Seq<char>) -> bool {
    action matches ImportAction::Finish(Err(e)) && e@ == message
}

/// The mp3 that a state carries.
pub open spec fn carried_mp3(state: ImportState) -> Seq<char> {
    match state {
        ImportState::ReadingInfo { mp3 } => mp3@,
        ImportState::ParsingInfo { mp3 } => mp3@,
        ImportState::Inferring { mp3 } => mp3@,
        ImportState::Tagging { mp3 } => mp3@,
        ImportState::MakingMusicDir { mp3 } => mp3@,
        _ => Seq::empty(),
    }
}

fn take_mp3(state: ImportState) -> (r: String)
    ensures
        r@ == carried_mp3(state),
{
    match state {
        ImportState::ReadingInfo { mp3 } => mp3,
        ImportState::ParsingInfo { mp3 } => mp3,
        ImportState::Inferring { mp3 } => mp3,
        ImportState::Tagging { mp3 } => mp3,
        ImportState::MakingMusicDir { mp3 } => mp3,
        _ => String::new(),
    }
}

/// One decision in importing yt-dlp's output: find the mp3 and the info
/// file among the scratch directory's entries, read and parse the info,
/// infer the tags, write them, make sure `Music/` exists, and move the mp3
/// into it under its own name. Each failure ends the import with its own
/// message.
pub fn process_downloaded_file_step(state: ImportState, event: ImportEvent) -> (r: (
    ImportState,
    ImportAction,
))
    requires
        import_event_fits(state, event),
    ensures
        // Nothing reaches the library folder before its tags are written.
        r.1 is MoveFile ==> state is MakingMusicDir && event is MusicDirReady,
        r.0 is MakingMusicDir ==> state is Tagging && event is Tagged,
        r.1 is WriteTags ==> state is Inferring && event is MetadataReady,
        match event {
            ImportEvent::ListFailed { error } => r.0 is Finished && import_fails_with(
                r.1,
                with_detail("Failed to read temp dir"@, error@),
            ),
            ImportEvent::EntryFailed { error } => r.0 is Finished && import_fails_with(
                r.1,
                with_detail("Failed to read temp dir entry"@, error@),
            ),
            ImportEvent::Listed { entries } => match (
                last_mp3(views(entries@)),
                last_info_json(views(entries@)),
            ) {
                (None, _) => r.0 is Finished && import_fails_with(
                    r.1,
                    "yt-dlp did not produce an mp3 file"@,
                ),
                (Some(_), None) => r.0 is Finished && import_fails_with(
                    r.1,
                    "yt-dlp did not produce an info.json file"@,
                ),
                (Some(m), Some(i)) => (r.0 matches ImportState::ReadingInfo { mp3 } && mp3@
                    == entries@[m]@) && (r.1 matches ImportAction::ReadInfo { path } && path@
                    == entries@[i]@),
            },
            ImportEvent::InfoRead { text } => (r.0 matches ImportState::ParsingInfo { mp3 } && mp3@
                == carried_mp3(state)) && (r.1 matches ImportAction::ParseInfo { text: t } && t@
                == text@),
            ImportEvent::InfoUnreadable { error } => r.0 is Finished && import_fails_with(
                r.1,
                with_detail("Failed to read info.json"@, error@),
            ),
            ImportEvent::InfoParsed { info } => (r.0 matches ImportState::Inferring { mp3 } && mp3@
                == carried_mp3(state)) && r.1 == ImportAction::InferMetadata { info },
            ImportEvent::InfoUnparsable { error } => r.0 is Finished && import_fails_with(
                r.1,
                with_detail("Failed to parse yt-dlp info.json"@, error@),
            ),
            ImportEvent::MetadataReady { metadata } => (r.0 matches ImportState::Tagging { mp3 }
                && mp3@ == carried_mp3(state)) && (r.1 matches ImportAction::WriteTags {
                path,
                metadata: m,
            } && path@ == carried_mp3(state) && m == metadata),
            ImportEvent::MetadataFailed { error } => r.0 is Finished && import_fails_with(
                r.1,
                error@,
            ),
            ImportEvent::Tagged => (r.0 matches ImportState::MakingMusicDir { mp3 } && mp3@
                == carried_mp3(state)) && r.1 is MakeMusicDir,
            ImportEvent::TaggingFailed { error } => r.0 is Finished && import_fails_with(
                r.1,
                error@,
            ),
            ImportEvent::TaggingPanicked { error } => r.0 is Finished && import_fails_with(
                r.1,
                with_detail("Tagging task panicked"@, error@),
            ),
            ImportEvent::MusicDirReady => match file_name_spec(carried_mp3(state)) {
                Some(name) => r.0 is Moving && (r.1 matches ImportAction::MoveFile { from, to }
                    && from@ == carried_mp3(state) && to@ == music_destination_spec(name)),
                None => r.0 is Finished && import_fails_with(
                    r.1,
                    "Downloaded mp3 path has no filename"@,
                ),
            },
            ImportEvent::MusicDirFailed { error } => r.0 is Finished && import_fails_with(
                r.1,
                with_detail("Failed to create Music dir"@, error@),
            ),
            ImportEvent::Moved => r.0 is Finished && r.1 == ImportAction::Finish(Ok(())),
            ImportEvent::MoveFailed { error } => r.0 is Finished && import_fails_with(
                r.1,
                with_detail("Failed to move finished file into Music/"@, error@),
            ),
        },
{
    match event {
        ImportEvent::ListFailed { error } => (
            ImportState::Finished,
            ImportAction::Finish(Err(error_with_detail("Failed to read temp dir", error.as_str()))),
        ),
        ImportEvent::EntryFailed { error } => (
            ImportState::Finished,
            ImportAction::Finish(
                Err(error_with_detail("Failed to read temp dir entry", error.as_str())),
            ),
        ),
        ImportEvent::Listed { entries } => {
            let (mp3_at, info_at) = locate_outputs(&entries);
            match mp3_at {
                None => (
                    ImportState::Finished,
                    ImportAction::Finish(Err(String::from_str("yt-dlp did not produce an mp3 file"))),
                ),
                Some(m) => match info_at {
                    None => (
                        ImportState::Finished,
                        ImportAction::Finish(
                            Err(String::from_str("yt-dlp did not produce an info.json file")),
                        ),
                    ),
                    Some(i) => {
                        proof {
                            lemma_last_index_in_range(views(entries@), true);
                            lemma_last_index_in_range(views(entries@), false);
                        }
                        let mp3 = String::from_str(entries[m].as_str());
                        let path = String::from_str(entries[i].as_str());
                        (ImportState::ReadingInfo { mp3 }, ImportAction::ReadInfo { path })
                    },
                },
            }
        },
        ImportEvent::InfoRead { text } => {
            let mp3 = take_mp3(state);
            (ImportState::ParsingInfo { mp3 }, ImportAction::ParseInfo { text })
        },
        ImportEvent::InfoUnreadable { error } => (
            ImportState::Finished,
            ImportAction::Finish(Err(error_with_detail("Failed to read info.json", error.as_str()))),
        ),
        ImportEvent::InfoParsed { info } => {
            let mp3 = take_mp3(state);
            (ImportState::Inferring { mp3 }, ImportAction::InferMetadata { info })
        },
        ImportEvent::InfoUnparsable { error } => (
            ImportState::Finished,
            ImportAction::Finish(
                Err(error_with_detail("Failed to parse yt-dlp info.json", error.as_str())),
            ),
        ),
        ImportEvent::MetadataReady { metadata } => {
            let mp3 = take_mp3(state);
            let path = String::from_str(mp3.as_str());
            (ImportState::Tagging { mp3 }, ImportAction::WriteTags { path, metadata })
        },
        ImportEvent::MetadataFailed { error } => (
            ImportState::Finished,
            ImportAction::Finish(Err(error)),
        ),
        ImportEvent::Tagged => {
            let mp3 = take_mp3(state);
            (ImportState::MakingMusicDir { mp3 }, ImportAction::MakeMusicDir)
        },
        ImportEvent::TaggingFailed { error } => (
            ImportState::Finished,
            ImportAction::Finish(Err(error)),
        ),
        ImportEvent::TaggingPanicked { error } => (
            ImportState::Finished,
            ImportAction::Finish(Err(error_with_detail("Tagging task panicked", error.as_str()))),
        ),
        ImportEvent::MusicDirReady => {
            let mp3 = take_mp3(state);
            let path = chars_of(mp3.as_str());
            match file_name(path.as_slice()) {
                Some(name) => {
                    let mut to = chars_of(MUSIC_DIR);
                    append_str(&mut to, "/");
                    append_chars(&mut to, &name);
                    (
                        ImportState::Moving,
                        ImportAction::MoveFile { from: mp3, to: string_of(to.as_slice()) },
                    )
                },
                None => (
                    ImportState::Finished,
                    ImportAction::Finish(Err(String::from_str("Downloaded mp3 path has no filename"))),
                ),
            }
        },
        ImportEvent::MusicDirFailed { error } => (
            ImportState::Finished,
            ImportAction::Finish(Err(error_with_detail("Failed to create Music dir", error.as_str()))),
        ),
        ImportEvent::Moved => (ImportState::Finished, ImportAction::Finish(Ok(()))),
        ImportEvent::MoveFailed { error } => (
            ImportState::Finished,
            ImportAction::Finish(
                Err(
                    error_with_detail("Failed to move finished file into Music/", error.as_str()),
                ),
            ),
        ),
    }
}

proof fn lemma_last_index_in_range(entries: Seq<Seq<char>>, info: bool)
    ensures
        info ==> (last_info_json(entries) matches Some(k) ==> 0 <= k < entries.len()),
        !info ==> (last_mp3(entries) matches Some(k) ==> 0 <= k < entries.len()),
    decreases entries.len(),
{
    if entries.len() > 0 {
        lemma_last_index_in_range(entries.drop_last(), info);
    }
}

/// What writing the tags into an mp3 does: give the file a primary tag
/// when it has none, then set the title and artist, and the album and
/// track number when known.
pub struct TagPlan {
    pub insert_primary_tag: bool,
    pub title: String,
    pub artist: String,
    pub album: Option<String>,
    pub track: Option<u32>,
}

/// The tag writes for `metadata` on a file that has a primary tag or not.
/// The track number is stored as a `u32`, as `as` converts it.
pub fn tag_plan(has_primary_tag: bool, metadata: &SongMetadata) -> (r: TagPlan)
    ensures
        r.insert_primary_tag == !has_primary_tag,
        r.title@ == metadata.title@,
        r.artist@ == metadata.artist@,
        match metadata.album {
            Some(a) => r.album matches Some(b) && b@ == a@,
            None => r.album is None,
        },
        r.track == match metadata.track_number {
            Some(n) => Some(n as u32),
            None => None::<u32>,
        },
{
    let album = match &metadata.album {
        Some(a) => Some(String::from_str(a.as_str())),
        None => None,
    };
    let track = match metadata.track_number {
        Some(n) => Some(n as u32),
        None => None,
    };
    TagPlan {
        insert_primary_tag: !has_primary_tag,
        title: String::from_str(metadata.title.as_str()),
        artist: String::from_str(metadata.artist.as_str()),
        album,
        track,
    }
}

/// The OS error that a rename across filesystems fails with (`EXDEV`).
pub const CROSS_DEVICE_LINK: i32 = 18;

/// Whether a failed rename is retried as copy-then-delete: only when it
/// failed because source and destination lie on different filesystems.
pub fn copy_after_failed_rename(raw_os_error: Option<i32>) -> (r: bool)
    ensures
        r <==> raw_os_error == Some(CROSS_DEVICE_LINK),
{
    match raw_os_error {
        Some(code) => code == CROSS_DEVICE_LINK,
        None => false,
    }
}

} // verus!
