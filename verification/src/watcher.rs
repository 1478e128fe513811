//! Watching the music folder: a cheap fingerprint of it (how many files,
//! how many bytes) is taken every thirty seconds, and any change to it
//! re-syncs the library, so files added or removed by hand are noticed.

use vstd::prelude::*;

verus! {

/// The folder that is watched.
pub const MUSIC_FOLDER: &'static str = "./Music";

/// How long to wait between two looks at the folder.
pub const POLL_INTERVAL_SECS: u64 = 30;

/// The folder's fingerprint: how many files it holds, and their total
/// size in bytes.
pub struct Fingerprint {
    pub files: u64,
    pub bytes: u64,
}

pub open spec fn sum_sizes(sizes: Seq<u64>) -> nat
    decreases sizes.len(),
{
    if sizes.len() == 0 {
        0
    } else {
        sum_sizes(sizes.drop_last()) + sizes.last() as nat
    }
}

/// The fingerprint of a folder whose files have these sizes; the byte
/// count stops at `u64::MAX`.
pub fn fingerprint_of(file_sizes: &Vec<u64>) -> (r: Fingerprint)
    ensures
        r.files == file_sizes@.len(),
        r.bytes == if sum_sizes(file_sizes@) <= u64::MAX {
            sum_sizes(file_sizes@)
        } else {
            u64::MAX as nat
        },
{
    let mut bytes: u64 = 0;
    let mut i: usize = 0;
    while i < file_sizes.len()
        invariant
            0 <= i <= file_sizes@.len(),
            bytes == if sum_sizes(file_sizes@.take(i as int)) <= u64::MAX {
                sum_sizes(file_sizes@.take(i as int))
            } else {
                u64::MAX as nat
            },
        decreases file_sizes@.len() - i,
    {
        assert(file_sizes@.take(i + 1).drop_last() =~= file_sizes@.take(i as int));
        let size = file_sizes[i];
        bytes = if bytes > u64::MAX - size {
            u64::MAX
        } else {
            bytes + size
        };
        i = i + 1;
    }
    assert(file_sizes@.take(i as int) =~= file_sizes@);
    Fingerprint { files: i as u64, bytes }
}

/// The fingerprint used when the folder could not be looked at.
pub fn fingerprint_or_empty(taken: Option<Fingerprint>) -> (r: Fingerprint)
    ensures
        match taken {
            Some(f) => r == f,
            None => r == Fingerprint { files: 0, bytes: 0 },
        },
{
    match taken {
        Some(f) => f,
        None => Fingerprint { files: 0, bytes: 0 },
    }
}

/// What one look at the folder decides.
pub struct WatchDecision {
    /// Re-sync the library.
    pub sync: bool,
    /// The fingerprint to compare the next look with.
    pub last: Fingerprint,
}

/// One look at the folder: a fingerprint unlike the last one triggers a
/// sync and becomes the one to compare with.
pub fn watch_step(last: Fingerprint, current: Fingerprint) -> (r: WatchDecision)
    ensures
        r.sync <==> (current.files != last.files || current.bytes != last.bytes),
        r.last == current,
{
    let sync = current.files != last.files || current.bytes != last.bytes;
    WatchDecision { sync, last: current }
}

} // verus!
