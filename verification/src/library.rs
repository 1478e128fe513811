//! The rows of the library: tracks and downloads.

use vstd::prelude::*;

verus! {

/// A track in the library.
pub struct Track {
    pub id: i64,
    pub title: String,
    pub artist: String,
    pub album: Option<String>,
    pub file_path: String,
    pub duration: Option<i64>,
    pub track_number: Option<i64>,
    pub year: Option<i64>,
}

/// A download queued by `POST /api/fetch`.
pub struct Download {
    pub id: i64,
    pub url: String,
    pub status: String,
    pub error: Option<String>,
    pub created_at: String,
}

} // verus!
