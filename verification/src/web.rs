//! The pages and files served besides the API: the index page, the static
//! assets, and the answer for a track that does not exist.

use vstd::prelude::*;
use crate::library::Track;
use crate::text::{append_str, chars_of, ends_with, has_suffix, matches_at, starts_with, string_of};

verus! {

/// The page served when the index page cannot be read.
pub const INDEX_FALLBACK: &'static str = "<h1>Could not load page</h1>";

/// The index page: the file's contents, or the fallback.
pub fn index_page(read: Option<String>) -> (r: String)
    ensures
        match read {
            Some(page) => r@ == page@,
            None => r@ == INDEX_FALLBACK@,
        },
{
    match read {
        Some(page) => page,
        None => String::from_str(INDEX_FALLBACK),
    }
}

/// Whether `p` occurs anywhere in `s`.
pub open spec fn occurs_in(s: Seq<char>, p: Seq<char>) -> bool {
    exists|i: int| 0 <= i <= s.len() && starts_with(#[trigger] s.skip(i), p)
}

fn occurs(s: &[char], p: &[char]) -> (r: bool)
    ensures
        r == occurs_in(s@, p@),
{
    let n = s.len();
    let mut i: usize = 0;
    while i < n
        invariant
            0 <= i <= n,
            n == s@.len(),
            forall|j: int| 0 <= j < i ==> !starts_with(#[trigger] s@.skip(j), p@),
        decreases n - i,
    {
        if matches_at(s, i, p) {
            return true;
        }
        i = i + 1;
    }
    if matches_at(s, n, p) {
        return true;
    }
    assert forall|j: int| 0 <= j <= s@.len() implies !starts_with(#[trigger] s@.skip(j), p@) by {
        if j < n {
        }
    }
    false
}

/// The MIME type of a static asset, by the end of its path.
pub open spec fn asset_content_type_spec(path: Seq<char>) -> Seq<char> {
    if ends_with(path, ".js"@) {
        "text/javascript; charset=utf-8"@
    } else if ends_with(path, ".css"@) {
        "text/css; charset=utf-8"@
    } else {
        "application/octet-stream"@
    }
}

/// What to do for `GET /static/<path>`.
pub enum StaticAssetPlan {
    /// `400 Bad Request`, `Invalid path`: the path tries to leave the
    /// asset folder.
    Reject,
    /// Read `file` and serve it as `content_type`.
    Read { file: String, content_type: &'static str },
}

/// Plans `GET /static/<path>`: a path holding `..` is refused; any other
/// is read from `frontend/`.
pub fn static_asset(path: &str) -> (r: StaticAssetPlan)
    ensures
        occurs_in(path@, ".."@) <==> r is Reject,
        r matches StaticAssetPlan::Read { file, content_type } ==> file@ == "frontend/"@ + path@
            && content_type@ == asset_content_type_spec(path@),
{
    let p = chars_of(path);
    let dots = chars_of("..");
    if occurs(p.as_slice(), dots.as_slice()) {
        return StaticAssetPlan::Reject;
    }
    let js = chars_of(".js");
    let css = chars_of(".css");
    let content_type = if has_suffix(p.as_slice(), js.as_slice()) {
        "text/javascript; charset=utf-8"
    } else if has_suffix(p.as_slice(), css.as_slice()) {
        "text/css; charset=utf-8"
    } else {
        "application/octet-stream"
    };
    let mut file = chars_of("frontend/");
    append_str(&mut file, path);
    StaticAssetPlan::Read { file: string_of(file.as_slice()), content_type }
}

/// The type of the short text bodies of refusals.
pub const TEXT_PLAIN: &'static str = "text/plain; charset=utf-8";

/// A reply for a static asset.
pub struct AssetReply {
    pub status: u16,
    /// The `Content-Type` header.
    pub content_type: Option<&'static str>,
    pub body: Vec<u8>,
}

/// The reply for a planned asset: the file's bytes when it could be read,
/// `404 Not Found` otherwise; a refused path gets `400 Bad Request`; the
/// refusals carry a short text.
pub fn static_asset_response(plan: &StaticAssetPlan, read: Option<Vec<u8>>) -> (r: AssetReply)
    ensures
        match *plan {
            StaticAssetPlan::Reject => r.status == 400 && r.content_type == Some(TEXT_PLAIN) && r.body@
                == "Invalid path"@.map_values(|c: char| c as u8),
            StaticAssetPlan::Read { content_type, .. } => match read {
                Some(bytes) => r.status == 200 && r.content_type == Some(content_type) && r.body@
                    == bytes@,
                None => r.status == 404 && r.content_type == Some(TEXT_PLAIN) && r.body@ == "Not found"@.map_values(
                    |c: char| c as u8,
                ),
            },
        },
{
    match plan {
        StaticAssetPlan::Reject => AssetReply {
            status: 400,
            content_type: Some(TEXT_PLAIN),
            body: ascii_bytes("Invalid path"),
        },
        StaticAssetPlan::Read { content_type, .. } => match read {
            Some(bytes) => AssetReply { status: 200, content_type: Some(*content_type), body: bytes },
            None => AssetReply {
                status: 404,
                content_type: Some(TEXT_PLAIN),
                body: ascii_bytes("Not found"),
            },
        },
    }
}

/// The bytes of an ASCII text.
fn ascii_bytes(s: &str) -> (r: Vec<u8>)
    ensures
        r@ == s@.map_values(|c: char| c as u8),
{
    let chars = chars_of(s);
    let mut out: Vec<u8> = Vec::new();
    let mut i: usize = 0;
    while i < chars.len()
        invariant
            0 <= i <= chars@.len(),
            chars@ == s@,
            out@ == s@.take(i as int).map_values(|c: char| c as u8),
        decreases chars@.len() - i,
    {
        out.push(chars[i] as u8);
        i = i + 1;
        assert(out@ =~= s@.take(i as int).map_values(|c: char| c as u8));
    }
    assert(s@.take(i as int) =~= s@);
    out
}

/// Why a request for a track failed.
pub enum TrackLookupError {
    /// `404 Not Found`.
    NotFound,
}

/// `GET /api/tracks/:id`: the track, or `404 Not Found` when there is none.
pub fn get_track_by_id(found: Option<Track>) -> (r: Result<Track, TrackLookupError>)
    ensures
        match found {
            Some(t) => r == Ok::<Track, TrackLookupError>(t),
            None => r is Err,
        },
{
    match found {
        Some(t) => Ok(t),
        None => Err(TrackLookupError::NotFound),
    }
}

} // verus!
