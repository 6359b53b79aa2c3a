use vstd::prelude::*;

use crate::errors::ExtractError;
use crate::materialize::materialize;
use crate::pathnames::{base_name_of, file_stem_of, full_image_name, joined, thumb_image_name};
use crate::scanner::{isolate_store, locate_embedded_store, no_signature};
use crate::selector::mine_store;

verus! {

/// The record of one extraction attempt, as handed to the notification
/// sink. Immutable after construction.
pub struct ThumbnailResult {
    pub status: String,
    pub original_file: String,
    pub thumbnail_path: String,
    pub thumbnail_small_path: Option<String>,
    pub thumbnail_full_path: Option<String>,
    pub timestamp: i64,
    pub message: Option<String>,
}

impl ThumbnailResult {
    /// The record reports a successful extraction.
    pub open spec fn is_success(&self) -> bool {
        self.status@ == "success"@
    }

    /// A success carries both output paths and no message; a failure
    /// carries neither path and a message.
    pub open spec fn wf(&self) -> bool {
        &&& self.is_success() || self.status@ == "failure"@
        &&& self.is_success() ==> self.thumbnail_small_path is Some
            && self.thumbnail_full_path is Some && self.message is None
        &&& !self.is_success() ==> self.thumbnail_small_path is None
            && self.thumbnail_full_path is None && self.message is Some
    }
}

/// Builds the record of a successful extraction; the legacy
/// `thumbnail_path` field repeats the full-resolution path.
pub fn success_result(
    original_file: &String,
    full_path: String,
    thumb_path: String,
    timestamp: i64,
) -> (r: ThumbnailResult)
    ensures
        r.wf(),
        r.is_success(),
        r.original_file@ == original_file@,
        r.timestamp == timestamp,
        r.thumbnail_path@ == full_path@,
        r.thumbnail_full_path matches Some(p) && p@ == full_path@,
        r.thumbnail_small_path matches Some(p) && p@ == thumb_path@,
{
    let full_copy = full_path.clone();
    ThumbnailResult {
        status: "success".to_owned(),
        original_file: original_file.clone(),
        thumbnail_path: full_copy,
        thumbnail_small_path: Some(thumb_path),
        thumbnail_full_path: Some(full_path),
        timestamp,
        message: None,
    }
}

/// Builds the record of a failed extraction, carrying the failure's
/// diagnostic text.
pub fn failure_result(original_file: &String, err: &ExtractError, timestamp: i64) -> (r:
    ThumbnailResult)
    ensures
        r.wf(),
        !r.is_success(),
        r.original_file@ == original_file@,
        r.timestamp == timestamp,
        r.message matches Some(m) && m@ == err.spec_message(),
{
    proof {
        reveal_strlit("success");
        reveal_strlit("failure");
        assert("failure"@[0] != "success"@[0]);
    }
    ThumbnailResult {
        status: "failure".to_owned(),
        original_file: original_file.clone(),
        thumbnail_path: String::new(),
        thumbnail_small_path: None,
        thumbnail_full_path: None,
        timestamp,
        message: Some(err.message()),
    }
}

/// Relies on chrono::Utc::now: the current time as a Unix timestamp in
/// seconds. Nothing is assumed of the value.
#[verifier::external_body]
fn now_timestamp() -> (r: i64) {
    chrono::Utc::now().timestamp()
}

/// The change-triggered extraction pipeline for one file's bytes: locate
/// the embedded store's signature, isolate the trailing range into a
/// disposable store copy, mine the candidate tables for the preview blob,
/// and materialize the full and downscaled images under `output_dir`.
/// The disposable copy is removed on every exit path.
pub fn extract_thumbnail(clip_path: &String, bytes: &Vec<u8>, output_dir: &String) -> (r: Result<
    ThumbnailResult,
    ExtractError,
>)
    ensures
        no_signature(bytes@) <==> (r matches Err(e) && e is SignatureNotFound),
        r matches Err(e) ==> !(e is InputNotFound),
        r matches Ok(res) ==> res.wf() && res.is_success() && res.original_file@ == clip_path@
            && (res.thumbnail_full_path matches Some(p) && p@ == joined(
            output_dir@,
            full_image_name(base_name_of(clip_path@), res.timestamp as int),
        )) && (res.thumbnail_small_path matches Some(q) && q@ == joined(
            output_dir@,
            thumb_image_name(base_name_of(clip_path@), res.timestamp as int),
        )) && res.thumbnail_path@ == joined(
            output_dir@,
            full_image_name(base_name_of(clip_path@), res.timestamp as int),
        ),
{
    let offset = match locate_embedded_store(bytes) {
        Ok(o) => o,
        Err(e) => {
            return Err(e);
        },
    };
    let store = match isolate_store(bytes, offset) {
        Ok(s) => s,
        Err(e) => {
            return Err(e);
        },
    };
    let blob = match mine_store(&store.1) {
        Ok(b) => b,
        Err(e) => {
            return Err(e);
        },
    };
    let timestamp = now_timestamp();
    let stem = file_stem_of(clip_path.as_str());
    let paths = match materialize(&blob, output_dir, &stem, timestamp) {
        Ok(p) => p,
        Err(e) => {
            return Err(e);
        },
    };
    Ok(success_result(clip_path, paths.0, paths.1, timestamp))
}

} // verus!
