//! Turns a status change into the record that listeners receive.

use crate::typ::{UploadHistory, UploadHistoryView, UploadStatus};
use vstd::prelude::*;

verus! {

/// Name of the channel on which upload events are published.
pub const PROGRESS_EVENT: &'static str = "upload-progress";

/// Public address of an object: the domain, a slash, the key.
pub open spec fn spec_remote_url(domain: Seq<char>, filename: Seq<char>) -> Seq<char> {
    domain + "/"@ + filename
}

/// Public address of the object stored under `filename`.
pub fn remote_url(domain: &str, filename: &str) -> (url: String)
    ensures
        url@ == spec_remote_url(domain@, filename@),
{
    let mut url = domain.to_owned();
    url.append("/");
    url.append(filename);
    url
}

/// Builds the snapshot for one status change. The caller supplies the
/// current time in seconds since the Unix epoch and publishes the result on
/// [`PROGRESS_EVENT`]; one status change gives one record.
pub fn emit_progress(
    url: String,
    file_id: String,
    filename: String,
    status: UploadStatus,
    timestamp: u64,
) -> (event: UploadHistory)
    ensures
        event@ == (UploadHistoryView {
            file_id: file_id@,
            filename: filename@,
            url: url@,
            status: status@,
            timestamp: timestamp as nat,
        }),
{
    UploadHistory { file_id, filename, url, status, timestamp }
}

} // verus!
