//! Where a session's files go. Nothing here touches the file system: these
//! are the paths that the caller creates and writes.

use crate::clock::{now, utc_stamp_text, Timestamp};
use crate::text::optional_text;
use vstd::prelude::*;

verus! {

/// The directory that holds everything that is recorded.
pub open spec fn recordings_dir_text() -> Seq<char> {
    "recordings"@
}

/// The directory of one session: `recordings/<session-id>`.
pub open spec fn session_dir_text(session_id: Seq<char>) -> Seq<char> {
    recordings_dir_text() + "/"@ + session_id
}

/// The file that holds a session's event list:
/// `recordings/<session-id>/session.json`.
pub open spec fn session_file_text(session_id: Seq<char>) -> Seq<char> {
    session_dir_text(session_id) + "/session.json"@
}

/// The file of a stand-alone screenshot that carries the time stamp
/// `stamp`: `recordings/screenshot_<stamp>.png`.
pub open spec fn standalone_screenshot_text(stamp: Seq<char>) -> Seq<char> {
    recordings_dir_text() + "/screenshot_"@ + stamp + ".png"@
}

/// The file of a stand-alone screenshot taken at the given instant, if the
/// calendar can name the instant.
pub open spec fn standalone_screenshot_at(secs: i64, nanos: u32) -> Option<Seq<char>> {
    match utc_stamp_text(secs, nanos) {
        Some(stamp) => Some(standalone_screenshot_text(stamp)),
        None => None,
    }
}

/// The directory that holds everything that is recorded.
pub fn recordings_dir() -> (dir: String)
    ensures
        dir@ == recordings_dir_text(),
{
    "recordings".to_owned()
}

/// The directory for a session's files. The directory need not exist.
pub fn get_session_dir(session_id: &str) -> (dir: String)
    ensures
        dir@ == session_dir_text(session_id@),
{
    let mut dir = recordings_dir();
    dir.append("/");
    dir.append(session_id);
    dir
}

/// The file to which a session's event list is written.
pub fn session_file_path(session_id: &str) -> (path: String)
    ensures
        path@ == session_file_text(session_id@),
{
    let mut path = get_session_dir(session_id);
    path.append("/session.json");
    path
}

/// The file of a stand-alone screenshot whose time stamp reads `stamp`.
pub fn standalone_screenshot_path(stamp: &str) -> (path: String)
    ensures
        path@ == standalone_screenshot_text(stamp@),
{
    let mut path = recordings_dir();
    path.append("/screenshot_");
    path.append(stamp);
    path.append(".png");
    path
}

/// The file of a stand-alone screenshot taken at `taken_at`, named by that
/// instant in UTC; `None` where the calendar cannot name the instant.
pub fn standalone_screenshot_path_at(taken_at: &Timestamp) -> (path: Option<String>)
    ensures
        optional_text(path) == standalone_screenshot_at(taken_at.secs, taken_at.nanos),
{
    match taken_at.compact_stamp() {
        Some(stamp) => Some(standalone_screenshot_path(stamp.as_str())),
        None => None,
    }
}

/// Reads the clock and names the stand-alone screenshot taken now. The
/// instant that was read comes back with the path that belongs to it.
pub fn standalone_screenshot_path_now() -> (named: (Timestamp, Option<String>))
    ensures
        optional_text(named.1) == standalone_screenshot_at(named.0.secs, named.0.nanos),
{
    let taken_at = now();
    let path = standalone_screenshot_path_at(&taken_at);
    (taken_at, path)
}

} // verus!
