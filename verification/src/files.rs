//! File integrity monitoring: the built-in watch scopes, how a
//! filesystem notification becomes a file event and a timeline event,
//! and the SHA-256 fingerprint of a file's contents.
use sha2::Digest;
use vstd::prelude::*;

use crate::models::monitoring::{FileChangeType, FileEvent, WatchScope};
use crate::models::{AppError, EventCategory};
use crate::text::{hex2_lower, owned, push_hex2, push_str};

verus! {

// ---------------------------------------------------------------------
// Watch scopes
// ---------------------------------------------------------------------

/// A path built from an environment value with a fallback.
fn env_path(value: &Option<String>, fallback: &str, suffix: &str) -> (s: String)
    ensures
        s@ == (match *value {
            Some(v) => v@,
            None => fallback@,
        }) + suffix@,
{
    let mut s = match value {
        Some(v) => v.clone(),
        None => owned(fallback),
    };
    push_str(&mut s, suffix);
    s
}

/// The built-in, security-sensitive watch locations, from the values of
/// `WINDIR`, `USERPROFILE` and `PROGRAMDATA` (`None` when unset): the
/// hosts-file folder (not recursive), the user Startup folder and the
/// all-users Startup folder. Missing variables fall back to
/// `C:\Windows`, the empty text and `C:\ProgramData`.
pub fn default_watch_scopes(
    windir: &Option<String>,
    userprofile: &Option<String>,
    programdata: &Option<String>,
) -> (r: Vec<WatchScope>)
    ensures
        r@.len() == 3,
        r@[0].path@ == (match *windir {
            Some(v) => v@,
            None => "C:\\Windows"@,
        }) + "\\System32\\drivers\\etc"@,
        !r@[0].recursive,
        r@[0].label@ == "hosts file & DNS overrides"@,
        r@[1].path@ == (match *userprofile {
            Some(v) => v@,
            None => ""@,
        }) + "\\AppData\\Roaming\\Microsoft\\Windows\\Start Menu\\Programs\\Startup"@,
        r@[1].recursive,
        r@[1].label@ == "user Startup folder"@,
        r@[2].path@ == (match *programdata {
            Some(v) => v@,
            None => "C:\\ProgramData"@,
        }) + "\\Microsoft\\Windows\\Start Menu\\Programs\\StartUp"@,
        r@[2].recursive,
        r@[2].label@ == "all-users Startup folder"@,
        forall|i: int| 0 <= i < 3 ==> (#[trigger] r@[i]).built_in,
{
    let mut r: Vec<WatchScope> = Vec::new();
    r.push(
        WatchScope {
            path: env_path(windir, "C:\\Windows", "\\System32\\drivers\\etc"),
            recursive: false,
            label: owned("hosts file & DNS overrides"),
            built_in: true,
        },
    );
    r.push(
        WatchScope {
            path: env_path(
                userprofile,
                "",
                "\\AppData\\Roaming\\Microsoft\\Windows\\Start Menu\\Programs\\Startup",
            ),
            recursive: true,
            label: owned("user Startup folder"),
            built_in: true,
        },
    );
    r.push(
        WatchScope {
            path: env_path(
                programdata,
                "C:\\ProgramData",
                "\\Microsoft\\Windows\\Start Menu\\Programs\\StartUp",
            ),
            recursive: true,
            label: owned("all-users Startup folder"),
            built_in: true,
        },
    );
    r
}

// ---------------------------------------------------------------------
// Filesystem notifications
// ---------------------------------------------------------------------

/// The kind of a filesystem notification.
#[derive(Debug, Clone, Copy, PartialEq, Eq, Structural)]
pub enum FsEventKind {
    Create,
    Modify,
    Remove,
    /// Access and other notifications, which are not integrity-relevant.
    Other,
}

/// The change a notification records, if it is integrity-relevant.
pub open spec fn change_of_kind(k: FsEventKind) -> Option<FileChangeType> {
    match k {
        FsEventKind::Create => Some(FileChangeType::Created),
        FsEventKind::Modify => Some(FileChangeType::Modified),
        FsEventKind::Remove => Some(FileChangeType::Deleted),
        FsEventKind::Other => None,
    }
}

/// Computes `change_of_kind`.
pub fn change_type_of(k: FsEventKind) -> (r: Option<FileChangeType>)
    ensures
        r == change_of_kind(k),
{
    match k {
        FsEventKind::Create => Some(FileChangeType::Created),
        FsEventKind::Modify => Some(FileChangeType::Modified),
        FsEventKind::Remove => Some(FileChangeType::Deleted),
        FsEventKind::Other => None,
    }
}

/// The timeline category of a file change.
pub open spec fn category_of_change(c: FileChangeType) -> EventCategory {
    match c {
        FileChangeType::Created => EventCategory::FileCreated,
        FileChangeType::Modified => EventCategory::FileModified,
        FileChangeType::Deleted => EventCategory::FileDeleted,
    }
}

/// Computes `category_of_change`.
pub fn file_event_category(c: FileChangeType) -> (r: EventCategory)
    ensures
        r == category_of_change(c),
        c == FileChangeType::Created ==> r == EventCategory::FileCreated,
        c == FileChangeType::Modified ==> r == EventCategory::FileModified,
        c == FileChangeType::Deleted ==> r == EventCategory::FileDeleted,
{
    match c {
        FileChangeType::Created => EventCategory::FileCreated,
        FileChangeType::Modified => EventCategory::FileModified,
        FileChangeType::Deleted => EventCategory::FileDeleted,
    }
}

/// A file is fingerprinted unless it was deleted.
pub fn should_fingerprint(c: FileChangeType) -> (b: bool)
    ensures
        b == (c != FileChangeType::Deleted),
{
    c != FileChangeType::Deleted
}

/// The timeline text of a file change: `<Change> in a watched location: <path>`.
pub fn file_event_description(c: FileChangeType, path: &str) -> (s: String)
    ensures
        s@ == c.name_text() + " in a watched location: "@ + path@,
{
    let mut s = owned(c.debug_name());
    push_str(&mut s, " in a watched location: ");
    push_str(&mut s, path);
    s
}

/// The low-severity event text for a scope that could not be watched.
pub fn watch_failure_description(path: &str, reason: &str) -> (s: String)
    ensures
        s@ == "Could not watch '"@ + path@ + "': "@ + reason@,
{
    let mut s = owned("Could not watch '");
    push_str(&mut s, path);
    push_str(&mut s, "': ");
    push_str(&mut s, reason);
    s
}

/// A file event for a change at `path`, with a fresh id and the current
/// time.
pub fn new_file_event(
    path: &str,
    change_type: FileChangeType,
    sha256: Option<String>,
    size_bytes: Option<u64>,
) -> (e: FileEvent)
    ensures
        crate::ids::is_uuid_v4_text(e.id@),
        crate::clock::is_clock_text(e.timestamp@, 0),
        e.path@ == path@,
        e.change_type == change_type,
        e.sha256 == sha256,
        e.size_bytes == size_bytes,
{
    FileEvent {
        id: crate::ids::new_id(),
        timestamp: crate::clock::now_rfc3339(),
        path: owned(path),
        change_type,
        sha256,
        size_bytes,
    }
}

// ---------------------------------------------------------------------
// Fingerprints
// ---------------------------------------------------------------------

/// The SHA-256 digest of a byte sequence, as the `sha2` crate computes
/// it.
pub uninterp spec fn sha256_of(data: Seq<u8>) -> Seq<u8>;

/// The SHA-256 digest of `data` (`sha2::Sha256::digest`): the named
/// digest of the bytes, 32 bytes long. The digest algorithm itself is
/// not restated.
#[verifier::external_body]
fn sha256_digest(data: &[u8]) -> (d: Vec<u8>)
    ensures
        d@ == sha256_of(data@),
        d@.len() == 32,
{
    sha2::Sha256::digest(data).to_vec()
}

/// Bytes as lower-case hexadecimal, two digits per byte.
pub open spec fn hex_text(bytes: Seq<u8>) -> Seq<char>
    decreases bytes.len(),
{
    if bytes.len() == 0 {
        Seq::empty()
    } else {
        hex_text(bytes.drop_last()) + hex2_lower(bytes.last())
    }
}

/// Renders bytes as lower-case hexadecimal.
pub fn hex_lower(bytes: &[u8]) -> (s: String)
    ensures
        s@ == hex_text(bytes@),
{
    let mut s = String::new();
    let mut i: usize = 0;
    while i < bytes.len()
        invariant
            i <= bytes.len(),
            s@ == hex_text(bytes@.subrange(0, i as int)),
        decreases bytes.len() - i,
    {
        assert(bytes@.subrange(0, i + 1).drop_last() == bytes@.subrange(0, i as int));
        push_hex2(&mut s, bytes[i], false);
        i = i + 1;
    }
    assert(bytes@.subrange(0, bytes@.len() as int) == bytes@);
    s
}

/// Hex texts have two characters per byte.
pub proof fn lemma_hex_text_len(bytes: Seq<u8>)
    ensures
        hex_text(bytes).len() == 2 * bytes.len(),
    decreases bytes.len(),
{
    if bytes.len() > 0 {
        lemma_hex_text_len(bytes.drop_last());
    }
}

/// The fingerprint of a file's contents: the lower-case hexadecimal
/// SHA-256 digest (64 characters) and the size in bytes.
pub fn fingerprint(contents: &[u8]) -> (r: (String, u64))
    ensures
        r.0@ == hex_text(sha256_of(contents@)),
        r.0@.len() == 64,
        r.1 == contents@.len(),
{
    let d = sha256_digest(contents);
    let h = hex_lower(d.as_slice());
    proof {
        lemma_hex_text_len(d@);
    }
    (h, contents.len() as u64)
}

// ---------------------------------------------------------------------
// Errors
// ---------------------------------------------------------------------

/// The error for an internal lock that could not be taken.
pub fn lock_err() -> (e: AppError)
    ensures
        e.code@ == "LOCK_ERROR"@,
        e.message@ == "Internal lock error."@,
        e.details is None,
        e.recoverable,
{
    AppError::plain("LOCK_ERROR", "Internal lock error.", true)
}

/// The error for a database failure while setting up file watching.
pub fn db_err(msg: &str) -> (e: AppError)
    ensures
        e.code@ == "DB_ERROR"@,
        e.message@ == "Database error while setting up file watching."@,
        e.details matches Some(d) && d@ == msg@,
        e.recoverable,
{
    AppError {
        code: owned("DB_ERROR"),
        message: owned("Database error while setting up file watching."),
        details: Some(owned(msg)),
        recoverable: true,
    }
}

/// The error for a watcher that could not be started.
pub fn watcher_init_error(details: &str) -> (e: AppError)
    ensures
        e.code@ == "WATCHER_INIT_FAILED"@,
        e.message@ == "Could not start the file integrity watcher."@,
        e.details matches Some(d) && d@ == details@,
        e.recoverable,
{
    AppError {
        code: owned("WATCHER_INIT_FAILED"),
        message: owned("Could not start the file integrity watcher."),
        details: Some(owned(details)),
        recoverable: true,
    }
}

} // verus!
