//! Filesystem error kinds and their mapping to protocol status codes.

use vstd::prelude::*;

verus! {

/// Protocol status: success with no body.
pub const STATUS_NO_CONTENT: u16 = 204;
/// Protocol status: multi-entry partial-failure report.
pub const STATUS_MULTI_STATUS: u16 = 207;
/// Protocol status: malformed request (bad `Depth` header).
pub const STATUS_BAD_REQUEST: u16 = 400;
/// Protocol status: deletion refused, resource missing.
pub const STATUS_NOT_FOUND: u16 = 404;
/// Protocol status: deletion refused for lack of permission.
pub const STATUS_FORBIDDEN: u16 = 403;
/// Protocol status: generic mapping of an "already exists" condition.
pub const STATUS_METHOD_NOT_ALLOWED: u16 = 405;
/// Protocol status: a collection could not be removed because it is non-empty.
pub const STATUS_CONFLICT: u16 = 409;
/// Protocol status: the operation conflicts with a held lock.
pub const STATUS_LOCKED: u16 = 423;
/// Protocol status: generic I/O failure.
pub const STATUS_INTERNAL: u16 = 500;
/// Protocol status: storage exhausted.
pub const STATUS_INSUFFICIENT_STORAGE: u16 = 507;
/// Protocol status: a loop was detected while resolving the resource.
pub const STATUS_LOOP_DETECTED: u16 = 508;

/// The kind of a failed filesystem call, as the filesystem collaborator
/// reports it.
#[derive(Clone, Copy, Debug, PartialEq, Eq, Structural)]
pub enum FsErrorKind {
    /// The resource does not exist.
    NotFound,
    /// Permission was denied.
    Forbidden,
    /// The target exists / the directory is non-empty.
    Exists,
    /// No space left on the backing store.
    InsufficientStorage,
    /// A resolution loop (e.g. symbolic links) was detected.
    LoopDetected,
    /// Any other I/O failure.
    GeneralFailure,
}

/// The fixed table mapping a filesystem error kind to a protocol status.
pub open spec fn file_status_of(e: FsErrorKind) -> u16 {
    match e {
        FsErrorKind::NotFound => STATUS_NOT_FOUND,
        FsErrorKind::Forbidden => STATUS_FORBIDDEN,
        FsErrorKind::Exists => STATUS_METHOD_NOT_ALLOWED,
        FsErrorKind::InsufficientStorage => STATUS_INSUFFICIENT_STORAGE,
        FsErrorKind::LoopDetected => STATUS_LOOP_DETECTED,
        FsErrorKind::GeneralFailure => STATUS_INTERNAL,
    }
}

/// Directory-removal mapping: a non-empty ("exists") condition becomes
/// 409 Conflict, overriding the generic table; anything else falls back
/// to the generic table.
pub open spec fn dir_status_of(e: FsErrorKind) -> u16 {
    if e is Exists {
        STATUS_CONFLICT
    } else {
        file_status_of(e)
    }
}

/// Maps a failed file removal (or metadata read, or directory enumeration)
/// to its protocol status.
pub fn file_error_status(e: FsErrorKind) -> (s: u16)
    ensures
        s == file_status_of(e),
{
    match e {
        FsErrorKind::NotFound => STATUS_NOT_FOUND,
        FsErrorKind::Forbidden => STATUS_FORBIDDEN,
        FsErrorKind::Exists => STATUS_METHOD_NOT_ALLOWED,
        FsErrorKind::InsufficientStorage => STATUS_INSUFFICIENT_STORAGE,
        FsErrorKind::LoopDetected => STATUS_LOOP_DETECTED,
        FsErrorKind::GeneralFailure => STATUS_INTERNAL,
    }
}

/// Maps a failed directory removal to its protocol status: `Exists`
/// (the directory is non-empty) becomes 409 Conflict.
pub fn dir_error_status(e: FsErrorKind) -> (s: u16)
    ensures
        s == dir_status_of(e),
{
    match e {
        FsErrorKind::Exists => STATUS_CONFLICT,
        _ => file_error_status(e),
    }
}

} // verus!
