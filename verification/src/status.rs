//! The closed error taxonomy and the classification of engine status codes.

use vstd::prelude::*;

verus! {

/// Status the engine reports when a brand-new session handle could not be
/// allocated. Distinct from [`ArchiveError`]: no session exists yet, so no
/// session-level classification applies.
#[derive(Debug)]
pub struct AllocationError;

/// Closed classification of every status the engine is documented to report.
///
/// `Okay` is success; `Warn` succeeded with a caveat; `Failed` failed but the
/// session remains usable; `Retry` is transient; `Eof` is the normal
/// end-of-data signal; `Fatal` means the session must be abandoned.
#[derive(Debug, Clone, Copy, PartialEq, Eq, Structural)]
pub enum ArchiveError {
    Okay,
    Warn,
    Failed,
    Retry,
    Eof,
    Fatal,
}

/// Engine status code for success.
pub const ARCHIVE_OK: i32 = 0;
/// Engine status code for end of data.
pub const ARCHIVE_EOF: i32 = 1;
/// Engine status code for a transient failure.
pub const ARCHIVE_RETRY: i32 = -10;
/// Engine status code for success with a caveat.
pub const ARCHIVE_WARN: i32 = -20;
/// Engine status code for an operation failure that leaves the session usable.
pub const ARCHIVE_FAILED: i32 = -25;
/// Engine status code for an unrecoverable session failure.
pub const ARCHIVE_FATAL: i32 = -30;

/// Whether `code` is one of the six status codes the engine is documented to
/// return. Anything else is an engine contract violation.
pub open spec fn is_status_code(code: i32) -> bool {
    ||| code == ARCHIVE_OK
    ||| code == ARCHIVE_EOF
    ||| code == ARCHIVE_RETRY
    ||| code == ARCHIVE_WARN
    ||| code == ARCHIVE_FAILED
    ||| code == ARCHIVE_FATAL
}

/// The classification of a documented status code.
pub open spec fn status_of(code: i32) -> ArchiveError {
    if code == ARCHIVE_OK {
        ArchiveError::Okay
    } else if code == ARCHIVE_EOF {
        ArchiveError::Eof
    } else if code == ARCHIVE_RETRY {
        ArchiveError::Retry
    } else if code == ARCHIVE_WARN {
        ArchiveError::Warn
    } else if code == ARCHIVE_FAILED {
        ArchiveError::Failed
    } else {
        ArchiveError::Fatal
    }
}

/// Translates an engine status code into the closed taxonomy.
///
/// Total over the six documented codes and only those: the engine is
/// documented to return nothing else, so any other value is a programming
/// error on the caller's side and is excluded up front rather than classified.
pub fn code_to_error(code: i32) -> (r: ArchiveError)
    requires
        is_status_code(code),
    ensures
        r == status_of(code),
{
    if code == ARCHIVE_OK {
        ArchiveError::Okay
    } else if code == ARCHIVE_EOF {
        ArchiveError::Eof
    } else if code == ARCHIVE_RETRY {
        ArchiveError::Retry
    } else if code == ARCHIVE_WARN {
        ArchiveError::Warn
    } else if code == ARCHIVE_FAILED {
        ArchiveError::Failed
    } else {
        ArchiveError::Fatal
    }
}

/// Only the success status classifies as success: every other documented
/// code comes back as a real error. A failed open — a nonexistent file, say
/// — can therefore never masquerade as an opened session.
pub proof fn lemma_only_success_classifies_ok(code: i32)
    requires
        is_status_code(code),
    ensures
        status_of(code) == ArchiveError::Okay <==> code == ARCHIVE_OK,
{
}

/// End-of-data is its own classification: the EOF status maps to `Eof` and
/// to nothing stronger — in particular never to `Fatal` — so an exhausted
/// archive is a calm terminal state however often it is observed.
pub proof fn lemma_eof_classification()
    ensures
        status_of(ARCHIVE_EOF) == ArchiveError::Eof,
        status_of(ARCHIVE_EOF) != ArchiveError::Fatal,
{
}

} // verus!
