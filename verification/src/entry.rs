//! Entry views: the metadata record of the archive entry currently under the
//! cursor, in read or in write mode.

use vstd::prelude::*;

use crate::handle::SessionHandle;
use crate::reader::Reader;
use crate::status::{is_status_code, status_of, ArchiveError, ARCHIVE_OK};

verus! {

/// Whether an entry view belongs to a read session or a write session. The
/// mode picks which close/free pair tears the shared session down when the
/// entry view is its last owner.
#[derive(Debug, Clone, Copy, PartialEq, Eq, Structural)]
pub enum ArchiveEntryIOType {
    ReaderEntry,
    WriterEntry,
}

/// The closed set of file types an entry can be given, mirroring the POSIX
/// type bits.
#[allow(non_camel_case_types)]
#[derive(Debug, Clone, Copy, PartialEq, Eq, Structural)]
pub enum ArchiveEntryFiletype {
    AE_IFMT,
    AE_IFREG,
    AE_IFLNK,
    AE_IFSOCK,
    AE_IFCHR,
    AE_IFBLK,
    AE_IFDIR,
    AE_IFIFO,
}

/// The POSIX type bits for one file type; each type maps to exactly one
/// value.
pub open spec fn filetype_code(filetype: ArchiveEntryFiletype) -> u32 {
    match filetype {
        ArchiveEntryFiletype::AE_IFMT => 0o170_000,
        ArchiveEntryFiletype::AE_IFREG => 0o100_000,
        ArchiveEntryFiletype::AE_IFLNK => 0o120_000,
        ArchiveEntryFiletype::AE_IFSOCK => 0o140_000,
        ArchiveEntryFiletype::AE_IFCHR => 0o020_000,
        ArchiveEntryFiletype::AE_IFBLK => 0o060_000,
        ArchiveEntryFiletype::AE_IFDIR => 0o040_000,
        ArchiveEntryFiletype::AE_IFIFO => 0o010_000,
    }
}

/// A point in time as the engine reports it: whole seconds since the epoch
/// plus a nanosecond remainder.
#[derive(Debug, Clone, Copy, PartialEq, Eq, Structural)]
pub struct TimeSpec {
    pub seconds: i64,
    pub nanoseconds: i32,
}

/// The plain metadata of one archive entry: everything the lifecycle logic
/// reads or writes of the engine's per-entry record.
#[derive(Debug, PartialEq)]
pub struct EntryRecord {
    /// Payload size in bytes.
    pub size: i64,
    /// Path of the entry inside the archive.
    pub pathname: String,
    /// Path the entry was read from on disk, when one applies.
    pub sourcepath: String,
    /// Permission bits.
    pub perm: u32,
    /// POSIX type bits; see [`filetype_code`].
    pub filetype: u32,
    /// Last access time.
    pub atime: TimeSpec,
    /// Creation time.
    pub birthtime: TimeSpec,
    /// Inode change time.
    pub ctime: TimeSpec,
    /// Last modification time.
    pub mtime: TimeSpec,
}

/// A view of the entry currently under a session's cursor: its metadata, its
/// mode, and — for a read entry — the reader it came from, whose session it
/// shares. The embedder records the share in the session ledger when the view
/// is created and releases it when the view is dropped.
#[derive(Debug, PartialEq)]
pub struct ArchiveEntryReader {
    /// The entry's metadata record.
    pub record: EntryRecord,
    /// Read-mode or write-mode entry; decides the teardown pair the shared
    /// session needs.
    pub iotype: ArchiveEntryIOType,
    /// For a read entry, the reader that produced it; a write entry has none.
    pub origin: Option<Reader>,
}

impl ArchiveEntryReader {
    /// A read entry remembers its reader; a write entry has none.
    pub open spec fn wf(self) -> bool {
        self.iotype is ReaderEntry <==> self.origin is Some
    }

    /// Payload size in bytes.
    pub fn size(&self) -> (r: i64)
        ensures
            r == self.record.size,
    {
        self.record.size
    }

    /// Path of the entry inside the archive.
    pub fn pathname(&self) -> (r: String)
        ensures
            r@ == self.record.pathname@,
    {
        String::from_str(self.record.pathname.as_str())
    }

    /// Path the entry was read from on disk.
    pub fn sourcepath(&self) -> (r: String)
        ensures
            r@ == self.record.sourcepath@,
    {
        String::from_str(self.record.sourcepath.as_str())
    }

    /// Last access time.
    pub fn access_time(&self) -> (r: TimeSpec)
        ensures
            r == self.record.atime,
    {
        self.record.atime
    }

    /// Creation time.
    pub fn creation_time(&self) -> (r: TimeSpec)
        ensures
            r == self.record.birthtime,
    {
        self.record.birthtime
    }

    /// Inode change time.
    pub fn inode_change_time(&self) -> (r: TimeSpec)
        ensures
            r == self.record.ctime,
    {
        self.record.ctime
    }

    /// Last modification time.
    pub fn modification_time(&self) -> (r: TimeSpec)
        ensures
            r == self.record.mtime,
    {
        self.record.mtime
    }

    /// Sets the entry's file type to the POSIX bits of `filetype`.
    pub fn set_filetype(&mut self, filetype: ArchiveEntryFiletype)
        ensures
            *final(self) == (ArchiveEntryReader {
                record: (EntryRecord { filetype: filetype_code(filetype), ..old(self).record }),
                ..*old(self)
            }),
    {
        let code: u32 = match filetype {
            ArchiveEntryFiletype::AE_IFMT => 0o170_000,
            ArchiveEntryFiletype::AE_IFREG => 0o100_000,
            ArchiveEntryFiletype::AE_IFLNK => 0o120_000,
            ArchiveEntryFiletype::AE_IFSOCK => 0o140_000,
            ArchiveEntryFiletype::AE_IFCHR => 0o020_000,
            ArchiveEntryFiletype::AE_IFBLK => 0o060_000,
            ArchiveEntryFiletype::AE_IFDIR => 0o040_000,
            ArchiveEntryFiletype::AE_IFIFO => 0o010_000,
        };
        self.record.filetype = code;
    }

    /// Renames the entry.
    pub fn set_pathname(&mut self, pathname: &str)
        ensures
            *final(self) == (ArchiveEntryReader {
                record: (EntryRecord {
                    pathname: final(self).record.pathname,
                    ..old(self).record
                }),
                ..*old(self)
            }),
            final(self).record.pathname@ == pathname@,
    {
        self.record.pathname = String::from_str(pathname);
    }

    /// A fresh handle to the reader that owns this entry: cheap, reopens
    /// nothing, and registers one more owner of the shared session — so the
    /// session outlives the original reader for as long as this handle does.
    pub fn archive(&self, session: &mut SessionHandle) -> (r: Reader)
        requires
            self.wf(),
            self.iotype is ReaderEntry,
            old(session).wf(),
            old(session).live(),
            old(session).owners < u64::MAX,
        ensures
            r == self.origin.unwrap(),
            *final(session) == (SessionHandle { owners: (old(session).owners + 1) as u64, ..*old(session) }),
            final(session).wf(),
            final(session).live(),
    {
        session.share();
        self.origin.unwrap()
    }

    /// Classifies the engine's answer to extracting this entry to disk.
    ///
    /// The embedder combines its option selection with
    /// [`crate::flags::flags_to_code`], hands the engine that bitmask for the
    /// extraction call, and passes the resulting status here: success keeps
    /// the entry, anything else returns its classification — an existing
    /// target under a no-overwrite selection, for instance, comes back
    /// `Failed`, never success.
    pub fn extract(self, status: i32) -> (r: Result<ArchiveEntryReader, ArchiveError>)
        requires
            is_status_code(status),
        ensures
            status == ARCHIVE_OK ==> r == Ok::<ArchiveEntryReader, ArchiveError>(self),
            status != ARCHIVE_OK ==> r == Err::<ArchiveEntryReader, ArchiveError>(
                status_of(status),
            ),
    {
        if status == ARCHIVE_OK {
            Ok(self)
        } else {
            Err(crate::status::code_to_error(status))
        }
    }

    /// Retargets the entry to `path` and then classifies the engine's answer
    /// to extracting it there, as [`ArchiveEntryReader::extract`] does.
    pub fn extract_to(self, path: &str, status: i32) -> (r: Result<
        ArchiveEntryReader,
        ArchiveError,
    >)
        requires
            is_status_code(status),
        ensures
            status == ARCHIVE_OK ==> (r matches Ok(e) && e == (ArchiveEntryReader {
                record: (EntryRecord { pathname: e.record.pathname, ..self.record }),
                ..self
            }) && e.record.pathname@ == path@),
            status != ARCHIVE_OK ==> r == Err::<ArchiveEntryReader, ArchiveError>(
                status_of(status),
            ),
    {
        let mut entry = self;
        entry.set_pathname(path);
        entry.extract(status)
    }
}

/// No two file types share POSIX type bits: the mapping from type to bits is
/// injective, so setting one type can never stand for another.
pub proof fn lemma_filetype_codes_distinct(a: ArchiveEntryFiletype, b: ArchiveEntryFiletype)
    ensures
        filetype_code(a) == filetype_code(b) ==> a == b,
{
}

} // verus!
