//! The read-session state machine: configure capabilities, attach exactly one
//! source, then iterate entries.
//!
//! The engine performs the actual opening and decoding; the embedder makes
//! each engine call and hands its status (and, for a new header, the entry
//! metadata it read) to the methods here, which decide what the status means,
//! how the reader's state advances, and how the session ledger changes.

use vstd::prelude::*;

use crate::bridge::{ByteSource, ReadContainer};
use crate::entry::{ArchiveEntryIOType, ArchiveEntryReader, EntryRecord};
use crate::handle::SessionHandle;
use crate::status::{
    is_status_code, status_of, ArchiveError, ARCHIVE_EOF, ARCHIVE_FATAL, ARCHIVE_OK,
    ARCHIVE_RETRY, ARCHIVE_WARN,
};

verus! {

/// Where a reader's input comes from; fixed by whichever open call succeeded.
#[derive(Debug, Clone, Copy, PartialEq, Eq, Structural)]
pub enum SourceKind {
    /// A file path, read through an engine-managed buffer of this many bytes.
    Filename { buffer_size: usize },
    /// A flat in-memory buffer of this many bytes.
    Memory { len: usize },
    /// A stream bridge; see [`crate::bridge::ReadContainer`].
    Stream,
}

/// The read session's lifecycle position: capabilities may still be chosen,
/// or a source is attached and entries can be pulled.
#[derive(Debug, Clone, Copy, PartialEq, Eq, Structural)]
pub enum ReadPhase {
    Configured,
    Opened,
}

/// A read session over one archive: which detection capabilities were
/// enabled, and which source it was opened on. The engine-side session object
/// itself is shared and torn down through the [`SessionHandle`] ledger
/// created alongside the reader.
#[derive(Debug, Clone, Copy, PartialEq, Eq, Structural)]
pub struct Reader {
    /// Lifecycle position.
    pub phase: ReadPhase,
    /// Whether decompression-filter auto-detection was enabled.
    pub filter_all: bool,
    /// Whether format auto-detection was enabled.
    pub format_all: bool,
    /// Whether the raw pass-through format was enabled.
    pub format_raw: bool,
    /// The attached source; present exactly once opened.
    pub source: Option<SourceKind>,
}

impl Reader {
    /// A source is attached exactly when the reader is opened.
    pub open spec fn wf(self) -> bool {
        self.phase is Opened <==> self.source is Some
    }

    /// A fresh, unconfigured read session, together with the ledger of its
    /// newly allocated engine session — one owner, nothing torn down.
    pub fn new() -> (r: (Reader, SessionHandle))
        ensures
            r.0 == (Reader {
                phase: ReadPhase::Configured,
                filter_all: false,
                format_all: false,
                format_raw: false,
                source: None,
            }),
            r.0.wf(),
            r.1 == (SessionHandle {
                mode: ArchiveEntryIOType::ReaderEntry,
                owners: 1,
                closes: 0,
                frees: 0,
            }),
    {
        (
            Reader {
                phase: ReadPhase::Configured,
                filter_all: false,
                format_all: false,
                format_raw: false,
                source: None,
            },
            SessionHandle::new(ArchiveEntryIOType::ReaderEntry),
        )
    }

    /// Enables auto-detection of every decompression filter.
    pub fn support_filter_all(self) -> (r: Reader)
        ensures
            r == (Reader { filter_all: true, ..self }),
    {
        Reader { filter_all: true, ..self }
    }

    /// Enables auto-detection of every archive format.
    pub fn support_format_all(self) -> (r: Reader)
        ensures
            r == (Reader { format_all: true, ..self }),
    {
        Reader { format_all: true, ..self }
    }

    /// Enables the raw pass-through format.
    pub fn support_format_raw(self) -> (r: Reader)
        ensures
            r == (Reader { format_raw: true, ..self }),
    {
        Reader { format_raw: true, ..self }
    }

    /// Classifies the engine's answer to opening a file path as the source.
    ///
    /// The embedder hands the path and `buffer_size` to the engine's
    /// filename-open call and passes the status here. Success — and only
    /// success — yields the opened reader; any other status, such as the
    /// engine's answer for a nonexistent file, comes back classified and
    /// never as the success variant. Either way the session ledger is the
    /// caller's to release, so a failed open still tears the session down
    /// exactly once.
    pub fn open_filename(self, buffer_size: usize, status: i32) -> (r: Result<
        Reader,
        ArchiveError,
    >)
        requires
            self.phase is Configured,
            is_status_code(status),
        ensures
            status == ARCHIVE_OK ==> r == Ok::<Reader, ArchiveError>(
                (Reader {
                    phase: ReadPhase::Opened,
                    source: Some(SourceKind::Filename { buffer_size }),
                    ..self
                }),
            ),
            status != ARCHIVE_OK ==> r == Err::<Reader, ArchiveError>(status_of(status)),
            r is Ok ==> r.unwrap().wf(),
    {
        if status == ARCHIVE_OK {
            Ok(
                Reader {
                    phase: ReadPhase::Opened,
                    source: Some(SourceKind::Filename { buffer_size }),
                    ..self
                },
            )
        } else {
            Err(crate::status::code_to_error(status))
        }
    }

    /// Classifies the engine's answer to opening a flat in-memory buffer, as
    /// [`Reader::open_filename`] does for a path.
    pub fn open_memory(self, memory: &Vec<u8>, status: i32) -> (r: Result<Reader, ArchiveError>)
        requires
            self.phase is Configured,
            is_status_code(status),
        ensures
            status == ARCHIVE_OK ==> r == Ok::<Reader, ArchiveError>(
                (Reader {
                    phase: ReadPhase::Opened,
                    source: Some(SourceKind::Memory { len: memory@.len() as usize }),
                    ..self
                }),
            ),
            status != ARCHIVE_OK ==> r == Err::<Reader, ArchiveError>(status_of(status)),
            r is Ok ==> r.unwrap().wf(),
    {
        let len = memory.len();
        if status == ARCHIVE_OK {
            Ok(
                Reader {
                    phase: ReadPhase::Opened,
                    source: Some(SourceKind::Memory { len }),
                    ..self
                },
            )
        } else {
            Err(crate::status::code_to_error(status))
        }
    }

    /// Classifies the engine's answer to the callback-based open of a
    /// stream source. The embedder builds the bridge context with
    /// [`ReadContainer::new`], leases it to the engine for the open call, and
    /// — with the engine quiescent again — shows the reclaimed context here
    /// together with the status. Success attaches the stream as the reader's
    /// source; any other status comes back classified, the context staying
    /// with the engine's failed session.
    pub fn open_stream<S: ByteSource>(self, container: &ReadContainer<S>, status: i32) -> (r:
        Result<Reader, ArchiveError>)
        requires
            self.phase is Configured,
            is_status_code(status),
            container.wf(),
        ensures
            status == ARCHIVE_OK ==> r == Ok::<Reader, ArchiveError>(
                (Reader { phase: ReadPhase::Opened, source: Some(SourceKind::Stream), ..self }),
            ),
            status != ARCHIVE_OK ==> r == Err::<Reader, ArchiveError>(status_of(status)),
            r is Ok ==> r.unwrap().wf(),
    {
        let _ = container;
        if status == ARCHIVE_OK {
            Ok(Reader { phase: ReadPhase::Opened, source: Some(SourceKind::Stream), ..self })
        } else {
            Err(crate::status::code_to_error(status))
        }
    }

    /// Advances the cursor to the next entry: classifies the engine's answer
    /// to its next-header call, and on success wraps the metadata the engine
    /// reported into an entry view that shares this reader's session — the
    /// ledger gains an owner. On anything else the ledger is untouched: in
    /// particular an exhausted archive answers `Eof`, and keeps answering
    /// `Eof` for every further attempt, with reader and ledger unchanged —
    /// never success and never an escalation to `Fatal`.
    pub fn next_header(&self, session: &mut SessionHandle, status: i32, record: EntryRecord) -> (r:
        Result<ArchiveEntryReader, ArchiveError>)
        requires
            self.phase is Opened,
            is_status_code(status),
            old(session).wf(),
            old(session).live(),
            old(session).mode is ReaderEntry,
            old(session).owners < u64::MAX,
        ensures
            status == ARCHIVE_OK ==> r == Ok::<ArchiveEntryReader, ArchiveError>(
                (ArchiveEntryReader {
                    record,
                    iotype: ArchiveEntryIOType::ReaderEntry,
                    origin: Some(*self),
                }),
            ) && *final(session) == (SessionHandle {
                owners: (old(session).owners + 1) as u64,
                ..*old(session)
            }),
            status != ARCHIVE_OK ==> r == Err::<ArchiveEntryReader, ArchiveError>(
                status_of(status),
            ) && *final(session) == *old(session),
            final(session).wf(),
            final(session).live(),
            r is Ok ==> r.unwrap().wf(),
    {
        if status == ARCHIVE_OK {
            session.share();
            Ok(
                ArchiveEntryReader {
                    record,
                    iotype: ArchiveEntryIOType::ReaderEntry,
                    origin: Some(*self),
                },
            )
        } else {
            Err(crate::status::code_to_error(status))
        }
    }

    /// Classifies one payload read of the current entry.
    ///
    /// The embedder asks the engine to fill `chunk` and passes the engine's
    /// count-or-status answer as `res`: the engine reports the number of
    /// bytes placed at the front of `chunk`, zero once this entry's payload
    /// is exhausted, or one of its transient/warning/fatal codes. A positive
    /// count yields exactly those bytes; zero yields `Eof` — the end of this
    /// entry's payload, distinct from the archive-level `Eof` of
    /// [`Reader::next_header`]; a status code yields its classification
    /// verbatim.
    pub fn read_data(&self, chunk: Vec<u8>, res: i64) -> (r: Result<Vec<u8>, ArchiveError>)
        requires
            self.phase is Opened,
            res <= chunk@.len(),
            res >= 0 || res == ARCHIVE_FATAL as i64 || res == ARCHIVE_WARN as i64 || res
                == ARCHIVE_RETRY as i64,
        ensures
            (res == ARCHIVE_FATAL as i64 || res == ARCHIVE_WARN as i64 || res == ARCHIVE_RETRY
                as i64) ==> r == Err::<Vec<u8>, ArchiveError>(status_of(res as i32)),
            res == 0 ==> r == Err::<Vec<u8>, ArchiveError>(ArchiveError::Eof),
            res > 0 ==> (r matches Ok(data) && data@ == chunk@.subrange(0, res as int)),
    {
        if res == ARCHIVE_FATAL as i64 || res == ARCHIVE_WARN as i64 || res == ARCHIVE_RETRY
            as i64 {
            Err(crate::status::code_to_error(res as i32))
        } else if res == 0 {
            Err(crate::status::code_to_error(ARCHIVE_EOF))
        } else {
            let mut data = chunk;
            data.truncate(res as usize);
            Ok(data)
        }
    }
}

} // verus!
