//! The write-session state machine: choose format and filters, attach a
//! destination, then stream entries out in the strict per-entry order.

use vstd::prelude::*;

use crate::entry::{
    filetype_code, ArchiveEntryFiletype, ArchiveEntryIOType, ArchiveEntryReader, EntryRecord,
    TimeSpec,
};
use crate::handle::SessionHandle;
use crate::status::{is_status_code, status_of, ArchiveError, ARCHIVE_OK};

verus! {

/// The container formats a writer can produce, each backed by one engine
/// format selector.
#[allow(non_camel_case_types)]
#[derive(Debug, Clone, Copy, PartialEq, Eq, Structural)]
pub enum ArchiveFormat {
    _7Zip,
    Ar_Bsd,
    Ar_Svr4,
    Cpio,
    Cpio_newc,
    Gnutar,
    Iso9600,
    Mtree,
    Pax,
    Pax_Restricted,
    Shar,
    Shar_Dump,
    Ustar,
    Xar,
    Zip,
}

/// The compression filters a writer can add, each backed by one engine
/// filter selector. `Uncompressed` selects the engine's pass-through filter.
#[derive(Debug, Clone, Copy, PartialEq, Eq, Structural)]
pub enum ArchiveFilter {
    Bzip2,
    Compress,
    Gzip,
    Lzip,
    Lzma,
    Uncompressed,
    Xz,
}

/// Where a writer's output goes; fixed by whichever open call succeeded.
#[derive(Debug, Clone, Copy, PartialEq, Eq, Structural)]
pub enum SinkKind {
    /// A file path.
    Filename,
    /// A caller-supplied in-memory buffer of this capacity, with the engine
    /// reporting the used length through the writer's output cell.
    Memory { capacity: usize },
}

/// The write session's lifecycle position. The per-entry protocol is strict:
/// a header must be written before any data, and an entry must be finished
/// before the next header.
#[derive(Debug, Clone, Copy, PartialEq, Eq, Structural)]
pub enum WritePhase {
    /// Format and filters may still be chosen; no destination yet.
    Configured,
    /// A destination is attached and no entry is in flight.
    Opened,
    /// A header has been accepted; payload data may be written until the
    /// entry is finished.
    EntryOpen,
}

/// A write session over one archive: the chosen filter chain and format, the
/// attached destination, and where the per-entry protocol stands. The
/// engine-side session object is shared and torn down through the
/// [`SessionHandle`] ledger created alongside the writer.
#[derive(Debug, PartialEq)]
pub struct Writer {
    /// Lifecycle position.
    pub phase: WritePhase,
    /// The filters added so far, in the order they were added.
    pub filters: Vec<ArchiveFilter>,
    /// The chosen container format, once one was set.
    pub format: Option<ArchiveFormat>,
    /// The attached destination; present exactly once opened.
    pub sink: Option<SinkKind>,
}

impl Writer {
    /// A destination is attached exactly when the writer has left its
    /// configuration phase.
    pub open spec fn wf(self) -> bool {
        !(self.phase is Configured) <==> self.sink is Some
    }

    /// This writer with only its lifecycle position changed.
    pub open spec fn with_phase(self, phase: WritePhase) -> Writer {
        Writer { phase, ..self }
    }

    /// A fresh, unconfigured write session, together with the ledger of its
    /// newly allocated engine session — one owner, nothing torn down.
    pub fn new() -> (r: (Writer, SessionHandle))
        ensures
            r.0.phase is Configured,
            r.0.filters@ =~= Seq::<ArchiveFilter>::empty(),
            r.0.format is None,
            r.0.sink is None,
            r.0.wf(),
            r.1 == (SessionHandle {
                mode: ArchiveEntryIOType::WriterEntry,
                owners: 1,
                closes: 0,
                frees: 0,
            }),
    {
        (
            Writer {
                phase: WritePhase::Configured,
                filters: Vec::new(),
                format: None,
                sink: None,
            },
            SessionHandle::new(ArchiveEntryIOType::WriterEntry),
        )
    }

    /// Appends one compression filter to the chain the engine will apply.
    pub fn add_filter(self, filter: ArchiveFilter) -> (r: Writer)
        requires
            self.phase is Configured,
        ensures
            r.phase == self.phase,
            r.filters@ == self.filters@.push(filter),
            r.format == self.format,
            r.sink == self.sink,
    {
        let mut w = self;
        w.filters.push(filter);
        w
    }

    /// Chooses the container format.
    pub fn set_format(self, format: ArchiveFormat) -> (r: Writer)
        requires
            self.phase is Configured,
        ensures
            r == (Writer { format: Some(format), ..self }),
    {
        Writer { format: Some(format), ..self }
    }

    /// Legacy single-call compression path: adds `filter` exactly as
    /// [`Writer::add_filter`] does, kept for callers of the engine's older
    /// compression-selector names.
    pub fn set_compression(self, filter: ArchiveFilter) -> (r: Writer)
        requires
            self.phase is Configured,
        ensures
            r.phase == self.phase,
            r.filters@ == self.filters@.push(filter),
            r.format == self.format,
            r.sink == self.sink,
    {
        self.add_filter(filter)
    }

    /// Classifies the engine's answer to opening a file path as the
    /// destination. Success — and only success — moves the writer to its
    /// opened state; any other status comes back classified, with the writer
    /// unchanged.
    pub fn open_filename(&mut self, status: i32) -> (r: Result<(), ArchiveError>)
        requires
            old(self).phase is Configured,
            is_status_code(status),
        ensures
            status == ARCHIVE_OK ==> r == Ok::<(), ArchiveError>(()) && *final(self) == (Writer {
                phase: WritePhase::Opened,
                sink: Some(SinkKind::Filename),
                ..*old(self)
            }),
            status != ARCHIVE_OK ==> r == Err::<(), ArchiveError>(status_of(status)) && *final(self) == *old(self),
    {
        if status == ARCHIVE_OK {
            self.phase = WritePhase::Opened;
            self.sink = Some(SinkKind::Filename);
            Ok(())
        } else {
            Err(crate::status::code_to_error(status))
        }
    }

    /// Classifies the engine's answer to opening a caller-supplied in-memory
    /// buffer as the destination, as [`Writer::open_filename`] does for a
    /// path. The engine reports how much of the buffer it used through the
    /// used-length cell the embedder handed it.
    pub fn open_memory(&mut self, memory: &Vec<u8>, status: i32) -> (r: Result<(), ArchiveError>)
        requires
            old(self).phase is Configured,
            is_status_code(status),
        ensures
            status == ARCHIVE_OK ==> r == Ok::<(), ArchiveError>(()) && *final(self) == (Writer {
                phase: WritePhase::Opened,
                sink: Some(SinkKind::Memory { capacity: memory@.len() as usize }),
                ..*old(self)
            }),
            status != ARCHIVE_OK ==> r == Err::<(), ArchiveError>(status_of(status)) && *final(self) == *old(self),
    {
        let capacity = memory.len();
        if status == ARCHIVE_OK {
            self.phase = WritePhase::Opened;
            self.sink = Some(SinkKind::Memory { capacity });
            Ok(())
        } else {
            Err(crate::status::code_to_error(status))
        }
    }

    /// Classifies the engine's answer to writing `entry`'s header. Success
    /// opens the entry for payload data; any other status comes back
    /// classified with the writer unchanged, as the engine reports when the
    /// strict per-entry order was violated or the header could not be
    /// written.
    pub fn write_header(&mut self, entry: &ArchiveEntryReader, status: i32) -> (r: Result<
        (),
        ArchiveError,
    >)
        requires
            old(self).phase is Opened,
            is_status_code(status),
        ensures
            status == ARCHIVE_OK ==> r == Ok::<(), ArchiveError>(()) && *final(self) == old(self).with_phase(WritePhase::EntryOpen),
            status != ARCHIVE_OK ==> r == Err::<(), ArchiveError>(status_of(status)) && *final(self) == *old(self),
    {
        let _ = entry;
        if status == ARCHIVE_OK {
            self.phase = WritePhase::EntryOpen;
            Ok(())
        } else {
            Err(crate::status::code_to_error(status))
        }
    }

    /// Synthesizes a regular-file entry — default permissions, the given
    /// path and payload size, zeroed timestamps — and writes its header as
    /// [`Writer::write_header`] does, handing the synthesized entry view
    /// back on success.
    pub fn write_header_new(&mut self, pathname: &str, entry_size: i64, status: i32) -> (r: Result<
        ArchiveEntryReader,
        ArchiveError,
    >)
        requires
            old(self).phase is Opened,
            is_status_code(status),
        ensures
            status == ARCHIVE_OK ==> (r matches Ok(e) && e.record.pathname@ == pathname@
                && e.record.size == entry_size && e.record.perm == 0o755 && e.record.filetype
                == filetype_code(ArchiveEntryFiletype::AE_IFREG) && e.record.sourcepath@.len() == 0
                && e.record.atime == (TimeSpec { seconds: 0, nanoseconds: 0 }) && e.record.birthtime
                == (TimeSpec { seconds: 0, nanoseconds: 0 }) && e.record.ctime == (TimeSpec {
                seconds: 0,
                nanoseconds: 0,
            }) && e.record.mtime == (TimeSpec { seconds: 0, nanoseconds: 0 }) && e.iotype
                is WriterEntry && e.origin is None && e.wf()) && *final(self) == old(self).with_phase(WritePhase::EntryOpen),
            status != ARCHIVE_OK ==> r == Err::<ArchiveEntryReader, ArchiveError>(
                status_of(status),
            ) && *final(self) == *old(self),
    {
        let zero = TimeSpec { seconds: 0, nanoseconds: 0 };
        let mut entry = ArchiveEntryReader {
            record: EntryRecord {
                size: entry_size,
                pathname: String::from_str(""),
                sourcepath: String::from_str(""),
                perm: 0o755,
                filetype: 0,
                atime: zero,
                birthtime: zero,
                ctime: zero,
                mtime: zero,
            },
            iotype: ArchiveEntryIOType::WriterEntry,
            origin: None,
        };
        proof {
            reveal_strlit("");
        }
        entry.set_filetype(ArchiveEntryFiletype::AE_IFREG);
        entry.set_pathname(pathname);
        match self.write_header(&entry, status) {
            Ok(()) => Ok(entry),
            Err(e) => Err(e),
        }
    }

    /// Judges one payload write of the open entry against what the engine
    /// reports it actually wrote: only a complete write succeeds; a short or
    /// failed write comes back `Failed`, never silent success. The writer's
    /// state is unchanged either way — the entry stays open for further data
    /// or for finishing.
    pub fn write_data(&mut self, data: Vec<u8>, written: i64) -> (r: Result<(), ArchiveError>)
        requires
            old(self).phase is EntryOpen,
            written <= data@.len(),
        ensures
            *final(self) == *old(self),
            written == data@.len() ==> r == Ok::<(), ArchiveError>(()),
            written < data@.len() ==> r == Err::<(), ArchiveError>(ArchiveError::Failed),
    {
        if written < 0 {
            Err(ArchiveError::Failed)
        } else if written as usize == data.len() {
            Ok(())
        } else {
            Err(ArchiveError::Failed)
        }
    }

    /// Classifies the engine's answer to finishing the open entry. Success
    /// returns the writer to its opened state, ready for the next header;
    /// any other status comes back classified with the entry still open.
    pub fn write_finish_entry(&mut self, status: i32) -> (r: Result<(), ArchiveError>)
        requires
            old(self).phase is EntryOpen,
            is_status_code(status),
        ensures
            status == ARCHIVE_OK ==> r == Ok::<(), ArchiveError>(()) && *final(self) == old(self).with_phase(WritePhase::Opened),
            status != ARCHIVE_OK ==> r == Err::<(), ArchiveError>(status_of(status)) && *final(self) == *old(self),
    {
        if status == ARCHIVE_OK {
            self.phase = WritePhase::Opened;
            Ok(())
        } else {
            Err(crate::status::code_to_error(status))
        }
    }
}

/// The strict per-entry order is self-restoring: from the opened state, an
/// accepted header moves the writer to the entry-open state — where payload
/// writes keep the state — and an accepted finish returns exactly the opened
/// writer it started from, format, filters and destination intact. Writing
/// an archive is therefore a loop of header, data, finish rounds, each round
/// leaving the writer as it found it.
pub proof fn lemma_entry_protocol_restores(w: Writer)
    requires
        w.phase is Opened,
    ensures
        w.with_phase(WritePhase::EntryOpen).phase is EntryOpen,
        w.with_phase(WritePhase::EntryOpen).with_phase(WritePhase::Opened) == w,
{
}

/// A writer session the engine extracts entries to disk through: it shares
/// the write-mode teardown discipline but takes no format, filter or
/// destination configuration.
#[derive(Debug, Clone, Copy, PartialEq, Eq, Structural)]
pub struct WriterToDisk {
}

impl WriterToDisk {
    /// A fresh disk-writer session, together with the ledger of its newly
    /// allocated engine session — one owner, write-mode teardown.
    pub fn new() -> (r: (WriterToDisk, SessionHandle))
        ensures
            r.1 == (SessionHandle {
                mode: ArchiveEntryIOType::WriterEntry,
                owners: 1,
                closes: 0,
                frees: 0,
            }),
    {
        (WriterToDisk {  }, SessionHandle::new(ArchiveEntryIOType::WriterEntry))
    }
}

} // verus!
