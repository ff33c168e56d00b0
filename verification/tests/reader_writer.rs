use archive_bridge::bridge::{MemorySource, ReadContainer};
use archive_bridge::entry::{
    ArchiveEntryFiletype, ArchiveEntryIOType, ArchiveEntryReader, EntryRecord, TimeSpec,
};
use archive_bridge::reader::{ReadPhase, Reader, SourceKind};
use archive_bridge::status::{
    ArchiveError, ARCHIVE_EOF, ARCHIVE_FAILED, ARCHIVE_FATAL, ARCHIVE_OK, ARCHIVE_RETRY,
    ARCHIVE_WARN,
};
use archive_bridge::writer::{ArchiveFilter, ArchiveFormat, SinkKind, WritePhase, Writer};

fn record(name: &str, size: i64) -> EntryRecord {
    EntryRecord {
        size,
        pathname: name.to_string(),
        sourcepath: "/tmp/origin".to_string(),
        perm: 0o644,
        filetype: 0o100_000,
        atime: TimeSpec { seconds: 11, nanoseconds: 1 },
        birthtime: TimeSpec { seconds: 22, nanoseconds: 2 },
        ctime: TimeSpec { seconds: 33, nanoseconds: 3 },
        mtime: TimeSpec { seconds: 44, nanoseconds: 4 },
    }
}

#[test]
fn builder_records_enabled_capabilities() {
    let (reader, _session) = Reader::new();
    let reader = reader.support_filter_all().support_format_all().support_format_raw();
    assert!(reader.filter_all && reader.format_all && reader.format_raw);
    assert_eq!(reader.phase, ReadPhase::Configured);
    assert_eq!(reader.source, None);
}

#[test]
fn successful_opens_attach_exactly_one_source() {
    let (reader, _session) = Reader::new();
    let reader = reader.open_filename(10240, ARCHIVE_OK).unwrap();
    assert_eq!(reader.phase, ReadPhase::Opened);
    assert_eq!(reader.source, Some(SourceKind::Filename { buffer_size: 10240 }));

    let (reader2, _session2) = Reader::new();
    let memory = vec![0u8; 512];
    let reader2 = reader2.open_memory(&memory, ARCHIVE_OK).unwrap();
    assert_eq!(reader2.source, Some(SourceKind::Memory { len: 512 }));

    let (reader3, _session3) = Reader::new();
    let source = MemorySource::new(vec![1, 2, 3], false);
    let container = ReadContainer::new(source);
    let reader3 = reader3.open_stream(&container, ARCHIVE_OK).unwrap();
    assert_eq!(reader3.source, Some(SourceKind::Stream));
    assert_eq!(container.buffer.len(), 8192);
}

#[test]
fn failed_stream_open_classifies_and_discards_the_bridge() {
    let (reader, _session) = Reader::new();
    let source = MemorySource::new(vec![1, 2, 3], false);
    let container = ReadContainer::new(source);
    match reader.open_stream(&container, ARCHIVE_FATAL) {
        Err(e) => assert_eq!(e, ArchiveError::Fatal),
        Ok(_) => panic!("a fatal open must not yield a reader"),
    }
}

#[test]
fn next_header_yields_entry_sharing_the_session() {
    let (reader, mut session) = Reader::new();
    let reader = reader.open_memory(&vec![0u8; 16], ARCHIVE_OK).unwrap();
    let entry = reader.next_header(&mut session, ARCHIVE_OK, record("dir/file.txt", 42)).unwrap();
    assert_eq!(session.owner_count(), 2);
    assert_eq!(entry.iotype, ArchiveEntryIOType::ReaderEntry);
    assert_eq!(entry.size(), 42);
    assert_eq!(entry.pathname(), "dir/file.txt");
    assert_eq!(entry.sourcepath(), "/tmp/origin");
    assert_eq!(entry.access_time(), TimeSpec { seconds: 11, nanoseconds: 1 });
    assert_eq!(entry.creation_time(), TimeSpec { seconds: 22, nanoseconds: 2 });
    assert_eq!(entry.inode_change_time(), TimeSpec { seconds: 33, nanoseconds: 3 });
    assert_eq!(entry.modification_time(), TimeSpec { seconds: 44, nanoseconds: 4 });
}

#[test]
fn exhausted_archive_stays_eof_and_never_escalates() {
    let (reader, mut session) = Reader::new();
    let reader = reader.open_memory(&vec![0u8; 16], ARCHIVE_OK).unwrap();
    let first = reader.next_header(&mut session, ARCHIVE_EOF, record("x", 0));
    assert_eq!(first.unwrap_err(), ArchiveError::Eof);
    assert_eq!(session.owner_count(), 1);
    // The engine keeps answering EOF for an exhausted archive; the
    // classification stays EOF call after call, never Fatal.
    let again = reader.next_header(&mut session, ARCHIVE_EOF, record("x", 0));
    assert_eq!(again.unwrap_err(), ArchiveError::Eof);
    assert_eq!(session.owner_count(), 1);
}

#[test]
fn read_data_pins_the_count_and_the_boundaries() {
    let (reader, _session) = Reader::new();
    let reader = reader.open_memory(&vec![0u8; 16], ARCHIVE_OK).unwrap();

    // A positive answer yields exactly that many leading bytes.
    let chunk = vec![10, 20, 30, 40, 50, 60, 70, 80];
    assert_eq!(reader.read_data(chunk, 5).unwrap(), vec![10, 20, 30, 40, 50]);

    // Zero is this entry's end of payload.
    assert_eq!(reader.read_data(vec![0u8; 8], 0).unwrap_err(), ArchiveError::Eof);

    // The engine's own codes come back verbatim.
    let fatal = ARCHIVE_FATAL as i64;
    let warn = ARCHIVE_WARN as i64;
    let retry = ARCHIVE_RETRY as i64;
    assert_eq!(reader.read_data(vec![0u8; 8], fatal).unwrap_err(), ArchiveError::Fatal);
    assert_eq!(reader.read_data(vec![0u8; 8], warn).unwrap_err(), ArchiveError::Warn);
    assert_eq!(reader.read_data(vec![0u8; 8], retry).unwrap_err(), ArchiveError::Retry);
}

#[test]
fn entry_mutators_update_the_record() {
    let mut entry = ArchiveEntryReader {
        record: record("old", 7),
        iotype: ArchiveEntryIOType::WriterEntry,
        origin: None,
    };
    entry.set_filetype(ArchiveEntryFiletype::AE_IFDIR);
    assert_eq!(entry.record.filetype, 0o040_000);
    entry.set_pathname("renamed/path");
    assert_eq!(entry.pathname(), "renamed/path");
    assert_eq!(entry.size(), 7);
}

#[test]
fn extract_classifies_and_no_overwrite_failure_is_failed() {
    let entry = ArchiveEntryReader {
        record: record("keep/me", 1),
        iotype: ArchiveEntryIOType::WriterEntry,
        origin: None,
    };
    // The engine refuses to replace an existing target under a no-overwrite
    // selection: that answer is Failed, never silent success.
    let refused = entry.extract(ARCHIVE_FAILED);
    assert_eq!(refused.unwrap_err(), ArchiveError::Failed);

    let entry = ArchiveEntryReader {
        record: record("keep/me", 1),
        iotype: ArchiveEntryIOType::WriterEntry,
        origin: None,
    };
    let kept = entry.extract(ARCHIVE_OK).unwrap();
    assert_eq!(kept.pathname(), "keep/me");
}

#[test]
fn extract_to_retargets_before_classifying() {
    let entry = ArchiveEntryReader {
        record: record("inside.txt", 3),
        iotype: ArchiveEntryIOType::WriterEntry,
        origin: None,
    };
    let moved = entry.extract_to("/out/inside.txt", ARCHIVE_OK).unwrap();
    assert_eq!(moved.pathname(), "/out/inside.txt");
    assert_eq!(moved.size(), 3);
}

#[test]
fn writer_builder_records_filters_and_format() {
    let (writer, _session) = Writer::new();
    let writer = writer
        .set_format(ArchiveFormat::Ustar)
        .add_filter(ArchiveFilter::Gzip)
        .set_compression(ArchiveFilter::Xz);
    assert_eq!(writer.format, Some(ArchiveFormat::Ustar));
    assert_eq!(writer.filters, vec![ArchiveFilter::Gzip, ArchiveFilter::Xz]);
    assert_eq!(writer.phase, WritePhase::Configured);
}

#[test]
fn entry_protocol_runs_in_strict_order_and_restores_the_writer() {
    let (writer, _session) = Writer::new();
    let mut writer = writer.set_format(ArchiveFormat::Pax);
    let out = vec![0u8; 4096];
    writer.open_memory(&out, ARCHIVE_OK).unwrap();
    assert_eq!(writer.phase, WritePhase::Opened);
    assert_eq!(writer.sink, Some(SinkKind::Memory { capacity: 4096 }));

    // First entry: header, full data write, finish.
    let entry = writer.write_header_new("a.txt", 5, ARCHIVE_OK).unwrap();
    assert_eq!(writer.phase, WritePhase::EntryOpen);
    assert_eq!(entry.record.perm, 0o755);
    assert_eq!(entry.record.filetype, 0o100_000);
    assert_eq!(entry.record.size, 5);
    assert_eq!(entry.pathname(), "a.txt");
    writer.write_data(vec![1, 2, 3, 4, 5], 5).unwrap();
    writer.write_finish_entry(ARCHIVE_OK).unwrap();
    assert_eq!(writer.phase, WritePhase::Opened);

    // The writer is back where it started; a second round runs unchanged.
    writer.write_header(&entry, ARCHIVE_OK).unwrap();
    writer.write_data(vec![9], 1).unwrap();
    writer.write_finish_entry(ARCHIVE_OK).unwrap();
    assert_eq!(writer.phase, WritePhase::Opened);
    assert_eq!(writer.format, Some(ArchiveFormat::Pax));
}

#[test]
fn short_or_failed_writes_surface_as_failed() {
    let (writer, _session) = Writer::new();
    let mut writer = writer.set_format(ArchiveFormat::Zip);
    writer.open_filename(ARCHIVE_OK).unwrap();
    writer.write_header_new("b.bin", 8, ARCHIVE_OK).unwrap();

    assert_eq!(writer.write_data(vec![0u8; 8], 3).unwrap_err(), ArchiveError::Failed);
    assert_eq!(writer.write_data(vec![0u8; 8], -1).unwrap_err(), ArchiveError::Failed);
    // The entry stays open: a complete retry still succeeds.
    writer.write_data(vec![0u8; 8], 8).unwrap();
}

#[test]
fn rejected_header_leaves_the_writer_unchanged() {
    let (writer, _session) = Writer::new();
    let mut writer = writer.set_format(ArchiveFormat::Ustar);
    writer.open_filename(ARCHIVE_OK).unwrap();
    let refused = writer.write_header_new("c.txt", 1, ARCHIVE_FAILED);
    assert_eq!(refused.unwrap_err(), ArchiveError::Failed);
    assert_eq!(writer.phase, WritePhase::Opened);
}
