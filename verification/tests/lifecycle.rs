use archive_bridge::entry::{ArchiveEntryIOType, EntryRecord, TimeSpec};
use archive_bridge::handle::{SessionHandle, Teardown};
use archive_bridge::reader::Reader;
use archive_bridge::status::{ArchiveError, ARCHIVE_FATAL, ARCHIVE_OK};
use archive_bridge::writer::{Writer, WriterToDisk};

fn sample_record(name: &str, size: i64) -> EntryRecord {
    let zero = TimeSpec { seconds: 0, nanoseconds: 0 };
    EntryRecord {
        size,
        pathname: name.to_string(),
        sourcepath: String::new(),
        perm: 0o644,
        filetype: 0o100_000,
        atime: zero,
        birthtime: zero,
        ctime: zero,
        mtime: zero,
    }
}

#[test]
fn fresh_read_session_has_one_owner() {
    let (_reader, session) = Reader::new();
    assert_eq!(session.owner_count(), 1);
    assert_eq!(session.mode, ArchiveEntryIOType::ReaderEntry);
    assert_eq!(session.closes, 0);
    assert_eq!(session.frees, 0);
}

#[test]
fn last_release_orders_read_teardown_exactly_once() {
    let (reader, mut session) = Reader::new();
    let reader = reader.open_memory(&vec![0u8; 4], ARCHIVE_OK).unwrap();
    let entry = reader
        .next_header(&mut session, ARCHIVE_OK, sample_record("a", 1))
        .unwrap();
    assert_eq!(session.owner_count(), 2);

    // Dropping the entry view while the reader lives: no teardown.
    drop(entry);
    assert_eq!(session.release(), None);
    assert_eq!(session.closes, 0);
    assert_eq!(session.frees, 0);

    // Dropping the last owner: the one-time read close/free pair.
    drop(reader);
    assert_eq!(session.release(), Some(Teardown::ReadSession));
    assert_eq!(session.closes, 1);
    assert_eq!(session.frees, 1);
    assert_eq!(session.owner_count(), 0);
}

#[test]
fn archive_handle_keeps_session_alive_past_original_reader() {
    let (reader, mut session) = Reader::new();
    let reader = reader.open_memory(&vec![0u8; 4], ARCHIVE_OK).unwrap();
    let entry = reader
        .next_header(&mut session, ARCHIVE_OK, sample_record("a", 1))
        .unwrap();
    let clone = entry.archive(&mut session);
    assert_eq!(clone, reader);
    assert_eq!(session.owner_count(), 3);

    // Original entry view goes first, then the original reader: the clone
    // still owns the session, so neither release touches the engine.
    drop(entry);
    assert_eq!(session.release(), None);
    drop(reader);
    assert_eq!(session.release(), None);
    assert_eq!(session.closes, 0);
    assert_eq!(session.frees, 0);

    // The clone is the last owner; its release runs the close/free pair once.
    drop(clone);
    assert_eq!(session.release(), Some(Teardown::ReadSession));
    assert_eq!(session.closes, 1);
    assert_eq!(session.frees, 1);
}

#[test]
fn failed_open_still_reaches_zero_owners_without_leak() {
    let (reader, mut session) = Reader::new();
    let res = reader.open_filename(10240, ARCHIVE_FATAL);
    assert_eq!(res, Err(ArchiveError::Fatal));
    // The session ledger is still the caller's; dropping the reader releases
    // the single share and tears the session down exactly once.
    assert_eq!(session.release(), Some(Teardown::ReadSession));
    assert_eq!(session.owner_count(), 0);
    assert_eq!(session.closes, 1);
    assert_eq!(session.frees, 1);
}

#[test]
fn write_sessions_order_write_teardown() {
    let (_writer, mut session) = Writer::new();
    assert_eq!(session.mode, ArchiveEntryIOType::WriterEntry);
    assert_eq!(session.release(), Some(Teardown::WriteSession));

    let (_disk, mut disk_session) = WriterToDisk::new();
    assert_eq!(disk_session.mode, ArchiveEntryIOType::WriterEntry);
    assert_eq!(disk_session.release(), Some(Teardown::WriteSession));
    assert_eq!(disk_session.closes, 1);
    assert_eq!(disk_session.frees, 1);
}

#[test]
fn share_and_release_balance_out() {
    let mut session = SessionHandle::new(ArchiveEntryIOType::ReaderEntry);
    session.share();
    session.share();
    assert_eq!(session.owner_count(), 3);
    assert_eq!(session.release(), None);
    assert_eq!(session.release(), None);
    assert_eq!(session.release(), Some(Teardown::ReadSession));
    assert_eq!((session.closes, session.frees), (1, 1));
}
