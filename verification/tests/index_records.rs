use ntfs_index::attribute_value::NtfsAttributeValue;
use ntfs_index::error::NtfsError;
use ntfs_index::index_allocation::NtfsIndexAllocation;
use ntfs_index::index_record::{BoundedWindowParser, IndexRecordParser, NtfsIndexRecord};
use ntfs_index::index_root::NtfsIndexRoot;

/// A handle whose every read fails, as a dying disk's would.
struct FailingHandle;

impl IndexRecordParser for FailingHandle {
    fn parse_record(&mut self, _position: u64, _record_size: u32) -> Result<NtfsIndexRecord, NtfsError> {
        Err(NtfsError::UnderlyingIoFailure)
    }
}

#[test]
fn four_whole_records_then_terminal() {
    // L = 4096, R = 1024: exactly 4 successful records, then terminal.
    let root = NtfsIndexRoot::new(1024);
    let alloc = NtfsIndexAllocation::new(NtfsAttributeValue::new(4096));
    let mut seq = alloc.iter(&root);
    let mut fs = BoundedWindowParser::new(4096);

    for n in 0..4u64 {
        assert_eq!(seq.position(), n * 1024);
        let rec = seq.next(&mut fs).expect("an item is owed").expect("a whole window parses");
        assert_eq!(rec.position(), n * 1024);
        assert_eq!(rec.record_size(), 1024);
        assert_eq!(seq.position(), (n + 1) * 1024);
    }
    assert!(seq.next(&mut fs).is_none());
    assert!(seq.next(&mut fs).is_none());
    assert_eq!(seq.position(), 4096);
}

#[test]
fn empty_stream_is_terminal_at_once() {
    // L = 0: the first call is terminal, whatever the record size.
    for record_size in [1u32, 1024, u32::MAX] {
        let root = NtfsIndexRoot::new(record_size);
        let alloc = NtfsIndexAllocation::new(NtfsAttributeValue::new(0));
        let mut seq = alloc.iter(&root);
        let mut fs = BoundedWindowParser::new(0);
        assert!(seq.next(&mut fs).is_none());
        assert_eq!(seq.position(), 0);
    }
}

#[test]
fn short_final_window_fails_without_advancing() {
    // L = 1500, R = 1024: the first record parses and the position becomes
    // 1024; the second window extends 548 bytes past the medium, the parser
    // rejects it, and the position stays at 1024 however often it is retried.
    let root = NtfsIndexRoot::new(1024);
    let alloc = NtfsIndexAllocation::new(NtfsAttributeValue::new(1500));
    let mut seq = alloc.iter(&root);
    let mut fs = BoundedWindowParser::new(1500);

    let first = seq.next(&mut fs).unwrap().unwrap();
    assert_eq!(first.position(), 0);
    assert_eq!(seq.position(), 1024);

    let second = seq.next(&mut fs).unwrap();
    assert_eq!(second.unwrap_err(), NtfsError::RecordParseFailure);
    assert_eq!(seq.position(), 1024);

    let retried = seq.next(&mut fs).unwrap();
    assert_eq!(retried.unwrap_err(), NtfsError::RecordParseFailure);
    assert_eq!(seq.position(), 1024);
}

#[test]
fn sequence_leaves_short_window_to_the_parser() {
    // The sequence makes no length-multiple check of its own: with a medium
    // that happens to cover the whole final window, the parser accepts it,
    // the position moves past the stream end, and the sequence is terminal.
    let root = NtfsIndexRoot::new(1024);
    let alloc = NtfsIndexAllocation::new(NtfsAttributeValue::new(1500));
    let mut seq = alloc.iter(&root);
    let mut fs = BoundedWindowParser::new(4096);

    assert_eq!(seq.next(&mut fs).unwrap().unwrap().position(), 0);
    assert_eq!(seq.next(&mut fs).unwrap().unwrap().position(), 1024);
    assert_eq!(seq.position(), 2048);
    assert!(seq.next(&mut fs).is_none());
}

#[test]
fn io_failure_is_surfaced_verbatim_and_does_not_advance() {
    let root = NtfsIndexRoot::new(512);
    let alloc = NtfsIndexAllocation::new(NtfsAttributeValue::new(2048));
    let mut seq = alloc.iter(&root);
    let mut fs = FailingHandle;

    let r = seq.next(&mut fs).unwrap();
    assert_eq!(r.unwrap_err(), NtfsError::UnderlyingIoFailure);
    assert_eq!(seq.position(), 0);

    // A later call with a healthy handle re-attempts the same position.
    let mut healthy = BoundedWindowParser::new(2048);
    let rec = seq.next(&mut healthy).unwrap().unwrap();
    assert_eq!(rec.position(), 0);
    assert_eq!(seq.position(), 512);
}

#[test]
fn attach_detach_round_trip_preserves_position() {
    let root = NtfsIndexRoot::new(1024);
    let alloc = NtfsIndexAllocation::new(NtfsAttributeValue::new(4096));
    let mut fs = BoundedWindowParser::new(4096);

    // Immediately detached: still at the start.
    let seq = alloc.iter(&root);
    let seq = seq.attach(&mut fs).detach();
    assert_eq!(seq.position(), 0);

    // Detached mid-stream: position preserved.
    let mut seq = seq;
    seq.next(&mut fs).unwrap().unwrap();
    let attached = seq.attach(&mut fs);
    let seq = attached.detach();
    assert_eq!(seq.position(), 1024);
    assert_eq!(seq.len(), 4096);
    assert_eq!(seq.record_size(), 1024);
}

#[test]
fn interleaved_pulls_resume_exactly() {
    // attach, pull 2 of 4, detach, pull directly, re-attach, finish:
    // no record is skipped and none is produced twice.
    let root = NtfsIndexRoot::new(1024);
    let alloc = NtfsIndexAllocation::new(NtfsAttributeValue::new(4096));
    let seq = alloc.iter(&root);
    let mut fs = BoundedWindowParser::new(4096);

    let mut attached = seq.attach(&mut fs);
    assert_eq!(attached.next().unwrap().unwrap().position(), 0);
    assert_eq!(attached.next().unwrap().unwrap().position(), 1024);
    let mut seq = attached.detach();
    assert_eq!(seq.position(), 2048);

    let third = seq.next(&mut fs).unwrap().unwrap();
    assert_eq!(third.position(), 2048);

    let mut attached = seq.attach(&mut fs);
    assert_eq!(attached.next().unwrap().unwrap().position(), 3072);
    assert!(attached.next().is_none());
    // The terminal signal is fused on the adapter as well.
    assert!(attached.next().is_none());
    let seq = attached.detach();
    assert_eq!(seq.position(), 4096);
}

#[test]
fn terminal_is_idempotent_across_attach_and_detach() {
    let root = NtfsIndexRoot::new(100);
    let alloc = NtfsIndexAllocation::new(NtfsAttributeValue::new(100));
    let mut seq = alloc.iter(&root);
    let mut fs = BoundedWindowParser::new(100);

    assert!(seq.next(&mut fs).unwrap().is_ok());
    assert!(seq.next(&mut fs).is_none());

    let mut attached = seq.attach(&mut fs);
    assert!(attached.next().is_none());
    assert!(attached.next().is_none());
    let mut seq = attached.detach();
    assert!(seq.next(&mut fs).is_none());
    assert_eq!(seq.position(), 100);
}

#[test]
fn record_describes_its_window() {
    let rec = NtfsIndexRecord::new(2048, 1024);
    assert_eq!(rec.position(), 2048);
    assert_eq!(rec.record_size(), 1024);
    assert_eq!(rec, NtfsIndexRecord::new(2048, 1024));
    assert_ne!(rec, NtfsIndexRecord::new(1024, 1024));
}

#[test]
fn stream_seeks_forward_and_past_the_end() {
    let mut value = NtfsAttributeValue::new(1500);
    assert_eq!(value.len(), 1500);
    assert_eq!(value.stream_position(), 0);
    assert_eq!(value.seek_forward(1024).unwrap(), 1024);
    // Seeking past the end of the stream is allowed.
    assert_eq!(value.seek_forward(1024).unwrap(), 2048);
    assert_eq!(value.stream_position(), 2048);

    let fresh = value.clone_from_start();
    assert_eq!(fresh.stream_position(), 0);
    assert_eq!(fresh.len(), 1500);
    assert_eq!(value.stream_position(), 2048);
}

#[test]
fn view_binds_record_size_from_the_root() {
    let root = NtfsIndexRoot::new(4096);
    assert_eq!(root.index_record_size(), 4096);
    let alloc = NtfsIndexAllocation::new(NtfsAttributeValue::new(10000));
    let seq = alloc.iter(&root);
    assert_eq!(seq.record_size(), 4096);
    assert_eq!(seq.len(), 10000);
    assert_eq!(seq.position(), 0);
}

#[test]
fn window_bound_parser_accepts_exactly_inside_windows() {
    let mut fs = BoundedWindowParser::new(2048);
    let rec = fs.parse_record(1024, 1024).unwrap();
    assert_eq!(rec.position(), 1024);
    assert_eq!(rec.record_size(), 1024);
    assert_eq!(fs.parse_record(1025, 1024).unwrap_err(), NtfsError::RecordParseFailure);
    assert_eq!(fs.parse_record(4096, 1).unwrap_err(), NtfsError::RecordParseFailure);
    assert_eq!(fs.parse_record(u64::MAX, u32::MAX).unwrap_err(), NtfsError::RecordParseFailure);
}
