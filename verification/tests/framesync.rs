//! Pairing frames by time.

use reco_core::framesync::{IngestError, TimestampedIngestBuffer};
use reco_core::time::Duration;

/// Shorthand for millisecond durations in tests.
fn ms(n: u64) -> Duration {
    Duration::from_millis(n)
}

/// Build a stereo (N=2) buffer with 1-frame tolerance at 30fps
/// (~33ms) and a capacity of 8 per source.
fn stereo_buffer() -> TimestampedIngestBuffer<u64> {
    TimestampedIngestBuffer::new(&[0, 1], ms(33), 8)
}

#[test]
fn rejects_unknown_source_id() {
    let mut buf = stereo_buffer();
    let err = buf.push(99, ms(0), 42).unwrap_err();
    assert_eq!(err, IngestError::UnknownSource(99));
}

#[test]
fn emits_nothing_until_all_sources_have_a_frame() {
    let mut buf = stereo_buffer();
    buf.push(0, ms(100), 10).unwrap();
    assert!(buf.try_emit().is_none(), "only one source has pushed");

    buf.push(1, ms(100), 20).unwrap();
    let tuple = buf.try_emit().expect("both sources present now");
    assert_eq!(tuple.frames.len(), 2);
    assert_eq!(tuple.frames[0].source_id, 0);
    assert_eq!(tuple.frames[0].handle, 10);
    assert_eq!(tuple.frames[1].source_id, 1);
    assert_eq!(tuple.frames[1].handle, 20);
    assert_eq!(tuple.max_delta, ms(0));
}

#[test]
fn pairs_closest_frames_within_tolerance() {
    let mut buf = stereo_buffer();
    buf.push(0, ms(100), 10).unwrap();
    buf.push(1, ms(110), 20).unwrap();
    let tuple = buf.try_emit().unwrap();
    assert_eq!(tuple.max_delta, ms(10));
    assert_eq!(tuple.reference, ms(110));
}

#[test]
fn drops_frames_older_than_tolerance() {
    let mut buf = stereo_buffer();
    buf.push(0, ms(10), 10).unwrap();
    buf.push(1, ms(200), 20).unwrap();
    assert!(buf.try_emit().is_none());
    assert_eq!(buf.len(0), 0);
    assert_eq!(buf.len(1), 1);
}

#[test]
fn successful_emit_removes_used_frames() {
    let mut buf = stereo_buffer();
    buf.push(0, ms(100), 10).unwrap();
    buf.push(1, ms(100), 20).unwrap();
    assert!(buf.try_emit().is_some());
    assert!(buf.is_empty());
}

#[test]
fn preserves_older_frames_on_successful_emit() {
    let mut buf = stereo_buffer();
    buf.push(0, ms(100), 10).unwrap();
    buf.push(0, ms(130), 11).unwrap();
    buf.push(1, ms(130), 20).unwrap();
    let tuple = buf.try_emit().unwrap();
    assert_eq!(tuple.frames[0].handle, 11);
    assert_eq!(buf.len(0), 1);
}

#[test]
fn capacity_evicts_oldest_under_pressure() {
    let mut buf: TimestampedIngestBuffer<u32> = TimestampedIngestBuffer::new(&[0], ms(33), 3);
    for i in 0..5 {
        buf.push(0, ms(i as u64 * 10), i).unwrap();
    }
    assert_eq!(buf.len(0), 3);
}

#[test]
fn out_of_order_push_is_inserted_chronologically() {
    let mut buf = stereo_buffer();
    buf.push(0, ms(100), 1).unwrap();
    buf.push(0, ms(50), 2).unwrap();
    buf.push(0, ms(150), 3).unwrap();
    buf.push(1, ms(150), 30).unwrap();
    let tuple = buf.try_emit().unwrap();
    assert_eq!(tuple.frames[0].handle, 3);
    assert_eq!(buf.len(0), 0);
}

#[test]
fn last_sync_delta_updates_after_emit() {
    let mut buf = stereo_buffer();
    assert!(buf.last_sync_delta(0).is_none());

    buf.push(0, ms(100), 10).unwrap();
    buf.push(1, ms(115), 20).unwrap();
    buf.try_emit().unwrap();

    assert_eq!(buf.last_sync_delta(0), Some(ms(15)));
    assert_eq!(buf.last_sync_delta(1), Some(ms(15)));
}

#[test]
fn n_source_configuration_works_for_three_cameras() {
    let mut buf: TimestampedIngestBuffer<u32> =
        TimestampedIngestBuffer::new(&[10, 20, 30], ms(50), 4);
    buf.push(10, ms(100), 1).unwrap();
    buf.push(20, ms(110), 2).unwrap();
    buf.push(30, ms(120), 3).unwrap();
    let tuple = buf.try_emit().unwrap();
    assert_eq!(tuple.frames.len(), 3);
    assert_eq!(
        tuple.frames.iter().map(|f| f.source_id).collect::<Vec<_>>(),
        vec![10, 20, 30],
        "emission order follows source declaration order"
    );
    assert_eq!(tuple.max_delta, ms(20));
}

#[test]
fn clear_empties_every_source() {
    let mut buf = stereo_buffer();
    buf.push(0, ms(1), 10).unwrap();
    buf.push(1, ms(2), 20).unwrap();
    buf.push(0, ms(3), 11).unwrap();
    buf.clear();
    assert!(buf.is_empty());
    assert_eq!(buf.total_len(), 0);
}

#[test]
fn the_total_is_the_sum_over_sources() {
    let mut buf: TimestampedIngestBuffer<u32> = TimestampedIngestBuffer::new(&[4, 7, 9], ms(33), 8);
    assert!(buf.is_empty() && buf.total_len() == 0);
    buf.push(7, ms(1), 1).unwrap();
    assert!(!buf.is_empty(), "one frame is enough");
    buf.push(7, ms(2), 2).unwrap();
    buf.push(9, ms(3), 3).unwrap();
    assert_eq!((buf.len(4), buf.len(7), buf.len(9)), (0, 2, 1));
    assert_eq!(buf.total_len(), 3);
}

#[test]
fn stale_frames_are_dropped_while_a_source_is_empty() {
    let mut buf = stereo_buffer();
    buf.push(0, ms(0), 1).unwrap();
    buf.push(0, ms(200), 2).unwrap();
    assert!(buf.try_emit().is_none());
    assert_eq!(buf.len(0), 1);
    buf.push(1, ms(190), 3).unwrap();
    let tuple = buf.try_emit().unwrap();
    assert_eq!(tuple.frames[0].handle, 2);
    let mut empty = stereo_buffer();
    assert!(empty.try_emit().is_none());
}

#[test]
fn emitted_frames_lie_within_the_tolerance() {
    let mut buf: TimestampedIngestBuffer<u32> = TimestampedIngestBuffer::new(&[0, 1, 2], ms(40), 4);
    buf.push(0, ms(100), 1).unwrap();
    buf.push(1, ms(120), 2).unwrap();
    buf.push(2, ms(139), 3).unwrap();
    let tuple = buf.try_emit().unwrap();
    assert_eq!(tuple.reference, ms(139));
    assert_eq!(tuple.max_delta, ms(39));
    for frame in &tuple.frames {
        assert!(tuple.reference.saturating_sub(frame.timestamp).as_nanos() <= ms(40).as_nanos());
    }
}

#[test]
fn settings_of_a_buffer_can_be_read_back() {
    let buf: TimestampedIngestBuffer<u32> = TimestampedIngestBuffer::new(&[7, 3], ms(25), 5);
    assert_eq!(buf.source_ids(), vec![7, 3]);
    assert_eq!(buf.tolerance(), ms(25));
    assert_eq!(buf.capacity_per_source(), 5);
    assert_eq!(buf.len(99), 0);
    assert!(buf.last_sync_delta(99).is_none());
}

#[test]
fn the_newest_frames_survive_a_full_ring() {
    let mut buf: TimestampedIngestBuffer<u32> = TimestampedIngestBuffer::new(&[0, 1], ms(1000), 2);
    for i in 0..4u32 {
        buf.push(0, ms(i as u64 * 10), i).unwrap();
    }
    buf.push(1, ms(30), 100).unwrap();
    let tuple = buf.try_emit().unwrap();
    assert_eq!(tuple.frames[0].handle, 3);
    assert_eq!(buf.len(0), 1);
}

#[test]
fn unknown_sources_are_named() {
    assert_eq!(IngestError::UnknownSource(7).message(), "unknown source id 7");
}
