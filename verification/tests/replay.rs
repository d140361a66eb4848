//! Recently rendered frames.

use reco_core::pose::Pose;
use reco_core::replay::{ReplayBuffer, ReplayFrame};
use reco_core::time::Duration;

#[test]
fn replay_buffer_trims_old_frames() {
    let mut buf = ReplayBuffer::new(Duration::from_secs(2));
    for i in 0..5 {
        buf.push(ReplayFrame {
            rgba: vec![i as u8; 4],
            captured_at: Duration::from_millis(i as u64 * 1000),
            pose: Pose::default(),
        });
    }
    assert_eq!(buf.len(), 3);
    assert_eq!(buf.iter().first().unwrap().rgba[0], 2);
    assert_eq!(buf.latest().unwrap().rgba[0], 4);
}

#[test]
fn replay_buffer_boundary_inclusive() {
    let mut buf = ReplayBuffer::new(Duration::from_millis(100));
    buf.push(ReplayFrame {
        rgba: vec![],
        captured_at: Duration::from_millis(0),
        pose: Pose::default(),
    });
    buf.push(ReplayFrame {
        rgba: vec![],
        captured_at: Duration::from_millis(100),
        pose: Pose::default(),
    });
    assert_eq!(buf.len(), 2);
}

#[test]
fn replay_buffer_empty_semantics() {
    let buf = ReplayBuffer::new(Duration::from_secs(1));
    assert!(buf.is_empty());
    assert!(buf.latest().is_none());
    assert!(buf.oldest().is_none());
    assert_eq!(buf.len(), 0);
    assert_eq!(buf.buffered_duration(), Duration::zero());
    assert_eq!(buf.max_duration(), Duration::from_secs(1));
}

#[test]
fn replay_buffer_snapshot_and_take_preserve_ordering() {
    let mut buf = ReplayBuffer::new(Duration::from_secs(10));
    for i in 0..3u8 {
        buf.push(ReplayFrame {
            rgba: vec![i; 4],
            captured_at: Duration::from_millis(i as u64 * 100),
            pose: Pose::default(),
        });
    }
    let snap = buf.snapshot();
    assert_eq!(snap.len(), 3);
    assert_eq!(snap[0].rgba[0], 0);
    assert_eq!(snap[2].rgba[0], 2);
    assert_eq!(buf.len(), 3, "snapshot does not drain");

    let drained = buf.take();
    assert_eq!(drained.len(), 3);
    assert_eq!(drained[0].rgba[0], 0);
    assert!(buf.is_empty(), "take empties the buffer");
}

#[test]
fn replay_buffer_clear_drops_frames_keeps_max_duration() {
    let mut buf = ReplayBuffer::new(Duration::from_secs(5));
    buf.push(ReplayFrame {
        rgba: vec![0u8; 4],
        captured_at: Duration::zero(),
        pose: Pose::default(),
    });
    assert!(!buf.is_empty());
    buf.clear();
    assert!(buf.is_empty());
    assert_eq!(
        buf.max_duration(),
        Duration::from_secs(5),
        "clear preserves the configured window"
    );
}

#[test]
fn replay_buffer_duration_tracks_oldest_newest_spread() {
    let mut buf = ReplayBuffer::new(Duration::from_secs(10));
    buf.push(ReplayFrame {
        rgba: vec![],
        captured_at: Duration::from_millis(100),
        pose: Pose::default(),
    });
    buf.push(ReplayFrame {
        rgba: vec![],
        captured_at: Duration::from_millis(850),
        pose: Pose::default(),
    });
    assert_eq!(buf.buffered_duration(), Duration::from_millis(750));
    assert_eq!(
        buf.oldest().unwrap().captured_at,
        Duration::from_millis(100)
    );
}

#[test]
fn a_frame_from_the_past_does_not_drop_newer_ones() {
    let mut buf = ReplayBuffer::new(Duration::from_millis(10));
    for t in [100, 5] {
        buf.push(ReplayFrame {
            rgba: vec![],
            captured_at: Duration::from_millis(t),
            pose: Pose::default(),
        });
    }
    assert_eq!(buf.len(), 2);
}
