use trail_renderer::tracker::PositionTracker;
use trail_renderer::vertex::{Color, Observation, Point, Segment};

const RED: Color = Color { r: 9, g: 1, b: 1, a: 8 };
const BLUE: Color = Color { r: 1, g: 1, b: 9, a: 8 };

fn obs(handle: u64, x: u32, y: u32, color: Color) -> Observation {
    Observation {
        handle,
        position: Point { x, y },
        color,
    }
}

#[test]
fn first_sighting_emits_no_segment() {
    let mut tracker = PositionTracker::new();
    let segments = tracker.update(&vec![obs(1, 10, 20, RED)]);
    assert!(segments.is_empty());
    assert_eq!(tracker.last_position(1), Some(Point { x: 10, y: 20 }));
}

#[test]
fn second_sighting_emits_one_connecting_segment() {
    let mut tracker = PositionTracker::new();
    tracker.update(&vec![obs(1, 10, 20, RED)]);
    let segments = tracker.update(&vec![obs(1, 30, 40, RED)]);
    assert_eq!(
        segments,
        vec![Segment {
            start: Point { x: 10, y: 20 },
            end: Point { x: 30, y: 40 },
            color: RED,
        }]
    );
    assert_eq!(tracker.last_position(1), Some(Point { x: 30, y: 40 }));
}

#[test]
fn absent_entity_keeps_stale_cache_entry() {
    // Entities A and B are seen only in frame 1; in frame 2 only A appears
    // again at a new position: exactly one segment is emitted, for A, and
    // B's stale entry persists unchanged.
    let mut tracker = PositionTracker::new();
    let frame1 = vec![obs(1, 10, 20, RED), obs(2, 50, 60, BLUE)];
    let segments = tracker.update(&frame1);
    assert!(segments.is_empty());

    let frame2 = vec![obs(1, 11, 21, RED)];
    let segments = tracker.update(&frame2);
    assert_eq!(
        segments,
        vec![Segment {
            start: Point { x: 10, y: 20 },
            end: Point { x: 11, y: 21 },
            color: RED,
        }]
    );
    assert_eq!(tracker.last_position(2), Some(Point { x: 50, y: 60 }));
    assert_eq!(tracker.last_position(1), Some(Point { x: 11, y: 21 }));
}

#[test]
fn unseen_entity_has_no_cache_entry() {
    let tracker = PositionTracker::new();
    assert_eq!(tracker.last_position(42), None);
}

#[test]
fn segments_preserve_snapshot_order() {
    let mut tracker = PositionTracker::new();
    tracker.update(&vec![obs(1, 1, 1, RED), obs(2, 2, 2, BLUE)]);
    let segments = tracker.update(&vec![obs(2, 20, 20, BLUE), obs(1, 10, 10, RED)]);
    assert_eq!(segments.len(), 2);
    assert_eq!(
        segments[0],
        Segment {
            start: Point { x: 2, y: 2 },
            end: Point { x: 20, y: 20 },
            color: BLUE,
        }
    );
    assert_eq!(
        segments[1],
        Segment {
            start: Point { x: 1, y: 1 },
            end: Point { x: 10, y: 10 },
            color: RED,
        }
    );
}

#[test]
fn repeated_entity_in_one_frame_chains_segments() {
    // The cache is updated as the snapshot is walked, so a handle that
    // appears twice in one frame emits a segment for its second occurrence
    // chained off the first.
    let mut tracker = PositionTracker::new();
    let segments = tracker.update(&vec![obs(1, 0, 0, RED), obs(1, 5, 5, RED)]);
    assert_eq!(
        segments,
        vec![Segment {
            start: Point { x: 0, y: 0 },
            end: Point { x: 5, y: 5 },
            color: RED,
        }]
    );
    assert_eq!(tracker.last_position(1), Some(Point { x: 5, y: 5 }));
}
