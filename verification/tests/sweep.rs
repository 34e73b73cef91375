//! Tests of the swept collision detector and the geometry primitives.

use pong_core::geometry::Rect;
use pong_core::geometry::Vec2;
use pong_core::sweep::sweep;
use pong_core::sweep::scale_trunc;
use pong_core::sweep::CollisionResult;
use pong_core::sweep::Frac;

fn rect(x: i64, y: i64, w: i64, h: i64) -> Rect {
    Rect { x, y, w, h }
}

#[test]
fn horizontal_approach_reports_horizontal_hit() {
    // A ball-sized square three pixels right of a paddle's right edge,
    // moving left at 10: impact at exactly 3/10 of the frame, on a vertical
    // face (horizontal normal pointing along +x).
    let moving = rect(25, 300, 8, 8);
    let stationary = rect(10, 280, 12, 64);
    let r = sweep(moving, Vec2 { x: -10, y: 0 }, stationary);
    match r {
        CollisionResult::Hit { normal_x, normal_y, time } => {
            assert_eq!(normal_x, 1);
            assert_eq!(normal_y, 0);
            assert_eq!(time, Frac { num: 3, den: 10 });
        }
        CollisionResult::NoCollision => panic!("expected a hit"),
    }
}

#[test]
fn rightward_approach_normal_points_against_motion() {
    // Moving right into the paddle's left face: the normal points along -x.
    let moving = rect(0, 300, 8, 8);
    let stationary = rect(12, 280, 12, 64);
    let r = sweep(moving, Vec2 { x: 8, y: 0 }, stationary);
    match r {
        CollisionResult::Hit { normal_x, normal_y, time } => {
            assert_eq!(normal_x, -1);
            assert_eq!(normal_y, 0);
            assert_eq!(time, Frac { num: 4, den: 8 });
        }
        CollisionResult::NoCollision => panic!("expected a hit"),
    }
}

#[test]
fn clear_horizontal_path_reports_no_collision() {
    // Stops five pixels short of the paddle: no collision this frame.
    let moving = rect(0, 300, 8, 8);
    let stationary = rect(100, 280, 12, 64);
    let r = sweep(moving, Vec2 { x: 87, y: 0 }, stationary);
    assert_eq!(r, CollisionResult::NoCollision);
}

#[test]
fn separating_after_overlap_reports_no_collision() {
    // Already past the paddle and moving away: both entry times are
    // negative, so no collision is reported.
    let moving = rect(5, 300, 8, 8);
    let stationary = rect(10, 280, 12, 64);
    let r = sweep(moving, Vec2 { x: -10, y: 0 }, stationary);
    assert_eq!(r, CollisionResult::NoCollision);
}

#[test]
fn zero_displacement_reports_no_collision() {
    // A resting pair cannot collide: both axis entries count as negative
    // infinity.
    let moving = rect(0, 0, 8, 8);
    let stationary = rect(4, 4, 12, 64);
    let r = sweep(moving, Vec2 { x: 0, y: 0 }, stationary);
    assert_eq!(r, CollisionResult::NoCollision);
}

#[test]
fn vertical_approach_reports_vertical_hit() {
    let moving = rect(100, 200, 8, 8);
    let stationary = rect(90, 250, 50, 10);
    let r = sweep(moving, Vec2 { x: 0, y: 50 }, stationary);
    match r {
        CollisionResult::Hit { normal_x, normal_y, time } => {
            assert_eq!(normal_x, 0);
            assert_eq!(normal_y, -1);
            assert_eq!(time, Frac { num: 42, den: 50 });
        }
        CollisionResult::NoCollision => panic!("expected a hit"),
    }
}

#[test]
fn corner_pass_uses_later_exit_bound() {
    // The per-axis overlap windows are disjoint ([0.1, 0.5] horizontally,
    // [0.7, 1.1] vertically), so the diagonal path passes clear of the
    // corner; the detector bounds the exit by the later per-axis exit, so it
    // still reports the vertical-face hit at the later entry time.
    let moving = rect(0, 0, 2, 2);
    let stationary = rect(3, 9, 2, 2);
    let r = sweep(moving, Vec2 { x: 10, y: 10 }, stationary);
    match r {
        CollisionResult::Hit { normal_x, normal_y, time } => {
            assert_eq!(normal_x, 0);
            assert_eq!(normal_y, -1);
            assert_eq!(time, Frac { num: 7, den: 10 });
        }
        CollisionResult::NoCollision => panic!("expected a hit"),
    }
}

#[test]
fn entry_beyond_frame_reports_no_collision() {
    // The displacement ends one pixel short on the vertical axis.
    let moving = rect(100, 200, 8, 8);
    let stationary = rect(90, 250, 50, 10);
    let r = sweep(moving, Vec2 { x: 0, y: 41 }, stationary);
    assert_eq!(r, CollisionResult::NoCollision);
}

#[test]
fn scale_trunc_truncates_toward_zero() {
    assert_eq!(scale_trunc(-10, Frac { num: 3, den: 10 }), -3);
    assert_eq!(scale_trunc(10, Frac { num: 3, den: 10 }), 3);
    assert_eq!(scale_trunc(7, Frac { num: 1, den: 3 }), 2);
    assert_eq!(scale_trunc(-7, Frac { num: 1, den: 3 }), -2);
    assert_eq!(scale_trunc(9, Frac { num: 0, den: 5 }), 0);
    assert_eq!(scale_trunc(-9, Frac { num: 5, den: 5 }), -9);
}

#[test]
fn rect_overlap_and_containment() {
    let a = rect(0, 0, 10, 10);
    let b = rect(9, 9, 5, 5);
    let c = rect(10, 0, 5, 5);
    assert!(a.overlaps(&b));
    assert!(b.overlaps(&a));
    // Touching edges do not count as overlap.
    assert!(!a.overlaps(&c));
    assert!(a.contains(0, 0));
    assert!(a.contains(9, 9));
    assert!(!a.contains(10, 5));
}
