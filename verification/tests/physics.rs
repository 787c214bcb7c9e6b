use scrollviews::scroll_physics::{
    axis_speed, fling_distance, MAX_FLING_VELOCITY, VELOCITY_WINDOW_NANOS,
};
use scrollviews::{
    momentum_scroll, px, CursorPoint, MomentumScroll, VelocityTracker, CURVE_ONE,
    MIN_FLING_VELOCITY,
};

const MS: u128 = 1_000_000;
const SECOND: u64 = 1_000_000_000;

fn at(x: i32, y: i32) -> CursorPoint {
    CursorPoint { x: px(x), y: px(y) }
}

fn fling_down() -> MomentumScroll {
    match momentum_scroll(0, -500, 0, px(1000), SECOND, 0, px(2000) as i128, px(300), px(400)) {
        Some(momentum) => momentum,
        None => panic!("no momentum"),
    }
}

#[test]
fn velocity_needs_two_samples() {
    let mut tracker = VelocityTracker::default();
    assert_eq!(tracker.velocity(), (0, 0));
    tracker.push_at(at(5, 5), 10 * MS);
    assert_eq!(tracker.velocity(), (0, 0));
    tracker.push_at(at(15, 0), 20 * MS);
    assert_eq!(tracker.velocity(), (px(1000), px(-500)));
}

#[test]
fn velocity_needs_a_millisecond() {
    let mut tracker = VelocityTracker::default();
    tracker.push_at(at(0, 0), 0);
    tracker.push_at(at(1, 0), MS - 1);
    assert_eq!(tracker.velocity(), (0, 0));
    let mut tracker = VelocityTracker::default();
    tracker.push_at(at(0, 0), 0);
    tracker.push_at(at(1, 0), MS);
    assert_eq!(tracker.velocity(), (px(1000), 0));
}

#[test]
fn velocity_of_samples_out_of_order_is_none() {
    let mut tracker = VelocityTracker::default();
    tracker.push_at(at(0, 0), 20 * MS);
    tracker.push_at(at(50, 0), 10 * MS);
    assert_eq!(tracker.velocity(), (0, 0));
}

#[test]
fn velocity_is_held_to_the_maximum() {
    let mut tracker = VelocityTracker::default();
    tracker.push_at(at(0, 0), 0);
    tracker.push_at(at(90, -90), 10 * MS);
    assert_eq!(tracker.velocity(), (MAX_FLING_VELOCITY, -MAX_FLING_VELOCITY));
    assert_eq!(MAX_FLING_VELOCITY, px(8000));
    assert_eq!(MIN_FLING_VELOCITY, px(150));
}

#[test]
fn velocity_is_taken_over_the_last_three_samples() {
    let mut tracker = VelocityTracker::default();
    tracker.push_at(at(0, 0), 0);
    tracker.push_at(at(1, 0), 40 * MS);
    tracker.push_at(at(3, 0), 50 * MS);
    tracker.push_at(at(11, 0), 60 * MS);
    assert_eq!(tracker.velocity(), (px(500), 0));
}

#[test]
fn samples_leave_the_window() {
    let mut tracker = VelocityTracker::default();
    tracker.push_at(at(0, 0), 0);
    tracker.push_at(at(10, 0), VELOCITY_WINDOW_NANOS);
    assert_eq!(tracker.velocity(), (px(100), 0));
    tracker.push_at(at(20, 0), 2 * VELOCITY_WINDOW_NANOS + 1);
    assert_eq!(tracker.velocity(), (0, 0));
}

#[test]
fn clear_forgets_and_clone_keeps() {
    let mut tracker = VelocityTracker::default();
    tracker.push_at(at(0, 0), 0);
    tracker.push_at(at(10, 0), 10 * MS);
    let copy = tracker.clone();
    tracker.clear();
    assert_eq!(tracker.velocity(), (0, 0));
    assert_eq!(copy.velocity(), (px(1000), 0));
}

#[test]
fn push_reads_the_clock() {
    let mut tracker = VelocityTracker::default();
    tracker.push(at(0, 0));
    let start = std::time::Instant::now();
    while start.elapsed().as_millis() < 10 {}
    tracker.push(at(40, 0));
    let (vx, vy) = tracker.velocity();
    assert!(vx > 0 && vx <= px(4000));
    assert_eq!(vy, 0);
}

#[test]
fn clone_and_clear_keep_the_clock() {
    let wait = |millis: u128| {
        let start = std::time::Instant::now();
        while start.elapsed().as_millis() < millis {}
    };
    let mut tracker = VelocityTracker::default();
    wait(30);
    tracker.push(at(0, 0));
    let mut copy = tracker.clone();
    wait(10);
    copy.push(at(40, 0));
    let (vx, _) = copy.velocity();
    assert!(vx > 0 && vx <= px(4000));
    tracker.clear();
    tracker.push(at(0, 0));
    wait(10);
    tracker.push(at(0, 40));
    let (_, vy) = tracker.velocity();
    assert!(vy > 0 && vy <= px(4000));
}

#[test]
fn progress_never_falls() {
    let momentum = fling_down();
    let mut before = 0;
    for step in 0..400u128 {
        let t = momentum.progress(step * 3 * MS);
        assert!(t >= before && t <= CURVE_ONE);
        before = t;
    }
}

#[test]
fn fling_distance_is_velocity_times_time_over_rate() {
    assert_eq!(fling_distance(px(2358), SECOND), px(1000) as i128);
    assert_eq!(fling_distance(px(-2358), SECOND), px(-1000) as i128);
    assert_eq!(fling_distance(px(2358), 2 * SECOND), px(2000) as i128);
    assert_eq!(fling_distance(0, SECOND), 0);
    assert_eq!(axis_speed(i64::MIN), 1 << 63);
    assert_eq!(axis_speed(-7), 7);
}

#[test]
fn slow_release_has_no_momentum() {
    let wide = px(10_000) as i128;
    let plan = |vx: i64, vy: i64, nanos: u64| {
        momentum_scroll(-500, -500, vx, vy, nanos, wide, wide, px(100), px(100)).is_some()
    };
    assert!(plan(px(150), 0, SECOND));
    assert!(!plan(px(150) - 1, 0, SECOND));
    assert!(plan(px(-90), px(120), SECOND));
    assert!(!plan(px(-90), px(119), SECOND));
    assert!(!plan(px(1000), 0, 0));
}

#[test]
fn momentum_with_nowhere_to_go_is_none() {
    let fits = px(100) as i128;
    assert!(momentum_scroll(0, 0, px(900), px(900), SECOND, fits, fits, px(100), px(100)).is_none());
    let longer = px(200) as i128;
    assert!(momentum_scroll(0, 0, 0, px(900), SECOND, fits, longer, px(100), px(100)).is_none());
    assert!(momentum_scroll(0, 0, 0, px(-900), SECOND, fits, longer, px(100), px(100)).is_some());
}

#[test]
fn momentum_stops_at_the_content_bounds() {
    let inner = px(2000) as i128;
    let up = momentum_scroll(0, -10, 0, px(8000), SECOND, 0, inner, px(300), px(400));
    assert_eq!(up.map(|m| m.frame(SECOND as u128, 0).y), Some(0));
    let down = momentum_scroll(0, -1500, 0, px(-8000), SECOND, 0, inner, px(300), px(400));
    assert_eq!(down.map(|m| m.frame(SECOND as u128, 0).y), Some(-1600));
}

#[test]
fn momentum_frames_lead_from_start_to_target() {
    let momentum = fling_down();
    let first = momentum.frame(0, 0);
    assert_eq!((first.x, first.y, first.finished), (0, -500, false));
    let half = momentum.frame(SECOND as u128 / 2, CURVE_ONE / 2);
    assert_eq!((half.y, half.finished), (-287, false));
    let last = momentum.frame(SECOND as u128, 0);
    assert_eq!((last.y, last.finished), (-75, true));
    let mut y = -500;
    for step in 0..=64 {
        let frame = momentum.frame(0, CURVE_ONE / 64 * step);
        assert!(frame.y >= y && frame.y <= 0);
        y = frame.y;
    }
}

#[test]
fn momentum_progress_is_the_part_of_the_time() {
    let momentum = fling_down();
    assert_eq!(momentum.progress(0), 0);
    assert_eq!(momentum.progress(SECOND as u128 / 4), CURVE_ONE / 4);
    assert_eq!(momentum.progress(SECOND as u128), CURVE_ONE);
    assert_eq!(momentum.progress(u128::MAX), CURVE_ONE);
}

#[test]
fn momentum_agrees_with_single_precision() {
    let starts = [0i32, -120, -700];
    let velocities = [400i32, -400, 2500, -7999];
    for start in starts {
        for velocity in velocities {
            let inner = 3000.0f32;
            let viewport = 500.0f32;
            let way = velocity as f32 * 1.5 / 2.358;
            let lowest = -(inner - viewport).max(0.0);
            let travel = (start as f32 + way).clamp(lowest, 0.0) - start as f32;
            let momentum = momentum_scroll(
                0, start, 0, px(velocity), SECOND / 2 * 3, 0, px(3000) as i128, 0, px(500),
            );
            assert_eq!(momentum.is_some(), travel.abs() >= 1.0);
            if let Some(momentum) = momentum {
                for quarter in 0..=4u32 {
                    let curve = quarter as f32 / 4.0;
                    let expected = (start as f32 + travel * curve) as i32;
                    let frame = momentum.frame(0, CURVE_ONE / 4 * quarter);
                    assert!((frame.y - expected).abs() <= 1);
                }
            }
        }
    }
}
