use smallvil::extra_state::{
    AnimationInfo, Ends, ProgressAndVelocity, WindowAreas, WindowPosition, WorkspaceAreas, Wrapped,
};
use smallvil::geometry::{logical, Point};
use smallvil::state::{get_progress, ANIMATION_MS};

const ENDS: Ends<f64> = Ends { zero: 0.0, one: 1.0 };

const SLOTS: [WindowPosition; 8] = [
    WindowPosition::TopLeft,
    WindowPosition::Top,
    WindowPosition::TopRight,
    WindowPosition::Right,
    WindowPosition::BottomRight,
    WindowPosition::Bottom,
    WindowPosition::BottomLeft,
    WindowPosition::Left,
];

fn less(a: f64, b: f64) -> bool {
    a < b
}

fn complement(a: f64) -> f64 {
    1.0 - a
}

fn blend(
    millis: u32,
    start: ProgressAndVelocity<f64>,
    end: ProgressAndVelocity<f64>,
) -> ProgressAndVelocity<f64> {
    let progress = f64::from(millis) / f64::from(ANIMATION_MS);
    ProgressAndVelocity {
        progress: start.progress * (1.0 - progress).max(0.0) + end.progress * progress,
        velocity: 10.0,
    }
}

fn distance(a: Point<f64>, b: Point<f64>) -> f64 {
    ((a.x - b.x) * (a.x - b.x) + (a.y - b.y) * (a.y - b.y)).sqrt()
}

fn distances(p: Point<f64>) -> WorkspaceAreas<f64> {
    let n = f64::sqrt(0.5);
    WorkspaceAreas {
        top_left_window: distance(logical(-n, -n), p),
        top_window: distance(logical(0.0, -1.0), p),
        top_right_window: distance(logical(n, -n), p),
        right_window: distance(logical(1.0, 0.0), p),
        bottom_right_window: distance(logical(n, n), p),
        bottom_window: distance(logical(0.0, 1.0), p),
        bottom_left_window: distance(logical(-n, n), p),
        left_window: distance(logical(-1.0, 0.0), p),
    }
}

fn numbers() -> WorkspaceAreas<i32> {
    WorkspaceAreas {
        top_left_window: 0,
        top_window: 1,
        top_right_window: 2,
        right_window: 3,
        bottom_right_window: 4,
        bottom_window: 5,
        bottom_left_window: 6,
        left_window: 7,
    }
}

fn listed<T: Copy>(areas: &WorkspaceAreas<T>) -> Vec<T> {
    vec![
        areas.top_left_window,
        areas.top_window,
        areas.top_right_window,
        areas.right_window,
        areas.bottom_right_window,
        areas.bottom_window,
        areas.bottom_left_window,
        areas.left_window,
    ]
}

fn progress(areas: &WindowAreas<f64>) -> Vec<f64> {
    listed(areas).into_iter().map(|entry| entry.progress).collect()
}

#[test]
fn replace_changes_one_slot() {
    for (index, slot) in SLOTS.into_iter().enumerate() {
        let mut areas = numbers();
        areas.replace(slot, 100);
        let mut expected: Vec<i32> = (0..8).collect();
        expected[index] = 100;
        assert_eq!(listed(&areas), expected);
    }
}

#[test]
fn later_value_replaces_earlier_one() {
    let mut areas = numbers();
    areas.replace(WindowPosition::Right, 30);
    areas.replace(WindowPosition::Right, 31);
    areas.replace(WindowPosition::Top, 10);
    let mut other = numbers();
    other.replace(WindowPosition::Top, 10);
    other.replace(WindowPosition::Right, 31);
    assert_eq!(listed(&areas), listed(&other));
    assert_eq!(listed(&areas), vec![0, 10, 2, 31, 4, 5, 6, 7]);
}

#[test]
fn merge_combines_slot_by_slot() {
    let ones = WorkspaceAreas {
        top_left_window: 10,
        top_window: 20,
        top_right_window: 30,
        right_window: 40,
        bottom_right_window: 50,
        bottom_window: 60,
        bottom_left_window: 70,
        left_window: 80,
    };
    let merged = numbers().merge_with(ones, |a: &i32, b: i32| (b, *a));
    assert_eq!(
        listed(&merged),
        vec![(10, 0), (20, 1), (30, 2), (40, 3), (50, 4), (60, 5), (70, 6), (80, 7)]
    );
}

#[test]
fn wrapped_values_are_piped() {
    let wrapped = Wrapped { inner: 20 }.pipe(|a| a + 1).pipe(|a| format!("<{}>", a));
    assert_eq!(wrapped.unwrap(), "<21>");
}

#[test]
fn smaller_of_two_is_kept() {
    let kept = Wrapped { inner: (1.0, 'a') }.min(2.0, 'b', &less).unwrap();
    assert_eq!(kept, (1.0, 'a'));
    let kept = Wrapped { inner: (2.0, 'a') }.min(1.0, 'b', &less).unwrap();
    assert_eq!(kept, (1.0, 'b'));
    let kept = Wrapped { inner: (1.0, 'a') }.min(1.0, 'b', &less).unwrap();
    assert_eq!(kept, (1.0, 'b'));
}

#[test]
fn focussed_window_has_least_progress() {
    for slot in SLOTS {
        let areas = WindowAreas::<f64>::from_position(slot, &ENDS);
        assert_eq!(areas.min_progress(&less), (0.0, slot));
    }
}

#[test]
fn last_of_equal_windows_is_least() {
    let areas = WindowAreas::<f64>::from_gesture(
        WindowPosition::TopLeft,
        &WorkspaceAreas {
            top_left_window: 0.5,
            top_window: 0.5,
            top_right_window: 0.5,
            right_window: 0.5,
            bottom_right_window: 0.5,
            bottom_window: 0.5,
            bottom_left_window: 0.5,
            left_window: 0.75,
        },
        &ENDS,
        &less,
        &complement,
    );
    assert_eq!(areas.top_left_window.progress, 0.5);
    assert_eq!(areas.min_progress(&less), (0.5, WindowPosition::BottomLeft));
}

#[test]
fn position_fills_one_slot() {
    let areas = WindowAreas::<f64>::from_position(WindowPosition::Bottom, &ENDS);
    assert_eq!(progress(&areas), vec![1.0, 1.0, 1.0, 1.0, 1.0, 0.0, 1.0, 1.0]);
    assert_eq!(areas.bottom_window.velocity, 1.0);
    assert_eq!(areas.top_window.velocity, 0.0);
}

#[test]
fn gesture_towards_the_right() {
    let areas = WindowAreas::<f64>::from_gesture(
        WindowPosition::Left,
        &distances(logical(0.75, 0.0)),
        &ENDS,
        &less,
        &complement,
    );
    assert_eq!(areas.right_window.progress, 0.25);
    assert_eq!(areas.left_window.progress, 0.75);
    assert_eq!(areas.top_window.progress, 1.25);
    assert_eq!(areas.right_window.velocity, 0.0);
    assert_eq!(areas.min_progress(&less), (0.25, WindowPosition::Right));
}

#[test]
fn gesture_beyond_the_window_of_its_start() {
    let areas = WindowAreas::<f64>::from_gesture(
        WindowPosition::Right,
        &distances(logical(1.0, 0.0)),
        &ENDS,
        &less,
        &complement,
    );
    // The closest of the others is one of the two corners beside the window.
    let n = f64::sqrt(0.5);
    let closest = distance(logical(n, n), logical(1.0, 0.0));
    assert_eq!(areas.right_window.progress, 1.0 - closest);
}

#[test]
fn still_gesture_keeps_its_window() {
    for slot in SLOTS {
        let areas = WindowAreas::<f64>::from_gesture(
            slot,
            &distances(logical(0.0, 0.0)),
            &ENDS,
            &less,
            &complement,
        );
        assert_eq!(
            progress(&areas),
            progress(&WindowAreas::<f64>::from_position(slot, &ENDS))
        );
        assert_eq!(areas.min_progress(&less), (0.0, slot));
    }
}

#[test]
fn gesture_is_alike_from_every_window() {
    let p = logical(-0.3, 0.6);
    let from_top = WindowAreas::<f64>::from_gesture(
        WindowPosition::Top,
        &distances(p),
        &ENDS,
        &less,
        &complement,
    );
    let from_right = WindowAreas::<f64>::from_gesture(
        WindowPosition::Right,
        &distances(p),
        &ENDS,
        &less,
        &complement,
    );
    for (index, (a, b)) in progress(&from_top).into_iter().zip(progress(&from_right)).enumerate() {
        if index != 1 && index != 3 {
            assert_eq!(a, b);
        }
    }
}

#[test]
fn animation_half_way() {
    let info = AnimationInfo {
        start_time: 5_000_000_000,
        start_info: WindowAreas::<f64>::from_position(WindowPosition::TopLeft, &ENDS),
    };
    let (areas, finished) = WindowAreas::<f64>::from_animation(
        &info,
        WindowPosition::TopRight,
        5_150_000_000,
        &ENDS,
        &blend,
    );
    assert!(!finished);
    assert_eq!(progress(&areas), vec![0.5, 1.0, 0.5, 1.0, 1.0, 1.0, 1.0, 1.0]);
    assert_eq!(areas.top_window.velocity, 10.0);
}

#[test]
fn animation_at_its_end() {
    let info = AnimationInfo {
        start_time: 0,
        start_info: WindowAreas::<f64>::from_position(WindowPosition::Left, &ENDS),
    };
    let (areas, finished) = WindowAreas::<f64>::from_animation(
        &info,
        WindowPosition::Right,
        300_000_000,
        &ENDS,
        &blend,
    );
    assert!(finished);
    assert_eq!(
        progress(&areas),
        progress(&WindowAreas::<f64>::from_position(WindowPosition::Right, &ENDS))
    );
}

#[test]
fn animation_that_was_not_looked_at_for_long() {
    let info = AnimationInfo {
        start_time: 1,
        start_info: WindowAreas::<f64>::from_position(WindowPosition::Left, &ENDS),
    };
    let (areas, finished) = WindowAreas::<f64>::from_animation(
        &info,
        WindowPosition::Top,
        90_000_000_001,
        &ENDS,
        &blend,
    );
    assert!(finished);
    assert_eq!(areas.top_window.progress, 0.0);
    assert_eq!(areas.left_window.progress, 1.0);
}

#[test]
fn animation_stays_in_range() {
    let mut start_info = WindowAreas::<f64>::from_position(WindowPosition::Left, &ENDS);
    start_info.top_window.progress = 0.25;
    start_info.bottom_window.progress = 1.0 / 3.0;
    let info = AnimationInfo { start_time: 0, start_info };
    for millis in 0..=2_500u128 {
        let (areas, finished) = WindowAreas::<f64>::from_animation(
            &info,
            WindowPosition::Top,
            millis * 1_000_000,
            &ENDS,
            &blend,
        );
        assert_eq!(finished, get_progress(millis * 1_000_000) >= ANIMATION_MS);
        assert!(areas.top_window.progress <= 0.25);
        assert!(progress(&areas).into_iter().all(|value| (0.0..=1.0).contains(&value)));
        assert_eq!(areas.right_window.progress, 1.0);
    }
}

#[test]
fn animation_goes_no_farther_than_to_its_end() {
    let info = AnimationInfo {
        start_time: 0,
        start_info: WindowAreas::<f64>::from_position(WindowPosition::Left, &ENDS),
    };
    for now in [300_000_000, 301_000_000, 600_000_000, 999_999_999] {
        let (areas, finished) = WindowAreas::<f64>::from_animation(
            &info,
            WindowPosition::Top,
            now,
            &ENDS,
            &blend,
        );
        assert!(finished);
        assert_eq!(areas.left_window.progress, 1.0);
        assert_eq!(areas.top_window.progress, 0.0);
    }
}

#[test]
fn progress_in_milliseconds() {
    assert_eq!(get_progress(0), 0);
    assert_eq!(get_progress(999_999), 0);
    assert_eq!(get_progress(1_000_000), 1);
    assert_eq!(get_progress(299_999_999), 299);
    assert_eq!(get_progress(300_000_000), 300);
    assert_eq!(get_progress(999_999_999), 999);
    assert_eq!(get_progress(1_100_000_000), 100);
    assert_eq!(get_progress(2_000_000_000), 300);
    assert_eq!(get_progress(2_100_000_000), 300);
    assert_eq!(get_progress(u128::MAX), 300);
}
