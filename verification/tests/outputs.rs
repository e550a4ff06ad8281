use smallvil::geometry::{
    logical, saturating_minus, saturating_plus, Point, Rectangle, Size,
};
use smallvil::outputs::{absolute_extent, clamp_coords, output_at, total_width, Output};

fn output(x: i32, w: i32, h: i32) -> Output {
    Output {
        geometry: Some(Rectangle { loc: Point { x, y: 0 }, size: Size { w, h } }),
        udev: None,
        frame_duration: None,
        refresh: None,
    }
}

fn clamp(value: f64, bound: i32) -> f64 {
    value.clamp(0.0, bound as f64)
}

fn truncate(value: f64) -> i32 {
    value as i32
}

fn two_outputs() -> Vec<Output> {
    vec![output(0, 1920, 1080), output(1920, 1280, 720)]
}

#[test]
fn coordinates_saturate() {
    assert_eq!(saturating_plus(i32::MAX, 1), i32::MAX);
    assert_eq!(saturating_plus(i32::MIN, -1), i32::MIN);
    assert_eq!(saturating_plus(2, 3), 5);
    assert_eq!(saturating_minus(i32::MIN, 1), i32::MIN);
    assert_eq!(saturating_minus(i32::MAX, -1), i32::MAX);
    assert_eq!(saturating_minus(2, 3), -1);
    assert_eq!(
        logical(1, i32::MAX).shifted(logical(2, 3)),
        Point { x: 3, y: i32::MAX }
    );
    assert_eq!(logical(1, 2).relative_to(logical(3, 5)), Point { x: -2, y: -3 });
    assert!(logical(1, 2).same(logical(1, 2)));
    assert!(!logical(1, 2).same(logical(1, 3)));
}

#[test]
fn sizes_do_not_become_negative() {
    let size = Size { w: 100, h: 30 };
    assert_eq!(size.without(Size { w: 40, h: 40 }), Size { w: 60, h: 0 });
    assert!(size.same(Size { w: 100, h: 30 }));
    assert!(!size.same(Size { w: 100, h: 31 }));
}

#[test]
fn rectangles_are_half_open() {
    let area = Rectangle { loc: Point { x: 10, y: 20 }, size: Size { w: 5, h: 6 } };
    assert!(area.contains(Point { x: 10, y: 20 }));
    assert!(area.contains(Point { x: 14, y: 25 }));
    assert!(!area.contains(Point { x: 15, y: 25 }));
    assert!(!area.contains(Point { x: 14, y: 26 }));
    assert!(!area.contains(Point { x: 9, y: 20 }));
}

#[test]
fn extent_of_all_outputs() {
    assert_eq!(total_width(&Vec::new()), 0);
    assert_eq!(total_width(&two_outputs()), 3200);
    assert_eq!(absolute_extent(&Vec::new()), (0, 0));
    assert_eq!(absolute_extent(&two_outputs()), (3200, 1080));
    let taller_last = vec![output(0, 100, 200), output(100, 100, 300)];
    assert_eq!(absolute_extent(&taller_last), (200, 300));
}

#[test]
fn first_output_under_a_point() {
    let outputs = two_outputs();
    assert_eq!(output_at(&outputs, Point { x: 0, y: 0 }), Some(0));
    assert_eq!(output_at(&outputs, Point { x: 1919, y: 1079 }), Some(0));
    assert_eq!(output_at(&outputs, Point { x: 1920, y: 0 }), Some(1));
    assert_eq!(output_at(&outputs, Point { x: 1920, y: 720 }), None);
    assert_eq!(output_at(&outputs, Point { x: 3200, y: 0 }), None);
    let mut unmapped = outputs;
    unmapped[0].geometry = None;
    assert_eq!(output_at(&unmapped, Point { x: 0, y: 0 }), None);
}

#[test]
fn outputs_do_not_share_points() {
    let outputs = two_outputs();
    for column in 0..3200 {
        let point = Point { x: column, y: 0 };
        let covering = outputs
            .iter()
            .filter(|output| output.geometry.unwrap().contains(point))
            .count();
        assert_eq!(covering, 1);
    }
}

#[test]
fn new_output_is_beside_the_others() {
    let mut outputs = two_outputs();
    let x = total_width(&outputs);
    outputs.push(output(x, 800, 600));
    assert_eq!(output_at(&outputs, Point { x: 3199, y: 10 }), Some(1));
    assert_eq!(output_at(&outputs, Point { x: 3200, y: 10 }), Some(2));
}

#[test]
fn pointer_is_held_within_the_outputs() {
    let outputs = two_outputs();
    let held = |x: f64, y: f64| {
        let point = clamp_coords(&outputs, Point { x, y }, &clamp, &truncate);
        (point.x, point.y)
    };
    assert_eq!(held(100.5, 200.25), (100.5, 200.25));
    assert_eq!(held(-5.0, -6.0), (0.0, 0.0));
    assert_eq!(held(100.0, 2000.0), (100.0, 1080.0));
    assert_eq!(held(2000.0, 2000.0), (2000.0, 720.0));
    // At the right edge the pointer is above no output.
    assert_eq!(held(9000.0, 2000.0), (3200.0, 2000.0));
}

#[test]
fn pointer_is_free_without_outputs() {
    let held = clamp_coords(&Vec::new(), Point { x: -5.0, y: 1e9 }, &clamp, &truncate);
    assert_eq!((held.x, held.y), (-5.0, 1e9));
}
