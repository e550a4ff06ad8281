use smallvil::extra_state::{self, Ends, WindowAreas, WindowPosition, WorkspaceAreas};
use smallvil::geometry::{Point, Rectangle, Size};
use smallvil::input;
use smallvil::placement::{
    arrange, empty_workspace, get_bottom, get_bottom_left, get_bottom_right, get_left, get_right,
    get_top, get_top_left, get_top_right, positions_of, Window, WindowEffect, MARGIN, PADDING,
};
use smallvil::state::{Smallvil, WorkspaceState};

const AREA: Rectangle<i32> = Rectangle {
    loc: Point { x: 50, y: 60 },
    size: Size { w: 100, h: 200 },
};

const NOWHERE: Rectangle<i32> = Rectangle {
    loc: Point { x: -1, y: -1 },
    size: Size { w: 0, h: 0 },
};

fn window(id: u64) -> Window {
    Window { id, surface: 100 + id }
}

fn everywhere<T: Copy>(value: T) -> WorkspaceAreas<T> {
    WorkspaceAreas {
        top_left_window: value,
        top_window: value,
        top_right_window: value,
        right_window: value,
        bottom_right_window: value,
        bottom_window: value,
        bottom_left_window: value,
        left_window: value,
    }
}

fn place(start: Point<i64>, end: Point<i64>, progress: f64) -> Point<i32> {
    let part = progress.max(0.0).min(1.0);
    let along = |a: i64, b: i64| ((a as f64) * (1.0 - part) + (b as f64) * part).round() as i32;
    Point { x: along(start.x, end.x), y: along(start.y, end.y) }
}

#[test]
fn gaps() {
    assert_eq!(PADDING, 10);
    assert_eq!(MARGIN, 50);
}

#[test]
fn corners_of_windows_at_rest() {
    let at = |point: Point<i64>| (point.x, point.y);
    assert_eq!(at(get_left(AREA)), (-60, 60));
    assert_eq!(at(get_top(AREA)), (50, -150));
    assert_eq!(at(get_right(AREA)), (160, 60));
    assert_eq!(at(get_bottom(AREA)), (50, 270));
    assert_eq!(at(get_top_left(AREA)), (-60, -150));
    assert_eq!(at(get_top_right(AREA)), (160, -150));
    assert_eq!(at(get_bottom_left(AREA)), (-60, 270));
    assert_eq!(at(get_bottom_right(AREA)), (160, 270));
}

#[test]
fn windows_at_rest_keep_their_distance() {
    let corners = [
        get_left(AREA),
        get_top(AREA),
        get_right(AREA),
        get_bottom(AREA),
        get_top_left(AREA),
        get_top_right(AREA),
        get_bottom_left(AREA),
        get_bottom_right(AREA),
        Point { x: 50, y: 60 },
    ];
    for (index, a) in corners.iter().enumerate() {
        for b in &corners[index + 1..] {
            assert!((a.x - b.x).abs() >= 110 || (a.y - b.y).abs() >= 210);
        }
    }
}

#[test]
fn positions_on_the_way() {
    let mut progress = everywhere(0.0);
    progress.right_window = 1.0;
    progress.top_window = 0.5;
    progress.left_window = 2.0;
    progress.bottom_window = -1.0;
    let positions = positions_of(&progress, AREA, &place);
    assert_eq!(positions.right_window, Point { x: 160, y: 60 });
    assert_eq!(positions.top_window, Point { x: 50, y: -45 });
    assert_eq!(positions.left_window, Point { x: -60, y: 60 });
    assert_eq!(positions.bottom_window, Point { x: 50, y: 60 });
    assert_eq!(positions.bottom_right_window, Point { x: 50, y: 60 });
}

#[test]
fn opposite_windows_move_together() {
    for millis in 0..=300 {
        let gone = f64::from(millis) / 300.0;
        let mut progress = everywhere(1.0);
        progress.left_window = gone;
        progress.right_window = 1.0 - gone;
        let positions = positions_of(&progress, AREA, &place);
        let step = positions.right_window.x - positions.left_window.x;
        assert!((step - 110).abs() <= 1);
        assert_eq!(positions.right_window.y, positions.left_window.y);
    }
}

#[test]
fn opposite_corners_move_together() {
    for millis in 0..=300 {
        let gone = f64::from(millis) / 300.0;
        let mut progress = everywhere(1.0);
        progress.top_left_window = gone;
        progress.bottom_right_window = 1.0 - gone;
        progress.bottom_window = gone;
        progress.top_window = 1.0 - gone;
        let positions = positions_of(&progress, AREA, &place);
        let across = positions.bottom_right_window.x - positions.top_left_window.x;
        let down = positions.bottom_right_window.y - positions.top_left_window.y;
        assert!((across - 110).abs() <= 1);
        assert!((down - 210).abs() <= 1);
        assert_eq!(positions.top_window.x, positions.bottom_window.x);
        assert!((positions.bottom_window.y - positions.top_window.y - 210).abs() <= 1);
    }
}

#[test]
fn edges_are_handled_before_corners() {
    let mut workspace = empty_workspace();
    workspace.replace(WindowPosition::TopLeft, Some(window(1)));
    workspace.replace(WindowPosition::Bottom, Some(window(2)));
    workspace.replace(WindowPosition::Left, Some(window(3)));
    let at = Point { x: 7, y: 8 };
    let size = Size { w: 30, h: 40 };
    let fitting = Rectangle { loc: at, size };
    let mut geometries = everywhere(NOWHERE);
    geometries.replace(WindowPosition::Bottom, fitting);
    assert_eq!(
        arrange(&workspace, &geometries, &everywhere(at), size, false),
        vec![
            WindowEffect::UnmapAll,
            WindowEffect::Show { window: window(3), at },
            WindowEffect::Resize { window: window(3), size },
            WindowEffect::Show { window: window(2), at },
            WindowEffect::Show { window: window(1), at },
            WindowEffect::Resize { window: window(1), size },
        ]
    );
    assert_eq!(
        arrange(&workspace, &geometries, &everywhere(at), size, true),
        vec![
            WindowEffect::UnmapAll,
            WindowEffect::Show { window: window(3), at },
            WindowEffect::Resize { window: window(3), size },
            WindowEffect::Show { window: window(1), at },
            WindowEffect::Resize { window: window(1), size },
        ]
    );
}

#[test]
fn empty_workspace_clears_the_screen() {
    let effects = arrange(
        &empty_workspace(),
        &everywhere(NOWHERE),
        &everywhere(Point { x: 0, y: 0 }),
        Size { w: 1, h: 1 },
        false,
    );
    assert_eq!(effects, vec![WindowEffect::UnmapAll]);
}

#[test]
fn windows_of_the_current_workspace_are_positioned() {
    let mut state: Smallvil<WorkspaceState<f64>> = Smallvil::new(None, None);
    state.workspaces[0].replace(WindowPosition::Right, Some(window(1)));
    let ends = Ends { zero: 0.0, one: 1.0 };
    let areas = WindowAreas::<f64>::from_position(WindowPosition::Left, &ends);
    let at = Point { x: 160, y: 60 };
    let mut geometries = everywhere(NOWHERE);
    geometries.replace(WindowPosition::Right, Rectangle { loc: at, size: AREA.size });
    assert_eq!(
        input::position_windows(&state, &areas, AREA, AREA.size, &geometries, &place),
        vec![WindowEffect::UnmapAll, WindowEffect::Show { window: window(1), at }]
    );
    assert_eq!(
        extra_state::position_windows(&state, &areas, AREA, AREA.size, &geometries, &place),
        vec![WindowEffect::UnmapAll]
    );
    assert_eq!(
        extra_state::position_windows(
            &state,
            &areas,
            AREA,
            AREA.size,
            &everywhere(NOWHERE),
            &place
        ),
        vec![
            WindowEffect::UnmapAll,
            WindowEffect::Show { window: window(1), at },
            WindowEffect::Resize { window: window(1), size: AREA.size },
        ]
    );
}
