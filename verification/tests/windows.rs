use smallvil::extra_state::{
    AnimationInfo, Ends, ProgressAndVelocity, WindowAreas, WindowPosition, WorkspaceAreas,
    WorkspaceState,
};
use smallvil::geometry::{logical, Point, Rectangle, Size};
use smallvil::handlers::xdg_shell::{
    configures_popup, first_free, handle_commit, unconstrain_popup, window_of, PopupKind,
};
use smallvil::input::{close_focussed_window, is_focussed_window};
use smallvil::motion::{areas_at, Motion};
use smallvil::outputs::Output;
use smallvil::placement::{empty_workspace, AnvilWorkspace, Window, WindowEffect};
use smallvil::pointer::InputEffect;
use smallvil::state::{Smallvil, ANIMATION_MS};

type Manager = Smallvil<WorkspaceState<f64>>;
type Less = fn(f64, f64) -> bool;
type Complement = fn(f64) -> f64;
type Distances = fn(Rectangle<i32>, Point<f64>) -> WorkspaceAreas<f64>;
type Blend =
    fn(u32, ProgressAndVelocity<f64>, ProgressAndVelocity<f64>) -> ProgressAndVelocity<f64>;

const AREA: Rectangle<i32> = Rectangle {
    loc: Point { x: 50, y: 50 },
    size: Size { w: 90, h: 190 },
};

fn less(a: f64, b: f64) -> bool {
    a < b
}

fn complement(a: f64) -> f64 {
    1.0 - a
}

fn distances_at(area: Rectangle<i32>, moved: Point<f64>) -> WorkspaceAreas<f64> {
    let p = Point {
        x: (moved.x - f64::from(area.loc.x)) / f64::from(area.size.w + 10),
        y: (moved.y - f64::from(area.loc.y)) / f64::from(area.size.h + 10),
    };
    let n = f64::sqrt(0.5);
    let distance = |x: f64, y: f64| ((x - p.x) * (x - p.x) + (y - p.y) * (y - p.y)).sqrt();
    WorkspaceAreas {
        top_left_window: distance(-n, -n),
        top_window: distance(0.0, -1.0),
        top_right_window: distance(n, -n),
        right_window: distance(1.0, 0.0),
        bottom_right_window: distance(n, n),
        bottom_window: distance(0.0, 1.0),
        bottom_left_window: distance(-n, n),
        left_window: distance(-1.0, 0.0),
    }
}

fn blend(
    millis: u32,
    start: ProgressAndVelocity<f64>,
    end: ProgressAndVelocity<f64>,
) -> ProgressAndVelocity<f64> {
    let progress = f64::from(millis) / f64::from(ANIMATION_MS);
    ProgressAndVelocity {
        progress: start.progress * (1.0 - progress).max(0.0) + end.progress * progress,
        velocity: 10.0,
    }
}

fn motion() -> Motion<f64, Less, Complement, Distances, Blend> {
    Motion {
        ends: Ends { zero: 0.0, one: 1.0 },
        less,
        complement,
        distances_at,
        blend,
    }
}

fn place(start: Point<i64>, end: Point<i64>, progress: f64) -> Point<i32> {
    let part = progress.max(0.0).min(1.0);
    let along = |a: i64, b: i64| ((a as f64) * (1.0 - part) + (b as f64) * part).round() as i32;
    Point { x: along(start.x, end.x), y: along(start.y, end.y) }
}

fn manager() -> Manager {
    Smallvil::in_motion(WorkspaceState::Normal, None, None)
}

fn window(id: u64) -> Window {
    Window { id, surface: 100 + id }
}

fn windows_of(workspace: &AnvilWorkspace) -> Vec<Option<u64>> {
    [
        workspace.top_left_window,
        workspace.top_window,
        workspace.top_right_window,
        workspace.right_window,
        workspace.bottom_right_window,
        workspace.bottom_window,
        workspace.bottom_left_window,
        workspace.left_window,
    ]
    .iter()
    .map(|window| window.map(|window| window.id))
    .collect()
}

fn output() -> Output {
    Output {
        geometry: Some(Rectangle { loc: logical(0, 0), size: Size { w: 190, h: 290 } }),
        udev: None,
        frame_duration: None,
        refresh: None,
    }
}

#[test]
fn windows_open_clockwise() {
    let mut state = manager();
    let slots = [
        WindowPosition::TopLeft,
        WindowPosition::Top,
        WindowPosition::TopRight,
        WindowPosition::Right,
        WindowPosition::BottomRight,
        WindowPosition::Bottom,
        WindowPosition::BottomLeft,
        WindowPosition::Left,
    ];
    for (index, slot) in slots.into_iter().enumerate() {
        assert_eq!(first_free(&state.workspaces[0]), Some(slot));
        state.new_toplevel(window(index as u64), 0, &motion());
        assert_eq!(state.cur_workspace_focussed_window, slot);
        assert_eq!(state.cur_workspace, 0);
    }
    assert_eq!(first_free(&state.workspaces[0]), None);
    assert_eq!(windows_of(&state.workspaces[0]), (0..8).map(Some).collect::<Vec<_>>());
}

#[test]
fn ninth_window_gets_a_workspace_behind_the_current_one() {
    let mut state = manager();
    for id in 0..9 {
        state.new_toplevel(window(id), 0, &motion());
    }
    assert_eq!(state.cur_workspace, 1);
    assert_eq!(state.workspaces.len(), 2);
    assert_eq!(windows_of(&state.workspaces[0]), (0..8).map(Some).collect::<Vec<_>>());
    let mut only_first = vec![None; 8];
    only_first[0] = Some(8);
    assert_eq!(windows_of(&state.workspaces[1]), only_first);
    // The focus stays on the slot that was filled last.
    assert_eq!(state.cur_workspace_focussed_window, WindowPosition::Left);
    state.cur_workspace = 0;
    state.new_toplevel(window(20), 0, &motion());
    assert_eq!(state.cur_workspace, 1);
    assert_eq!(state.workspaces.len(), 3);
    assert_eq!(state.workspaces[1].top_left_window, Some(window(20)));
    assert_eq!(state.workspaces[2].top_left_window, Some(window(8)));
}

#[test]
fn free_slot_is_filled_again() {
    let mut state = manager();
    for id in 0..4 {
        state.new_toplevel(window(id), 0, &motion());
    }
    let effects: Vec<InputEffect<f64>> = close_focussed_window(&mut state, Some(101));
    assert_eq!(
        effects,
        vec![
            InputEffect::SendClose(window(1)),
            InputEffect::Unmap(window(1)),
            InputEffect::SetFocus(None),
        ]
    );
    assert_eq!(
        windows_of(&state.workspaces[0])[..4],
        [Some(0), None, Some(2), Some(3)]
    );
    state.new_toplevel(window(9), 0, &motion());
    assert_eq!(
        windows_of(&state.workspaces[0])[..5],
        [Some(0), Some(9), Some(2), Some(3), None]
    );
}

#[test]
fn any_of_eight_windows_can_be_closed() {
    for closed in 0..8u64 {
        let mut state = manager();
        for id in 0..8 {
            state.new_toplevel(window(id), 0, &motion());
        }
        let effects: Vec<InputEffect<f64>> = close_focussed_window(&mut state, Some(100 + closed));
        assert_eq!(effects.len(), 3);
        let expected: Vec<Option<u64>> =
            (0..8).map(|id| if id == closed { None } else { Some(id) }).collect();
        assert_eq!(windows_of(&state.workspaces[0]), expected);
        let again: Vec<InputEffect<f64>> = close_focussed_window(&mut state, Some(100 + closed));
        assert!(again.is_empty());
    }
}

#[test]
fn closing_undoes_opening() {
    let mut state = manager();
    state.new_toplevel(window(1), 0, &motion());
    let before = windows_of(&state.workspaces[0]);
    state.new_toplevel(window(2), 0, &motion());
    let _: Vec<InputEffect<f64>> = close_focussed_window(&mut state, Some(102));
    assert_eq!(windows_of(&state.workspaces[0]), before);
}

#[test]
fn nothing_is_closed_without_focus() {
    let mut state = manager();
    state.new_toplevel(window(1), 0, &motion());
    let effects: Vec<InputEffect<f64>> = close_focussed_window(&mut state, None);
    assert!(effects.is_empty());
    let effects: Vec<InputEffect<f64>> = close_focussed_window(&mut state, Some(7));
    assert!(effects.is_empty());
    assert_eq!(state.workspaces[0].top_left_window, Some(window(1)));
    assert!(is_focussed_window(&Some(window(1)), 101));
    assert!(!is_focussed_window(&Some(window(1)), 1));
    assert!(!is_focussed_window(&None, 101));
}

#[test]
fn focus_starts_an_animation() {
    let mut state = manager();
    state.focus_in_direction(WindowPosition::Top, 5, &motion());
    assert_eq!(state.cur_workspace_focussed_window, WindowPosition::Top);
    let WorkspaceState::Animating(info) = state.cur_workspace_state else {
        panic!("not animated");
    };
    assert_eq!(info.start_time, 5);
    assert_eq!(info.start_info.left_window.progress, 0.0);
    assert_eq!(info.start_info.top_window.progress, 1.0);
}

#[test]
fn focus_during_an_animation_starts_where_the_windows_are() {
    let mut state = manager();
    state.focus_in_direction(WindowPosition::Top, 0, &motion());
    let shown = areas_at(
        &state.cur_workspace_state,
        state.cur_workspace_focussed_window,
        AREA,
        75_000_000,
        &motion(),
    );
    state.focus_in_direction(WindowPosition::Right, 75_000_000, &motion());
    let WorkspaceState::Animating(info) = state.cur_workspace_state else {
        panic!("not animated");
    };
    assert_eq!(info.start_time, 75_000_000);
    assert_eq!(info.start_info.left_window.progress, 0.25);
    assert_eq!(info.start_info.top_window.progress, 0.75);
    assert_eq!(info.start_info.left_window.progress, shown.0.left_window.progress);
    assert_eq!(info.start_info.top_window.progress, shown.0.top_window.progress);
    assert!(!shown.1);
    // The first frame of the new animation shows the windows in the same places.
    let first = areas_at(
        &state.cur_workspace_state,
        WindowPosition::Right,
        AREA,
        75_000_000,
        &motion(),
    );
    assert_eq!(first.0.left_window.progress, 0.25);
    assert_eq!(first.0.right_window.progress, 1.0);
}

#[test]
fn focus_waits_for_a_gesture() {
    let mut state = manager();
    state.cur_workspace_state = WorkspaceState::Grabbed(logical(1.0, 2.0));
    state.focus_in_direction(WindowPosition::Top, 5, &motion());
    assert_eq!(state.cur_workspace_focussed_window, WindowPosition::Left);
    assert!(matches!(state.cur_workspace_state, WorkspaceState::Grabbed(_)));
    // A window that opens meanwhile takes its slot, but not the focus.
    state.new_toplevel(window(1), 5, &motion());
    assert_eq!(state.workspaces[0].top_left_window, Some(window(1)));
    assert_eq!(state.cur_workspace_focussed_window, WindowPosition::Left);
}

#[test]
fn windows_are_moved_frame_by_frame() {
    let mut state = manager();
    state.workspaces[0].replace(WindowPosition::Left, Some(window(1)));
    state.workspaces[0].replace(WindowPosition::Right, Some(window(2)));
    state.focus_in_direction(WindowPosition::Right, 0, &motion());
    let outputs = vec![output()];
    let fitting = Rectangle { loc: logical(0, 0), size: AREA.size };
    let geometries = WorkspaceAreas {
        top_left_window: fitting,
        top_window: fitting,
        top_right_window: fitting,
        right_window: fitting,
        bottom_right_window: fitting,
        bottom_window: fitting,
        bottom_left_window: fitting,
        left_window: fitting,
    };
    let shown = |left: i32, right: i32| {
        vec![
            WindowEffect::UnmapAll,
            WindowEffect::Show { window: window(1), at: Point { x: left, y: 50 } },
            WindowEffect::Show { window: window(2), at: Point { x: right, y: 50 } },
        ]
    };
    let frame = |state: &mut Manager, now: u128| {
        state.update_workspace_position(&outputs, &geometries, now, &motion(), &place)
    };
    assert_eq!(frame(&mut state, 0), shown(50, 150));
    assert_eq!(frame(&mut state, 150_000_000), shown(0, 100));
    assert!(matches!(state.cur_workspace_state, WorkspaceState::Animating(_)));
    let none = state.update_workspace_position(
        &Vec::new(),
        &geometries,
        300_000_000,
        &motion(),
        &place,
    );
    assert!(none.is_empty());
    assert!(matches!(state.cur_workspace_state, WorkspaceState::Animating(_)));
    assert_eq!(frame(&mut state, 300_000_000), shown(-50, 50));
    assert!(matches!(state.cur_workspace_state, WorkspaceState::Normal));
    // Windows at rest stay.
    assert_eq!(frame(&mut state, 400_000_000), shown(-50, 50));
    assert_eq!(frame(&mut state, 9_400_000_000), shown(-50, 50));
}

#[test]
fn held_windows_follow_the_gesture() {
    let state = WorkspaceState::Grabbed(logical(150.0, 50.0));
    let (areas, finished) = areas_at(&state, WindowPosition::Left, AREA, 0, &motion());
    assert!(!finished);
    assert_eq!(areas.right_window.progress, 0.0);
    assert_eq!(areas.left_window.progress, 1.0);
}

#[test]
fn animation_that_is_over_is_told() {
    let state = WorkspaceState::Animating(AnimationInfo {
        start_time: 0,
        start_info: WindowAreas::<f64>::from_position(
            WindowPosition::Left,
            &Ends { zero: 0.0, one: 1.0 },
        ),
    });
    let (_, finished) = areas_at(&state, WindowPosition::Top, AREA, 299_999_999, &motion());
    assert!(!finished);
    let (_, finished) = areas_at(&state, WindowPosition::Top, AREA, 300_000_000, &motion());
    assert!(finished);
    let (_, finished) =
        areas_at(&WorkspaceState::Normal, WindowPosition::Top, AREA, 0, &motion());
    assert!(!finished);
}

#[test]
fn commit_configures_a_window_once() {
    let windows = vec![window(1), window(2), Window { id: 3, surface: 102 }];
    assert_eq!(window_of(&windows, 102), Some(1));
    assert_eq!(window_of(&windows, 1), None);
    assert_eq!(handle_commit(&windows, 102, &|_| false), Some(window(2)));
    assert_eq!(handle_commit(&windows, 102, &|_| true), None);
    assert_eq!(handle_commit(&windows, 7, &|_| panic!("no such surface")), None);
}

#[test]
fn commit_configures_a_popup_once() {
    let popup = |initial_configure_sent| Some(PopupKind::Xdg { initial_configure_sent });
    assert!(configures_popup(&popup(false)));
    assert!(!configures_popup(&popup(true)));
    assert!(!configures_popup(&Some(PopupKind::InputMethod)));
    assert!(!configures_popup(&None));
}

#[test]
fn popups_stay_within_the_first_output() {
    let outputs = vec![output()];
    let windows = vec![window(1), window(2)];
    let corners = vec![logical(5, 6), logical(10, 20)];
    assert_eq!(
        unconstrain_popup(&outputs, &windows, &corners, Some(102), logical(3, -4)),
        Some(Rectangle { loc: logical(-13, -16), size: Size { w: 190, h: 290 } })
    );
    assert_eq!(unconstrain_popup(&outputs, &windows, &corners, Some(9), logical(0, 0)), None);
    assert_eq!(unconstrain_popup(&Vec::new(), &windows, &corners, None, logical(0, 0)), None);
    assert_eq!(
        unconstrain_popup(&Vec::new(), &Vec::new(), &Vec::new(), Some(1), logical(0, 0)),
        None
    );
}

#[test]
fn workspace_without_windows() {
    assert_eq!(windows_of(&empty_workspace()), vec![None; 8]);
}

#[test]
fn change_of_sides_leaves_no_gap() {
    let outputs = vec![output()];
    let nowhere = Rectangle { loc: logical(-1, -1), size: Size { w: 0, h: 0 } };
    let geometries = WorkspaceAreas {
        top_left_window: nowhere,
        top_window: nowhere,
        top_right_window: nowhere,
        right_window: nowhere,
        bottom_right_window: nowhere,
        bottom_window: nowhere,
        bottom_left_window: nowhere,
        left_window: nowhere,
    };
    for elapsed in 0..2_500u128 {
        let mut state = manager();
        state.workspaces[0].replace(WindowPosition::Left, Some(window(1)));
        state.workspaces[0].replace(WindowPosition::Right, Some(window(2)));
        state.focus_in_direction(WindowPosition::Right, 0, &motion());
        let effects = state.update_workspace_position(
            &outputs,
            &geometries,
            elapsed * 1_000_000,
            &motion(),
            &place,
        );
        let corner = |wanted: Window| {
            let shown = effects.iter().find_map(|effect| match effect {
                WindowEffect::Show { window, at } if *window == wanted => Some(*at),
                _ => None,
            });
            shown.unwrap()
        };
        let (left, right) = (corner(window(1)), corner(window(2)));
        assert!((right.x - left.x - 100).abs() <= 1);
        assert_eq!((left.y, right.y), (50, 50));
    }
}

#[test]
fn clock_is_not_read_without_a_main_area() {
    let mut state = manager();
    let start_info = WindowAreas::<f64>::from_position(WindowPosition::Left, &motion().ends);
    state.cur_workspace_state = WorkspaceState::Animating(AnimationInfo { start_time: 9, start_info });
    let nowhere = Rectangle { loc: logical(0, 0), size: Size { w: 0, h: 0 } };
    let geometries = WorkspaceAreas {
        top_left_window: nowhere,
        top_window: nowhere,
        top_right_window: nowhere,
        right_window: nowhere,
        bottom_right_window: nowhere,
        bottom_window: nowhere,
        bottom_left_window: nowhere,
        left_window: nowhere,
    };
    let effects =
        state.update_workspace_position(&Vec::new(), &geometries, 5, &motion(), &place);
    assert_eq!(effects, vec![]);
    assert!(matches!(state.cur_workspace_state, WorkspaceState::Animating(_)));
}
