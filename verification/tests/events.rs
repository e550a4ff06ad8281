use smallvil::extra_state::{
    Ends, ProgressAndVelocity, WindowPosition, WorkspaceAreas, WorkspaceState,
};
use smallvil::geometry::{logical, Point, Rectangle, Size};
use smallvil::input::{handle_key_action, Action, FilterResult, InputEvent};
use smallvil::motion::Motion;
use smallvil::outputs::Output;
use smallvil::placement::Window;
use smallvil::pointer::{press_button, Axis, AxisAmount, AxisEntry, InputEffect, Pointing};
use smallvil::state::{Smallvil, ANIMATION_MS};
use smallvil::udev::UdevData;

type Manager = Smallvil<WorkspaceState<f64>>;
type Less = fn(f64, f64) -> bool;
type Complement = fn(f64) -> f64;
type Distances = fn(Rectangle<i32>, Point<f64>) -> WorkspaceAreas<f64>;
type Blend =
    fn(u32, ProgressAndVelocity<f64>, ProgressAndVelocity<f64>) -> ProgressAndVelocity<f64>;
type Clamp = fn(f64, i32) -> f64;
type Truncate = fn(f64) -> i32;
type Round = fn(Point<f64>) -> Point<i32>;
type Transformed = fn(i32, i32) -> Point<f64>;
type FromParts = fn(f64) -> f64;
type IsZero = fn(f64) -> bool;
type Drag = fn(Point<f64>, Point<f64>) -> Point<f64>;

fn less(a: f64, b: f64) -> bool {
    a < b
}

fn complement(a: f64) -> f64 {
    1.0 - a
}

fn distances_at(area: Rectangle<i32>, moved: Point<f64>) -> WorkspaceAreas<f64> {
    let p = Point {
        x: (moved.x - f64::from(area.loc.x)) / f64::from(area.size.w + 10),
        y: (moved.y - f64::from(area.loc.y)) / f64::from(area.size.h + 10),
    };
    let n = f64::sqrt(0.5);
    let distance = |x: f64, y: f64| ((x - p.x) * (x - p.x) + (y - p.y) * (y - p.y)).sqrt();
    WorkspaceAreas {
        top_left_window: distance(-n, -n),
        top_window: distance(0.0, -1.0),
        top_right_window: distance(n, -n),
        right_window: distance(1.0, 0.0),
        bottom_right_window: distance(n, n),
        bottom_window: distance(0.0, 1.0),
        bottom_left_window: distance(-n, n),
        left_window: distance(-1.0, 0.0),
    }
}

fn blend(
    millis: u32,
    start: ProgressAndVelocity<f64>,
    end: ProgressAndVelocity<f64>,
) -> ProgressAndVelocity<f64> {
    let progress = f64::from(millis) / f64::from(ANIMATION_MS);
    ProgressAndVelocity {
        progress: start.progress * (1.0 - progress).max(0.0) + end.progress * progress,
        velocity: 10.0,
    }
}

fn motion() -> Motion<f64, Less, Complement, Distances, Blend> {
    Motion { ends: Ends { zero: 0.0, one: 1.0 }, less, complement, distances_at, blend }
}

fn clamp(value: f64, bound: i32) -> f64 {
    value.clamp(0.0, bound as f64)
}

fn truncate(value: f64) -> i32 {
    value as i32
}

fn round(point: Point<f64>) -> Point<i32> {
    Point { x: point.x.round() as i32, y: point.y.round() as i32 }
}

// An absolute device whose pointer is at three quarters of its width and in the middle of its
// height.
fn transformed(width: i32, height: i32) -> Point<f64> {
    Point { x: f64::from(width) * 0.75, y: f64::from(height) * 0.5 }
}

fn from_v120(parts: f64) -> f64 {
    parts * 15.0 / 120.0
}

fn is_zero(value: f64) -> bool {
    value == 0.0
}

fn drag(at: Point<f64>, delta: Point<f64>) -> Point<f64> {
    Point { x: at.x - delta.x * 3.0, y: at.y - delta.y * 3.0 }
}

fn pointing() -> Pointing<Clamp, Truncate, Round, Transformed, FromParts, IsZero, Drag> {
    Pointing { clamp, truncate, round, transformed, from_v120, is_zero, drag }
}

fn manager() -> Manager {
    Smallvil::in_motion(WorkspaceState::Normal, None, None)
}

fn window(id: u64) -> Window {
    Window { id, surface: 100 + id }
}

fn output(x: i32, w: i32, h: i32) -> Output {
    Output {
        geometry: Some(Rectangle { loc: Point { x, y: 0 }, size: Size { w, h } }),
        udev: None,
        frame_duration: None,
        refresh: None,
    }
}

fn outputs() -> Vec<Output> {
    vec![output(0, 190, 290), output(190, 400, 600)]
}

fn send(state: &mut Manager, event: InputEvent<f64>) -> Vec<InputEffect<f64>> {
    state.process_input_event(event, &outputs(), Some(101), 1_000, &motion(), &pointing())
}

fn intercepted(action: Action) -> InputEvent<f64> {
    InputEvent::Keyboard(Some(FilterResult::Intercept(action)))
}

#[test]
fn keys_without_binding_go_to_the_client() {
    let mut state = manager();
    let effects = send(&mut state, InputEvent::Keyboard(Some(FilterResult::Forward)));
    assert_eq!(effects, vec![InputEffect::ForwardKey]);
    assert_eq!(send(&mut state, InputEvent::Keyboard(None)), vec![]);
    assert_eq!(send(&mut state, InputEvent::Other), vec![]);
}

#[test]
fn keys_start_programs() {
    let mut state = manager();
    let effects = send(&mut state, intercepted(Action::SpawnCommand("firefox")));
    assert_eq!(effects, vec![InputEffect::Spawn("firefox")]);
}

#[test]
fn quitting_ends_the_compositor() {
    let mut state = manager();
    assert!(state.running);
    send(&mut state, InputEvent::GestureSwipeBegin);
    assert!(state.running);
    assert_eq!(send(&mut state, intercepted(Action::Quit)), vec![InputEffect::StopLoop]);
    assert!(!state.running);
    send(&mut state, InputEvent::Other);
    assert!(!state.running);
}

#[test]
fn terminals_are_switched_only_with_a_session() {
    let mut state = manager();
    assert_eq!(send(&mut state, intercepted(Action::VtSwitch(3))), vec![]);
    let devices =
        UdevData { primary_gpu: 0, backends: Default::default(), pointer_images: Vec::new() };
    let mut state: Manager = Smallvil::in_motion(WorkspaceState::Normal, None, Some(devices));
    assert_eq!(
        send(&mut state, intercepted(Action::VtSwitch(3))),
        vec![InputEffect::ChangeVt(3)]
    );
}

#[test]
fn focussed_window_is_closed() {
    let mut state = manager();
    state.workspaces[0].replace(WindowPosition::BottomLeft, Some(window(1)));
    assert_eq!(
        send(&mut state, intercepted(Action::CloseFocussedWindow)),
        vec![
            InputEffect::SendClose(window(1)),
            InputEffect::Unmap(window(1)),
            InputEffect::SetFocus(None),
        ]
    );
    assert_eq!(state.workspaces[0].bottom_left_window, None);
    let none = handle_key_action(&mut state, Action::CloseFocussedWindow, None, 0, &motion());
    assert!(none.is_empty());
}

#[test]
fn keys_move_the_focus() {
    let mut state = manager();
    let effects = send(&mut state, intercepted(Action::FocusInDirection(WindowPosition::Top)));
    assert!(effects.is_empty());
    assert_eq!(state.cur_workspace_focussed_window, WindowPosition::Top);
    assert!(matches!(
        state.cur_workspace_state,
        WorkspaceState::Animating(info) if info.start_time == 1_000
    ));
}

#[test]
fn pointer_moves() {
    let mut state = manager();
    let effects = send(&mut state, InputEvent::PointerMotion(logical(200.0, 900.0)));
    assert_eq!(
        effects,
        vec![InputEffect::MovePointer(logical(200.0, 600.0)), InputEffect::Frame]
    );
    // The pointer is on the edge below the output, and the current one stays.
    assert_eq!(state.cur_monitor, 0);
    send(&mut state, InputEvent::PointerMotion(logical(200.0, 500.0)));
    assert_eq!(state.cur_monitor, 1);
    send(&mut state, InputEvent::PointerMotion(logical(-9.0, 5.0)));
    assert_eq!(state.cur_monitor, 0);
}

#[test]
fn pointer_moves_to_an_absolute_place() {
    let mut state = manager();
    let effects = send(&mut state, InputEvent::PointerMotionAbsolute);
    assert_eq!(
        effects,
        vec![InputEffect::MovePointer(logical(442.5, 300.0)), InputEffect::Frame]
    );
    assert_eq!(state.cur_monitor, 1);
}

#[test]
fn pointer_moves_without_outputs() {
    let mut state = manager();
    let effects = state.process_input_event(
        InputEvent::PointerMotion(logical(-5.0, 7.0)),
        &Vec::new(),
        None,
        0,
        &motion(),
        &pointing(),
    );
    assert_eq!(
        effects,
        vec![InputEffect::MovePointer(logical(-5.0, 7.0)), InputEffect::Frame]
    );
}

#[test]
fn button_focusses_a_window() {
    let mut state = manager();
    let press = |pressed: bool, grabbed: bool, under: Option<Window>| InputEvent::PointerButton {
        pressed,
        grabbed,
        under,
    };
    assert_eq!(
        send(&mut state, press(true, false, Some(window(4)))),
        vec![
            InputEffect::Raise(window(4)),
            InputEffect::SetFocus(Some(104)),
            InputEffect::ConfigureAll,
            InputEffect::PressButton,
            InputEffect::Frame,
        ]
    );
    assert_eq!(
        send(&mut state, press(true, false, None)),
        vec![
            InputEffect::DeactivateAll,
            InputEffect::SetFocus(None),
            InputEffect::PressButton,
            InputEffect::Frame,
        ]
    );
    let only_button = vec![InputEffect::PressButton, InputEffect::Frame];
    assert_eq!(send(&mut state, press(true, true, Some(window(4)))), only_button);
    assert_eq!(send(&mut state, press(false, false, Some(window(4)))), only_button);
    let released: Vec<InputEffect<f64>> = press_button(false, true, &None);
    assert_eq!(released, only_button);
}

#[test]
fn scroll_by_wheel() {
    let mut state = manager();
    let event = InputEvent::PointerAxis {
        finger: false,
        horizontal: AxisAmount { amount: None, v120: None },
        vertical: AxisAmount { amount: None, v120: Some(-120.0) },
    };
    assert_eq!(
        send(&mut state, event),
        vec![
            InputEffect::Scroll(vec![
                AxisEntry::Value(Axis::Vertical, -15.0),
                AxisEntry::V120(Axis::Vertical, -120),
            ]),
            InputEffect::Frame,
        ]
    );
}

#[test]
fn scroll_in_both_directions() {
    let entries = pointing().scroll_entries(
        false,
        &AxisAmount { amount: Some(2.5), v120: Some(60.0) },
        &AxisAmount { amount: Some(-1.5), v120: None },
        0.0,
    );
    assert_eq!(
        entries,
        vec![
            AxisEntry::Value(Axis::Horizontal, 2.5),
            AxisEntry::V120(Axis::Horizontal, 60),
            AxisEntry::Value(Axis::Vertical, -1.5),
        ]
    );
}

#[test]
fn scroll_by_finger_ends() {
    let ended = AxisAmount { amount: Some(0.0), v120: None };
    let silent = AxisAmount { amount: None, v120: None };
    let moving = AxisAmount { amount: Some(4.0), v120: None };
    assert_eq!(
        pointing().scroll_entries(true, &ended, &ended, 0.0),
        vec![AxisEntry::Stop(Axis::Horizontal), AxisEntry::Stop(Axis::Vertical)]
    );
    assert_eq!(
        pointing().scroll_entries(true, &ended, &moving, 0.0),
        vec![AxisEntry::Value(Axis::Vertical, 4.0), AxisEntry::Stop(Axis::Horizontal)]
    );
    assert_eq!(pointing().scroll_entries(true, &silent, &silent, 0.0), vec![]);
    assert_eq!(pointing().scroll_entries(false, &ended, &ended, 0.0), vec![]);
}

#[test]
fn gesture_to_the_right() {
    let mut state = manager();
    send(&mut state, InputEvent::GestureSwipeBegin);
    assert!(matches!(
        state.cur_workspace_state,
        WorkspaceState::Grabbed(at) if at.x == 0.0 && at.y == 0.0
    ));
    send(&mut state, InputEvent::GestureSwipeUpdate(logical(-40.0, -10.0)));
    assert!(matches!(
        state.cur_workspace_state,
        WorkspaceState::Grabbed(at) if at.x == 120.0 && at.y == 30.0
    ));
    send(&mut state, InputEvent::GestureSwipeUpdate(logical(-10.0, -5.0)));
    // The gesture has come to the place of the window on the right.
    send(&mut state, InputEvent::GestureSwipeEnd);
    let WorkspaceState::Animating(info) = state.cur_workspace_state else {
        panic!("not animated");
    };
    assert_eq!(info.start_time, 1_000);
    assert_eq!(state.cur_workspace_focussed_window, WindowPosition::Right);
    let right = info.start_info.right_window.progress;
    assert!(right < 0.05);
    assert_eq!(info.start_info.left_window.progress, 1.0 - right);
    // No window was closer.
    for other in [
        info.start_info.top_window,
        info.start_info.bottom_window,
        info.start_info.top_right_window,
        info.start_info.bottom_right_window,
        info.start_info.left_window,
    ] {
        assert!(other.progress >= right);
    }
}

#[test]
fn gesture_events_without_a_gesture() {
    let mut state = manager();
    send(&mut state, InputEvent::GestureSwipeUpdate(logical(5.0, 5.0)));
    assert!(matches!(state.cur_workspace_state, WorkspaceState::Normal));
    send(&mut state, InputEvent::GestureSwipeEnd);
    assert!(matches!(state.cur_workspace_state, WorkspaceState::Normal));
    assert_eq!(state.cur_workspace_focussed_window, WindowPosition::Left);
}

#[test]
fn gesture_ends_only_with_a_main_area() {
    let mut state = manager();
    state.on_gesture_swipe_begin(0.0);
    state.on_gesture_swipe_end(&Vec::new(), 0, &motion());
    assert!(matches!(state.cur_workspace_state, WorkspaceState::Grabbed(_)));
}

#[test]
fn other_events_leave_held_windows() {
    let mut state = manager();
    send(&mut state, InputEvent::GestureSwipeBegin);
    send(&mut state, InputEvent::GestureSwipeUpdate(logical(1.0, 2.0)));
    send(&mut state, intercepted(Action::FocusInDirection(WindowPosition::Top)));
    send(&mut state, InputEvent::PointerMotion(logical(3.0, 4.0)));
    assert!(matches!(
        state.cur_workspace_state,
        WorkspaceState::Grabbed(at) if at.x == -3.0 && at.y == -6.0
    ));
    assert_eq!(state.cur_workspace_focussed_window, WindowPosition::Left);
}

#[test]
fn clock_is_read_only_when_the_focus_moves() {
    let mut state = manager();
    send(&mut state, intercepted(Action::FocusInDirection(WindowPosition::Top)));
    let earlier = |state: &mut Manager, event: InputEvent<f64>| {
        state.process_input_event(event, &outputs(), Some(101), 500, &motion(), &pointing())
    };
    let spawned = earlier(&mut state, intercepted(Action::SpawnCommand("firefox")));
    assert_eq!(spawned, vec![InputEffect::Spawn("firefox")]);
    assert_eq!(earlier(&mut state, InputEvent::Other), vec![]);
    assert!(matches!(
        state.cur_workspace_state,
        WorkspaceState::Animating(info) if info.start_time == 1_000
    ));
    assert_eq!(earlier(&mut state, InputEvent::GestureSwipeBegin), vec![]);
    assert_eq!(earlier(&mut state, InputEvent::GestureSwipeEnd), vec![]);
    assert!(matches!(
        state.cur_workspace_state,
        WorkspaceState::Animating(info) if info.start_time == 500
    ));
}
