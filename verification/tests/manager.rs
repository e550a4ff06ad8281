use smallvil::cursor::{CursorImageStatus, DndIcon, DEFAULT_ICON};
use smallvil::extra_state::WindowPosition;
use smallvil::geometry::{Point, Rectangle, Size};
use smallvil::outputs::Output;
use smallvil::placement::Window;
use smallvil::state::{
    get_pos_and_velocity, take_presentation_feedback, AnimationInfo, Element, RepaintEffect,
    ScanoutTarget, Smallvil, WorkspaceState, ANIMATION_MS,
};
use smallvil::udev::UdevData;
use smallvil::winit::{mode_of, window_output, Mode, WinitAction, WinitEvent};

type Manager = Smallvil<WorkspaceState<f64>>;

fn output(x: i32, w: i32, h: i32) -> Output {
    Output {
        geometry: Some(Rectangle { loc: Point { x, y: 0 }, size: Size { w, h } }),
        udev: None,
        frame_duration: None,
        refresh: None,
    }
}

fn rest_at(area: Rectangle<i32>, slot: WindowPosition) -> Point<f64> {
    let x = match slot {
        WindowPosition::Left => -f64::from(area.size.w),
        WindowPosition::Right => f64::from(area.size.w),
        _ => 0.0,
    };
    Point { x, y: 0.0 }
}

fn mix(millis: u32, start: Point<f64>, end: Point<f64>) -> Point<f64> {
    let progress = f64::from(millis) / f64::from(ANIMATION_MS);
    Point {
        x: start.x * (1.0 - progress) + end.x * progress,
        y: start.y * (1.0 - progress) + end.y * progress,
    }
}

fn window(id: u64) -> Window {
    Window { id, surface: 100 + id }
}

#[test]
fn new_manager_is_empty() {
    let state: Manager = Smallvil::new(None, None);
    assert_eq!(state.cur_workspace, 0);
    assert!(matches!(
        state.cur_workspace_state,
        WorkspaceState::WindowFocussed(WindowPosition::Left)
    ));
    assert_eq!(state.cur_monitor, 0);
    assert_eq!(state.workspaces.len(), 1);
    assert!(state.workspaces[0].top_left_window.is_none());
    assert_eq!(state.seat_name, "winit");
    assert!(state.running);
    assert_eq!(state.cursor_status, CursorImageStatus::Named(DEFAULT_ICON));
    assert!(state.dnd_icon.is_none());
    assert!(state.backend_data.is_none());
}

#[test]
fn seat_is_that_of_the_session() {
    let devices = UdevData {
        primary_gpu: 3,
        backends: Default::default(),
        pointer_images: Vec::new(),
    };
    let state: Manager = Smallvil::new(Some(String::from("seat0")), Some(devices));
    assert_eq!(state.seat_name, "seat0");
    assert_eq!(state.backend_data.unwrap().primary_gpu, 3);
}

#[test]
fn main_area_keeps_its_margins() {
    let mut state: Manager = Smallvil::new(None, None);
    let outputs = vec![output(0, 1920, 1080), output(1920, 90, 120)];
    assert_eq!(
        state.main_window_area(&outputs),
        Some(Rectangle { loc: Point { x: 50, y: 50 }, size: Size { w: 1820, h: 980 } })
    );
    state.cur_monitor = 1;
    assert_eq!(
        state.main_window_area(&outputs),
        Some(Rectangle { loc: Point { x: 1970, y: 50 }, size: Size { w: 0, h: 20 } })
    );
    state.cur_monitor = 2;
    assert_eq!(state.main_window_area(&outputs), None);
    state.cur_monitor = 0;
    let unmapped = vec![Output { geometry: None, ..output(0, 1, 1) }];
    assert_eq!(state.main_window_area(&unmapped), None);
}

#[test]
fn monitor_follows_the_pointer() {
    let mut state: Manager = Smallvil::new(None, None);
    let outputs = vec![output(0, 1920, 1080), output(1920, 1280, 720)];
    state.update_cur_monitor(&outputs, Point { x: 2000, y: 10 });
    assert_eq!(state.cur_monitor, 1);
    state.update_cur_monitor(&outputs, Point { x: 9000, y: 10 });
    assert_eq!(state.cur_monitor, 1);
    state.update_cur_monitor(&outputs, Point { x: 1919, y: 10 });
    assert_eq!(state.cur_monitor, 0);
}

#[test]
fn position_of_a_focussed_workspace() {
    let mut state: Manager = Smallvil::new(None, None);
    let outputs = vec![output(0, 300, 200)];
    let pos = state.get_pos(&outputs, 0, 10.0, &rest_at, &mix).unwrap();
    assert_eq!((pos.x, pos.y), (-200.0, 0.0));
    assert!(state.get_pos(&Vec::new(), 0, 10.0, &rest_at, &mix).is_none());
}

#[test]
fn position_of_an_animated_workspace() {
    let mut state: Manager = Smallvil::new(None, None);
    let outputs = vec![output(0, 300, 200)];
    let info = AnimationInfo {
        start_time: 1_000_000_000,
        start_pos: Point { x: -200.0, y: 0.0 },
        start_velocity: Point { x: 0.0, y: 0.0 },
        end_pos: WindowPosition::Right,
    };
    state.cur_workspace_state = WorkspaceState::Animating(info);
    let pos = state.get_pos(&outputs, 1_075_000_000, 10.0, &rest_at, &mix).unwrap();
    assert_eq!(pos.x, -100.0);
    assert!(matches!(state.cur_workspace_state, WorkspaceState::Animating(_)));
    let area = state.main_window_area(&outputs).unwrap();
    let (pos, velocity, finished) =
        get_pos_and_velocity(&info, area, 1_150_000_000, 10.0, &rest_at, &mix);
    assert_eq!(pos.x, 0.0);
    assert_eq!((velocity.x, velocity.y), (10.0, 10.0));
    assert!(!finished);
    assert!(state.get_pos(&Vec::new(), 1_300_000_000, 10.0, &rest_at, &mix).is_none());
    assert!(matches!(state.cur_workspace_state, WorkspaceState::Animating(_)));
    let pos = state.get_pos(&outputs, 1_300_000_000, 10.0, &rest_at, &mix).unwrap();
    assert_eq!(pos.x, 200.0);
    assert!(matches!(
        state.cur_workspace_state,
        WorkspaceState::WindowFocussed(WindowPosition::Right)
    ));
}

#[test]
fn position_of_a_grabbed_workspace() {
    let mut state: Manager = Smallvil::new(None, None);
    state.cur_workspace_state = WorkspaceState::Grabbed(Point { x: 3.5, y: -4.0 });
    let pos = state.get_pos(&vec![output(0, 300, 200)], 0, 10.0, &rest_at, &mix).unwrap();
    assert_eq!((pos.x, pos.y), (3.5, -4.0));
    assert!(matches!(state.cur_workspace_state, WorkspaceState::Grabbed(_)));
}

#[test]
fn surface_under_the_pointer() {
    let state: Manager = Smallvil::new(None, None);
    let under = |pos: Point<f64>| {
        if pos.x < 100.0 {
            Some((window(1), Point { x: 10, y: 20 }))
        } else {
            None
        }
    };
    let query = |found: Window, location: Point<i32>, pos: Point<f64>| {
        assert_eq!(found, window(1));
        if pos.x - f64::from(location.x) >= 0.0 {
            Some((found.surface, Point { x: 1, y: 2 }))
        } else {
            None
        }
    };
    assert_eq!(
        state.surface_under(Point { x: 50.0, y: 0.0 }, &under, &query),
        Some((101, Point { x: 11, y: 22 }))
    );
    assert_eq!(state.surface_under(Point { x: 5.0, y: 0.0 }, &under, &query), None);
    assert_eq!(state.surface_under(Point { x: 150.0, y: 0.0 }, &under, &query), None);
}

#[test]
fn what_is_done_after_a_repaint() {
    let mut state: Manager = Smallvil::new(None, None);
    let elements = vec![
        Element { window: window(1), outputs: vec![7, 8] },
        Element { window: window(2), outputs: vec![] },
        Element { window: window(3), outputs: vec![8] },
    ];
    assert_eq!(take_presentation_feedback(&elements, 8), vec![window(1), window(3)]);
    assert_eq!(take_presentation_feedback(&elements, 9), vec![]);
    assert_eq!(
        state.post_repaint(&elements, 8, false),
        vec![
            RepaintEffect::UpdateScanout(ScanoutTarget::Window(window(1))),
            RepaintEffect::UpdateScanout(ScanoutTarget::Window(window(2))),
            RepaintEffect::UpdateScanout(ScanoutTarget::Window(window(3))),
            RepaintEffect::SendFrame(window(1)),
            RepaintEffect::SendFrame(window(3)),
        ]
    );
    state.cursor_image(CursorImageStatus::Surface(40));
    state.started(Some(50), Point { x: 3, y: -4 });
    assert_eq!(
        state.post_repaint(&elements, 7, true),
        vec![
            RepaintEffect::UpdateScanout(ScanoutTarget::Window(window(1))),
            RepaintEffect::UpdateScanout(ScanoutTarget::Window(window(2))),
            RepaintEffect::UpdateScanout(ScanoutTarget::Window(window(3))),
            RepaintEffect::UpdateScanout(ScanoutTarget::Surface(40)),
            RepaintEffect::UpdateScanout(ScanoutTarget::Surface(50)),
            RepaintEffect::SendFrame(window(1)),
            RepaintEffect::SendDmabufFeedback(window(1)),
        ]
    );
}

#[test]
fn drags_start_and_end() {
    let mut state: Manager = Smallvil::new(None, None);
    state.started(Some(5), Point { x: 3, y: 4 });
    assert_eq!(state.dnd_icon, Some(DndIcon { surface: 5, offset: Point { x: 0, y: 0 } }));
    state.cursor_image(CursorImageStatus::Surface(9));
    state.started(Some(5), Point { x: 3, y: -4 });
    assert_eq!(state.dnd_icon, Some(DndIcon { surface: 5, offset: Point { x: -3, y: 4 } }));
    state.started(None, Point { x: 3, y: 4 });
    assert_eq!(state.dnd_icon, None);
    state.started(Some(6), Point { x: 0, y: 0 });
    state.dropped();
    assert_eq!(state.dnd_icon, None);
}

#[test]
fn window_as_an_output() {
    let size = Size { w: 640, h: 480 };
    let output = window_output(size);
    assert_eq!(output.name, "winit");
    assert_eq!((output.make.as_str(), output.model.as_str()), ("Smithay", "Winit"));
    assert_eq!(output.physical_size, (0, 0));
    assert_eq!(output.mode, Mode { size, refresh: 60_000 });
    assert_eq!(output.position, Point { x: 0, y: 0 });
}

#[test]
fn window_events() {
    let mut state: Manager = Smallvil::new(None, None);
    let size = Size { w: 640, h: 480 };
    assert_eq!(mode_of(size), Mode { size, refresh: 60_000 });
    assert_eq!(
        state.handle_winit_event(WinitEvent::Resized(size)),
        vec![WinitAction::ChangeMode(Mode { size, refresh: 60_000 })]
    );
    assert_eq!(state.handle_winit_event(WinitEvent::Input), vec![WinitAction::ProcessInput]);
    assert_eq!(
        state.handle_winit_event(WinitEvent::Redraw),
        vec![
            WinitAction::UpdateWorkspacePosition,
            WinitAction::Render,
            WinitAction::Submit,
            WinitAction::SendFrames,
            WinitAction::RefreshSpace,
            WinitAction::CleanupPopups,
            WinitAction::FlushClients,
            WinitAction::RequestRedraw,
        ]
    );
    assert_eq!(state.handle_winit_event(WinitEvent::Other), vec![]);
    assert!(state.running);
    assert_eq!(
        state.handle_winit_event(WinitEvent::CloseRequested),
        vec![WinitAction::StopLoop]
    );
    assert!(!state.running);
    state.handle_winit_event(WinitEvent::Redraw);
    assert!(!state.running);
}
