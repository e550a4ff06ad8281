use smallvil::cursor::{
    custom_elements, drag_offset, remember_frame, CursorFrame, CursorImageStatus, CustomElement,
    DndIcon, DEFAULT_ICON,
};
use smallvil::extra_state::WorkspaceState;
use smallvil::frames::{DrmEventMetadata, DrmEventTime, FrameMode};
use smallvil::geometry::{logical, Point, Rectangle, Size};
use smallvil::outputs::{Output, UdevOutputId};
use smallvil::placement::Window;
use smallvil::state::{Element, Smallvil};
use smallvil::udev::{
    is_non_desktop, output_elements, output_name, output_of, physical_length, pick_render_node,
    preferred_mode, queue_drawn, AllocatorSource, ConnectorInfo, ConnectorPlan, DeviceAddError,
    Disconnected, DmabufImport, DrawnEffect, EglInfo, FrameFinish, FrameStep, RenderTarget,
    ScanAction, ScanEvent, SurfaceData, UdevData,
};

const PRIMARY: u64 = 1;

fn devices() -> UdevData {
    UdevData { primary_gpu: PRIMARY, backends: Default::default(), pointer_images: Vec::new() }
}

fn driven(device_id: u64, crtc: u32, frame_duration: Option<u128>) -> Output {
    Output {
        geometry: Some(Rectangle { loc: logical(0, 0), size: Size { w: 800, h: 600 } }),
        udev: Some(UdevOutputId { device_id, crtc }),
        frame_duration,
        refresh: Some(60_000),
    }
}

fn connector() -> ConnectorInfo {
    ConnectorInfo {
        handle: 77,
        interface: String::from("HDMI-A"),
        interface_id: 12,
        properties: vec![(String::from("link-status"), None), (String::from("non-desktop"), Some(false))],
        preferred_modes: vec![false, true, true],
        size: Some((600, 340)),
    }
}

fn headset() -> ConnectorInfo {
    ConnectorInfo { properties: vec![(String::from("non-desktop"), Some(true))], ..connector() }
}

fn at(time: u128) -> Option<DrmEventMetadata> {
    Some(DrmEventMetadata { time: DrmEventTime::Monotonic(time), sequence: 3 })
}

fn frame(delay: u32) -> CursorFrame {
    CursorFrame {
        size: 24,
        width: 1,
        height: 1,
        xhot: 0,
        yhot: 0,
        delay,
        pixels_rgba: vec![1, 2, 3, 4],
        pixels_argb: vec![4, 1, 2, 3],
    }
}

#[test]
fn errors_in_words() {
    let cause = || String::from("cause");
    let words = |error: DeviceAddError| error.message();
    assert_eq!(
        words(DeviceAddError::DeviceOpen(cause())),
        "Failed to open device using libseat: cause"
    );
    assert_eq!(
        words(DeviceAddError::DrmDevice(cause())),
        "Failed to initialize drm device: cause"
    );
    assert_eq!(
        words(DeviceAddError::GbmDevice(cause())),
        "Failed to initialize gbm device: cause"
    );
    assert_eq!(words(DeviceAddError::DrmNode(cause())), "Failed to access drm node: cause");
    assert_eq!(
        words(DeviceAddError::AddNode(cause())),
        "Failed to add device to GpuManager: cause"
    );
    assert_eq!(words(DeviceAddError::NoRenderNode), "The device has no render node");
    assert_eq!(words(DeviceAddError::PrimaryGpuMissing), "Primary GPU is missing");
}

#[test]
fn node_that_renders() {
    let info = |software, render_node| Ok(EglInfo { software, render_node });
    assert!(matches!(pick_render_node(5, info(false, Some(6))), Ok(6)));
    assert!(matches!(pick_render_node(5, info(false, None)), Ok(5)));
    assert!(matches!(
        pick_render_node(5, info(true, Some(6))),
        Err(DeviceAddError::NoRenderNode)
    ));
    let failed = pick_render_node(5, Err(String::from("no display")));
    assert!(matches!(failed, Err(DeviceAddError::AddNode(cause)) if cause == "no display"));
}

#[test]
fn device_with_renderer_allocates_itself() {
    let plan = devices().plan_device(Ok(9)).unwrap();
    assert_eq!(plan.render_node, Some(9));
    assert_eq!(plan.allocator, AllocatorSource::Own);
    assert_eq!(plan.renderer, 9);
}

#[test]
fn device_without_renderer_borrows() {
    let failure = || Err(DeviceAddError::NoRenderNode);
    let mut state = devices();
    assert!(matches!(state.plan_device(failure()), Err(DeviceAddError::PrimaryGpuMissing)));
    state.device_added(4, Some(8), 0);
    assert!(matches!(state.plan_device(failure()), Err(DeviceAddError::PrimaryGpuMissing)));
    state.device_added(5, Some(PRIMARY), 0);
    let plan = state.plan_device(failure()).unwrap();
    assert_eq!(plan.render_node, None);
    assert_eq!(plan.allocator, AllocatorSource::Backend(5));
    assert_eq!(plan.renderer, PRIMARY);
    state.device_added(PRIMARY, None, 0);
    let plan = state.plan_device(failure()).unwrap();
    assert_eq!(plan.allocator, AllocatorSource::Backend(PRIMARY));
    assert!(matches!(state.allocator_source(Some(3)), Ok(AllocatorSource::Own)));
}

#[test]
fn devices_come_and_go() {
    let mut state = devices();
    state.device_added(4, Some(8), 21);
    assert_eq!(state.renderer_for(4), Some(8));
    state.device_added(5, None, 22);
    assert_eq!(state.renderer_for(5), Some(PRIMARY));
    assert_eq!(state.renderer_for(6), None);
    assert_eq!(state.device_removed(4), Some((Some(8), 21)));
    assert_eq!(state.device_removed(4), None);
    assert_eq!(state.renderer_for(4), None);
    assert_eq!(state.renderer_for(5), Some(PRIMARY));
}

#[test]
fn scan_of_connectors() {
    let mut state = devices();
    let events = vec![
        ScanEvent::Connected { connector: 1, crtc: Some(10) },
        ScanEvent::Connected { connector: 2, crtc: None },
        ScanEvent::Disconnected { connector: 3, crtc: None },
        ScanEvent::Disconnected { connector: 4, crtc: Some(40) },
    ];
    assert_eq!(state.device_changed(4, &Some(events.clone())), vec![]);
    state.device_added(4, None, 0);
    assert_eq!(
        state.device_changed(4, &Some(events)),
        vec![
            ScanAction::Connect { connector: 1, crtc: 10 },
            ScanAction::Disconnect { connector: 4, crtc: 40 },
        ]
    );
    assert_eq!(state.device_changed(4, &None), vec![]);
}

#[test]
fn names_and_modes_of_connectors() {
    assert_eq!(output_name(&connector()), "HDMI-A-12");
    assert_eq!(preferred_mode(&vec![false, true, true]), 1);
    assert_eq!(preferred_mode(&vec![false, false]), 0);
    assert_eq!(physical_length(600), 600);
    assert_eq!(physical_length(u32::MAX), -1);
    assert_eq!(physical_length(0x8000_0000), i32::MIN);
}

#[test]
fn connectors_without_desktop() {
    let named = |name: &str, value| (String::from(name), value);
    assert!(!is_non_desktop(&Vec::new()));
    assert!(is_non_desktop(&vec![named("x", None), named("non-desktop", Some(true))]));
    assert!(!is_non_desktop(&vec![named("non-desktop", Some(false))]));
    assert!(!is_non_desktop(&vec![named("non-desktop", None), named("non-desktop", Some(true))]));
    assert!(!is_non_desktop(&vec![named("Non-Desktop", Some(true))]));
}

#[test]
fn connector_gets_an_output() {
    let mut state = devices();
    let outputs = vec![driven(9, 9, None), driven(9, 8, None)];
    assert!(matches!(
        state.connector_connected(4, &connector(), 40, &outputs),
        ConnectorPlan::UnknownDevice
    ));
    state.device_added(4, Some(8), 0);
    let ConnectorPlan::Output { renderer, name, make, model, mode, physical_size, x, y } =
        state.connector_connected(4, &connector(), 40, &outputs)
    else {
        panic!("no output");
    };
    assert_eq!(renderer, 8);
    assert_eq!(name, "HDMI-A-12");
    assert_eq!(mode, 1);
    assert_eq!(physical_size, (600, 340));
    assert_eq!((x, y), (1600, 0));
    assert_eq!((make.as_str(), model.as_str()), ("Unknown", "Unknown"));
    let unknown_size = ConnectorInfo { size: None, ..connector() };
    assert!(matches!(
        state.connector_connected(4, &unknown_size, 40, &Vec::new()),
        ConnectorPlan::Output { physical_size: (0, 0), x: 0, y: 0, .. }
    ));
    state.surface_added(4, 40, true);
    assert_eq!(
        state.backends[&4].surfaces[&40],
        SurfaceData {
            device_id: 4,
            render_node: Some(8),
            disable_direct_scanout: true,
            last_presentation_time: None,
            vblank_throttle_timer: None,
        }
    );
}

#[test]
fn headset_is_kept_in_mind() {
    let mut state = devices();
    state.device_added(4, None, 0);
    assert!(matches!(
        state.connector_connected(4, &headset(), 40, &Vec::new()),
        ConnectorPlan::NonDesktop
    ));
    assert_eq!(state.backends[&4].non_desktop_connectors, vec![(77, 40)]);
    assert_eq!(
        state.connector_disconnected(4, 77, 40, &Vec::new()),
        Disconnected::NonDesktop { renderer: PRIMARY }
    );
    assert!(state.backends[&4].non_desktop_connectors.is_empty());
}

#[test]
fn output_is_forgotten() {
    let mut state = devices();
    let outputs = vec![driven(5, 40, None), driven(4, 40, None)];
    assert_eq!(state.connector_disconnected(4, 77, 40, &outputs), Disconnected::UnknownDevice);
    state.device_added(4, Some(8), 0);
    state.surface_added(4, 40, false);
    state.surface_added(4, 41, false);
    assert_eq!(
        state.connector_disconnected(4, 77, 40, &outputs),
        Disconnected::Surface { renderer: 8, output: Some(1) }
    );
    assert!(!state.backends[&4].surfaces.contains_key(&40));
    assert!(state.backends[&4].surfaces.contains_key(&41));
    assert_eq!(
        state.connector_disconnected(4, 77, 40, &Vec::new()),
        Disconnected::Surface { renderer: 8, output: None }
    );
}

#[test]
fn output_of_a_controller() {
    let outputs = vec![driven(1, 2, None), Output { udev: None, ..driven(3, 4, None) }, driven(3, 4, None)];
    assert_eq!(output_of(&outputs, UdevOutputId { device_id: 3, crtc: 4 }), Some(2));
    assert_eq!(output_of(&outputs, UdevOutputId { device_id: 1, crtc: 4 }), None);
}

#[test]
fn frames_that_cannot_be_finished() {
    let mut state = devices();
    assert_eq!(
        state.frame_finish(4, 40, &Vec::new(), &None, 0),
        (None, FrameFinish::UnknownBackend)
    );
    state.device_added(4, None, 0);
    assert_eq!(
        state.frame_finish(4, 40, &Vec::new(), &None, 0),
        (None, FrameFinish::UnknownCrtc)
    );
    state.surface_added(4, 40, false);
    state.wait_for_timer(4, 40, 99);
    assert_eq!(
        state.frame_finish(4, 40, &Vec::new(), &None, 0),
        (Some(99), FrameFinish::NoOutput)
    );
    assert_eq!(
        state.frame_finish(4, 40, &vec![driven(4, 40, None)], &None, 0),
        (None, FrameFinish::NoMode)
    );
    assert_eq!(state.backends[&4].surfaces[&40].last_presentation_time, None);
}

#[test]
fn frames_are_presented_or_put_off() {
    let mut state = devices();
    state.device_added(4, None, 0);
    state.surface_added(4, 40, false);
    state.surface_added(4, 41, false);
    let outputs = vec![driven(4, 40, Some(100))];
    assert_eq!(
        state.frame_finish(4, 40, &outputs, &at(1_000), 0),
        (
            None,
            FrameFinish::Presented {
                clock: 1_000,
                hardware_clock: true,
                sequence: 3,
                frame_duration: 100,
            }
        )
    );
    assert_eq!(state.backends[&4].surfaces[&40].last_presentation_time, Some(1_000));
    assert_eq!(state.backends[&4].surfaces[&41].last_presentation_time, None);
    let put_off = DrmEventMetadata { time: DrmEventTime::Monotonic(1_100), sequence: 3 };
    assert_eq!(
        state.frame_finish(4, 40, &outputs, &at(1_020), 0),
        (None, FrameFinish::Throttled { delay: 80, metadata: put_off })
    );
    assert_eq!(state.backends[&4].surfaces[&40].last_presentation_time, Some(1_000));
    state.wait_for_timer(4, 40, 5);
    let (timer, finish) = state.frame_finish(4, 40, &outputs, &Some(put_off), 0);
    assert_eq!(timer, Some(5));
    assert!(matches!(finish, FrameFinish::Presented { clock: 1_100, .. }));
    assert_eq!(state.backends[&4].surfaces[&40].vblank_throttle_timer, None);
}

#[test]
fn controllers_that_are_rendered() {
    let mut state = devices();
    assert_eq!(state.render(4, None), None);
    assert_eq!(state.render(4, Some(1)), None);
    state.device_added(4, None, 0);
    assert_eq!(state.render(4, None), Some(vec![]));
    assert_eq!(state.render(4, Some(1)), Some(vec![1]));
    for crtc in [40, 41, 42] {
        state.surface_added(4, crtc, false);
    }
    let mut all = state.render(4, None).unwrap();
    all.sort();
    assert_eq!(all, vec![40, 41, 42]);
}

#[test]
fn what_an_output_is_rendered_with() {
    let mut state = devices();
    let outputs = vec![driven(4, 40, None), driven(5, 50, None)];
    assert_eq!(state.render_surface(4, 41, &outputs), RenderTarget::NoOutput);
    assert_eq!(state.render_surface(4, 40, &outputs), RenderTarget::UnknownBackend);
    state.device_added(4, None, 0);
    assert_eq!(state.render_surface(4, 40, &outputs), RenderTarget::UnknownCrtc);
    state.surface_added(4, 40, false);
    assert_eq!(
        state.render_surface(4, 40, &outputs),
        RenderTarget::Ready {
            output: 0,
            render_node: PRIMARY,
            copies: false,
            mode: FrameMode::ScannedOut,
        }
    );
    state.device_added(5, Some(8), 0);
    state.surface_added(5, 50, true);
    assert_eq!(
        state.render_surface(5, 50, &outputs),
        RenderTarget::Ready { output: 1, render_node: 8, copies: true, mode: FrameMode::Drawn }
    );
}

#[test]
fn steps_to_a_frame() {
    let outputs = vec![driven(4, 40, None)];
    let mut state: Smallvil<WorkspaceState<f64>> =
        Smallvil::in_motion(WorkspaceState::Normal, None, None);
    assert_eq!(state.render_surface(4, 41, &outputs), vec![]);
    state.backend_data = Some(devices());
    assert_eq!(state.render_surface(4, 41, &outputs), vec![]);
    assert_eq!(state.render_surface(4, 40, &outputs), vec![FrameStep::ReportUnknownBackend]);
    state.backend_data.as_mut().unwrap().device_added(4, Some(8), 0);
    assert_eq!(state.render_surface(4, 40, &outputs), vec![]);
    state.backend_data.as_mut().unwrap().surface_added(4, 40, false);
    assert_eq!(
        state.render_surface(4, 40, &outputs),
        vec![
            FrameStep::UpdateWorkspacePosition,
            FrameStep::FindPointerImage,
            FrameStep::Draw {
                output: 0,
                render_node: 8,
                copies: true,
                mode: FrameMode::ScannedOut,
            },
        ]
    );
}

#[test]
fn only_what_was_drawn_is_queued() {
    let window = |id: u64| Window { id, surface: 100 + id };
    let elements = vec![
        Element { window: window(1), outputs: vec![7, 8] },
        Element { window: window(2), outputs: vec![8] },
    ];
    assert_eq!(queue_drawn(false, &elements, 8), vec![]);
    assert_eq!(
        queue_drawn(true, &elements, 8),
        vec![
            DrawnEffect::TakeFeedback(window(1)),
            DrawnEffect::TakeFeedback(window(2)),
            DrawnEffect::QueueFrame,
        ]
    );
    assert_eq!(
        queue_drawn(true, &elements, 7),
        vec![DrawnEffect::TakeFeedback(window(1)), DrawnEffect::QueueFrame]
    );
    assert_eq!(queue_drawn(true, &Vec::new(), 7), vec![DrawnEffect::QueueFrame]);
}

#[test]
fn shared_buffers() {
    assert_eq!(devices().dmabuf_imported(true), DmabufImport::Accepted { node: PRIMARY });
    assert_eq!(devices().dmabuf_imported(false), DmabufImport::Rejected);
}

#[test]
fn elements_above_the_windows_come_first() {
    assert_eq!(output_elements(vec!['a', 'b'], vec!['c']), vec!['a', 'b', 'c']);
}

#[test]
fn pointer_images_are_kept() {
    let mut state = devices();
    assert_eq!(state.pointer_image(frame(1)), (0, true));
    assert_eq!(state.pointer_image(frame(2)), (1, true));
    assert_eq!(state.pointer_image(frame(1)), (0, false));
    assert_eq!(state.pointer_images.len(), 2);
    let mut frames = Vec::new();
    assert_eq!(remember_frame(&mut frames, frame(1)), (0, true));
    let other = CursorFrame { pixels_argb: vec![0, 0, 0, 0], ..frame(1) };
    assert!(!frames[0].same(&other));
    assert_eq!(remember_frame(&mut frames, other), (1, true));
    assert_eq!(remember_frame(&mut frames, frame(1)), (0, false));
}

#[test]
fn elements_at_the_pointer() {
    let icon = Some(DndIcon { surface: 6, offset: logical(1, 2) });
    let mut status = CursorImageStatus::Surface(5);
    let hotspot = Point { x: 3, y: 4 };
    assert_eq!(custom_elements(false, &mut status, hotspot, false, &icon, true), vec![]);
    assert_eq!(status, CursorImageStatus::Surface(5));
    assert_eq!(
        custom_elements(true, &mut status, hotspot, true, &icon, true),
        vec![
            CustomElement::Pointer { hotspot },
            CustomElement::DndIcon { surface: 6, offset: logical(1, 2) },
        ]
    );
    assert_eq!(status, CursorImageStatus::Surface(5));
    assert_eq!(
        custom_elements(true, &mut status, hotspot, false, &icon, false),
        vec![CustomElement::Pointer { hotspot }]
    );
    assert_eq!(status, CursorImageStatus::Named(DEFAULT_ICON));
    assert_eq!(
        custom_elements(true, &mut status, hotspot, false, &None, false),
        vec![CustomElement::Pointer { hotspot: logical(0, 0) }]
    );
    assert_eq!(status, CursorImageStatus::Named(DEFAULT_ICON));
    assert_eq!(drag_offset(&CursorImageStatus::Hidden, hotspot), logical(0, 0));
    assert_eq!(drag_offset(&CursorImageStatus::Surface(1), hotspot), logical(-3, -4));
}
