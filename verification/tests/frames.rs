use smallvil::frames::{
    after_render, frame_mode, handle_vblank, next_repaint, retry_render, schedule_after_submit,
    AfterRender, DrmEventMetadata, DrmEventTime, DrmFailure, FrameMode, RepaintTimer, RetryTimer,
    SwapBuffersError, Vblank, MAX_DURATION, MAX_TIME,
};

fn at(time: u128) -> Option<DrmEventMetadata> {
    Some(DrmEventMetadata { time: DrmEventTime::Monotonic(time), sequence: 7 })
}

#[test]
fn first_vblank_is_presented() {
    assert_eq!(
        handle_vblank(&at(100), 200, None, 16_000_000),
        Vblank::Present { clock: 100, hardware_clock: true, sequence: 7 }
    );
}

#[test]
fn vblank_without_hardware_time() {
    assert_eq!(
        handle_vblank(&at(0), 200, None, 16),
        Vblank::Present { clock: 200, hardware_clock: false, sequence: 7 }
    );
    assert_eq!(
        handle_vblank(&None, 200, None, 16),
        Vblank::Present { clock: 200, hardware_clock: false, sequence: 0 }
    );
    let realtime = Some(DrmEventMetadata { time: DrmEventTime::Realtime(5), sequence: 9 });
    assert_eq!(
        handle_vblank(&realtime, 200, None, 16),
        Vblank::Present { clock: 200, hardware_clock: false, sequence: 9 }
    );
}

#[test]
fn vblank_in_time_is_presented() {
    assert_eq!(
        handle_vblank(&at(1_050), 0, Some(1_000), 100),
        Vblank::Present { clock: 1_050, hardware_clock: true, sequence: 7 }
    );
}

#[test]
fn early_vblank_is_put_off_and_then_presented() {
    let first = handle_vblank(&at(1_049), 0, Some(1_000), 100);
    let put_off = DrmEventMetadata { time: DrmEventTime::Monotonic(1_100), sequence: 7 };
    assert_eq!(first, Vblank::Throttle { delay: 51, metadata: put_off });
    assert_eq!(
        handle_vblank(&Some(put_off), 0, Some(1_000), 100),
        Vblank::Present { clock: 1_100, hardware_clock: true, sequence: 7 }
    );
}

#[test]
fn early_vblank_without_hardware_time() {
    let put_off = DrmEventMetadata { time: DrmEventTime::Monotonic(0), sequence: 0 };
    assert_eq!(
        handle_vblank(&None, 1_010, Some(1_000), 100),
        Vblank::Throttle { delay: 90, metadata: put_off }
    );
    assert_eq!(
        handle_vblank(&Some(put_off), 1_100, Some(1_000), 100),
        Vblank::Present { clock: 1_100, hardware_clock: false, sequence: 0 }
    );
}

#[test]
fn vblank_before_the_last_presentation() {
    // No time has passed, so that the whole frame is left.
    let first = handle_vblank(&at(900), 0, Some(1_000), 100);
    let put_off = DrmEventMetadata { time: DrmEventTime::Monotonic(1_000), sequence: 7 };
    assert_eq!(first, Vblank::Throttle { delay: 100, metadata: put_off });
    assert!(matches!(
        handle_vblank(&Some(put_off), 0, Some(1_000), 100),
        Vblank::Throttle { delay: 100, .. }
    ));
}

#[test]
fn put_off_time_is_limited() {
    let late = MAX_DURATION - 10;
    assert_eq!(
        handle_vblank(&at(late), 0, Some(late), 100),
        Vblank::Throttle {
            delay: 100,
            metadata: DrmEventMetadata {
                time: DrmEventTime::Monotonic(MAX_DURATION),
                sequence: 7,
            },
        }
    );
}

#[test]
fn next_frame_after_submit() {
    assert!(schedule_after_submit(&Ok(())));
    assert!(schedule_after_submit(&Err(SwapBuffersError::AlreadySwapped)));
    let inactive = SwapBuffersError::TemporaryFailure(DrmFailure::DeviceInactive);
    assert!(!schedule_after_submit(&Err(inactive)));
    let denied = SwapBuffersError::TemporaryFailure(DrmFailure::Access { permission_denied: true });
    assert!(schedule_after_submit(&Err(denied)));
    let failed = SwapBuffersError::TemporaryFailure(DrmFailure::Access { permission_denied: false });
    assert!(!schedule_after_submit(&Err(failed)));
    let other = SwapBuffersError::TemporaryFailure(DrmFailure::Other);
    assert!(!schedule_after_submit(&Err(other)));
    let test = SwapBuffersError::TemporaryFailure(DrmFailure::TestFailed);
    assert!(!schedule_after_submit(&Err(test)));
}

#[test]
fn repaint_waits_only_on_the_primary_device() {
    assert_eq!(
        next_repaint(1_000, 16, Some(1), 1),
        RepaintTimer { target: 1_016, immediate: false }
    );
    assert_eq!(next_repaint(1_000, 16, Some(2), 1), RepaintTimer { target: 1_016, immediate: true });
    assert_eq!(next_repaint(1_000, 16, None, 1), RepaintTimer { target: 1_016, immediate: true });
    assert_eq!(next_repaint(MAX_TIME, 0, None, 1).target, MAX_TIME);
}

#[test]
fn buffers_are_scanned_out_unless_that_is_disabled() {
    assert_eq!(frame_mode(false), FrameMode::ScannedOut);
    assert_eq!(frame_mode(true), FrameMode::Drawn);
}

#[test]
fn what_follows_a_rendering() {
    let nothing = AfterRender { post_repaint: false, reset_device: false, reschedule: false };
    let again = AfterRender { post_repaint: false, reset_device: false, reschedule: true };
    assert_eq!(
        after_render(&Ok(true)),
        AfterRender { post_repaint: true, reset_device: false, reschedule: false }
    );
    assert_eq!(
        after_render(&Ok(false)),
        AfterRender { post_repaint: true, reset_device: false, reschedule: true }
    );
    assert_eq!(after_render(&Err(SwapBuffersError::AlreadySwapped)), nothing);
    let inactive = SwapBuffersError::TemporaryFailure(DrmFailure::DeviceInactive);
    assert_eq!(after_render(&Err(inactive)), again);
    let denied = SwapBuffersError::TemporaryFailure(DrmFailure::Access { permission_denied: true });
    assert_eq!(after_render(&Err(denied)), again);
    let failed = SwapBuffersError::TemporaryFailure(DrmFailure::Access { permission_denied: false });
    assert_eq!(after_render(&Err(failed)), nothing);
    let other = SwapBuffersError::TemporaryFailure(DrmFailure::Other);
    assert_eq!(after_render(&Err(other)), nothing);
    let lost = SwapBuffersError::ContextLost(DrmFailure::TestFailed);
    assert_eq!(
        after_render(&Err(lost)),
        AfterRender { post_repaint: false, reset_device: true, reschedule: true }
    );
}

#[test]
fn retry_after_about_a_frame() {
    // At 60 Hz a frame lasts 16 whole milliseconds.
    assert_eq!(
        retry_render(1_000_000, Some(60_000), 500_000),
        Some(RetryTimer { target: 17_000_000, delay: 16_500_000 })
    );
    assert_eq!(
        retry_render(1_000_000, Some(60_000), 20_000_000),
        Some(RetryTimer { target: 17_000_000, delay: 0 })
    );
    assert_eq!(
        retry_render(5, Some(-1), 0),
        Some(RetryTimer { target: 5, delay: 5 })
    );
    assert_eq!(retry_render(5, None, 0), None);
}
