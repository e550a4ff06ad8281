//! When the frames of an output are presented, repainted and tried again.
//!
//! Times and durations are counted in nanoseconds.

use vstd::prelude::*;

verus! {

/// The longest duration that can be told.
pub const MAX_DURATION: u128 = 18_446_744_073_709_551_615_999_999_999;

/// The latest time of the monotonic clock that can be told.
pub const MAX_TIME: u128 = 9_223_372_036_854_775_807_999_999_999;

/// The time that the display hardware gives for an event.
#[derive(Debug, Clone, Copy, PartialEq, Eq)]
pub enum DrmEventTime {
    /// A time of the monotonic clock; zero where the hardware knows none.
    Monotonic(u128),
    /// A time of day.
    Realtime(u128),
}

/// What the display hardware tells of an event.
#[derive(Debug, Clone, Copy, PartialEq, Eq)]
pub struct DrmEventMetadata {
    pub time: DrmEventTime,
    pub sequence: u32,
}

/// The time of the monotonic clock that the hardware gives for an event, if it gives one.
pub open spec fn hardware_time(metadata: Option<DrmEventMetadata>) -> Option<u128> {
    match metadata {
        Some(told) => match told.time {
            DrmEventTime::Monotonic(time) => if time == 0 {
                None
            } else {
                Some(time)
            },
            DrmEventTime::Realtime(_) => None,
        },
        None => None,
    }
}

/// The sequence number of an event; zero where none is told.
pub open spec fn sequence_number(metadata: Option<DrmEventMetadata>) -> u32 {
    match metadata {
        Some(told) => told.sequence,
        None => 0,
    }
}

/// The time at which an event happened: that of the hardware, or else `now`.
pub open spec fn event_time(metadata: Option<DrmEventMetadata>, now: u128) -> u128 {
    match hardware_time(metadata) {
        Some(time) => time,
        None => now,
    }
}

/// What is left of a frame that was presented at `last`, at a later time; nothing where the frame
/// is over.
pub open spec fn frame_rest(frame_duration: u128, last: u128, clock: u128) -> int {
    let passed: int = if clock >= last { clock - last } else { 0 };
    if passed >= frame_duration {
        0
    } else {
        frame_duration - passed
    }
}

/// Whether a vertical blank came so early that more than half of the last frame is left.
pub open spec fn comes_early(last: Option<u128>, frame_duration: u128, clock: u128) -> bool {
    last matches Some(last) && frame_rest(frame_duration, last, clock) > frame_duration / 2
}

/// What is done with a vertical blank.
#[derive(Debug, Clone, Copy, PartialEq, Eq)]
pub enum Vblank {
    /// It came too early: it is handled again after `delay`, as if it had come then.
    Throttle { delay: u128, metadata: DrmEventMetadata },
    /// The frame was presented.
    Present { clock: u128, hardware_clock: bool, sequence: u32 },
}

/// The sum of two durations, kept within what can be told.
pub open spec fn saturated_duration(sum: int) -> int {
    if sum > MAX_DURATION {
        MAX_DURATION as int
    } else {
        sum
    }
}

/// What is done with a vertical blank, as a mathematical value.
pub open spec fn vblank_outcome(
    metadata: Option<DrmEventMetadata>,
    now: u128,
    last: Option<u128>,
    frame_duration: u128,
) -> Vblank {
    let clock = event_time(metadata, now);
    let sequence = sequence_number(metadata);
    if comes_early(last, frame_duration, clock) {
        let delay = frame_rest(frame_duration, last->0, clock);
        let time = match hardware_time(metadata) {
            Some(time) => saturated_duration(time + delay) as u128,
            None => 0u128,
        };
        Vblank::Throttle {
            delay: delay as u128,
            metadata: DrmEventMetadata { time: DrmEventTime::Monotonic(time), sequence },
        }
    } else {
        Vblank::Present { clock, hardware_clock: hardware_time(metadata) is Some, sequence }
    }
}

/// Decides what is done with a vertical blank.
///
/// `last` is when the last frame was presented, `frame_duration` how long a frame lasts.
pub fn handle_vblank(
    metadata: &Option<DrmEventMetadata>,
    now: u128,
    last: Option<u128>,
    frame_duration: u128,
) -> (outcome: Vblank)
    requires
        frame_duration <= MAX_DURATION,
        hardware_time(*metadata) matches Some(time) ==> time <= MAX_DURATION,
    ensures
        outcome == vblank_outcome(*metadata, now, last, frame_duration),
{
    let time: Option<u128> = match metadata {
        Some(told) => match told.time {
            DrmEventTime::Monotonic(time) => if time == 0 {
                None
            } else {
                Some(time)
            },
            DrmEventTime::Realtime(_) => None,
        },
        None => None,
    };
    let sequence: u32 = match metadata {
        Some(told) => told.sequence,
        None => 0,
    };
    let clock: u128 = match time {
        Some(time) => time,
        None => now,
    };
    if let Some(last) = last {
        let passed: u128 = if clock >= last {
            clock - last
        } else {
            0
        };
        let delay: u128 = if passed >= frame_duration {
            0
        } else {
            frame_duration - passed
        };
        if delay > frame_duration / 2 {
            let throttled: u128 = match time {
                Some(time) => if time + delay > MAX_DURATION {
                    MAX_DURATION
                } else {
                    time + delay
                },
                None => 0,
            };
            return Vblank::Throttle {
                delay,
                metadata: DrmEventMetadata { time: DrmEventTime::Monotonic(throttled), sequence },
            };
        }
    }
    Vblank::Present { clock, hardware_clock: time.is_some(), sequence }
}

/// A vertical blank that was put off is presented when its delay is over: it is not put off again.
///
/// The event must not come before the last frame was presented, and its time plus the length of a
/// frame must be one that can be told.
pub proof fn throttled_vblank_is_presented(
    metadata: Option<DrmEventMetadata>,
    now: u128,
    later: u128,
    last: u128,
    frame_duration: u128,
)
    requires
        vblank_outcome(metadata, now, Some(last), frame_duration) is Throttle,
        later >= now + frame_rest(frame_duration, last, event_time(metadata, now)),
        last <= event_time(metadata, now),
        event_time(metadata, now) + frame_duration <= MAX_DURATION,
    ensures
        ({
            let put_off = vblank_outcome(metadata, now, Some(last), frame_duration);
            let again = vblank_outcome(
                Some(put_off->Throttle_metadata),
                later,
                Some(last),
                frame_duration,
            );
            &&& again is Present
            &&& again->hardware_clock == (hardware_time(metadata) is Some)
            &&& again->Present_sequence == sequence_number(metadata)
            &&& hardware_time(metadata) matches Some(time) ==> again->clock == time
                + put_off->delay
        }),
{
}

/// A failure of the display hardware.
#[derive(Debug, Clone, Copy, PartialEq, Eq)]
pub enum DrmFailure {
    /// The device is not active, as while another session is shown.
    DeviceInactive,
    /// An access failed.
    Access { permission_denied: bool },
    /// A test of a configuration failed.
    TestFailed,
    /// Anything else.
    Other,
}

/// Why a frame could not be shown.
#[derive(Debug, Clone, Copy, PartialEq, Eq)]
pub enum SwapBuffersError {
    /// There was nothing new to show.
    AlreadySwapped,
    /// Something that can be overcome.
    TemporaryFailure(DrmFailure),
    /// The rendering context is gone.
    ContextLost(DrmFailure),
}

/// Whether the next frame is scheduled after a frame was submitted, as a mathematical value: not
/// where the device is inactive, which is taken up again when the session is, and of other failures
/// only after those of missing permission.
pub open spec fn schedules_frame(result: Result<(), SwapBuffersError>) -> bool {
    match result {
        Ok(_) => true,
        Err(SwapBuffersError::AlreadySwapped) => true,
        Err(SwapBuffersError::TemporaryFailure(failure)) => failure == (DrmFailure::Access {
            permission_denied: true,
        }),
        Err(SwapBuffersError::ContextLost(_)) => false,
    }
}

/// Whether the next frame is scheduled after a frame was submitted.
pub fn schedule_after_submit(result: &Result<(), SwapBuffersError>) -> (schedule: bool)
    requires
        !(result matches Err(SwapBuffersError::ContextLost(_))),
    ensures
        schedule == schedules_frame(*result),
{
    match result {
        Ok(_) => true,
        Err(SwapBuffersError::AlreadySwapped) => true,
        Err(SwapBuffersError::TemporaryFailure(DrmFailure::DeviceInactive)) => false,
        Err(SwapBuffersError::TemporaryFailure(DrmFailure::Access { permission_denied })) =>
            *permission_denied,
        Err(SwapBuffersError::TemporaryFailure(_)) => false,
        Err(SwapBuffersError::ContextLost(_)) => false,
    }
}

/// When an output is repainted.
#[derive(Debug, Clone, Copy, PartialEq, Eq)]
pub struct RepaintTimer {
    /// The time for which the next frame is made.
    pub target: u128,
    /// Whether the repaint starts at once; otherwise it waits for clients to draw first.
    pub immediate: bool,
}

/// The next frame of an output is made at `timer`.
pub open spec fn repaints_at(
    clock: u128,
    frame_duration: u128,
    render_node: Option<u64>,
    primary_gpu: u64,
    timer: RepaintTimer,
) -> bool {
    &&& timer.target == clock + frame_duration
    &&& timer.immediate == (render_node != Some(primary_gpu))
}

/// The next repaint after a frame was presented at `clock`.
///
/// A frame that has to be copied from one device to another gets all the time there is.
pub fn next_repaint(
    clock: u128,
    frame_duration: u128,
    render_node: Option<u64>,
    primary_gpu: u64,
) -> (timer: RepaintTimer)
    requires
        clock + frame_duration <= MAX_TIME,
    ensures
        repaints_at(clock, frame_duration, render_node, primary_gpu, timer),
{
    let immediate: bool = match render_node {
        Some(node) => node != primary_gpu,
        None => true,
    };
    RepaintTimer { target: clock + frame_duration, immediate }
}

/// How the buffers of clients may reach the screen.
#[derive(Debug, Clone, Copy, PartialEq, Eq)]
pub enum FrameMode {
    /// All of them are drawn.
    Drawn,
    /// Those that the hardware takes are scanned out as they are.
    ScannedOut,
}

/// How a frame is made, as a mathematical value.
pub open spec fn mode_of_frame(disable_direct_scanout: bool) -> FrameMode {
    if disable_direct_scanout {
        FrameMode::Drawn
    } else {
        FrameMode::ScannedOut
    }
}

/// How the buffers of clients may reach the screen of an output.
pub fn frame_mode(disable_direct_scanout: bool) -> (mode: FrameMode)
    ensures
        mode == mode_of_frame(disable_direct_scanout),
{
    if disable_direct_scanout {
        FrameMode::Drawn
    } else {
        FrameMode::ScannedOut
    }
}

/// What follows the rendering of an output.
#[derive(Debug, Clone, Copy, PartialEq, Eq)]
pub struct AfterRender {
    /// The clients are told that their frame was shown.
    pub post_repaint: bool,
    /// The state of the device is reset.
    pub reset_device: bool,
    /// The output is rendered again after about a frame.
    pub reschedule: bool,
}

/// What follows the rendering of an output, as a mathematical value. The result says whether
/// anything had to be drawn.
pub open spec fn render_outcome(result: Result<bool, SwapBuffersError>) -> AfterRender {
    AfterRender {
        post_repaint: result is Ok,
        reset_device: result == Err::<bool, SwapBuffersError>(
            SwapBuffersError::ContextLost(DrmFailure::TestFailed),
        ),
        reschedule: match result {
            Ok(has_rendered) => !has_rendered,
            Err(SwapBuffersError::AlreadySwapped) => false,
            Err(SwapBuffersError::TemporaryFailure(failure)) => {
                ||| failure is DeviceInactive
                ||| failure == (DrmFailure::Access { permission_denied: true })
            },
            Err(SwapBuffersError::ContextLost(failure)) => failure is TestFailed,
        },
    }
}

/// Decides what follows the rendering of an output.
///
/// Without damage nothing is drawn, and the output is tried again after about a frame. So it is
/// after a temporary failure, and after a test that failed, which happens when another session
/// changed the device: then the device is reset first.
pub fn after_render(result: &Result<bool, SwapBuffersError>) -> (next: AfterRender)
    requires
        result matches Err(SwapBuffersError::ContextLost(failure)) ==> failure is TestFailed,
    ensures
        next == render_outcome(*result),
{
    match result {
        Ok(has_rendered) => AfterRender {
            post_repaint: true,
            reset_device: false,
            reschedule: !*has_rendered,
        },
        Err(error) => {
            let (reset_device, reschedule): (bool, bool) = match error {
                SwapBuffersError::AlreadySwapped => (false, false),
                SwapBuffersError::TemporaryFailure(failure) => match failure {
                    DrmFailure::DeviceInactive => (false, true),
                    DrmFailure::Access { permission_denied } => (false, *permission_denied),
                    _ => (false, false),
                },
                SwapBuffersError::ContextLost(_) => (true, true),
            };
            AfterRender { post_repaint: false, reset_device, reschedule }
        },
    }
}

/// When an output is rendered again.
#[derive(Debug, Clone, Copy, PartialEq, Eq)]
pub struct RetryTimer {
    /// The time for which the next frame is made.
    pub target: u128,
    /// How long it is until then.
    pub delay: u128,
}

/// The length of a frame in whole milliseconds, for a refresh rate in thousandths of a hertz; none
/// where the rate is negative.
pub open spec fn frame_millis(refresh: i32) -> int {
    if refresh < 0 {
        0
    } else {
        1_000_000int / refresh as int
    }
}

/// An output is rendered again at `timer`.
pub open spec fn retries_at(
    frame_target: u128,
    refresh: Option<i32>,
    now: u128,
    timer: Option<RetryTimer>,
) -> bool {
    &&& timer is Some <==> refresh is Some
    &&& timer matches Some(timer) ==> {
        &&& timer.target == frame_target + frame_millis(refresh->0) * 1_000_000
        &&& timer.delay == (if timer.target > now { timer.target - now } else { 0 })
    }
}

/// When an output whose frame was to be shown at `frame_target` is rendered again; never where it
/// has no mode.
pub fn retry_render(frame_target: u128, refresh: Option<i32>, now: u128) -> (timer: Option<
    RetryTimer,
>)
    requires
        refresh matches Some(rate) ==> rate != 0,
        refresh matches Some(rate) ==> frame_target + frame_millis(rate) * 1_000_000 <= MAX_TIME,
    ensures
        retries_at(frame_target, refresh, now, timer),
{
    let Some(rate) = refresh else {
        return None;
    };
    let millis: u32 = if rate < 0 {
        0
    } else {
        1_000_000u32 / (rate as u32)
    };
    assert(millis <= 1_000_000 && millis == frame_millis(rate)) by {
        if rate > 0 {
            assert(1_000_000int / rate as int <= 1_000_000) by (nonlinear_arith)
                requires
                    rate > 0,
            ;
        }
    }
    let target: u128 = frame_target + millis as u128 * 1_000_000;
    let delay: u128 = if target > now {
        target - now
    } else {
        0
    };
    Some(RetryTimer { target, delay })
}

/// A vertical blank that comes when more than half of the last frame is left is put off by what is left,
/// to the time at which the frame is over where the hardware gives one; any other is presented at its
/// time. Its time is that of the hardware, where that gives one on the monotonic clock.
pub proof fn early_vblanks_are_put_off(
    metadata: Option<DrmEventMetadata>,
    now: u128,
    last: Option<u128>,
    frame_duration: u128,
    hardware: Option<u128>,
)
    requires
        match metadata {
            Some(told) => match told.time {
                DrmEventTime::Monotonic(time) => hardware == (if time > 0 {
                    Some(time)
                } else {
                    None
                }),
                DrmEventTime::Realtime(_) => hardware is None,
            },
            None => hardware is None,
        },
    ensures
        ({
            let outcome = vblank_outcome(metadata, now, last, frame_duration);
            let clock = match hardware {
                Some(time) => time,
                None => now,
            };
            let passed = match last {
                Some(last) => if clock >= last {
                    clock - last
                } else {
                    0
                },
                None => frame_duration as int,
            };
            let left = frame_duration - passed;
            let sequence = match metadata {
                Some(told) => told.sequence,
                None => 0,
            };
            &&& outcome is Throttle <==> last is Some && 2 * left > frame_duration
            &&& outcome matches Vblank::Throttle { delay, metadata: again } ==> {
                &&& delay == left
                &&& again.sequence == sequence
                &&& again.time matches DrmEventTime::Monotonic(time)
                &&& hardware is None ==> time == 0
                &&& hardware matches Some(told) ==> (told + left <= MAX_DURATION ==> time == told
                    + left) && (told + left > MAX_DURATION ==> time == MAX_DURATION)
            }
            &&& outcome matches Vblank::Present {
                clock: presented,
                hardware_clock,
                sequence: number,
            } ==> presented == clock && hardware_clock == (hardware is Some) && number == sequence
        }),
{
}

/// The next frame is scheduled after one that was shown, or had nothing new; of the failures, only after
/// one of missing permission.
pub proof fn frames_go_on_after_what_can_be_overcome(failure: DrmFailure, permission_denied: bool)
    ensures
        schedules_frame(Ok(())),
        schedules_frame(Err(SwapBuffersError::AlreadySwapped)),
        schedules_frame(
            Err(SwapBuffersError::TemporaryFailure(DrmFailure::Access { permission_denied })),
        ) == permission_denied,
        !(failure is Access) ==> !schedules_frame(Err(SwapBuffersError::TemporaryFailure(failure))),
        !schedules_frame(Err(SwapBuffersError::ContextLost(failure))),
{
}

/// Clients are told of a frame that was rendered. It is rendered again when there was nothing to draw, when
/// the device is inactive or permission is missing, and when a test failed, after which alone the device
/// is reset.
pub proof fn rendering_is_tried_again(failure: DrmFailure, permission_denied: bool, rendered: bool)
    ensures
        ({
            let drawn = render_outcome(Ok(rendered));
            let swapped = render_outcome(Err(SwapBuffersError::AlreadySwapped));
            let failed = render_outcome(Err(SwapBuffersError::TemporaryFailure(failure)));
            let refused = render_outcome(
                Err(SwapBuffersError::TemporaryFailure(DrmFailure::Access { permission_denied })),
            );
            let lost = render_outcome(Err(SwapBuffersError::ContextLost(failure)));
            &&& drawn.post_repaint && !drawn.reset_device && drawn.reschedule == !rendered
            &&& !swapped.post_repaint && !swapped.reset_device && !swapped.reschedule
            &&& !failed.post_repaint && !failed.reset_device
            &&& !(failure is Access) ==> failed.reschedule == (failure is DeviceInactive)
            &&& refused.reschedule == permission_denied
            &&& !lost.post_repaint
            &&& lost.reset_device == (failure is TestFailed)
            &&& lost.reschedule == (failure is TestFailed)
        }),
{
}

/// The whole milliseconds of a frame fit into it, and one more does not.
pub proof fn frame_has_its_milliseconds(refresh: i32)
    requires
        refresh != 0,
    ensures
        refresh > 0 ==> frame_millis(refresh) * refresh <= 1_000_000 < (frame_millis(refresh) + 1)
            * refresh,
        refresh < 0 ==> frame_millis(refresh) == 0,
{
    if refresh > 0 {
        let rate = refresh as int;
        let millis = 1_000_000int / rate;
        vstd::arithmetic::div_mod::lemma_fundamental_div_mod(1_000_000, rate);
        assert(millis * rate <= 1_000_000 < (millis + 1) * rate) by (nonlinear_arith)
            requires
                rate > 0,
                1_000_000 == rate * millis + 1_000_000int % rate,
                0 <= 1_000_000int % rate < rate,
        ;
    }
}

/// The next frame is made one frame after the last. Only an output that the primary device renders waits
/// for it.
pub proof fn next_frame_is_one_frame_later(
    clock: u128,
    frame_duration: u128,
    render_node: Option<u64>,
    primary_gpu: u64,
    timer: RepaintTimer,
)
    requires
        repaints_at(clock, frame_duration, render_node, primary_gpu, timer),
    ensures
        timer.target - clock == frame_duration,
        render_node is None ==> timer.immediate,
        render_node matches Some(node) ==> (timer.immediate <==> node != primary_gpu),
{
}

/// An output with a mode is rendered again after as many whole milliseconds as fit into a frame, and at once
/// where that time is over; one without a mode is not.
pub proof fn output_is_rendered_again_after_a_frame(
    frame_target: u128,
    refresh: Option<i32>,
    now: u128,
    timer: Option<RetryTimer>,
)
    requires
        retries_at(frame_target, refresh, now, timer),
        refresh != Some(0i32),
    ensures
        timer is None <==> refresh is None,
        timer matches Some(again) ==> {
            let rate = refresh->0;
            let later = again.target - frame_target;
            &&& rate < 0 ==> later == 0
            &&& rate > 0 ==> later % 1_000_000 == 0 && later >= 0
            &&& rate > 0 ==> later * rate <= 1_000_000_000_000 < (later + 1_000_000) * rate
            &&& now <= again.target ==> now + again.delay == again.target
            &&& now > again.target ==> again.delay == 0
        },
{
    if let Some(again) = timer {
        let rate = refresh->0;
        frame_has_its_milliseconds(rate);
        if rate > 0 {
            let millis = frame_millis(rate);
            let later = again.target - frame_target;
            assert(later == millis * 1_000_000);
            assert(millis >= 0) by (nonlinear_arith)
                requires
                    rate > 0,
                    1_000_000 < (millis + 1) * rate,
            ;
            assert(later * rate <= 1_000_000_000_000 < (later + 1_000_000) * rate) by (nonlinear_arith)
                requires
                    later == millis * 1_000_000,
                    millis * rate <= 1_000_000 < (millis + 1) * rate,
            ;
        }
    }
}

/// A frame is drawn exactly if its buffers may not be scanned out.
pub proof fn frame_is_drawn_where_it_is_not_scanned_out(disable_direct_scanout: bool)
    ensures
        mode_of_frame(disable_direct_scanout) is Drawn <==> disable_direct_scanout,
{
}

} // verus!
