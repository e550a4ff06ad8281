//! What moves the windows of the current workspace, from frame to frame.

use vstd::prelude::*;

use crate::extra_state::{
    blended, can_blend, compares, is_end, progress_since, way_since,
    windows_are_blended_by_the_clock, AnimationInfo, Ends, ProgressAndVelocity, WindowAreas,
    WindowPosition, WorkspaceAreas, WorkspaceState,
};
use crate::geometry::{Point, Rectangle};
use crate::placement::{
    are_opposite, are_positions, columns, follows_lines, has_pixel, on_line, on_way,
    opposite_windows_leave_no_gap, part_of_way, rows, steps, PADDING,
};
use crate::state::ANIMATION_MS;

verus! {

/// The arithmetic of progress values, and how a gesture is measured.
#[derive(Debug, Clone, Copy)]
pub struct Motion<S, L, C, A, B> {
    pub ends: Ends<S>,
    /// Whether the first of two values is below the second.
    pub less: L,
    /// What is left of one without a value.
    pub complement: C,
    /// How far a gesture that has moved so far is from each slot around the main area.
    pub distances_at: A,
    /// Where a window is after so many milliseconds of its way.
    pub blend: B,
}

impl<
    S,
    L: Fn(S, S) -> bool,
    C: Fn(S) -> S,
    A: Fn(Rectangle<i32>, Point<S>) -> WorkspaceAreas<S>,
    B: Fn(u32, ProgressAndVelocity<S>, ProgressAndVelocity<S>) -> ProgressAndVelocity<S>,
> Motion<S, L, C, A, B> {
    /// Each of the functions takes every value.
    pub open spec fn ready(&self) -> bool {
        &&& compares(&self.less)
        &&& forall|part: S| #[trigger] call_requires(self.complement, (part,))
        &&& forall|area: Rectangle<i32>, moved: Point<S>| #[trigger]
            call_requires(self.distances_at, (area, moved))
        &&& can_blend(&self.blend)
    }

    /// `areas` can be where a gesture that began on `start` and has moved by `moved` holds the
    /// windows.
    pub open spec fn holds_at(
        &self,
        start: WindowPosition,
        area: Rectangle<i32>,
        moved: Point<S>,
        areas: WindowAreas<S>,
    ) -> bool {
        exists|distances: WorkspaceAreas<S>| #[trigger]
            call_ensures(self.distances_at, (area, moved), distances)
                && WindowAreas::<S>::follows_gesture(
                start,
                distances,
                self.ends,
                &self.less,
                &self.complement,
                areas,
            )
    }

    /// `areas` can be where an animation towards `end_pos` has taken the windows by `now`.
    pub open spec fn carries_to(
        &self,
        info: AnimationInfo<S>,
        end_pos: WindowPosition,
        now: u128,
        areas: WindowAreas<S>,
    ) -> bool {
        WindowAreas::<S>::follows_animation(info, end_pos, now, self.ends, &self.blend, areas)
    }

    /// `areas` can be where the windows are at `now`.
    pub open spec fn shows(
        &self,
        state: WorkspaceState<S>,
        focussed: WindowPosition,
        area: Rectangle<i32>,
        now: u128,
        areas: WindowAreas<S>,
    ) -> bool {
        match state {
            WorkspaceState::Normal => areas == WindowAreas::<S>::focussed_on(focussed, self.ends),
            WorkspaceState::Animating(info) => self.carries_to(info, focussed, now, areas),
            WorkspaceState::Grabbed(moved) => self.holds_at(focussed, area, moved, areas),
        }
    }

    /// `started` can be the animation that takes the windows from where they are at `now` to a new
    /// focus.
    pub open spec fn starts(
        &self,
        state: WorkspaceState<S>,
        focussed: WindowPosition,
        now: u128,
        started: AnimationInfo<S>,
    ) -> bool {
        &&& started.start_time == now
        &&& match state {
            WorkspaceState::Normal => started.start_info == WindowAreas::<S>::focussed_on(
                focussed,
                self.ends,
            ),
            WorkspaceState::Animating(info) => self.carries_to(
                info,
                focussed,
                now,
                started.start_info,
            ),
            WorkspaceState::Grabbed(_) => false,
        }
    }
}

/// An animation that is under way began before `now`.
pub open spec fn began_before<S>(state: WorkspaceState<S>, now: u128) -> bool {
    state matches WorkspaceState::Animating(info) ==> info.start_time <= now
}

/// What began before a time began before every later one.
pub proof fn clock_may_go_on<S>(state: WorkspaceState<S>, now: u128, later: u128)
    requires
        began_before(state, now),
        now <= later,
    ensures
        began_before(state, later),
{
}

/// What moves the windows once they have been shown at `now`: an animation that is over is done.
pub open spec fn settled<S>(state: WorkspaceState<S>, now: u128) -> WorkspaceState<S> {
    match state {
        WorkspaceState::Animating(info) => if progress_since(info.start_time, now)
            >= ANIMATION_MS {
            WorkspaceState::Normal
        } else {
            state
        },
        _ => state,
    }
}

/// Where the windows are at `now`, and whether an animation that took them there is over.
pub fn areas_at<
    S: Copy,
    L: Fn(S, S) -> bool,
    C: Fn(S) -> S,
    A: Fn(Rectangle<i32>, Point<S>) -> WorkspaceAreas<S>,
    B: Fn(u32, ProgressAndVelocity<S>, ProgressAndVelocity<S>) -> ProgressAndVelocity<S>,
>(
    state: &WorkspaceState<S>,
    focussed: WindowPosition,
    area: Rectangle<i32>,
    now: u128,
    motion: &Motion<S, L, C, A, B>,
) -> (shown: (WindowAreas<S>, bool))
    requires
        motion.ready(),
        began_before(*state, now),
    ensures
        motion.shows(*state, focussed, area, now, shown.0),
        shown.1 <==> settled(*state, now) != *state,
{
    match state {
        WorkspaceState::Normal => (WindowAreas::<S>::from_position(focussed, &motion.ends), false),
        WorkspaceState::Animating(info) => WindowAreas::<S>::from_animation(
            info,
            focussed,
            now,
            &motion.ends,
            &motion.blend,
        ),
        WorkspaceState::Grabbed(moved) => {
            let distances: WorkspaceAreas<S> = (motion.distances_at)(area, *moved);
            let areas: WindowAreas<S> = WindowAreas::<S>::from_gesture(
                focussed,
                &distances,
                &motion.ends,
                &motion.less,
                &motion.complement,
            );
            (areas, false)
        },
    }
}

/// The windows do not jump when the focus changes: the new animation begins where they are shown at
/// that time.
pub proof fn windows_do_not_jump<
    S,
    L: Fn(S, S) -> bool,
    C: Fn(S) -> S,
    A: Fn(Rectangle<i32>, Point<S>) -> WorkspaceAreas<S>,
    B: Fn(u32, ProgressAndVelocity<S>, ProgressAndVelocity<S>) -> ProgressAndVelocity<S>,
>(
    state: WorkspaceState<S>,
    focussed: WindowPosition,
    area: Rectangle<i32>,
    now: u128,
    motion: &Motion<S, L, C, A, B>,
    started: AnimationInfo<S>,
)
    requires
        motion.starts(state, focussed, now, started),
    ensures
        motion.shows(state, focussed, area, now, started.start_info),
{
}

/// An animation that has just begun shows the windows where they were, as long as blending then gives
/// the start value.
pub proof fn animation_begins_where_the_windows_were<
    S,
    L: Fn(S, S) -> bool,
    C: Fn(S) -> S,
    A: Fn(Rectangle<i32>, Point<S>) -> WorkspaceAreas<S>,
    B: Fn(u32, ProgressAndVelocity<S>, ProgressAndVelocity<S>) -> ProgressAndVelocity<S>,
>(
    started: AnimationInfo<S>,
    end_pos: WindowPosition,
    slot: WindowPosition,
    motion: &Motion<S, L, C, A, B>,
    areas: WindowAreas<S>,
)
    requires
        motion.carries_to(started, end_pos, started.start_time, areas),
        forall|other: WindowPosition, end: ProgressAndVelocity<S>, value: ProgressAndVelocity<S>|
            #[trigger]
            call_ensures(motion.blend, (0u32, started.start_info.at(other), end), value) && is_end(
                end,
                motion.ends,
            ) ==> value.progress == started.start_info.at(other).progress,
    ensures
        areas.at(slot).progress == started.start_info.at(slot).progress,
{
    assert(way_since(started.start_time, started.start_time) == 0);
    assert(blended(
        &motion.blend,
        0,
        started.start_info.at(slot),
        WindowAreas::<S>::focussed_on(end_pos, motion.ends).at(slot),
        areas.at(slot),
    ));
}

/// A change of the focus comes to rest: when its time is over, the window of the new focus fills the
/// main area and the others are in their slots, as long as blending then gives the end value.
pub proof fn focus_change_comes_to_rest<
    S,
    L: Fn(S, S) -> bool,
    C: Fn(S) -> S,
    A: Fn(Rectangle<i32>, Point<S>) -> WorkspaceAreas<S>,
    B: Fn(u32, ProgressAndVelocity<S>, ProgressAndVelocity<S>) -> ProgressAndVelocity<S>,
>(
    started: AnimationInfo<S>,
    direction: WindowPosition,
    slot: WindowPosition,
    area: Rectangle<i32>,
    later: u128,
    motion: &Motion<S, L, C, A, B>,
    areas: WindowAreas<S>,
)
    requires
        progress_since(started.start_time, later) >= ANIMATION_MS,
        motion.shows(WorkspaceState::Animating(started), direction, area, later, areas),
        forall|other: WindowPosition, end: ProgressAndVelocity<S>, value: ProgressAndVelocity<S>|
            #[trigger]
            call_ensures(motion.blend, (ANIMATION_MS, started.start_info.at(other), end), value)
                && is_end(end, motion.ends) ==> value.progress == end.progress,
    ensures
        areas.at(slot).progress == (if slot == direction {
            motion.ends.zero
        } else {
            motion.ends.one
        }),
        settled(WorkspaceState::Animating(started), later) == WorkspaceState::<S>::Normal,
{
    assert(blended(
        &motion.blend,
        ANIMATION_MS,
        started.start_info.at(slot),
        WindowAreas::<S>::focussed_on(direction, motion.ends).at(slot),
        areas.at(slot),
    ));
}

/// Windows at rest stay where they are until something moves them.
pub proof fn windows_at_rest_stay<
    S,
    L: Fn(S, S) -> bool,
    C: Fn(S) -> S,
    A: Fn(Rectangle<i32>, Point<S>) -> WorkspaceAreas<S>,
    B: Fn(u32, ProgressAndVelocity<S>, ProgressAndVelocity<S>) -> ProgressAndVelocity<S>,
>(
    focussed: WindowPosition,
    area: Rectangle<i32>,
    now: u128,
    later: u128,
    motion: &Motion<S, L, C, A, B>,
    areas: WindowAreas<S>,
    areas_later: WindowAreas<S>,
)
    requires
        motion.shows(WorkspaceState::Normal, focussed, area, now, areas),
        motion.shows(
            settled(WorkspaceState::<S>::Normal, now),
            focussed,
            area,
            later,
            areas_later,
        ),
    ensures
        areas_later == areas,
{
}

/// `blend` moves windows evenly from where they are to the main area or to their slots, and no
/// farther than there. `parts` says how many parts of `whole` a progress value stands for, and `slack`
/// by how much a value may miss the exact one, in parts of a millisecond of the whole way.
pub open spec fn blends_evenly<
    S,
    B: Fn(u32, ProgressAndVelocity<S>, ProgressAndVelocity<S>) -> ProgressAndVelocity<S>,
>(blend: &B, parts: spec_fn(S) -> int, whole: int, slack: int) -> bool {
    forall|
        millis: u32,
        start: ProgressAndVelocity<S>,
        end: ProgressAndVelocity<S>,
        value: ProgressAndVelocity<S>,
    | #[trigger]
        call_ensures(*blend, (millis, start, end), value) && 0 <= parts(start.progress) <= whole && (
        parts(end.progress) == 0 || parts(end.progress) == whole) ==> {
            let exact = on_line(
                parts(start.progress),
                parts(end.progress),
                part_of_way(millis as int, ANIMATION_MS as int),
                ANIMATION_MS as int,
            );
            -slack <= ANIMATION_MS * part_of_way(parts(value.progress), whole) - exact <= slack
        }
}

/// When the focus goes from one side of the main area to the opposite one, no gap opens between the
/// window that leaves and the one that comes, at any time: they stay as far apart as a window and its
/// padding are long, give or take one pixel, and across that direction they do not differ at all.
/// Blending may miss by so little that it makes less than half a pixel of that length.
pub proof fn change_of_sides_leaves_no_gap<
    S,
    L: Fn(S, S) -> bool,
    C: Fn(S) -> S,
    A: Fn(Rectangle<i32>, Point<S>) -> WorkspaceAreas<S>,
    B: Fn(u32, ProgressAndVelocity<S>, ProgressAndVelocity<S>) -> ProgressAndVelocity<S>,
    P: Fn(Point<i64>, Point<i64>, S) -> Point<i32>,
>(
    started: AnimationInfo<S>,
    leaving: WindowPosition,
    coming: WindowPosition,
    area: Rectangle<i32>,
    now: u128,
    motion: &Motion<S, L, C, A, B>,
    areas: WindowAreas<S>,
    place: &P,
    positions: WorkspaceAreas<Point<i32>>,
    parts: spec_fn(S) -> int,
    whole: int,
    slack: int,
)
    requires
        motion.starts(WorkspaceState::Normal, leaving, started.start_time, started),
        motion.shows(WorkspaceState::Animating(started), coming, area, now, areas),
        are_positions(place, areas, area, positions),
        are_opposite(leaving, coming),
        whole > 0,
        parts(motion.ends.zero) == 0,
        parts(motion.ends.one) == whole,
        blends_evenly(&motion.blend, parts, whole, slack),
        follows_lines(place, parts, whole),
        -ANIMATION_MS * whole < 4 * (slack * steps(columns(coming), area.size.w + PADDING))
            < ANIMATION_MS * whole,
        -ANIMATION_MS * whole < 4 * (slack * steps(rows(coming), area.size.h + PADDING))
            < ANIMATION_MS * whole,
        has_pixel(on_way(area, leaving, parts(areas.at(leaving).progress), whole).x, whole),
        has_pixel(on_way(area, leaving, parts(areas.at(leaving).progress), whole).y, whole),
        has_pixel(on_way(area, coming, parts(areas.at(coming).progress), whole).x, whole),
        has_pixel(on_way(area, coming, parts(areas.at(coming).progress), whole).y, whole),
    ensures
        ({
            let step_x = steps(columns(coming), area.size.w + PADDING);
            let step_y = steps(rows(coming), area.size.h + PADDING);
            let left_at = positions.at(leaving);
            let come_to = positions.at(coming);
            &&& -1 <= come_to.x - left_at.x - step_x <= 1
            &&& -1 <= come_to.y - left_at.y - step_y <= 1
            &&& columns(coming) == 0 ==> come_to.x == left_at.x
            &&& rows(coming) == 0 ==> come_to.y == left_at.y
        }),
{
    let millis = way_since(started.start_time, now);
    let part = part_of_way(millis as int, ANIMATION_MS as int);
    let end = WindowAreas::<S>::focussed_on(coming, motion.ends);
    assert(leaving != coming);
    assert(blended(
        &motion.blend,
        millis,
        started.start_info.at(leaving),
        end.at(leaving),
        areas.at(leaving),
    ));
    assert(blended(
        &motion.blend,
        millis,
        started.start_info.at(coming),
        end.at(coming),
        areas.at(coming),
    ));
    let gone = part_of_way(parts(areas.at(leaving).progress), whole);
    let left = part_of_way(parts(areas.at(coming).progress), whole);
    assert(on_line(0, whole, part, ANIMATION_MS as int) == part * whole);
    assert(on_line(whole, 0, part, ANIMATION_MS as int) == (ANIMATION_MS - part) * whole);
    assert(part * whole + (ANIMATION_MS - part) * whole == ANIMATION_MS * whole) by (nonlinear_arith);
    parts_of_both_add_up(
        gone + left - whole,
        slack,
        whole,
        steps(columns(coming), area.size.w + PADDING),
    );
    parts_of_both_add_up(
        gone + left - whole,
        slack,
        whole,
        steps(rows(coming), area.size.h + PADDING),
    );
    opposite_windows_leave_no_gap(place, areas, area, positions, leaving, coming, parts, whole);
}

/// What is missing of one makes less than half a pixel of a step.
proof fn parts_of_both_add_up(missing: int, slack: int, whole: int, step: int)
    requires
        -2 * slack <= ANIMATION_MS * missing <= 2 * slack,
        -ANIMATION_MS * whole < 4 * (slack * step) < ANIMATION_MS * whole,
    ensures
        -whole < 2 * (missing * step) < whole,
{
    let part = ANIMATION_MS * missing;
    assert(-ANIMATION_MS * whole == -300 * whole && ANIMATION_MS * whole == 300 * whole);
    assert(part * step == 300 * (missing * step)) by (nonlinear_arith)
        requires
            part == 300 * missing,
    ;
    if step >= 0 {
        assert(-2 * (slack * step) <= part * step <= 2 * (slack * step)) by (nonlinear_arith)
            requires
                step >= 0,
                -2 * slack <= part <= 2 * slack,
        ;
    } else {
        assert(2 * (slack * step) <= part * step <= -2 * (slack * step)) by (nonlinear_arith)
            requires
                step < 0,
                -2 * slack <= part <= 2 * slack,
        ;
    }
}

/// Windows that nothing moves, or that a gesture holds, stay so; an animation is done once its time is
/// over, and not before.
pub proof fn animation_is_done_when_its_time_is_over<S>(state: WorkspaceState<S>, now: u128)
    requires
        began_before(state, now),
    ensures
        !(state is Animating) ==> settled(state, now) == state,
        state matches WorkspaceState::Animating(info) ==> {
            let elapsed = now - info.start_time;
            &&& elapsed < 300_000_000 ==> settled(state, now) == state
            &&& 300_000_000 <= elapsed < 1_000_000_000 ==> settled(state, now) is Normal
            &&& elapsed >= 2_000_000_000 ==> settled(state, now) is Normal
        },
{
}

/// A change of the focus begins when it is asked for.
pub proof fn focus_change_begins_at_once<
    S,
    L: Fn(S, S) -> bool,
    C: Fn(S) -> S,
    A: Fn(Rectangle<i32>, Point<S>) -> WorkspaceAreas<S>,
    B: Fn(u32, ProgressAndVelocity<S>, ProgressAndVelocity<S>) -> ProgressAndVelocity<S>,
>(
    state: WorkspaceState<S>,
    focussed: WindowPosition,
    now: u128,
    motion: &Motion<S, L, C, A, B>,
    started: AnimationInfo<S>,
    slot: WindowPosition,
)
    requires
        motion.starts(state, focussed, now, started),
        began_before(state, now),
    ensures
        started.start_time == now,
        !(state is Grabbed),
        state is Normal ==> started.start_info.at(slot).progress == (if slot == focussed {
            motion.ends.zero
        } else {
            motion.ends.one
        }),
        state matches WorkspaceState::Animating(info) ==> {
            let end = if slot == focussed {
                ProgressAndVelocity { progress: motion.ends.zero, velocity: motion.ends.one }
            } else {
                ProgressAndVelocity { progress: motion.ends.one, velocity: motion.ends.zero }
            };
            now - info.start_time < 300_000_000 ==> call_ensures(
                motion.blend,
                (((now - info.start_time) / 1_000_000) as u32, info.start_info.at(slot), end),
                started.start_info.at(slot),
            )
        },
{
    if let WorkspaceState::Animating(info) = state {
        windows_are_blended_by_the_clock(
            info,
            focussed,
            now,
            motion.ends,
            &motion.blend,
            started.start_info,
            slot,
        );
    }
}

} // verus!
