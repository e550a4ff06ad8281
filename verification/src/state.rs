//! The state of the window manager.

use vstd::prelude::*;
use vstd::string::*;

use crate::cursor::{CursorImageStatus, DndIcon, DEFAULT_ICON};
use crate::extra_state;
use crate::extra_state::{
    completes, decides, gesture_holds_windows_at_their_distances, orders, progress_since,
    windows_are_blended_by_the_clock, ProgressAndVelocity, WindowAreas, WindowPosition,
    WorkspaceAreas,
};
use crate::geometry::{Point, Rectangle, Size};
use crate::input::position_windows;
use crate::motion::{
    animation_is_done_when_its_time_is_over, areas_at, began_before, settled, Motion,
};
use crate::outputs::{is_output_at, output_at, output_at_is_unique, Output};
use crate::placement::{
    can_place, corner, empty_workspace, no_windows, only_windows_in_slots_are_touched,
    puts_in_place, windows_are_shown_once_and_in_order, windows_are_shown_where_place_says,
    windows_differ, AnvilWorkspace, Window, WindowEffect, MARGIN,
};
use crate::udev::UdevData;

verus! {

/// How long an animation takes, in milliseconds.
pub const ANIMATION_MS: u32 = 300;

/// The milliseconds of an animation that have run after `elapsed` nanoseconds, as a mathematical
/// value: the milliseconds of the current second, or the whole animation from the third second on.
pub open spec fn progress_after(elapsed: nat) -> nat {
    if elapsed / 1_000_000_000 > 1 {
        ANIMATION_MS as nat
    } else {
        elapsed % 1_000_000_000 / 1_000_000
    }
}

/// The milliseconds of an animation that have run after `elapsed` nanoseconds.
///
/// The animation is over when they reach [`ANIMATION_MS`].
pub fn get_progress(elapsed: u128) -> (millis: u32)
    ensures
        millis == progress_after(elapsed as nat),
        millis < 1_000,
{
    let seconds: u128 = elapsed / 1_000_000_000;
    if seconds > 1 {
        ANIMATION_MS
    } else {
        let millis: u128 = elapsed % 1_000_000_000 / 1_000_000;
        millis as u32
    }
}

/// An animation runs for its time within the first second, and is over from the third second on.
pub proof fn animation_is_over_in_time(elapsed: nat)
    ensures
        elapsed < 1_000_000_000 ==> (progress_after(elapsed) >= ANIMATION_MS <==> elapsed
            >= 300_000_000),
        elapsed >= 2_000_000_000 ==> progress_after(elapsed) == ANIMATION_MS,
{
}

/// The windows of one workspace.
pub type SmallvilWorkspace = AnvilWorkspace;

/// An animation of the position of a workspace.
#[derive(Debug, Clone, Copy)]
pub struct AnimationInfo<S> {
    /// When the animation began, in nanoseconds since the epoch.
    pub start_time: u128,
    pub start_pos: Point<S>,
    pub start_velocity: Point<S>,
    /// The slot that the workspace is moved to.
    pub end_pos: WindowPosition,
}

/// Where a workspace is, as a single position.
#[derive(Debug, Clone, Copy)]
pub enum WorkspaceState<S> {
    /// At the position of a window.
    WindowFocussed(WindowPosition),
    /// On its way to the position of a window.
    Animating(AnimationInfo<S>),
    /// Where a gesture holds it.
    Grabbed(Point<S>),
}

/// Any slot of any area can be asked for its position.
pub open spec fn can_rest<S, R: Fn(Rectangle<i32>, WindowPosition) -> Point<S>>(
    rest_at: &R,
) -> bool {
    forall|area: Rectangle<i32>, slot: WindowPosition| #[trigger]
        call_requires(*rest_at, (area, slot))
}

/// Any two points can be mixed at any time of an animation.
pub open spec fn can_mix<S, X: Fn(u32, Point<S>, Point<S>) -> Point<S>>(mix: &X) -> bool {
    forall|millis: u32, start: Point<S>, end: Point<S>| #[trigger]
        call_requires(*mix, (millis, start, end))
}

/// `pos` is on the way of an animation, so many milliseconds after it began.
pub open spec fn is_on_the_way<
    S,
    R: Fn(Rectangle<i32>, WindowPosition) -> Point<S>,
    X: Fn(u32, Point<S>, Point<S>) -> Point<S>,
>(
    info: AnimationInfo<S>,
    area: Rectangle<i32>,
    millis: u32,
    rest_at: &R,
    mix: &X,
    pos: Point<S>,
) -> bool {
    exists|end: Point<S>|
        {
            &&& #[trigger] call_ensures(*rest_at, (area, info.end_pos), end)
            &&& call_ensures(*mix, (millis, info.start_pos, end), pos)
        }
}

/// `animated` tells how a workspace moves at `now`.
pub open spec fn tells_motion<
    S,
    R: Fn(Rectangle<i32>, WindowPosition) -> Point<S>,
    X: Fn(u32, Point<S>, Point<S>) -> Point<S>,
>(
    info: AnimationInfo<S>,
    area: Rectangle<i32>,
    now: u128,
    speed: S,
    rest_at: &R,
    mix: &X,
    animated: (Point<S>, Point<S>, bool),
) -> bool {
    &&& is_on_the_way(
        info,
        area,
        progress_since(info.start_time, now),
        rest_at,
        mix,
        animated.0,
    )
    &&& animated.1 == (Point { x: speed, y: speed })
    &&& animated.2 == (progress_since(info.start_time, now) >= ANIMATION_MS)
}

/// The position and the velocity of a workspace that is animated, and whether the animation is over.
///
/// `rest_at` tells the position of a slot, `mix` a point on the way between two, and `speed` how fast
/// the workspace moves in either direction.
pub fn get_pos_and_velocity<
    S: Copy,
    R: Fn(Rectangle<i32>, WindowPosition) -> Point<S>,
    X: Fn(u32, Point<S>, Point<S>) -> Point<S>,
>(
    info: &AnimationInfo<S>,
    area: Rectangle<i32>,
    now: u128,
    speed: S,
    rest_at: &R,
    mix: &X,
) -> (animated: (Point<S>, Point<S>, bool))
    requires
        info.start_time <= now,
        can_rest(rest_at),
        can_mix(mix),
    ensures
        tells_motion(*info, area, now, speed, rest_at, mix, animated),
{
    let millis: u32 = get_progress(now - info.start_time);
    let end: Point<S> = (*rest_at)(area, info.end_pos);
    let pos: Point<S> = (*mix)(millis, info.start_pos, end);
    (pos, Point { x: speed, y: speed }, millis >= ANIMATION_MS)
}

/// The window manager. `M` tells what moves the windows of the current workspace.
#[derive(Debug)]
pub struct Smallvil<M> {
    /// Which of the workspaces is shown.
    pub cur_workspace: usize,
    pub cur_workspace_state: M,
    /// The slot of the window that fills the main area, or is about to.
    pub cur_workspace_focussed_window: WindowPosition,
    /// Which of the outputs the pointer is on.
    pub cur_monitor: usize,
    pub workspaces: Vec<SmallvilWorkspace>,
    pub seat_name: String,
    /// Whether the compositor goes on.
    pub running: bool,
    pub cursor_status: CursorImageStatus,
    pub dnd_icon: Option<DndIcon>,
    /// The display devices, where the compositor drives them itself.
    pub backend_data: Option<UdevData>,
}

/// The area of an output that the main window fills: the output without a margin on each side.
pub open spec fn within_margins(geometry: Rectangle<i32>) -> Rectangle<i32> {
    Rectangle {
        loc: geometry.loc.spec_shifted(Point { x: MARGIN, y: MARGIN }),
        size: geometry.size.spec_without(
            Size { w: (2 * MARGIN) as i32, h: (2 * MARGIN) as i32 },
        ),
    }
}

/// The area that the main window fills on one of the outputs, if that is mapped.
pub open spec fn main_area(outputs: Seq<Output>, monitor: usize) -> Option<Rectangle<i32>> {
    if monitor < outputs.len() {
        match outputs[monitor as int].geometry {
            Some(geometry) => Some(within_margins(geometry)),
            None => None,
        }
    } else {
        None
    }
}

/// The main window keeps its distance from every edge of its output, where that is large enough.
pub proof fn main_window_keeps_its_margins(geometry: Rectangle<i32>)
    requires
        geometry.size.w >= 2 * MARGIN,
        geometry.size.h >= 2 * MARGIN,
        geometry.loc.x + geometry.size.w <= i32::MAX,
        geometry.loc.y + geometry.size.h <= i32::MAX,
    ensures
        ({
            let area = within_margins(geometry);
            &&& area.loc.x == geometry.loc.x + MARGIN
            &&& area.loc.y == geometry.loc.y + MARGIN
            &&& area.loc.x + area.size.w == geometry.loc.x + geometry.size.w - MARGIN
            &&& area.loc.y + area.size.h == geometry.loc.y + geometry.size.h - MARGIN
        }),
{
}

impl<M> Smallvil<M> {
    /// The current workspace is one of the workspaces.
    pub open spec fn wf(self) -> bool {
        self.cur_workspace < self.workspaces@.len()
    }

    /// The windows of the current workspace.
    pub open spec fn current(self) -> SmallvilWorkspace {
        self.workspaces@[self.cur_workspace as int]
    }

    /// `state` is that of a window manager that begins.
    pub open spec fn begins(
        motion: M,
        seat: Option<String>,
        backend_data: Option<UdevData>,
        state: Self,
    ) -> bool {
        &&& state.wf()
        &&& state.cur_workspace == 0
        &&& state.cur_workspace_state == motion
        &&& state.cur_workspace_focussed_window == WindowPosition::Left
        &&& state.cur_monitor == 0
        &&& state.workspaces@ == seq![no_windows()]
        &&& state.seat_name@ == (match seat {
            Some(name) => name@,
            None => "winit"@,
        })
        &&& state.running
        &&& state.cursor_status == CursorImageStatus::Named(DEFAULT_ICON)
        &&& state.dnd_icon is None
        &&& state.backend_data == backend_data
    }

    /// The window manager with one empty workspace, in the given state of motion. The seat is that of
    /// the session, where there is one.
    pub fn in_motion(motion: M, seat: Option<String>, backend_data: Option<UdevData>) -> (state: Self)
        ensures
            Self::begins(motion, seat, backend_data, state),
    {
        let mut workspaces: Vec<SmallvilWorkspace> = Vec::new();
        workspaces.push(empty_workspace());
        Smallvil {
            cur_workspace: 0,
            cur_workspace_state: motion,
            cur_workspace_focussed_window: WindowPosition::Left,
            cur_monitor: 0,
            workspaces,
            seat_name: match seat {
                Some(name) => name,
                None => String::from_str("winit"),
            },
            running: true,
            cursor_status: CursorImageStatus::Named(DEFAULT_ICON),
            dnd_icon: None,
            backend_data,
        }
    }

    /// `after` comes of a pointer at a pixel.
    pub open spec fn follows_pointer(
        self,
        outputs: Seq<Output>,
        location: Point<i32>,
        after: Self,
    ) -> bool {
        exists|found: Option<usize>| #[trigger]
            is_output_at(outputs, location, found) && after == (Smallvil {
                cur_monitor: match found {
                    Some(index) => index,
                    None => self.cur_monitor,
                },
                ..self
            })
    }

    /// Takes the first output under the pointer as the current one; where there is none, the current
    /// one stays.
    pub fn update_cur_monitor(&mut self, outputs: &Vec<Output>, location: Point<i32>)
        ensures
            old(self).follows_pointer(outputs@, location, *final(self)),
    {
        let found: Option<usize> = output_at(outputs, location);
        if let Some(index) = found {
            self.cur_monitor = index;
        }
        assert(is_output_at(outputs@, location, found));
    }

    /// The area occupied by the main window.
    pub fn main_window_area(&self, outputs: &Vec<Output>) -> (area: Option<Rectangle<i32>>)
        ensures
            area == main_area(outputs@, self.cur_monitor),
    {
        if self.cur_monitor >= outputs.len() {
            return None;
        }
        let Some(geometry) = outputs[self.cur_monitor].geometry else {
            return None;
        };
        Some(
            Rectangle {
                loc: geometry.loc.shifted(Point { x: MARGIN, y: MARGIN }),
                size: geometry.size.without(Size { w: MARGIN * 2, h: MARGIN * 2 }),
            },
        )
    }

    /// Whose surfaces are looked at: the windows, then the surface that the pointer shows, then the
    /// drag icon.
    pub open spec fn scanout_targets(self, elements: Seq<Element>) -> Seq<ScanoutTarget> {
        elements.map_values(|element: Element| ScanoutTarget::Window(element.window)) + (
        match self.cursor_status {
            CursorImageStatus::Surface(surface) => seq![ScanoutTarget::Surface(surface)],
            _ => Seq::empty(),
        }) + (match self.dnd_icon {
            Some(icon) => seq![ScanoutTarget::Surface(icon.surface)],
            None => Seq::empty(),
        })
    }

    /// Lists whose surfaces are looked at to find out which output shows them.
    pub fn update_primary_scanout_output(&self, elements: &Vec<Element>) -> (targets: Vec<
        ScanoutTarget,
    >)
        ensures
            targets@ == self.scanout_targets(elements@),
    {
        let ghost as_target = |element: Element| ScanoutTarget::Window(element.window);
        let mut targets: Vec<ScanoutTarget> = Vec::new();
        let mut index: usize = 0;
        while index < elements.len()
            invariant
                index <= elements@.len(),
                as_target == (|element: Element| ScanoutTarget::Window(element.window)),
                targets@ == elements@.take(index as int).map_values(as_target),
            decreases elements@.len() - index,
        {
            targets.push(ScanoutTarget::Window(elements[index].window));
            assert(elements@.take(index + 1).map_values(as_target) =~= elements@.take(
                index as int,
            ).map_values(as_target).push(ScanoutTarget::Window(elements@[index as int].window)));
            index = index + 1;
        }
        assert(elements@.take(elements@.len() as int) =~= elements@);
        if let CursorImageStatus::Surface(surface) = self.cursor_status {
            targets.push(ScanoutTarget::Surface(surface));
        }
        if let Some(icon) = &self.dnd_icon {
            targets.push(ScanoutTarget::Surface(icon.surface));
        }
        targets
    }

    /// What is done after a repaint of an output, as a mathematical value.
    pub open spec fn repaint_effects(
        self,
        elements: Seq<Element>,
        output: u64,
        has_feedback: bool,
    ) -> Seq<RepaintEffect> {
        self.scanout_targets(elements).map_values(
            |target: ScanoutTarget| RepaintEffect::UpdateScanout(target),
        ) + told_clients(windows_shown_on(elements, output), has_feedback)
    }

    /// Lists what is done after a repaint of an output: it is found out which output shows each
    /// surface, then the clients of the windows on the output are told.
    pub fn post_repaint(&self, elements: &Vec<Element>, output: u64, has_feedback: bool) -> (effects:
        Vec<RepaintEffect>)
        ensures
            effects@ == self.repaint_effects(elements@, output, has_feedback),
    {
        let ghost as_effect = |target: ScanoutTarget| RepaintEffect::UpdateScanout(target);
        let targets: Vec<ScanoutTarget> = self.update_primary_scanout_output(elements);
        let mut effects: Vec<RepaintEffect> = Vec::new();
        let mut index: usize = 0;
        while index < targets.len()
            invariant
                index <= targets@.len(),
                as_effect == (|target: ScanoutTarget| RepaintEffect::UpdateScanout(target)),
                effects@ == targets@.take(index as int).map_values(as_effect),
            decreases targets@.len() - index,
        {
            effects.push(RepaintEffect::UpdateScanout(targets[index]));
            assert(targets@.take(index + 1).map_values(as_effect) =~= targets@.take(
                index as int,
            ).map_values(as_effect).push(RepaintEffect::UpdateScanout(targets@[index as int])));
            index = index + 1;
        }
        assert(targets@.take(targets@.len() as int) =~= targets@);
        let ghost looked_at = effects@;
        let windows: Vec<Window> = take_presentation_feedback(elements, output);
        let mut next: usize = 0;
        assert(windows@.take(0) =~= Seq::empty());
        while next < windows.len()
            invariant
                next <= windows@.len(),
                effects@ == looked_at + told_clients(windows@.take(next as int), has_feedback),
            decreases windows@.len() - next,
        {
            assert(windows@.take(next + 1).drop_last() =~= windows@.take(next as int));
            effects.push(RepaintEffect::SendFrame(windows[next]));
            if has_feedback {
                effects.push(RepaintEffect::SendDmabufFeedback(windows[next]));
            }
            next = next + 1;
        }
        assert(windows@.take(windows@.len() as int) =~= windows@);
        effects
    }

    /// The surface under a point and where it lies on the screen.
    ///
    /// `element_under` finds the window under a point and where it lies; `query` asks a window that
    /// lies there for its surface under the point, with the place of the surface within the window.
    pub fn surface_under<
        S: Copy,
        U: Fn(Point<S>) -> Option<(Window, Point<i32>)>,
        Q: Fn(Window, Point<i32>, Point<S>) -> Option<(u64, Point<i32>)>,
    >(&self, pos: Point<S>, element_under: &U, query: &Q) -> (found: Option<(u64, Point<i32>)>)
        requires
            can_find(element_under),
            can_query(query),
        ensures
            is_surface_under(element_under, query, pos, found),
    {
        let under: Option<(Window, Point<i32>)> = (*element_under)(pos);
        let Some((window, location)) = under else {
            return None;
        };
        let own: Option<(u64, Point<i32>)> = (*query)(window, location, pos);
        match own {
            Some((surface, place)) => Some((surface, place.shifted(location))),
            None => None,
        }
    }
}

impl<S> Smallvil<extra_state::WorkspaceState<S>> {
    /// `effects` can be what puts the windows of the current workspace where they are at `now`.
    pub open spec fn moves_windows<
        L: Fn(S, S) -> bool,
        C: Fn(S) -> S,
        A: Fn(Rectangle<i32>, Point<S>) -> WorkspaceAreas<S>,
        B: Fn(u32, ProgressAndVelocity<S>, ProgressAndVelocity<S>) -> ProgressAndVelocity<S>,
        P: Fn(Point<i64>, Point<i64>, S) -> Point<i32>,
    >(
        self,
        area: Rectangle<i32>,
        geometries: WorkspaceAreas<Rectangle<i32>>,
        now: u128,
        motion: &Motion<S, L, C, A, B>,
        place: &P,
        effects: Seq<WindowEffect>,
    ) -> bool {
        exists|areas: WindowAreas<S>| #[trigger]
            motion.shows(
                self.cur_workspace_state,
                self.cur_workspace_focussed_window,
                area,
                now,
                areas,
            ) && puts_in_place(
                self.current(),
                geometries,
                areas,
                area,
                area.size,
                false,
                place,
                effects,
            )
    }

    /// `after` and `effects` can come of a frame at `now`.
    pub open spec fn shows_frame<
        L: Fn(S, S) -> bool,
        C: Fn(S) -> S,
        A: Fn(Rectangle<i32>, Point<S>) -> WorkspaceAreas<S>,
        B: Fn(u32, ProgressAndVelocity<S>, ProgressAndVelocity<S>) -> ProgressAndVelocity<S>,
        P: Fn(Point<i64>, Point<i64>, S) -> Point<i32>,
    >(
        self,
        outputs: Seq<Output>,
        geometries: WorkspaceAreas<Rectangle<i32>>,
        now: u128,
        motion: &Motion<S, L, C, A, B>,
        place: &P,
        after: Self,
        effects: Seq<WindowEffect>,
    ) -> bool {
        match main_area(outputs, self.cur_monitor) {
            None => effects.len() == 0 && after == self,
            Some(area) => {
                &&& self.moves_windows(area, geometries, now, motion, place, effects)
                &&& after == (Smallvil {
                    cur_workspace_state: settled(self.cur_workspace_state, now),
                    ..self
                })
            },
        }
    }

    /// Lists what puts the windows of the current workspace where they are at `now`; an animation
    /// that is over is done then. Without a main area nothing happens.
    ///
    /// Should be called on every render.
    pub fn update_workspace_position<
        L: Fn(S, S) -> bool,
        C: Fn(S) -> S,
        A: Fn(Rectangle<i32>, Point<S>) -> WorkspaceAreas<S>,
        B: Fn(u32, ProgressAndVelocity<S>, ProgressAndVelocity<S>) -> ProgressAndVelocity<S>,
        P: Fn(Point<i64>, Point<i64>, S) -> Point<i32>,
    >(
        &mut self,
        outputs: &Vec<Output>,
        geometries: &WorkspaceAreas<Rectangle<i32>>,
        now: u128,
        motion: &Motion<S, L, C, A, B>,
        place: &P,
    ) -> (effects: Vec<WindowEffect>) where S: Copy
        requires
            old(self).wf(),
            main_area(outputs@, old(self).cur_monitor) is Some ==> began_before(
                old(self).cur_workspace_state,
                now,
            ),
            motion.ready(),
            can_place(place),
        ensures
            final(self).wf(),
            began_before(old(self).cur_workspace_state, now) ==> began_before(
                final(self).cur_workspace_state,
                now,
            ),
            old(self).shows_frame(
                outputs@,
                *geometries,
                now,
                motion,
                place,
                *final(self),
                effects@,
            ),
    {
        let Some(area) = self.main_window_area(outputs) else {
            return Vec::new();
        };
        let (areas, finished) = areas_at(
            &self.cur_workspace_state,
            self.cur_workspace_focussed_window,
            area,
            now,
            motion,
        );
        if finished {
            self.cur_workspace_state = extra_state::WorkspaceState::Normal;
        }
        position_windows(self, &areas, area, area.size, geometries, place)
    }
}

impl<S> Smallvil<WorkspaceState<S>> {
    /// The window manager with one empty workspace that is focussed on its left window.
    pub fn new(seat: Option<String>, backend_data: Option<UdevData>) -> (state: Self)
        ensures
            Self::begins(
                WorkspaceState::WindowFocussed(WindowPosition::Left),
                seat,
                backend_data,
                state,
            ),
    {
        Self::in_motion(WorkspaceState::WindowFocussed(WindowPosition::Left), seat, backend_data)
    }

    /// `pos` and `after` can come of asking for the position at `now`.
    pub open spec fn tells_pos<
        R: Fn(Rectangle<i32>, WindowPosition) -> Point<S>,
        X: Fn(u32, Point<S>, Point<S>) -> Point<S>,
    >(
        self,
        outputs: Seq<Output>,
        now: u128,
        rest_at: &R,
        mix: &X,
        pos: Option<Point<S>>,
        after: Self,
    ) -> bool {
        &&& pos is Some <==> main_area(outputs, self.cur_monitor) is Some
        &&& pos matches Some(pos) ==> {
            let area = main_area(outputs, self.cur_monitor)->0;
            match self.cur_workspace_state {
                WorkspaceState::WindowFocussed(window) => call_ensures(
                    *rest_at,
                    (area, window),
                    pos,
                ),
                WorkspaceState::Animating(info) => is_on_the_way(
                    info,
                    area,
                    progress_since(info.start_time, now),
                    rest_at,
                    mix,
                    pos,
                ),
                WorkspaceState::Grabbed(held) => pos == held,
            }
        }
        &&& after == (Smallvil {
            cur_workspace_state: match self.cur_workspace_state {
                WorkspaceState::Animating(info) => if pos is Some && progress_since(
                    info.start_time,
                    now,
                ) >= ANIMATION_MS {
                    WorkspaceState::WindowFocussed(info.end_pos)
                } else {
                    WorkspaceState::Animating(info)
                },
                other => other,
            },
            ..self
        })
    }

    /// The position of the current workspace.
    ///
    /// - `WindowFocussed`: the workspace sits at the position of the focussed window
    /// - `Animating`: the position is on its way; once the animation is over the state becomes
    ///   `WindowFocussed`
    /// - `Grabbed`: the workspace follows the gesture
    pub fn get_pos<
        R: Fn(Rectangle<i32>, WindowPosition) -> Point<S>,
        X: Fn(u32, Point<S>, Point<S>) -> Point<S>,
    >(
        &mut self,
        outputs: &Vec<Output>,
        now: u128,
        speed: S,
        rest_at: &R,
        mix: &X,
    ) -> (pos: Option<Point<S>>) where S: Copy
        requires
            main_area(outputs@, old(self).cur_monitor) is Some ==> (old(
                self,
            ).cur_workspace_state matches WorkspaceState::Animating(info) ==> info.start_time
                <= now),
            can_rest(rest_at),
            can_mix(mix),
        ensures
            old(self).tells_pos(outputs@, now, rest_at, mix, pos, *final(self)),
    {
        let Some(area) = self.main_window_area(outputs) else {
            return None;
        };
        match self.cur_workspace_state {
            WorkspaceState::WindowFocussed(window) => {
                let pos: Point<S> = (*rest_at)(area, window);
                Some(pos)
            },
            WorkspaceState::Animating(info) => {
                let (pos, _velocity, finished) = get_pos_and_velocity(
                    &info,
                    area,
                    now,
                    speed,
                    rest_at,
                    mix,
                );
                if finished {
                    self.cur_workspace_state = WorkspaceState::WindowFocussed(info.end_pos);
                }
                Some(pos)
            },
            WorkspaceState::Grabbed(pos) => Some(pos),
        }
    }
}

/// Something whose surfaces are shown.
#[derive(Debug, Clone, Copy, PartialEq, Eq)]
pub enum ScanoutTarget {
    Window(Window),
    Surface(u64),
}

/// Any point can be asked for the window under it.
pub open spec fn can_find<S, U: Fn(Point<S>) -> Option<(Window, Point<i32>)>>(
    element_under: &U,
) -> bool {
    forall|pos: Point<S>| #[trigger] call_requires(*element_under, (pos,))
}

/// Any window, wherever it lies, can be asked for its surface under any point.
pub open spec fn can_query<S, Q: Fn(Window, Point<i32>, Point<S>) -> Option<(u64, Point<i32>)>>(
    query: &Q,
) -> bool {
    forall|window: Window, location: Point<i32>, pos: Point<S>| #[trigger]
        call_requires(*query, (window, location, pos))
}

/// `found` can be the surface of a window under a point, with its place on the screen.
pub open spec fn is_surface_of<
    S,
    Q: Fn(Window, Point<i32>, Point<S>) -> Option<(u64, Point<i32>)>,
>(
    query: &Q,
    window: Window,
    location: Point<i32>,
    pos: Point<S>,
    found: Option<(u64, Point<i32>)>,
) -> bool {
    exists|own: Option<(u64, Point<i32>)>|
        {
            &&& #[trigger] call_ensures(*query, (window, location, pos), own)
            &&& found == (match own {
                Some((surface, place)) => Some((surface, place.spec_shifted(location))),
                None => None,
            })
        }
}

/// `found` can be the surface under a point.
pub open spec fn is_surface_under<
    S,
    U: Fn(Point<S>) -> Option<(Window, Point<i32>)>,
    Q: Fn(Window, Point<i32>, Point<S>) -> Option<(u64, Point<i32>)>,
>(
    element_under: &U,
    query: &Q,
    pos: Point<S>,
    found: Option<(u64, Point<i32>)>,
) -> bool {
    exists|under: Option<(Window, Point<i32>)>|
        {
            &&& #[trigger] call_ensures(*element_under, (pos,), under)
            &&& match under {
                None => found is None,
                Some((window, location)) => is_surface_of(query, window, location, pos, found),
            }
        }
}

/// A window on the screen, with the outputs that it is shown on.
#[derive(Debug)]
pub struct Element {
    pub window: Window,
    /// The numbers of the outputs.
    pub outputs: Vec<u64>,
}

/// The windows that are shown on an output, in their order.
pub open spec fn windows_shown_on(elements: Seq<Element>, output: u64) -> Seq<Window>
    decreases elements.len(),
{
    if elements.len() == 0 {
        Seq::empty()
    } else {
        let before = windows_shown_on(elements.drop_last(), output);
        if elements.last().outputs@.contains(output) {
            before.push(elements.last().window)
        } else {
            before
        }
    }
}

fn is_shown_on(outputs: &Vec<u64>, output: u64) -> (shown: bool)
    ensures
        shown == outputs@.contains(output),
{
    let mut index: usize = 0;
    while index < outputs.len()
        invariant
            index <= outputs@.len(),
            forall|before: int| 0 <= before < index ==> outputs@[before] != output,
        decreases outputs@.len() - index,
    {
        if outputs[index] == output {
            return true;
        }
        index = index + 1;
    }
    false
}

/// The windows whose clients are told that a frame of the output was presented: those shown on it.
pub fn take_presentation_feedback(elements: &Vec<Element>, output: u64) -> (windows: Vec<Window>)
    ensures
        windows@ == windows_shown_on(elements@, output),
{
    let mut windows: Vec<Window> = Vec::new();
    let mut index: usize = 0;
    assert(elements@.take(0) =~= Seq::empty());
    while index < elements.len()
        invariant
            index <= elements@.len(),
            windows@ == windows_shown_on(elements@.take(index as int), output),
        decreases elements@.len() - index,
    {
        assert(elements@.take(index + 1).drop_last() =~= elements@.take(index as int));
        if is_shown_on(&elements[index].outputs, output) {
            windows.push(elements[index].window);
        }
        index = index + 1;
    }
    assert(elements@.take(elements@.len() as int) =~= elements@);
    windows
}

/// Something that is done after a repaint.
#[derive(Debug, Clone, Copy, PartialEq, Eq)]
pub enum RepaintEffect {
    /// Find out which output shows the surfaces.
    UpdateScanout(ScanoutTarget),
    /// Tell the client of a window that a frame was shown.
    SendFrame(Window),
    /// Tell the client of a window which buffer formats it should use.
    SendDmabufFeedback(Window),
}

/// What the clients of the windows are told.
pub open spec fn told_clients(windows: Seq<Window>, has_feedback: bool) -> Seq<RepaintEffect>
    decreases windows.len(),
{
    if windows.len() == 0 {
        Seq::empty()
    } else {
        let told = told_clients(windows.drop_last(), has_feedback).push(
            RepaintEffect::SendFrame(windows.last()),
        );
        if has_feedback {
            told.push(RepaintEffect::SendDmabufFeedback(windows.last()))
        } else {
            told
        }
    }
}

/// There is a main area on an output that is mapped, and nowhere else: fifty pixels in from each of its
/// sides, as long as it is wider and taller than that.
pub proof fn main_area_lies_within_its_output(outputs: Seq<Output>, monitor: usize)
    ensures
        main_area(outputs, monitor) is Some <==> monitor < outputs.len()
            && outputs[monitor as int].geometry is Some,
        main_area(outputs, monitor) matches Some(area) ==> {
            let output = outputs[monitor as int].geometry->0;
            &&& output.loc.x <= i32::MAX - 50 ==> area.loc.x - output.loc.x == 50
            &&& output.loc.y <= i32::MAX - 50 ==> area.loc.y - output.loc.y == 50
            &&& output.size.w >= 100 ==> output.size.w - area.size.w == 100
            &&& output.size.h >= 100 ==> output.size.h - area.size.h == 100
            &&& output.size.w < 100 ==> area.size.w == 0
            &&& output.size.h < 100 ==> area.size.h == 0
        },
{
}

/// Windows at rest are shown where they rest: the one with the focus where `place` puts a window that
/// has come all the way, each other where it puts one that has not left its slot.
pub proof fn resting_windows_are_shown_at_rest<
    S,
    L: Fn(S, S) -> bool,
    C: Fn(S) -> S,
    A: Fn(Rectangle<i32>, Point<S>) -> WorkspaceAreas<S>,
    B: Fn(u32, ProgressAndVelocity<S>, ProgressAndVelocity<S>) -> ProgressAndVelocity<S>,
    P: Fn(Point<i64>, Point<i64>, S) -> Point<i32>,
>(
    before: Smallvil<extra_state::WorkspaceState<S>>,
    area: Rectangle<i32>,
    geometries: WorkspaceAreas<Rectangle<i32>>,
    now: u128,
    motion: &Motion<S, L, C, A, B>,
    place: &P,
    effects: Seq<WindowEffect>,
    slot: WindowPosition,
    window: Window,
    progress: S,
)
    requires
        before.moves_windows(area, geometries, now, motion, place, effects),
        before.current().at(slot) == Some(window),
        before.cur_workspace_state is Normal,
        slot == before.cur_workspace_focussed_window ==> progress == motion.ends.zero,
        slot != before.cur_workspace_focussed_window ==> progress == motion.ends.one,
    ensures
        exists|at: Point<i32>|
            {
                &&& #[trigger] call_ensures(
                    *place,
                    (
                        Point { x: area.loc.x as i64, y: area.loc.y as i64 },
                        corner(area, slot),
                        progress,
                    ),
                    at,
                )
                &&& effects.contains(WindowEffect::Show { window, at })
            },
        geometries.at(slot).size == area.size || effects.contains(
            WindowEffect::Resize { window, size: area.size },
        ),
{
    let areas = choose|areas: WindowAreas<S>| #[trigger]
        motion.shows(
            before.cur_workspace_state,
            before.cur_workspace_focussed_window,
            area,
            now,
            areas,
        ) && puts_in_place(
            before.current(),
            geometries,
            areas,
            area,
            area.size,
            false,
            place,
            effects,
        );
    assert(areas.at(slot).progress == progress);
    windows_are_shown_where_place_says(
        before.current(),
        geometries,
        areas,
        area,
        area.size,
        false,
        place,
        effects,
        slot,
        window,
    );
}

/// Windows on their way are shown where `place` puts them for the progress that blending gives after as
/// many milliseconds as have passed, and for that of the end once the time is over.
pub proof fn animated_windows_are_shown_on_their_way<
    S,
    L: Fn(S, S) -> bool,
    C: Fn(S) -> S,
    A: Fn(Rectangle<i32>, Point<S>) -> WorkspaceAreas<S>,
    B: Fn(u32, ProgressAndVelocity<S>, ProgressAndVelocity<S>) -> ProgressAndVelocity<S>,
    P: Fn(Point<i64>, Point<i64>, S) -> Point<i32>,
>(
    before: Smallvil<extra_state::WorkspaceState<S>>,
    area: Rectangle<i32>,
    geometries: WorkspaceAreas<Rectangle<i32>>,
    now: u128,
    motion: &Motion<S, L, C, A, B>,
    place: &P,
    effects: Seq<WindowEffect>,
    slot: WindowPosition,
    window: Window,
    info: extra_state::AnimationInfo<S>,
    millis: u32,
    end: ProgressAndVelocity<S>,
)
    requires
        before.moves_windows(area, geometries, now, motion, place, effects),
        before.current().at(slot) == Some(window),
        before.cur_workspace_state == extra_state::WorkspaceState::Animating(info),
        info.start_time <= now,
        now - info.start_time < 300_000_000 ==> millis * 1_000_000 <= now - info.start_time < (millis
            + 1) * 1_000_000,
        300_000_000 <= now - info.start_time < 1_000_000_000 ==> millis == 300,
        now - info.start_time < 1_000_000_000,
        slot == before.cur_workspace_focussed_window ==> end.progress == motion.ends.zero
            && end.velocity == motion.ends.one,
        slot != before.cur_workspace_focussed_window ==> end.progress == motion.ends.one
            && end.velocity == motion.ends.zero,
    ensures
        exists|value: ProgressAndVelocity<S>, at: Point<i32>|
            {
                &&& #[trigger] call_ensures(
                    motion.blend,
                    (millis, info.start_info.at(slot), end),
                    value,
                )
                &&& #[trigger] call_ensures(
                    *place,
                    (
                        Point { x: area.loc.x as i64, y: area.loc.y as i64 },
                        corner(area, slot),
                        value.progress,
                    ),
                    at,
                )
                &&& effects.contains(WindowEffect::Show { window, at })
            },
{
    let focussed = before.cur_workspace_focussed_window;
    let areas = choose|areas: WindowAreas<S>| #[trigger]
        motion.shows(before.cur_workspace_state, focussed, area, now, areas) && puts_in_place(
            before.current(),
            geometries,
            areas,
            area,
            area.size,
            false,
            place,
            effects,
        );
    windows_are_blended_by_the_clock(
        info,
        focussed,
        now,
        motion.ends,
        &motion.blend,
        areas,
        slot,
    );
    assert(call_ensures(motion.blend, (millis, info.start_info.at(slot), end), areas.at(slot)));
    windows_are_shown_where_place_says(
        before.current(),
        geometries,
        areas,
        area,
        area.size,
        false,
        place,
        effects,
        slot,
        window,
    );
}

/// The windows move with the gesture on every frame: a window other than the one that it began on is
/// shown where `place` puts it for its distance from where the gesture is.
pub proof fn held_windows_are_shown_at_the_gesture<
    S,
    L: Fn(S, S) -> bool,
    C: Fn(S) -> S,
    A: Fn(Rectangle<i32>, Point<S>) -> WorkspaceAreas<S>,
    B: Fn(u32, ProgressAndVelocity<S>, ProgressAndVelocity<S>) -> ProgressAndVelocity<S>,
    P: Fn(Point<i64>, Point<i64>, S) -> Point<i32>,
>(
    before: Smallvil<extra_state::WorkspaceState<S>>,
    area: Rectangle<i32>,
    geometries: WorkspaceAreas<Rectangle<i32>>,
    now: u128,
    motion: &Motion<S, L, C, A, B>,
    place: &P,
    effects: Seq<WindowEffect>,
    slot: WindowPosition,
    window: Window,
    moved: Point<S>,
)
    requires
        before.moves_windows(area, geometries, now, motion, place, effects),
        before.current().at(slot) == Some(window),
        before.cur_workspace_state == extra_state::WorkspaceState::Grabbed(moved),
        slot != before.cur_workspace_focussed_window,
    ensures
        exists|distances: WorkspaceAreas<S>, at: Point<i32>|
            {
                &&& #[trigger] call_ensures(motion.distances_at, (area, moved), distances)
                &&& #[trigger] call_ensures(
                    *place,
                    (
                        Point { x: area.loc.x as i64, y: area.loc.y as i64 },
                        corner(area, slot),
                        distances.at(slot),
                    ),
                    at,
                )
                &&& effects.contains(WindowEffect::Show { window, at })
            },
{
    let focussed = before.cur_workspace_focussed_window;
    let areas = choose|areas: WindowAreas<S>| #[trigger]
        motion.shows(before.cur_workspace_state, focussed, area, now, areas) && puts_in_place(
            before.current(),
            geometries,
            areas,
            area,
            area.size,
            false,
            place,
            effects,
        );
    let distances = choose|distances: WorkspaceAreas<S>| #[trigger]
        call_ensures(motion.distances_at, (area, moved), distances)
            && WindowAreas::<S>::follows_gesture(
            focussed,
            distances,
            motion.ends,
            &motion.less,
            &motion.complement,
            areas,
        );
    assert(areas.at(slot).progress == distances.at(slot));
    windows_are_shown_where_place_says(
        before.current(),
        geometries,
        areas,
        area,
        area.size,
        false,
        place,
        effects,
        slot,
        window,
    );
}

/// The window that a gesture began on gives way to it on every frame: it is shown where `place` puts it
/// when it has left the main area by as much as the closest of the others has come in.
pub proof fn window_of_the_gesture_gives_way<
    S,
    L: Fn(S, S) -> bool,
    C: Fn(S) -> S,
    A: Fn(Rectangle<i32>, Point<S>) -> WorkspaceAreas<S>,
    B: Fn(u32, ProgressAndVelocity<S>, ProgressAndVelocity<S>) -> ProgressAndVelocity<S>,
    P: Fn(Point<i64>, Point<i64>, S) -> Point<i32>,
>(
    before: Smallvil<extra_state::WorkspaceState<S>>,
    area: Rectangle<i32>,
    geometries: WorkspaceAreas<Rectangle<i32>>,
    now: u128,
    motion: &Motion<S, L, C, A, B>,
    place: &P,
    effects: Seq<WindowEffect>,
    slot: WindowPosition,
    window: Window,
    moved: Point<S>,
    order: spec_fn(S, S) -> bool,
    rest: spec_fn(S) -> S,
    other: WindowPosition,
)
    requires
        before.moves_windows(area, geometries, now, motion, place, effects),
        before.current().at(slot) == Some(window),
        before.cur_workspace_state == extra_state::WorkspaceState::Grabbed(moved),
        slot == before.cur_workspace_focussed_window,
        other != slot,
        decides(&motion.less, order),
        completes(&motion.complement, rest),
        forall|distances: WorkspaceAreas<S>| #[trigger]
            call_ensures(motion.distances_at, (area, moved), distances) ==> orders(
                WindowAreas::<S>::held_at(distances, slot, motion.ends.one, motion.ends),
                order,
            ),
    ensures
        exists|distances: WorkspaceAreas<S>, closest: S, at: Point<i32>|
            {
                &&& #[trigger] call_ensures(motion.distances_at, (area, moved), distances)
                &&& #[trigger] call_ensures(
                    *place,
                    (
                        Point { x: area.loc.x as i64, y: area.loc.y as i64 },
                        corner(area, slot),
                        #[trigger] rest(closest),
                    ),
                    at,
                )
                &&& effects.contains(WindowEffect::Show { window, at })
                &&& !order(distances.at(other), closest)
                &&& !order(motion.ends.one, closest)
                &&& closest == motion.ends.one || exists|near: WindowPosition|
                    near != slot && #[trigger] distances.at(near) == closest
            },
{
    let areas = choose|areas: WindowAreas<S>| #[trigger]
        motion.shows(before.cur_workspace_state, slot, area, now, areas) && puts_in_place(
            before.current(),
            geometries,
            areas,
            area,
            area.size,
            false,
            place,
            effects,
        );
    let distances = choose|distances: WorkspaceAreas<S>| #[trigger]
        call_ensures(motion.distances_at, (area, moved), distances)
            && WindowAreas::<S>::follows_gesture(
            slot,
            distances,
            motion.ends,
            &motion.less,
            &motion.complement,
            areas,
        );
    gesture_holds_windows_at_their_distances(
        slot,
        distances,
        motion.ends,
        &motion.less,
        &motion.complement,
        areas,
        order,
        rest,
        other,
    );
    windows_are_shown_where_place_says(
        before.current(),
        geometries,
        areas,
        area,
        area.size,
        false,
        place,
        effects,
        slot,
        window,
    );
}

/// On its way a workspace is where mixing puts it after the milliseconds of the animation, between where
/// it was and where the window rests that it goes to.
pub proof fn workspace_is_mixed_on_its_way<
    S,
    R: Fn(Rectangle<i32>, WindowPosition) -> Point<S>,
    X: Fn(u32, Point<S>, Point<S>) -> Point<S>,
>(
    info: AnimationInfo<S>,
    area: Rectangle<i32>,
    millis: u32,
    rest_at: &R,
    mix: &X,
    pos: Point<S>,
    rests: spec_fn(Rectangle<i32>, WindowPosition) -> Point<S>,
    mixes: spec_fn(u32, Point<S>, Point<S>) -> Point<S>,
)
    requires
        is_on_the_way(info, area, millis, rest_at, mix, pos),
        forall|area: Rectangle<i32>, slot: WindowPosition, point: Point<S>| #[trigger]
            call_ensures(*rest_at, (area, slot), point) ==> point == rests(area, slot),
        forall|millis: u32, start: Point<S>, end: Point<S>, point: Point<S>| #[trigger]
            call_ensures(*mix, (millis, start, end), point) ==> point == mixes(millis, start, end),
    ensures
        pos == mixes(millis, info.start_pos, rests(area, info.end_pos)),
{
}

/// The milliseconds of an animation are those that have passed within the second, and all of them from
/// the third second on.
pub proof fn milliseconds_are_counted(elapsed: nat)
    ensures
        elapsed < 1_000_000_000 ==> progress_after(elapsed) * 1_000_000 <= elapsed < (progress_after(
            elapsed,
        ) + 1) * 1_000_000,
        1_000_000_000 <= elapsed < 2_000_000_000 ==> progress_after(elapsed) == progress_after(
            (elapsed - 1_000_000_000) as nat,
        ),
        elapsed >= 2_000_000_000 ==> progress_after(elapsed) == 300,
{
}

/// Every window on the screen is looked at in its turn, then the surface that the pointer shows, then the
/// drag icon, and nothing else is.
pub proof fn every_surface_is_looked_at<M>(state: Smallvil<M>, elements: Seq<Element>, index: int)
    ensures
        ({
            let targets = state.scanout_targets(elements);
            let shows_surface = state.cursor_status is Surface;
            let pointer: int = if shows_surface {
                1
            } else {
                0
            };
            &&& targets.len() == elements.len() + pointer + (if state.dnd_icon is Some {
                1int
            } else {
                0int
            })
            &&& 0 <= index < elements.len() ==> targets[index] == ScanoutTarget::Window(
                elements[index].window,
            )
            &&& state.cursor_status matches CursorImageStatus::Surface(surface)
                ==> targets[elements.len() as int] == ScanoutTarget::Surface(surface)
            &&& state.dnd_icon matches Some(icon) ==> targets[elements.len() + pointer]
                == ScanoutTarget::Surface(icon.surface)
        }),
{
}

/// A window is shown on an output if its own outputs say so, and the windows keep their order.
pub proof fn shown_windows_keep_their_order(
    first: Seq<Element>,
    second: Seq<Element>,
    element: Element,
    output: u64,
)
    ensures
        windows_shown_on(Seq::empty(), output) == Seq::<Window>::empty(),
        element.outputs@.contains(output) ==> windows_shown_on(seq![element], output)
            == seq![element.window],
        !element.outputs@.contains(output) ==> windows_shown_on(seq![element], output)
            == Seq::<Window>::empty(),
        windows_shown_on(first + second, output) == windows_shown_on(first, output)
            + windows_shown_on(second, output),
    decreases second.len(),
{
    reveal_with_fuel(windows_shown_on, 2);
    assert(seq![element].drop_last() =~= Seq::empty());
    if second.len() == 0 {
        assert(first + second =~= first);
    } else {
        shown_windows_keep_their_order(first, second.drop_last(), element, output);
        assert((first + second).drop_last() =~= first + second.drop_last());
    }
}

/// The windows that are shown on an output are those whose own outputs say so.
pub proof fn shown_windows_are_on_the_output(elements: Seq<Element>, output: u64, window: Window)
    ensures
        windows_shown_on(elements, output).contains(window) <==> exists|index: int|
            {
                &&& 0 <= index < elements.len()
                &&& #[trigger] elements[index].window == window
                &&& elements[index].outputs@.contains(output)
            },
    decreases elements.len(),
{
    let shown = windows_shown_on(elements, output);
    if elements.len() > 0 {
        let rest = elements.drop_last();
        let last = elements.last();
        let before = windows_shown_on(rest, output);
        shown_windows_are_on_the_output(rest, output, window);
        if before.contains(window) {
            assert(shown[before.index_of(window)] == window);
            let at = choose|index: int|
                {
                    &&& 0 <= index < rest.len()
                    &&& #[trigger] rest[index].window == window
                    &&& rest[index].outputs@.contains(output)
                };
            assert(elements[at].window == window);
        }
        if last.outputs@.contains(output) && last.window == window {
            assert(shown.last() == window);
            assert(elements[elements.len() - 1].window == window);
        }
        if shown.contains(window) && !before.contains(window) {
            let at = shown.index_of(window);
            if at < before.len() {
                assert(before[at] == window);
            }
        }
        if exists|index: int|
            {
                &&& 0 <= index < elements.len()
                &&& #[trigger] elements[index].window == window
                &&& elements[index].outputs@.contains(output)
            } {
            let at = choose|index: int|
                {
                    &&& 0 <= index < elements.len()
                    &&& #[trigger] elements[index].window == window
                    &&& elements[index].outputs@.contains(output)
                };
            if at < rest.len() {
                assert(rest[at].window == window);
            }
        }
    }
}

/// The client of each window is told of a frame in its turn, and which formats to use where they are
/// known.
pub proof fn every_client_is_told(
    first: Seq<Window>,
    second: Seq<Window>,
    window: Window,
    has_feedback: bool,
)
    ensures
        told_clients(Seq::empty(), has_feedback) == Seq::<RepaintEffect>::empty(),
        told_clients(seq![window], false) == seq![RepaintEffect::SendFrame(window)],
        told_clients(seq![window], true) == seq![
            RepaintEffect::SendFrame(window),
            RepaintEffect::SendDmabufFeedback(window),
        ],
        told_clients(first + second, has_feedback) == told_clients(first, has_feedback)
            + told_clients(second, has_feedback),
    decreases second.len(),
{
    reveal_with_fuel(told_clients, 2);
    assert(seq![window].drop_last() =~= Seq::empty());
    if second.len() == 0 {
        assert(first + second =~= first);
    } else {
        every_client_is_told(first, second.drop_last(), window, has_feedback);
        assert((first + second).drop_last() =~= first + second.drop_last());
    }
}

/// The surface under a point is that of the window there, moved by where the window lies; there is none
/// where there is no window, or none of its surfaces.
pub proof fn surface_lies_within_its_window<
    S,
    U: Fn(Point<S>) -> Option<(Window, Point<i32>)>,
    Q: Fn(Window, Point<i32>, Point<S>) -> Option<(u64, Point<i32>)>,
>(
    element_under: &U,
    query: &Q,
    pos: Point<S>,
    found: Option<(u64, Point<i32>)>,
    window_at: spec_fn(Point<S>) -> Option<(Window, Point<i32>)>,
    surface_at: spec_fn(Window, Point<i32>, Point<S>) -> Option<(u64, Point<i32>)>,
)
    requires
        is_surface_under(element_under, query, pos, found),
        forall|pos: Point<S>, under: Option<(Window, Point<i32>)>| #[trigger]
            call_ensures(*element_under, (pos,), under) ==> under == window_at(pos),
        forall|
            window: Window,
            location: Point<i32>,
            pos: Point<S>,
            own: Option<(u64, Point<i32>)>,
        | #[trigger]
            call_ensures(*query, (window, location, pos), own) ==> own == surface_at(
                window,
                location,
                pos,
            ),
    ensures
        window_at(pos) is None ==> found is None,
        window_at(pos) matches Some((window, location)) ==> match surface_at(
            window,
            location,
            pos,
        ) {
            None => found is None,
            Some((surface, place)) => {
                &&& found matches Some((own, at))
                &&& own == surface
                &&& i32::MIN <= place.x + location.x <= i32::MAX ==> at.x == place.x + location.x
                &&& i32::MIN <= place.y + location.y <= i32::MAX ==> at.y == place.y + location.y
            },
        },
{
    let under = choose|under: Option<(Window, Point<i32>)>|
        {
            &&& #[trigger] call_ensures(*element_under, (pos,), under)
            &&& match under {
                None => found is None,
                Some((window, location)) => is_surface_of(query, window, location, pos, found),
            }
        };
    if let Some((window, location)) = under {
        let own = choose|own: Option<(u64, Point<i32>)>|
            {
                &&& #[trigger] call_ensures(*query, (window, location, pos), own)
                &&& found == (match own {
                    Some((surface, place)) => Some((surface, place.spec_shifted(location))),
                    None => None,
                })
            };
    }
}

/// A frame changes nothing on an output that has no main area. On one that has, it moves the windows, and
/// of what the manager knows it changes only an animation whose time is over, which is done then.
pub proof fn frame_only_moves_the_windows<
    S,
    L: Fn(S, S) -> bool,
    C: Fn(S) -> S,
    A: Fn(Rectangle<i32>, Point<S>) -> WorkspaceAreas<S>,
    B: Fn(u32, ProgressAndVelocity<S>, ProgressAndVelocity<S>) -> ProgressAndVelocity<S>,
    P: Fn(Point<i64>, Point<i64>, S) -> Point<i32>,
>(
    before: Smallvil<extra_state::WorkspaceState<S>>,
    outputs: Seq<Output>,
    geometries: WorkspaceAreas<Rectangle<i32>>,
    now: u128,
    motion: &Motion<S, L, C, A, B>,
    place: &P,
    after: Smallvil<extra_state::WorkspaceState<S>>,
    effects: Seq<WindowEffect>,
)
    requires
        before.shows_frame(outputs, geometries, now, motion, place, after, effects),
        began_before(before.cur_workspace_state, now),
    ensures
        before.cur_monitor >= outputs.len() || outputs[before.cur_monitor as int].geometry is None
            ==> effects.len() == 0 && after == before,
        before.cur_monitor < outputs.len() ==> (
        outputs[before.cur_monitor as int].geometry matches Some(output) ==> {
            let area = within_margins(output);
            &&& before.moves_windows(area, geometries, now, motion, place, effects)
            &&& before.cur_workspace_state matches extra_state::WorkspaceState::Animating(info) ==> {
                let elapsed = now - info.start_time;
                let over = 300_000_000 <= elapsed < 1_000_000_000 || elapsed >= 1_300_000_000;
                &&& over ==> after.cur_workspace_state is Normal
                &&& !over ==> after.cur_workspace_state == before.cur_workspace_state
            }
            &&& !(before.cur_workspace_state is Animating) ==> after.cur_workspace_state
                == before.cur_workspace_state
        }),
        after == (Smallvil { cur_workspace_state: after.cur_workspace_state, ..before }),
{
    animation_is_done_when_its_time_is_over(before.cur_workspace_state, now);
}

/// The position of a workspace is that of its window, of its way, or of the gesture that holds it, and is
/// known exactly on an output with a main area. A workspace whose animation is over is at the window that
/// it went to; nothing else changes.
pub proof fn workspace_is_where_its_state_says<
    S,
    R: Fn(Rectangle<i32>, WindowPosition) -> Point<S>,
    X: Fn(u32, Point<S>, Point<S>) -> Point<S>,
>(
    before: Smallvil<WorkspaceState<S>>,
    outputs: Seq<Output>,
    now: u128,
    rest_at: &R,
    mix: &X,
    pos: Option<Point<S>>,
    after: Smallvil<WorkspaceState<S>>,
    rests: spec_fn(Rectangle<i32>, WindowPosition) -> Point<S>,
    mixes: spec_fn(u32, Point<S>, Point<S>) -> Point<S>,
)
    requires
        before.tells_pos(outputs, now, rest_at, mix, pos, after),
        before.cur_workspace_state matches WorkspaceState::Animating(info) ==> info.start_time
            <= now,
        forall|area: Rectangle<i32>, slot: WindowPosition, point: Point<S>| #[trigger]
            call_ensures(*rest_at, (area, slot), point) ==> point == rests(area, slot),
        forall|millis: u32, start: Point<S>, end: Point<S>, point: Point<S>| #[trigger]
            call_ensures(*mix, (millis, start, end), point) ==> point == mixes(millis, start, end),
    ensures
        pos is None ==> after == before,
        pos is Some <==> before.cur_monitor < outputs.len()
            && outputs[before.cur_monitor as int].geometry is Some,
        pos matches Some(point) ==> {
            let area = within_margins(outputs[before.cur_monitor as int].geometry->0);
            match before.cur_workspace_state {
                WorkspaceState::WindowFocussed(slot) => point == rests(area, slot) && after == before,
                WorkspaceState::Grabbed(held) => point == held && after == before,
                WorkspaceState::Animating(info) => {
                    let elapsed = now - info.start_time;
                    let over = 300_000_000 <= elapsed < 1_000_000_000 || elapsed >= 1_300_000_000;
                    let end = rests(area, info.end_pos);
                    &&& elapsed < 1_000_000_000 ==> point == mixes(
                        (elapsed / 1_000_000) as u32,
                        info.start_pos,
                        end,
                    )
                    &&& 1_000_000_000 <= elapsed < 2_000_000_000 ==> point == mixes(
                        ((elapsed - 1_000_000_000) / 1_000_000) as u32,
                        info.start_pos,
                        end,
                    )
                    &&& elapsed >= 2_000_000_000 ==> point == mixes(300, info.start_pos, end)
                    &&& over ==> after.cur_workspace_state == WorkspaceState::<S>::WindowFocussed(
                        info.end_pos,
                    )
                    &&& !over ==> after == before
                },
            }
        },
        after == (Smallvil { cur_workspace_state: after.cur_workspace_state, ..before }),
{
    if let WorkspaceState::Animating(info) = before.cur_workspace_state {
        milliseconds_are_counted((now - info.start_time) as nat);
        if pos is Some {
            let area = main_area(outputs, before.cur_monitor)->0;
            workspace_is_mixed_on_its_way(
                info,
                area,
                progress_since(info.start_time, now),
                rest_at,
                mix,
                pos->0,
                rests,
                mixes,
            );
        }
    }
}

/// After a repaint it is first found out which output shows each surface, one after the other, and then
/// the clients of the windows on the output are told; nothing else is done.
pub proof fn surfaces_are_looked_at_before_clients_are_told<M>(
    state: Smallvil<M>,
    elements: Seq<Element>,
    output: u64,
    has_feedback: bool,
    index: int,
)
    ensures
        ({
            let effects = state.repaint_effects(elements, output, has_feedback);
            let targets = state.scanout_targets(elements);
            &&& effects.skip(targets.len() as int) == told_clients(
                windows_shown_on(elements, output),
                has_feedback,
            )
            &&& effects.len() >= targets.len()
            &&& 0 <= index < targets.len() ==> effects[index] == RepaintEffect::UpdateScanout(
                targets[index],
            )
        }),
{
    let effects = state.repaint_effects(elements, output, has_feedback);
    let targets = state.scanout_targets(elements);
    assert(effects.skip(targets.len() as int) =~= told_clients(
        windows_shown_on(elements, output),
        has_feedback,
    ));
}

/// The current output is the first that has the pixel under the pointer, and stays where none has it.
pub proof fn current_output_has_the_pointer<M>(
    before: Smallvil<M>,
    outputs: Seq<Output>,
    location: Point<i32>,
    after: Smallvil<M>,
    found: Option<usize>,
)
    requires
        before.follows_pointer(outputs, location, after),
        is_output_at(outputs, location, found),
    ensures
        found matches Some(index) ==> after.cur_monitor == index,
        found is None ==> after == before,
        after == (Smallvil { cur_monitor: after.cur_monitor, ..before }),
{
    let own = choose|own: Option<usize>| #[trigger]
        is_output_at(outputs, location, own) && after == (Smallvil {
            cur_monitor: match own {
                Some(index) => index,
                None => before.cur_monitor,
            },
            ..before
        });
    output_at_is_unique(outputs, location, own, found);
}

/// A window manager begins with one workspace, which holds no window, is shown and is focussed on its left
/// slot; it runs, its pointer shows the arrow, and nothing is dragged. Its seat is that of the session, where
/// there is one.
pub proof fn window_manager_begins_empty<M>(
    motion: M,
    seat: Option<String>,
    backend_data: Option<UdevData>,
    state: Smallvil<M>,
    slot: WindowPosition,
)
    requires
        Smallvil::<M>::begins(motion, seat, backend_data, state),
    ensures
        state.workspaces@.len() == 1,
        state.cur_workspace == 0,
        state.workspaces@[0].at(slot) is None,
        state.cur_workspace_focussed_window == WindowPosition::Left,
        state.cur_workspace_state == motion,
        state.cur_monitor == 0,
        state.running,
        state.cursor_status == CursorImageStatus::Named(0),
        state.dnd_icon is None,
        state.backend_data == backend_data,
        seat matches Some(name) ==> state.seat_name@ == name@,
        seat is None ==> state.seat_name@ == "winit"@,
{
}

/// A workspace that is animated moves as fast in either direction, is on its way, and is done once its three
/// tenths of a second are over.
pub proof fn workspace_moves_until_its_time_is_over<
    S,
    R: Fn(Rectangle<i32>, WindowPosition) -> Point<S>,
    X: Fn(u32, Point<S>, Point<S>) -> Point<S>,
>(
    info: AnimationInfo<S>,
    area: Rectangle<i32>,
    now: u128,
    speed: S,
    rest_at: &R,
    mix: &X,
    animated: (Point<S>, Point<S>, bool),
    rests: spec_fn(Rectangle<i32>, WindowPosition) -> Point<S>,
    mixes: spec_fn(u32, Point<S>, Point<S>) -> Point<S>,
)
    requires
        tells_motion(info, area, now, speed, rest_at, mix, animated),
        info.start_time <= now,
        forall|area: Rectangle<i32>, slot: WindowPosition, point: Point<S>| #[trigger]
            call_ensures(*rest_at, (area, slot), point) ==> point == rests(area, slot),
        forall|millis: u32, start: Point<S>, end: Point<S>, point: Point<S>| #[trigger]
            call_ensures(*mix, (millis, start, end), point) ==> point == mixes(millis, start, end),
    ensures
        ({
            let elapsed = now - info.start_time;
            let end = rests(area, info.end_pos);
            &&& animated.1.x == speed && animated.1.y == speed
            &&& elapsed < 1_000_000_000 ==> {
                &&& animated.0 == mixes((elapsed / 1_000_000) as u32, info.start_pos, end)
                &&& animated.2 <==> elapsed >= 300_000_000
            }
            &&& 1_000_000_000 <= elapsed < 2_000_000_000 ==> {
                &&& animated.0 == mixes(
                    ((elapsed - 1_000_000_000) / 1_000_000) as u32,
                    info.start_pos,
                    end,
                )
                &&& animated.2 <==> elapsed >= 1_300_000_000
            }
            &&& elapsed >= 2_000_000_000 ==> animated.2 && animated.0 == mixes(
                300,
                info.start_pos,
                end,
            )
        }),
{
    milliseconds_are_counted((now - info.start_time) as nat);
    workspace_is_mixed_on_its_way(
        info,
        area,
        progress_since(info.start_time, now),
        rest_at,
        mix,
        animated.0,
        rests,
        mixes,
    );
}

/// Whatever moves the windows, a frame shows each window of the current workspace once, in the order of
/// their slots: those of the edges first, those of the corners in front of them.
pub proof fn frame_shows_each_window_once<
    S,
    L: Fn(S, S) -> bool,
    C: Fn(S) -> S,
    A: Fn(Rectangle<i32>, Point<S>) -> WorkspaceAreas<S>,
    B: Fn(u32, ProgressAndVelocity<S>, ProgressAndVelocity<S>) -> ProgressAndVelocity<S>,
    P: Fn(Point<i64>, Point<i64>, S) -> Point<i32>,
>(
    before: Smallvil<extra_state::WorkspaceState<S>>,
    area: Rectangle<i32>,
    geometries: WorkspaceAreas<Rectangle<i32>>,
    now: u128,
    motion: &Motion<S, L, C, A, B>,
    place: &P,
    effects: Seq<WindowEffect>,
    earlier: int,
    later: int,
    one: WindowPosition,
    other: WindowPosition,
)
    requires
        before.moves_windows(area, geometries, now, motion, place, effects),
        windows_differ(before.current()),
        before.current().at(one) is Some,
        before.current().at(other) is Some,
        0 <= earlier < later < effects.len(),
        effects[earlier] matches WindowEffect::Show { window, .. } && before.current().at(one)
            == Some(window),
        effects[later] matches WindowEffect::Show { window, .. } && before.current().at(other)
            == Some(window),
    ensures
        one != other,
        one != WindowPosition::BottomRight && other != WindowPosition::Left,
        ({
            let at_edge = |slot: WindowPosition|
                slot == WindowPosition::Left || slot == WindowPosition::Top || slot
                    == WindowPosition::Right || slot == WindowPosition::Bottom;
            at_edge(other) ==> at_edge(one)
        }),
{
    let areas = choose|areas: WindowAreas<S>| #[trigger]
        motion.shows(
            before.cur_workspace_state,
            before.cur_workspace_focussed_window,
            area,
            now,
            areas,
        ) && puts_in_place(
            before.current(),
            geometries,
            areas,
            area,
            area.size,
            false,
            place,
            effects,
        );
    windows_are_shown_once_and_in_order(
        before.current(),
        geometries,
        areas,
        area,
        area.size,
        false,
        place,
        effects,
        earlier,
        later,
        one,
        other,
    );
}

/// Whatever moves the windows, a frame takes everything off the screen once, at first, and then does nothing
/// but show windows of the current workspace and ask those for the size of the main area that do not have
/// it.
pub proof fn frame_touches_no_other_window<
    S,
    L: Fn(S, S) -> bool,
    C: Fn(S) -> S,
    A: Fn(Rectangle<i32>, Point<S>) -> WorkspaceAreas<S>,
    B: Fn(u32, ProgressAndVelocity<S>, ProgressAndVelocity<S>) -> ProgressAndVelocity<S>,
    P: Fn(Point<i64>, Point<i64>, S) -> Point<i32>,
>(
    before: Smallvil<extra_state::WorkspaceState<S>>,
    area: Rectangle<i32>,
    geometries: WorkspaceAreas<Rectangle<i32>>,
    now: u128,
    motion: &Motion<S, L, C, A, B>,
    place: &P,
    effects: Seq<WindowEffect>,
    index: int,
)
    requires
        before.moves_windows(area, geometries, now, motion, place, effects),
        1 <= index < effects.len(),
    ensures
        effects[0] is UnmapAll,
        exists|slot: WindowPosition|
            (#[trigger] before.current().at(slot)) matches Some(window) && match effects[index] {
                WindowEffect::UnmapAll => false,
                WindowEffect::Show { window: shown, .. } => shown == window,
                WindowEffect::Resize { window: resized, size } => resized == window && size
                    == area.size && geometries.at(slot).size != area.size,
            },
{
    let areas = choose|areas: WindowAreas<S>| #[trigger]
        motion.shows(
            before.cur_workspace_state,
            before.cur_workspace_focussed_window,
            area,
            now,
            areas,
        ) && puts_in_place(
            before.current(),
            geometries,
            areas,
            area,
            area.size,
            false,
            place,
            effects,
        );
    only_windows_in_slots_are_touched(
        before.current(),
        geometries,
        areas,
        area,
        area.size,
        false,
        place,
        effects,
        index,
    );
    let start = Point { x: area.loc.x as i64, y: area.loc.y as i64 };
    let slot = choose|slot: WindowPosition|
        (#[trigger] before.current().at(slot)) matches Some(window) && match effects[index] {
            WindowEffect::UnmapAll => false,
            WindowEffect::Show { window: shown, at } => shown == window && call_ensures(
                *place,
                (start, corner(area, slot), areas.at(slot).progress),
                at,
            ),
            WindowEffect::Resize { window: resized, size: asked } => resized == window && asked
                == area.size && geometries.at(slot).size != area.size,
        };
    assert(before.current().at(slot) is Some);
}

/// The current workspace is the one that is shown, and there always is one.
pub proof fn current_workspace_is_one_of_them<M>(state: Smallvil<M>)
    requires
        state.wf(),
    ensures
        state.cur_workspace < state.workspaces@.len(),
        state.current() == state.workspaces@[state.cur_workspace as int],
        state.workspaces@.len() > 0,
{
}

} // verus!
