//! The eight window slots of a workspace, and how far each window is from filling the main area.
//!
//! Progress and velocity are values of a type `S` that this crate only compares and combines
//! through the functions that a caller hands in; contracts speak of those functions by what they
//! themselves ensure.

use vstd::prelude::*;

use crate::geometry::{Point, Rectangle, Size};
use crate::placement::{
    can_place, corner, only_windows_in_slots_are_touched, put_in_place, puts_in_place,
    windows_are_shown_where_place_says, windows_differ, Window, WindowEffect,
};
use crate::state::{get_progress, progress_after, Smallvil, ANIMATION_MS};

verus! {

/// One of the eight slots around the main window area.
#[derive(Debug, Clone, Copy, PartialEq, Eq, Structural)]
pub enum WindowPosition {
    TopLeft,
    Top,
    TopRight,
    Right,
    BottomRight,
    Bottom,
    BottomLeft,
    Left,
}

/// The slots in clockwise order, from the top left one on.
pub open spec fn clockwise(index: int) -> WindowPosition {
    if index <= 0 {
        WindowPosition::TopLeft
    } else if index == 1 {
        WindowPosition::Top
    } else if index == 2 {
        WindowPosition::TopRight
    } else if index == 3 {
        WindowPosition::Right
    } else if index == 4 {
        WindowPosition::BottomRight
    } else if index == 5 {
        WindowPosition::Bottom
    } else if index == 6 {
        WindowPosition::BottomLeft
    } else {
        WindowPosition::Left
    }
}

/// The place of a slot in clockwise order.
pub open spec fn clockwise_index(position: WindowPosition) -> int {
    match position {
        WindowPosition::TopLeft => 0,
        WindowPosition::Top => 1,
        WindowPosition::TopRight => 2,
        WindowPosition::Right => 3,
        WindowPosition::BottomRight => 4,
        WindowPosition::Bottom => 5,
        WindowPosition::BottomLeft => 6,
        WindowPosition::Left => 7,
    }
}

/// One value for each of the eight slots.
#[derive(Debug, Clone, Copy)]
pub struct WorkspaceAreas<T> {
    pub top_left_window: T,
    pub top_window: T,
    pub top_right_window: T,
    pub right_window: T,
    pub bottom_right_window: T,
    pub bottom_window: T,
    pub bottom_left_window: T,
    pub left_window: T,
}

impl<A> WorkspaceAreas<A> {
    /// The value of one slot.
    pub open spec fn at(self, position: WindowPosition) -> A {
        match position {
            WindowPosition::TopLeft => self.top_left_window,
            WindowPosition::Top => self.top_window,
            WindowPosition::TopRight => self.top_right_window,
            WindowPosition::Right => self.right_window,
            WindowPosition::BottomRight => self.bottom_right_window,
            WindowPosition::Bottom => self.bottom_window,
            WindowPosition::BottomLeft => self.bottom_left_window,
            WindowPosition::Left => self.left_window,
        }
    }

    /// The same slots, but with `value` in one of them.
    pub open spec fn with(self, position: WindowPosition, value: A) -> Self {
        Self::build(
            |slot: WindowPosition| if slot == position { value } else { self.at(slot) },
        )
    }

    /// The slots whose values `value_at` gives.
    pub open spec fn build(value_at: spec_fn(WindowPosition) -> A) -> Self {
        WorkspaceAreas {
            top_left_window: value_at(WindowPosition::TopLeft),
            top_window: value_at(WindowPosition::Top),
            top_right_window: value_at(WindowPosition::TopRight),
            right_window: value_at(WindowPosition::Right),
            bottom_right_window: value_at(WindowPosition::BottomRight),
            bottom_window: value_at(WindowPosition::Bottom),
            bottom_left_window: value_at(WindowPosition::BottomLeft),
            left_window: value_at(WindowPosition::Left),
        }
    }

    /// Puts a new value in one slot and leaves the others as they are.
    pub fn replace(&mut self, position: WindowPosition, new_value: A)
        ensures
            *final(self) == old(self).with(position, new_value),
    {
        match position {
            WindowPosition::TopLeft => self.top_left_window = new_value,
            WindowPosition::Top => self.top_window = new_value,
            WindowPosition::TopRight => self.top_right_window = new_value,
            WindowPosition::Right => self.right_window = new_value,
            WindowPosition::BottomRight => self.bottom_right_window = new_value,
            WindowPosition::Bottom => self.bottom_window = new_value,
            WindowPosition::BottomLeft => self.bottom_left_window = new_value,
            WindowPosition::Left => self.left_window = new_value,
        }
    }

    /// Combines the two values of each slot.
    pub fn merge_with<'l, B, C, F: Fn(&'l A, B) -> C>(
        &'l self,
        other: WorkspaceAreas<B>,
        func: F,
    ) -> (merged: WorkspaceAreas<C>)
        requires
            forall|slot: WindowPosition|
                call_requires(func, (&#[trigger] self.at(slot), other.at(slot))),
        ensures
            forall|slot: WindowPosition|
                call_ensures(func, (&self.at(slot), other.at(slot)), #[trigger] merged.at(slot)),
    {
        assert forall|index: int| 0 <= index < 8 implies call_requires(
            func,
            (&self.at(#[trigger] clockwise(index)), other.at(clockwise(index))),
        ) by {}
        assert(self.at(clockwise(0)) == self.top_left_window);
        assert(self.at(clockwise(1)) == self.top_window);
        assert(self.at(clockwise(2)) == self.top_right_window);
        assert(self.at(clockwise(3)) == self.right_window);
        assert(self.at(clockwise(4)) == self.bottom_right_window);
        assert(self.at(clockwise(5)) == self.bottom_window);
        assert(self.at(clockwise(6)) == self.bottom_left_window);
        assert(self.at(clockwise(7)) == self.left_window);
        WorkspaceAreas::<C> {
            top_left_window: func(&self.top_left_window, other.top_left_window),
            top_window: func(&self.top_window, other.top_window),
            top_right_window: func(&self.top_right_window, other.top_right_window),
            right_window: func(&self.right_window, other.right_window),
            bottom_right_window: func(&self.bottom_right_window, other.bottom_right_window),
            bottom_window: func(&self.bottom_window, other.bottom_window),
            bottom_left_window: func(&self.bottom_left_window, other.bottom_left_window),
            left_window: func(&self.left_window, other.left_window),
        }
    }
}

/// The slots of two workspaces are equal when each slot is.
pub proof fn areas_equal_by_slot<A>(a: WorkspaceAreas<A>, b: WorkspaceAreas<A>)
    requires
        forall|slot: WindowPosition| #[trigger] a.at(slot) == b.at(slot),
    ensures
        a == b,
{
    assert(a.at(WindowPosition::TopLeft) == b.at(WindowPosition::TopLeft));
    assert(a.at(WindowPosition::Top) == b.at(WindowPosition::Top));
    assert(a.at(WindowPosition::TopRight) == b.at(WindowPosition::TopRight));
    assert(a.at(WindowPosition::Right) == b.at(WindowPosition::Right));
    assert(a.at(WindowPosition::BottomRight) == b.at(WindowPosition::BottomRight));
    assert(a.at(WindowPosition::Bottom) == b.at(WindowPosition::Bottom));
    assert(a.at(WindowPosition::BottomLeft) == b.at(WindowPosition::BottomLeft));
    assert(a.at(WindowPosition::Left) == b.at(WindowPosition::Left));
}

/// How far a window is from filling the main area, and how fast that changes.
#[derive(Debug, Clone, Copy)]
pub struct ProgressAndVelocity<S> {
    /// Between zero, where the window fills the main area, and one, where it rests in its slot. A
    /// gesture may hold a window farther away than that.
    pub progress: S,
    pub velocity: S,
}

/// The progress of the window of each slot.
pub type WindowAreas<S> = WorkspaceAreas<ProgressAndVelocity<S>>;

/// The values that stand for zero and one.
#[derive(Debug, Clone, Copy)]
pub struct Ends<S> {
    pub zero: S,
    pub one: S,
}

/// A value on its way through a chain of functions.
#[derive(Debug)]
pub struct Wrapped<T> {
    pub inner: T,
}

impl<A> Wrapped<A> {
    /// Applies `func` to the value.
    pub fn pipe<F, B>(self, func: F) -> (mapped: Wrapped<B>) where F: FnOnce(A) -> B
        requires
            call_requires(func, (self.inner,)),
        ensures
            call_ensures(func, (self.inner,), mapped.inner),
    {
        Wrapped::<B> { inner: func(self.inner) }
    }

    /// The value itself.
    pub fn unwrap(self) -> (inner: A)
        ensures
            inner == self.inner,
    {
        self.inner
    }
}

/// Any two values can be compared by `less`.
pub open spec fn compares<S, L: Fn(S, S) -> bool>(less: &L) -> bool {
    forall|a: S, b: S| #[trigger] call_requires(*less, (a, b))
}

/// Whatever `less` answers is what `order` says.
pub open spec fn decides<S, L: Fn(S, S) -> bool>(
    less: &L,
    order: spec_fn(S, S) -> bool,
) -> bool {
    forall|a: S, b: S, answer: bool| #[trigger]
        call_ensures(*less, (a, b), answer) ==> answer == order(a, b)
}

/// `kept` is `a` where `less` finds its number below that of `b`, and `b` otherwise.
pub open spec fn keeps_smaller<S, T, L: Fn(S, S) -> bool>(
    less: &L,
    a: (S, T),
    b: (S, T),
    kept: (S, T),
) -> bool {
    exists|below: bool| #[trigger]
        call_ensures(*less, (a.0, b.0), below) && kept == (if below { a } else { b })
}

impl<S: Copy, T> Wrapped<(S, T)> {
    /// Keeps the pair with the smaller number; of two equal numbers, the new one.
    pub fn min<L: Fn(S, S) -> bool>(self, b_num: S, b_info: T, less: &L) -> (kept: Self)
        requires
            compares(less),
        ensures
            keeps_smaller(less, self.inner, (b_num, b_info), kept.inner),
    {
        let smaller = |a: (S, T)| -> (kept: (S, T))
            ensures
                keeps_smaller(less, a, (b_num, b_info), kept),
        {
            let below: bool = (*less)(a.0, b_num);
            if below {
                a
            } else {
                (b_num, b_info)
            }
        };
        self.pipe(smaller)
    }
}

impl<S> WorkspaceAreas<ProgressAndVelocity<S>> {
    /// The progress of a slot, together with the slot.
    pub open spec fn entry(self, index: int) -> (S, WindowPosition) {
        (self.at(clockwise(index)).progress, clockwise(index))
    }

    /// `kept` is what remains after each of the eight slots, in clockwise order.
    pub open spec fn narrows<L: Fn(S, S) -> bool>(
        self,
        less: &L,
        kept: Seq<(S, WindowPosition)>,
    ) -> bool {
        &&& kept.len() == 8
        &&& kept[0] == self.entry(0)
        &&& forall|index: int|
            1 <= index < 8 ==> keeps_smaller(
                less,
                kept[index - 1],
                self.entry(index),
                #[trigger] kept[index],
            )
    }

    /// `least` is the pair that is left when the slots are compared in clockwise order and of two
    /// equal ones the later is kept.
    pub open spec fn narrows_to<L: Fn(S, S) -> bool>(
        self,
        less: &L,
        least: (S, WindowPosition),
    ) -> bool {
        exists|kept: Seq<(S, WindowPosition)>| #[trigger] self.narrows(less, kept) && kept[7] == least
    }

    /// The pair kept of the first `count` slots in clockwise order.
    pub open spec fn least_of_first(self, order: spec_fn(S, S) -> bool, count: nat) -> (
        S,
        WindowPosition,
    )
        decreases count,
    {
        if count <= 1 {
            self.entry(0)
        } else {
            let before = self.least_of_first(order, (count - 1) as nat);
            let next = self.entry(count - 1);
            if order(before.0, next.0) {
                before
            } else {
                next
            }
        }
    }

    /// The least progress and its slot; of equal ones, the last in clockwise order.
    pub open spec fn least(self, order: spec_fn(S, S) -> bool) -> (S, WindowPosition) {
        self.least_of_first(order, 8)
    }

    /// The slot of the window that is the closest to filling the main area, with its progress.
    pub fn min_progress<L: Fn(S, S) -> bool>(&self, less: &L) -> (least: (S, WindowPosition)) where
        S: Copy,

        requires
            compares(less),
        ensures
            self.narrows_to(less, least),
            forall|order: spec_fn(S, S) -> bool| #[trigger]
                decides(less, order) ==> least == self.least(order),
    {
        let w0 = Wrapped { inner: (self.top_left_window.progress, WindowPosition::TopLeft) };
        let ghost k0 = w0.inner;
        let w1 = w0.min(self.top_window.progress, WindowPosition::Top, less);
        let ghost k1 = w1.inner;
        let w2 = w1.min(self.top_right_window.progress, WindowPosition::TopRight, less);
        let ghost k2 = w2.inner;
        let w3 = w2.min(self.right_window.progress, WindowPosition::Right, less);
        let ghost k3 = w3.inner;
        let w4 = w3.min(self.bottom_right_window.progress, WindowPosition::BottomRight, less);
        let ghost k4 = w4.inner;
        let w5 = w4.min(self.bottom_window.progress, WindowPosition::Bottom, less);
        let ghost k5 = w5.inner;
        let w6 = w5.min(self.bottom_left_window.progress, WindowPosition::BottomLeft, less);
        let ghost k6 = w6.inner;
        let w7 = w6.min(self.left_window.progress, WindowPosition::Left, less);
        let ghost kept = seq![k0, k1, k2, k3, k4, k5, k6, w7.inner];
        assert(self.narrows(less, kept)) by {
            assert forall|index: int| 1 <= index < 8 implies keeps_smaller(
                less,
                kept[index - 1],
                self.entry(index),
                #[trigger] kept[index],
            ) by {
                if index == 1 {
                } else if index == 2 {
                } else if index == 3 {
                } else if index == 4 {
                } else if index == 5 {
                } else if index == 6 {
                } else {
                }
            }
        }
        assert forall|order: spec_fn(S, S) -> bool| #[trigger] decides(less, order) implies w7.inner
            == self.least(order) by {
            narrowed_is_least(*self, less, order, kept, 8);
        }
        w7.unwrap()
    }
}

/// What is left after the first slots is the least of them.
proof fn narrowed_is_least<S, L: Fn(S, S) -> bool>(
    areas: WindowAreas<S>,
    less: &L,
    order: spec_fn(S, S) -> bool,
    kept: Seq<(S, WindowPosition)>,
    count: nat,
)
    requires
        areas.narrows(less, kept),
        decides(less, order),
        1 <= count <= 8,
    ensures
        kept[count - 1] == areas.least_of_first(order, count),
    decreases count,
{
    if count > 1 {
        narrowed_is_least(areas, less, order, kept, (count - 1) as nat);
        assert(keeps_smaller(less, kept[count - 2], areas.entry(count - 1), kept[count - 1]));
    }
}

impl<S> ProgressAndVelocity<S> {
    /// A window that rests in its slot.
    pub open spec fn resting(ends: Ends<S>) -> Self {
        ProgressAndVelocity { progress: ends.one, velocity: ends.zero }
    }

    /// The window that fills the main area.
    pub open spec fn filling(ends: Ends<S>) -> Self {
        ProgressAndVelocity { progress: ends.zero, velocity: ends.one }
    }

    /// A window that is held still at the given progress.
    pub open spec fn held(progress: S, ends: Ends<S>) -> Self {
        ProgressAndVelocity { progress, velocity: ends.zero }
    }
}

/// Where a window is at the end of an animation: in the main area or in its slot.
pub open spec fn is_end<S>(value: ProgressAndVelocity<S>, ends: Ends<S>) -> bool {
    ||| value == ProgressAndVelocity::filling(ends)
    ||| value == ProgressAndVelocity::resting(ends)
}

/// The value `complement` gives back is what `rest` says.
pub open spec fn completes<S, C: Fn(S) -> S>(complement: &C, rest: spec_fn(S) -> S) -> bool {
    forall|part: S, value: S| #[trigger]
        call_ensures(*complement, (part,), value) ==> value == rest(part)
}

/// The value `blend` gives back is what `mix` says.
pub open spec fn blends<
    S,
    B: Fn(u32, ProgressAndVelocity<S>, ProgressAndVelocity<S>) -> ProgressAndVelocity<S>,
>(
    blend: &B,
    mix: spec_fn(u32, ProgressAndVelocity<S>, ProgressAndVelocity<S>) -> ProgressAndVelocity<S>,
) -> bool {
    forall|
        millis: u32,
        start: ProgressAndVelocity<S>,
        end: ProgressAndVelocity<S>,
        value: ProgressAndVelocity<S>,
    | #[trigger]
        call_ensures(*blend, (millis, start, end), value) ==> value == mix(millis, start, end)
}

/// `value` can come of `blend` after so many milliseconds between `start` and `end`.
pub open spec fn blended<
    S,
    B: Fn(u32, ProgressAndVelocity<S>, ProgressAndVelocity<S>) -> ProgressAndVelocity<S>,
>(
    blend: &B,
    millis: u32,
    start: ProgressAndVelocity<S>,
    end: ProgressAndVelocity<S>,
    value: ProgressAndVelocity<S>,
) -> bool {
    call_ensures(*blend, (millis, start, end), value)
}

/// Any two values can be blended by `blend`, at any time of an animation.
pub open spec fn can_blend<
    S,
    B: Fn(u32, ProgressAndVelocity<S>, ProgressAndVelocity<S>) -> ProgressAndVelocity<S>,
>(blend: &B) -> bool {
    forall|millis: u32, start: ProgressAndVelocity<S>, end: ProgressAndVelocity<S>| #[trigger]
        call_requires(*blend, (millis, start, end))
}

/// An animation of the windows of a workspace.
#[derive(Debug, Clone, Copy)]
pub struct AnimationInfo<S> {
    /// When the animation began, in nanoseconds since the epoch.
    pub start_time: u128,
    /// Where the windows were then.
    pub start_info: WindowAreas<S>,
}

/// What moves the windows of the current workspace.
#[derive(Debug, Clone, Copy)]
pub enum WorkspaceState<S> {
    /// Nothing: the focussed window fills the main area.
    Normal,
    /// The windows are on their way to where the focussed window fills the main area.
    Animating(AnimationInfo<S>),
    /// A gesture holds the windows; the point is how far it has moved.
    Grabbed(Point<S>),
}

impl<S> WorkspaceAreas<ProgressAndVelocity<S>> {
    /// Where the windows are when the one of `position` fills the main area.
    pub open spec fn focussed_on(position: WindowPosition, ends: Ends<S>) -> Self {
        Self::build(
            |slot: WindowPosition|
                if slot == position {
                    ProgressAndVelocity::filling(ends)
                } else {
                    ProgressAndVelocity::resting(ends)
                },
        )
    }

    /// Where the windows are when each is held at its distance and the one of `grab_start` at
    /// `progress`.
    pub open spec fn held_at(
        distances: WorkspaceAreas<S>,
        grab_start: WindowPosition,
        progress: S,
        ends: Ends<S>,
    ) -> Self {
        Self::build(
            |slot: WindowPosition|
                ProgressAndVelocity::held(
                    if slot == grab_start {
                        progress
                    } else {
                        distances.at(slot)
                    },
                    ends,
                ),
        )
    }

    /// `areas` can come of a gesture that began on `grab_start`: the window of that slot gives way
    /// by as much as the closest of the others has come in.
    pub open spec fn follows_gesture<L: Fn(S, S) -> bool, C: Fn(S) -> S>(
        grab_start: WindowPosition,
        distances: WorkspaceAreas<S>,
        ends: Ends<S>,
        less: &L,
        complement: &C,
        areas: Self,
    ) -> bool {
        exists|closest: (S, WindowPosition), progress: S|
            {
                &&& #[trigger] Self::held_at(distances, grab_start, ends.one, ends).narrows_to(
                    less,
                    closest,
                )
                &&& #[trigger] call_ensures(*complement, (closest.0,), progress)
                &&& areas == Self::held_at(distances, grab_start, progress, ends)
            }
    }

    /// Where a gesture that began on `grab_start` leaves the windows.
    pub open spec fn gesture(
        grab_start: WindowPosition,
        distances: WorkspaceAreas<S>,
        ends: Ends<S>,
        order: spec_fn(S, S) -> bool,
        rest: spec_fn(S) -> S,
    ) -> Self {
        let closest = Self::held_at(distances, grab_start, ends.one, ends).least(order);
        Self::held_at(distances, grab_start, rest(closest.0), ends)
    }

    /// `areas` can be where an animation towards `end_pos` has taken the windows by `now`.
    pub open spec fn follows_animation<
        B: Fn(u32, ProgressAndVelocity<S>, ProgressAndVelocity<S>) -> ProgressAndVelocity<S>,
    >(
        info: AnimationInfo<S>,
        end_pos: WindowPosition,
        now: u128,
        ends: Ends<S>,
        blend: &B,
        areas: Self,
    ) -> bool {
        forall|slot: WindowPosition|
            blended(
                blend,
                way_since(info.start_time, now),
                info.start_info.at(slot),
                Self::focussed_on(end_pos, ends).at(slot),
                #[trigger] areas.at(slot),
            )
    }

    /// Where the windows are on their way from `start` to `end`.
    pub open spec fn between(
        start: Self,
        end: Self,
        millis: u32,
        mix: spec_fn(
            u32,
            ProgressAndVelocity<S>,
            ProgressAndVelocity<S>,
        ) -> ProgressAndVelocity<S>,
    ) -> Self {
        Self::build(|slot: WindowPosition| mix(millis, start.at(slot), end.at(slot)))
    }

    /// The windows with the one of `position` filling the main area and the others at rest.
    pub fn from_position(position: WindowPosition, ends: &Ends<S>) -> (areas: Self) where S: Copy
        ensures
            areas == Self::focussed_on(position, *ends),
    {
        let default_position = ProgressAndVelocity { progress: ends.one, velocity: ends.zero };
        let mut out = WorkspaceAreas {
            top_left_window: default_position,
            top_window: default_position,
            top_right_window: default_position,
            right_window: default_position,
            bottom_right_window: default_position,
            bottom_window: default_position,
            bottom_left_window: default_position,
            left_window: default_position,
        };
        out.replace(position, ProgressAndVelocity { progress: ends.zero, velocity: ends.one });
        out
    }

    /// The windows as a gesture holds them.
    ///
    /// `distances` says how far the gesture is from each slot. Where it began, on `grab_start`, the
    /// window gives way by as much as the closest of the others has come in.
    pub fn from_gesture<L: Fn(S, S) -> bool, C: Fn(S) -> S>(
        grab_start: WindowPosition,
        distances: &WorkspaceAreas<S>,
        ends: &Ends<S>,
        less: &L,
        complement: &C,
    ) -> (areas: Self) where S: Copy
        requires
            compares(less),
            forall|part: S| #[trigger] call_requires(*complement, (part,)),
        ensures
            Self::follows_gesture(grab_start, *distances, *ends, less, complement, areas),
            forall|order: spec_fn(S, S) -> bool, rest: spec_fn(S) -> S|
                #![trigger decides(less, order), completes(complement, rest)]
                decides(less, order) && completes(complement, rest) ==> areas == Self::gesture(
                    grab_start,
                    *distances,
                    *ends,
                    order,
                    rest,
                ),
    {
        let rest_velocity: S = ends.zero;
        let mut out = WorkspaceAreas {
            top_left_window: ProgressAndVelocity {
                progress: distances.top_left_window,
                velocity: rest_velocity,
            },
            top_window: ProgressAndVelocity {
                progress: distances.top_window,
                velocity: rest_velocity,
            },
            top_right_window: ProgressAndVelocity {
                progress: distances.top_right_window,
                velocity: rest_velocity,
            },
            right_window: ProgressAndVelocity {
                progress: distances.right_window,
                velocity: rest_velocity,
            },
            bottom_right_window: ProgressAndVelocity {
                progress: distances.bottom_right_window,
                velocity: rest_velocity,
            },
            bottom_window: ProgressAndVelocity {
                progress: distances.bottom_window,
                velocity: rest_velocity,
            },
            bottom_left_window: ProgressAndVelocity {
                progress: distances.bottom_left_window,
                velocity: rest_velocity,
            },
            left_window: ProgressAndVelocity {
                progress: distances.left_window,
                velocity: rest_velocity,
            },
        };
        out.replace(grab_start, ProgressAndVelocity { progress: ends.one, velocity: ends.zero });
        assert(out == Self::held_at(*distances, grab_start, ends.one, *ends));
        let closest = out.min_progress(less);
        let progress: S = (*complement)(closest.0);
        out.replace(grab_start, ProgressAndVelocity { progress, velocity: ends.zero });
        assert(out == Self::held_at(*distances, grab_start, progress, *ends));
        out
    }

    /// The windows of an animation towards `end_pos`, and whether the animation is over.
    ///
    /// `blend` tells where a window is after so many milliseconds of its way.
    pub fn from_animation<
        B: Fn(u32, ProgressAndVelocity<S>, ProgressAndVelocity<S>) -> ProgressAndVelocity<S>,
    >(
        info: &AnimationInfo<S>,
        end_pos: WindowPosition,
        now: u128,
        ends: &Ends<S>,
        blend: &B,
    ) -> (animated: (Self, bool)) where S: Copy
        requires
            info.start_time <= now,
            can_blend(blend),
        ensures
            Self::follows_animation(*info, end_pos, now, *ends, blend, animated.0),
            forall|
                mix: spec_fn(
                    u32,
                    ProgressAndVelocity<S>,
                    ProgressAndVelocity<S>,
                ) -> ProgressAndVelocity<S>,
            | #[trigger]
                blends(blend, mix) ==> animated.0 == Self::between(
                    info.start_info,
                    Self::focussed_on(end_pos, *ends),
                    way_since(info.start_time, now),
                    mix,
                ),
            animated.1 == (progress_since(info.start_time, now) >= ANIMATION_MS),
    {
        let elapsed: u32 = get_progress(now - info.start_time);
        let millis: u32 = if elapsed < ANIMATION_MS {
            elapsed
        } else {
            ANIMATION_MS
        };
        let end_info = Self::from_position(end_pos, ends);
        let mix_slot = |
            start: &ProgressAndVelocity<S>,
            end: ProgressAndVelocity<S>,
        | -> (value: ProgressAndVelocity<S>)
            ensures
                blended(blend, millis, *start, end, value),
        { (*blend)(millis, *start, end) };
        let areas = info.start_info.merge_with(end_info, mix_slot);
        assert forall|
            mix: spec_fn(
                u32,
                ProgressAndVelocity<S>,
                ProgressAndVelocity<S>,
            ) -> ProgressAndVelocity<S>,
        | #[trigger] blends(blend, mix) implies areas == Self::between(
            info.start_info,
            Self::focussed_on(end_pos, *ends),
            millis,
            mix,
        ) by {
            let expected = Self::between(info.start_info, end_info, millis, mix);
            assert forall|slot: WindowPosition| #[trigger] areas.at(slot) == expected.at(slot) by {
                assert(blended(
                    blend,
                    millis,
                    info.start_info.at(slot),
                    end_info.at(slot),
                    areas.at(slot),
                ));
            }
            areas_equal_by_slot(areas, expected);
        }
        (areas, elapsed >= ANIMATION_MS)
    }
}

/// `effects` can be what shows the windows of the current workspace that are not there yet.
pub open spec fn shows_moved<S, M, P: Fn(Point<i64>, Point<i64>, S) -> Point<i32>>(
    s: Smallvil<M>,
    window_areas: WindowAreas<S>,
    main_window_area: Rectangle<i32>,
    main_window_area_size: Size<i32>,
    geometries: WorkspaceAreas<Rectangle<i32>>,
    place: &P,
    effects: Seq<WindowEffect>,
) -> bool {
    puts_in_place(
        s.current(),
        geometries,
        window_areas,
        main_window_area,
        main_window_area_size,
        true,
        place,
        effects,
    )
}

/// Lists what puts the windows of the current workspace where they have come. A window whose
/// geometry already lies there is not shown again.
pub fn position_windows<S: Copy, M, P: Fn(Point<i64>, Point<i64>, S) -> Point<i32>>(
    s: &Smallvil<M>,
    window_areas: &WindowAreas<S>,
    main_window_area: Rectangle<i32>,
    main_window_area_size: Size<i32>,
    geometries: &WorkspaceAreas<Rectangle<i32>>,
    place: &P,
) -> (effects: Vec<WindowEffect>)
    requires
        s.wf(),
        can_place(place),
    ensures
        shows_moved(
            *s,
            *window_areas,
            main_window_area,
            main_window_area_size,
            *geometries,
            place,
            effects@,
        ),
{
    put_in_place(
        &s.workspaces[s.cur_workspace],
        geometries,
        window_areas,
        main_window_area,
        main_window_area_size,
        true,
        place,
    )
}

/// What a gesture leaves is determined by the order of the values and what completes each to one.
pub proof fn gesture_is_determined<S, L: Fn(S, S) -> bool, C: Fn(S) -> S>(
    grab_start: WindowPosition,
    distances: WorkspaceAreas<S>,
    ends: Ends<S>,
    less: &L,
    complement: &C,
    areas: WindowAreas<S>,
    order: spec_fn(S, S) -> bool,
    rest: spec_fn(S) -> S,
)
    requires
        WindowAreas::<S>::follows_gesture(grab_start, distances, ends, less, complement, areas),
        decides(less, order),
        completes(complement, rest),
    ensures
        areas == WindowAreas::<S>::gesture(grab_start, distances, ends, order, rest),
{
    let held = WindowAreas::<S>::held_at(distances, grab_start, ends.one, ends);
    let (closest, progress) = choose|closest: (S, WindowPosition), progress: S|
        {
            &&& #[trigger] held.narrows_to(less, closest)
            &&& #[trigger] call_ensures(*complement, (closest.0,), progress)
            &&& areas == WindowAreas::<S>::held_at(distances, grab_start, progress, ends)
        };
    narrowed_to_least(held, less, order, closest);
}

/// The pair that is left of all slots is the least.
pub proof fn narrowed_to_least<S, L: Fn(S, S) -> bool>(
    areas: WindowAreas<S>,
    less: &L,
    order: spec_fn(S, S) -> bool,
    least: (S, WindowPosition),
)
    requires
        areas.narrows_to(less, least),
        decides(less, order),
    ensures
        least == areas.least(order),
{
    let kept = choose|kept: Seq<(S, WindowPosition)>| #[trigger]
        areas.narrows(less, kept) && kept[7] == least;
    narrowed_is_least(areas, less, order, kept, 8);
}

/// The milliseconds of an animation that have run since `start_time`.
pub open spec fn progress_since(start_time: u128, now: u128) -> u32 {
    progress_after((now - start_time) as nat) as u32
}

/// How far an animation that began at `start_time` has come, in milliseconds: never farther than to
/// its end.
pub open spec fn way_since(start_time: u128, now: u128) -> u32 {
    if progress_since(start_time, now) < ANIMATION_MS {
        progress_since(start_time, now)
    } else {
        ANIMATION_MS
    }
}

/// A slot reads back what was put in it last, and the others read what they held before.
pub proof fn slots_read_what_was_put<A>(
    areas: WorkspaceAreas<A>,
    position: WindowPosition,
    value: A,
    slot: WindowPosition,
)
    ensures
        areas.with(position, value).at(slot) == (if slot == position {
            value
        } else {
            areas.at(slot)
        }),
{
}

/// Of two values put in one slot the later stays; values put in two slots may go in either order.
pub proof fn later_value_stays<A>(
    areas: WorkspaceAreas<A>,
    first: WindowPosition,
    a: A,
    second: WindowPosition,
    b: A,
)
    ensures
        first == second ==> areas.with(first, a).with(second, b) == areas.with(second, b),
        first != second ==> areas.with(first, a).with(second, b) == areas.with(second, b).with(
            first,
            a,
        ),
        areas.with(first, areas.at(first)) == areas,
{
    if first == second {
        areas_equal_by_slot(areas.with(first, a).with(second, b), areas.with(second, b));
    } else {
        areas_equal_by_slot(
            areas.with(first, a).with(second, b),
            areas.with(second, b).with(first, a),
        );
    }
    areas_equal_by_slot(areas.with(first, areas.at(first)), areas);
}

/// `order` puts the window of one slot below that of another.
pub open spec fn is_below<S>(
    areas: WindowAreas<S>,
    order: spec_fn(S, S) -> bool,
    one: WindowPosition,
    other: WindowPosition,
) -> bool {
    order(areas.at(one).progress, areas.at(other).progress)
}

/// Among the progress values of the eight windows, `order` is a strict order in which being neither
/// above nor below carries over.
pub open spec fn orders<S>(areas: WindowAreas<S>, order: spec_fn(S, S) -> bool) -> bool {
    &&& forall|a: WindowPosition| !#[trigger] is_below(areas, order, a, a)
    &&& forall|a: WindowPosition, b: WindowPosition, c: WindowPosition|
        #![trigger is_below(areas, order, a, b), is_below(areas, order, b, c)]
        is_below(areas, order, a, b) && is_below(areas, order, b, c) ==> is_below(
            areas,
            order,
            a,
            c,
        )
    &&& forall|a: WindowPosition, b: WindowPosition, c: WindowPosition|
        #![trigger is_below(areas, order, a, b), is_below(areas, order, b, c)]
        !is_below(areas, order, a, b) && !is_below(areas, order, b, c) ==> !is_below(
            areas,
            order,
            a,
            c,
        )
}

proof fn least_of_first_is_minimal<S>(
    areas: WindowAreas<S>,
    order: spec_fn(S, S) -> bool,
    count: nat,
    index: int,
)
    requires
        orders(areas, order),
        1 <= count <= 8,
        0 <= index < count,
    ensures
        ({
            let least = areas.least_of_first(order, count);
            &&& 0 <= clockwise_index(least.1) < count
            &&& least.0 == areas.at(least.1).progress
            &&& !order(areas.entry(index).0, least.0)
            &&& index > clockwise_index(least.1) ==> order(least.0, areas.entry(index).0)
        }),
    decreases count,
{
    if count > 1 {
        let before = areas.least_of_first(order, (count - 1) as nat);
        let next = areas.entry(count - 1);
        least_of_first_is_minimal(areas, order, (count - 1) as nat, 0);
        if index < count - 1 {
            least_of_first_is_minimal(areas, order, (count - 1) as nat, index);
        }
        assert(!is_below(areas, order, next.1, next.1));
        assert(!is_below(areas, order, before.1, before.1));
        assert(is_below(areas, order, before.1, next.1) == order(before.0, next.0));
        assert(is_below(areas, order, next.1, before.1) == order(next.0, before.0));
        if index < count - 1 {
            let own = areas.entry(index);
            assert(is_below(areas, order, own.1, before.1) == order(own.0, before.0));
            assert(is_below(areas, order, own.1, next.1) == order(own.0, next.0));
        }
    } else {
        let first = areas.entry(0);
        assert(!is_below(areas, order, first.1, first.1));
    }
}

/// No window is closer to filling the main area than the one that [`WorkspaceAreas::least`] names,
/// and those that come after it in clockwise order are farther from it.
pub proof fn least_is_minimal<S>(
    areas: WindowAreas<S>,
    order: spec_fn(S, S) -> bool,
    slot: WindowPosition,
)
    requires
        orders(areas, order),
    ensures
        areas.least(order).0 == areas.at(areas.least(order).1).progress,
        !order(areas.at(slot).progress, areas.least(order).0),
        clockwise_index(slot) > clockwise_index(areas.least(order).1) ==> order(
            areas.least(order).0,
            areas.at(slot).progress,
        ),
{
    least_of_first_is_minimal(areas, order, 8, clockwise_index(slot));
    assert(clockwise(clockwise_index(slot)) == slot);
}

proof fn focus_is_least_of_first<S>(
    position: WindowPosition,
    ends: Ends<S>,
    order: spec_fn(S, S) -> bool,
    count: nat,
)
    requires
        order(ends.zero, ends.one),
        !order(ends.one, ends.zero),
        1 <= count <= 8,
    ensures
        ({
            let least = WindowAreas::<S>::focussed_on(position, ends).least_of_first(order, count);
            if clockwise_index(position) < count {
                least == (ends.zero, position)
            } else {
                least.0 == ends.one
            }
        }),
    decreases count,
{
    if count > 1 {
        focus_is_least_of_first(position, ends, order, (count - 1) as nat);
    }
}

/// The slot that the windows were focussed on is the one with the least progress.
pub proof fn focus_is_recovered<S>(
    position: WindowPosition,
    ends: Ends<S>,
    order: spec_fn(S, S) -> bool,
)
    requires
        order(ends.zero, ends.one),
        !order(ends.one, ends.zero),
    ensures
        WindowAreas::<S>::focussed_on(position, ends).least(order) == (ends.zero, position),
{
    focus_is_least_of_first(position, ends, order, 8);
}

/// A gesture moves the windows in the same way whatever window it began on: two gestures of one
/// movement differ only in the slots that they began on.
pub proof fn gesture_is_the_same_from_every_window<S>(
    one_start: WindowPosition,
    other_start: WindowPosition,
    slot: WindowPosition,
    distances: WorkspaceAreas<S>,
    ends: Ends<S>,
    order: spec_fn(S, S) -> bool,
    rest: spec_fn(S) -> S,
)
    requires
        slot != one_start,
        slot != other_start,
    ensures
        WindowAreas::<S>::gesture(one_start, distances, ends, order, rest).at(slot)
            == WindowAreas::<S>::gesture(other_start, distances, ends, order, rest).at(slot),
        WindowAreas::<S>::gesture(one_start, distances, ends, order, rest).at(slot).progress
            == distances.at(slot),
{
}

/// A gesture that has not moved keeps the focus on the window that it began on, and every window
/// where that focus puts it.
pub proof fn still_gesture_keeps_the_focus<S>(
    grab_start: WindowPosition,
    slot: WindowPosition,
    distances: WorkspaceAreas<S>,
    ends: Ends<S>,
    order: spec_fn(S, S) -> bool,
    rest: spec_fn(S) -> S,
)
    requires
        forall|other: WindowPosition| #[trigger] distances.at(other) == ends.one,
        rest(ends.one) == ends.zero,
        order(ends.zero, ends.one),
        !order(ends.one, ends.zero),
    ensures
        ({
            let areas = WindowAreas::<S>::gesture(grab_start, distances, ends, order, rest);
            &&& areas.at(slot).progress == WindowAreas::<S>::focussed_on(grab_start, ends).at(
                slot,
            ).progress
            &&& areas.least(order) == (ends.zero, grab_start)
        }),
{
    let held = WindowAreas::<S>::held_at(distances, grab_start, ends.one, ends);
    let areas = WindowAreas::<S>::gesture(grab_start, distances, ends, order, rest);
    let focussed = WindowAreas::<S>::focussed_on(grab_start, ends);
    assert forall|other: WindowPosition| (#[trigger] held.at(other)).progress == ends.one by {
        assert(distances.at(other) == ends.one);
    }
    least_is_of_a_slot(held, order, 8);
    assert forall|other: WindowPosition|
        (#[trigger] areas.at(other)).progress == focussed.at(other).progress by {
        assert(distances.at(other) == ends.one);
    }
    equal_progress_has_equal_least(areas, focussed, order, 8);
    focus_is_recovered(grab_start, ends, order);
}

/// The least of the first slots is the progress of one of them.
proof fn least_is_of_a_slot<S>(areas: WindowAreas<S>, order: spec_fn(S, S) -> bool, count: nat)
    requires
        1 <= count <= 8,
    ensures
        ({
            let least = areas.least_of_first(order, count);
            least.0 == areas.at(least.1).progress
        }),
    decreases count,
{
    if count > 1 {
        least_is_of_a_slot(areas, order, (count - 1) as nat);
    }
}

/// The least depends on the progress of the slots alone.
proof fn equal_progress_has_equal_least<S>(
    a: WindowAreas<S>,
    b: WindowAreas<S>,
    order: spec_fn(S, S) -> bool,
    count: nat,
)
    requires
        forall|slot: WindowPosition| (#[trigger] a.at(slot)).progress == b.at(slot).progress,
        1 <= count <= 8,
    ensures
        a.least_of_first(order, count) == b.least_of_first(order, count),
    decreases count,
{
    assert(a.at(clockwise(count - 1)).progress == b.at(clockwise(count - 1)).progress);
    if count > 1 {
        equal_progress_has_equal_least(a, b, order, (count - 1) as nat);
    } else {
        assert(a.at(clockwise(0)).progress == b.at(clockwise(0)).progress);
    }
}

/// A window that is neither the one that leaves the main area nor the one that fills it stays in
/// its slot during the whole animation, as long as blending the resting value with itself leaves it
/// as it is.
pub proof fn bystanders_stay_in_their_slots<S>(
    start: WindowPosition,
    end: WindowPosition,
    slot: WindowPosition,
    ends: Ends<S>,
    millis: u32,
    mix: spec_fn(u32, ProgressAndVelocity<S>, ProgressAndVelocity<S>) -> ProgressAndVelocity<S>,
)
    requires
        slot != start,
        slot != end,
        mix(
            millis,
            ProgressAndVelocity::resting(ends),
            ProgressAndVelocity::resting(ends),
        ).progress == ends.one,
    ensures
        WindowAreas::<S>::between(
            WindowAreas::focussed_on(start, ends),
            WindowAreas::focussed_on(end, ends),
            millis,
            mix,
        ).at(slot).progress == ends.one,
{
}

/// A progress value lies between zero and one.
pub open spec fn in_range<S>(at_most: spec_fn(S, S) -> bool, ends: Ends<S>, value: S) -> bool {
    at_most(ends.zero, value) && at_most(value, ends.one)
}

/// As long as an animation takes, `blend` leads from a progress between zero and one to zero or one
/// without leaving that range.
pub open spec fn blends_in_range<
    S,
    B: Fn(u32, ProgressAndVelocity<S>, ProgressAndVelocity<S>) -> ProgressAndVelocity<S>,
>(blend: &B, at_most: spec_fn(S, S) -> bool, ends: Ends<S>) -> bool {
    forall|
        millis: u32,
        start: ProgressAndVelocity<S>,
        end: ProgressAndVelocity<S>,
        value: ProgressAndVelocity<S>,
    | #[trigger]
        call_ensures(*blend, (millis, start, end), value) && millis <= ANIMATION_MS && in_range(
            at_most,
            ends,
            start.progress,
        ) && is_end(end, ends) ==> in_range(at_most, ends, value.progress)
}

/// Windows that are between the main area and their slots when an animation begins stay there at all
/// times: the progress of each lies between zero and one.
pub proof fn animation_stays_in_range<
    S,
    B: Fn(u32, ProgressAndVelocity<S>, ProgressAndVelocity<S>) -> ProgressAndVelocity<S>,
>(
    info: AnimationInfo<S>,
    end_pos: WindowPosition,
    now: u128,
    ends: Ends<S>,
    blend: &B,
    areas: WindowAreas<S>,
    at_most: spec_fn(S, S) -> bool,
    slot: WindowPosition,
)
    requires
        WindowAreas::<S>::follows_animation(info, end_pos, now, ends, blend, areas),
        blends_in_range(blend, at_most, ends),
        in_range(at_most, ends, info.start_info.at(slot).progress),
    ensures
        in_range(at_most, ends, areas.at(slot).progress),
{
    assert(blended(
        blend,
        way_since(info.start_time, now),
        info.start_info.at(slot),
        WindowAreas::<S>::focussed_on(end_pos, ends).at(slot),
        areas.at(slot),
    ));
}

/// An animation that has run its full time leaves each window where the new focus puts it, as long
/// as blending then gives the end value.
pub proof fn animation_ends_on_the_focus<S>(
    start: WindowAreas<S>,
    end: WindowPosition,
    slot: WindowPosition,
    ends: Ends<S>,
    mix: spec_fn(u32, ProgressAndVelocity<S>, ProgressAndVelocity<S>) -> ProgressAndVelocity<S>,
)
    requires
        forall|other: WindowPosition, value: ProgressAndVelocity<S>|
            is_end(value, ends) ==> (#[trigger] mix(ANIMATION_MS, start.at(other), value)).progress
                == value.progress,
    ensures
        WindowAreas::<S>::between(
            start,
            WindowAreas::focussed_on(end, ends),
            ANIMATION_MS,
            mix,
        ).at(slot).progress == WindowAreas::<S>::focussed_on(end, ends).at(slot).progress,
{
}

/// Each slot has a value of its own.
pub proof fn each_slot_has_its_value<A>(areas: WorkspaceAreas<A>)
    ensures
        areas.at(WindowPosition::TopLeft) == areas.top_left_window,
        areas.at(WindowPosition::Top) == areas.top_window,
        areas.at(WindowPosition::TopRight) == areas.top_right_window,
        areas.at(WindowPosition::Right) == areas.right_window,
        areas.at(WindowPosition::BottomRight) == areas.bottom_right_window,
        areas.at(WindowPosition::Bottom) == areas.bottom_window,
        areas.at(WindowPosition::BottomLeft) == areas.bottom_left_window,
        areas.at(WindowPosition::Left) == areas.left_window,
{
}

/// Clockwise, each slot comes right after the one before it, from the top left on.
pub proof fn slots_go_clockwise(slot: WindowPosition)
    ensures
        0 <= clockwise_index(slot) < 8,
        clockwise(clockwise_index(slot)) == slot,
        clockwise_index(WindowPosition::TopLeft) == 0,
        clockwise_index(WindowPosition::Top) == clockwise_index(WindowPosition::TopLeft) + 1,
        clockwise_index(WindowPosition::TopRight) == clockwise_index(WindowPosition::Top) + 1,
        clockwise_index(WindowPosition::Right) == clockwise_index(WindowPosition::TopRight) + 1,
        clockwise_index(WindowPosition::BottomRight) == clockwise_index(WindowPosition::Right) + 1,
        clockwise_index(WindowPosition::Bottom) == clockwise_index(WindowPosition::BottomRight) + 1,
        clockwise_index(WindowPosition::BottomLeft) == clockwise_index(WindowPosition::Bottom) + 1,
        clockwise_index(WindowPosition::Left) == clockwise_index(WindowPosition::BottomLeft) + 1,
{
}

/// Of two pairs the one with the smaller number is kept, and of two with equal numbers the second.
pub proof fn smaller_pair_is_kept<S, T, L: Fn(S, S) -> bool>(
    less: &L,
    order: spec_fn(S, S) -> bool,
    a: (S, T),
    b: (S, T),
    kept: (S, T),
)
    requires
        keeps_smaller(less, a, b, kept),
        decides(less, order),
    ensures
        kept == a || kept == b,
        order(a.0, b.0) ==> kept == a,
        !order(a.0, b.0) ==> kept == b,
{
}

/// The focus puts one window in the main area, and leaves each other in its slot.
pub proof fn focus_puts_one_window_in_front<S>(
    position: WindowPosition,
    ends: Ends<S>,
    slot: WindowPosition,
)
    ensures
        ({
            let window = WindowAreas::<S>::focussed_on(position, ends).at(slot);
            &&& slot == position ==> window.progress == ends.zero && window.velocity == ends.one
            &&& slot != position ==> window.progress == ends.one && window.velocity == ends.zero
        }),
{
}

/// A gesture holds each window at its distance, but the one that it began on: that has given way by as
/// much as the closest of the others has come in, of which none is closer, or stays where none has.
pub proof fn gesture_holds_windows_at_their_distances<S, L: Fn(S, S) -> bool, C: Fn(S) -> S>(
    grab_start: WindowPosition,
    distances: WorkspaceAreas<S>,
    ends: Ends<S>,
    less: &L,
    complement: &C,
    areas: WindowAreas<S>,
    order: spec_fn(S, S) -> bool,
    rest: spec_fn(S) -> S,
    slot: WindowPosition,
)
    requires
        WindowAreas::<S>::follows_gesture(grab_start, distances, ends, less, complement, areas),
        decides(less, order),
        completes(complement, rest),
        orders(WindowAreas::<S>::held_at(distances, grab_start, ends.one, ends), order),
    ensures
        areas.at(slot).velocity == ends.zero,
        slot != grab_start ==> areas.at(slot).progress == distances.at(slot),
        exists|closest: S|
            {
                &&& areas.at(grab_start).progress == #[trigger] rest(closest)
                &&& !order(ends.one, closest)
                &&& slot != grab_start ==> !order(distances.at(slot), closest)
                &&& closest == ends.one || exists|other: WindowPosition|
                    other != grab_start && #[trigger] distances.at(other) == closest
            },
{
    let held = WindowAreas::<S>::held_at(distances, grab_start, ends.one, ends);
    gesture_is_determined(grab_start, distances, ends, less, complement, areas, order, rest);
    let closest = held.least(order);
    least_is_minimal(held, order, slot);
    least_is_minimal(held, order, grab_start);
    assert(held.at(grab_start).progress == ends.one);
    if closest.1 != grab_start {
        assert(distances.at(closest.1) == closest.0);
    }
    assert(areas.at(grab_start).progress == rest(closest.0));
}

/// An animation goes on with the clock: while it runs it has come as many milliseconds as have passed,
/// and then it is at its end. It begins again in the second second, and stays at its end from the third
/// on.
pub proof fn animation_goes_on_with_the_clock(start_time: u128, now: u128)
    requires
        start_time <= now,
    ensures
        ({
            let elapsed = now - start_time;
            let way = way_since(start_time, now);
            let over = progress_since(start_time, now) >= ANIMATION_MS;
            &&& elapsed < 300_000_000 ==> way * 1_000_000 <= elapsed < (way + 1) * 1_000_000
                && !over
            &&& 300_000_000 <= elapsed < 1_000_000_000 ==> way == 300 && over
            &&& 1_000_000_000 <= elapsed < 1_300_000_000 ==> way * 1_000_000 <= elapsed
                - 1_000_000_000 < (way + 1) * 1_000_000 && !over
            &&& elapsed >= 1_300_000_000 ==> way == 300 && over
        }),
{
}

/// Within its first second an animation never goes back.
pub proof fn animation_never_goes_back(start_time: u128, now: u128, later: u128)
    requires
        start_time <= now <= later,
        later - start_time < 1_000_000_000,
    ensures
        way_since(start_time, now) <= way_since(start_time, later),
        progress_since(start_time, now) <= progress_since(start_time, later),
{
    animation_goes_on_with_the_clock(start_time, now);
    animation_goes_on_with_the_clock(start_time, later);
    let a = (now - start_time) as nat;
    let b = (later - start_time) as nat;
    assert(a / 1_000_000 <= b / 1_000_000) by (nonlinear_arith)
        requires
            a <= b,
    ;
}

/// While an animation runs, each window is where blending puts it after as many milliseconds as have
/// passed, between where it was and where the new focus puts it; then it is where blending puts it at the
/// end.
pub proof fn windows_are_blended_by_the_clock<
    S,
    B: Fn(u32, ProgressAndVelocity<S>, ProgressAndVelocity<S>) -> ProgressAndVelocity<S>,
>(
    info: AnimationInfo<S>,
    end_pos: WindowPosition,
    now: u128,
    ends: Ends<S>,
    blend: &B,
    areas: WindowAreas<S>,
    slot: WindowPosition,
)
    requires
        WindowAreas::<S>::follows_animation(info, end_pos, now, ends, blend, areas),
        info.start_time <= now,
    ensures
        ({
            let elapsed = now - info.start_time;
            let start = info.start_info.at(slot);
            let end = if slot == end_pos {
                ProgressAndVelocity { progress: ends.zero, velocity: ends.one }
            } else {
                ProgressAndVelocity { progress: ends.one, velocity: ends.zero }
            };
            &&& elapsed < 300_000_000 ==> call_ensures(
                *blend,
                ((elapsed / 1_000_000) as u32, start, end),
                areas.at(slot),
            )
            &&& 300_000_000 <= elapsed < 1_000_000_000 || elapsed >= 2_000_000_000 ==> call_ensures(
                *blend,
                (300u32, start, end),
                areas.at(slot),
            )
        }),
{
    animation_goes_on_with_the_clock(info.start_time, now);
    let elapsed = now - info.start_time;
    let way = way_since(info.start_time, now);
    if elapsed < 300_000_000 {
        assert(way == elapsed / 1_000_000);
    }
    assert(blended(
        blend,
        way,
        info.start_info.at(slot),
        WindowAreas::<S>::focussed_on(end_pos, ends).at(slot),
        areas.at(slot),
    ));
}

/// Between two arrangements each window is where it would be if it were alone.
pub proof fn windows_are_blended_one_by_one<S>(
    start: WindowAreas<S>,
    end: WindowAreas<S>,
    millis: u32,
    mix: spec_fn(u32, ProgressAndVelocity<S>, ProgressAndVelocity<S>) -> ProgressAndVelocity<S>,
    slot: WindowPosition,
)
    ensures
        WindowAreas::<S>::between(start, end, millis, mix).at(slot) == mix(
            millis,
            start.at(slot),
            end.at(slot),
        ),
{
}

/// A window of the current workspace is shown exactly if it does not lie where `place` puts it, and is asked
/// for the size exactly if it does not have it.
pub proof fn window_in_its_place_is_not_shown_again<
    S,
    M,
    P: Fn(Point<i64>, Point<i64>, S) -> Point<i32>,
>(
    s: Smallvil<M>,
    window_areas: WindowAreas<S>,
    area: Rectangle<i32>,
    size: Size<i32>,
    geometries: WorkspaceAreas<Rectangle<i32>>,
    place: &P,
    effects: Seq<WindowEffect>,
    slot: WindowPosition,
    window: Window,
    at: Point<i32>,
)
    requires
        shows_moved(s, window_areas, area, size, geometries, place, effects),
        windows_differ(s.current()),
        s.current().at(slot) == Some(window),
        forall|point: Point<i32>| #[trigger]
            call_ensures(
                *place,
                (
                    Point { x: area.loc.x as i64, y: area.loc.y as i64 },
                    corner(area, slot),
                    window_areas.at(slot).progress,
                ),
                point,
            ) ==> point == at,
    ensures
        effects.len() > 0 && effects[0] is UnmapAll,
        effects.contains(WindowEffect::Show { window, at }) <==> geometries.at(slot).loc != at,
        effects.contains(WindowEffect::Resize { window, size }) <==> geometries.at(slot).size
            != size,
{
    windows_are_shown_where_place_says(
        s.current(),
        geometries,
        window_areas,
        area,
        size,
        true,
        place,
        effects,
        slot,
        window,
    );
    let shown = WindowEffect::Show { window, at };
    let resized = WindowEffect::Resize { window, size };
    if effects.contains(shown) {
        let index = effects.index_of(shown);
        only_windows_in_slots_are_touched(
            s.current(),
            geometries,
            window_areas,
            area,
            size,
            true,
            place,
            effects,
            index,
        );
    }
    if effects.contains(resized) {
        let index = effects.index_of(resized);
        only_windows_in_slots_are_touched(
            s.current(),
            geometries,
            window_areas,
            area,
            size,
            true,
            place,
            effects,
            index,
        );
    }
}

} // verus!
