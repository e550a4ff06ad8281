//! What the pointer does: where it is held, what a button focusses, and what a scroll tells.

use vstd::prelude::*;

use crate::geometry::Point;
use crate::outputs::{
    all_mapped, can_clamp, clamp_coords, held_pointer_was_clamped, is_held, is_output_at,
    width_sum, widths_fit, Output,
};
use crate::placement::Window;
use crate::state::Smallvil;

verus! {

/// The direction of a scroll.
#[derive(Debug, Clone, Copy, PartialEq, Eq)]
pub enum Axis {
    Horizontal,
    Vertical,
}

/// How far a scroll went in one direction.
#[derive(Debug, Clone, Copy)]
pub struct AxisAmount<S> {
    /// In pixels, where the device tells.
    pub amount: Option<S>,
    /// In parts of a wheel step, of which there are 120, where the device tells.
    pub v120: Option<S>,
}

/// One part of what a client is told of a scroll.
#[derive(Debug, Clone, Copy, PartialEq, Eq)]
pub enum AxisEntry<S> {
    /// How far it went.
    Value(Axis, S),
    /// How many parts of a wheel step it went.
    V120(Axis, i32),
    /// It ended.
    Stop(Axis),
}

/// Something that is done because of an input event.
#[derive(Debug, Clone, PartialEq, Eq)]
pub enum InputEffect<S> {
    /// Hand the key to the client with the focus.
    ForwardKey,
    /// Start a program.
    Spawn(&'static str),
    /// Ask a window to close.
    SendClose(Window),
    /// Take a window off the screen.
    Unmap(Window),
    /// Give the keyboard to a surface, or to none.
    SetFocus(Option<u64>),
    /// End the event loop.
    StopLoop,
    /// Switch to a virtual terminal.
    ChangeVt(i32),
    /// Move the pointer.
    MovePointer(Point<S>),
    /// Put a window in front of the others.
    Raise(Window),
    /// Tell each window on the screen what has changed.
    ConfigureAll,
    /// Take the activation from each window on the screen and tell it what has changed.
    DeactivateAll,
    /// Hand the button to the client under the pointer.
    PressButton,
    /// Hand a scroll to the client under the pointer.
    Scroll(Vec<AxisEntry<S>>),
    /// End a group of pointer events.
    Frame,
}

/// The arithmetic of pointer coordinates.
#[derive(Debug, Clone, Copy)]
pub struct Pointing<K, T, R, X, V, Z, D> {
    /// A coordinate, kept between zero and a bound.
    pub clamp: K,
    /// The whole pixel that a coordinate falls in.
    pub truncate: T,
    /// The pixel that is the closest to a point.
    pub round: R,
    /// The place of an absolute event within a width and a height.
    pub transformed: X,
    /// The pixels that so many parts of a wheel step stand for.
    pub from_v120: V,
    /// Whether a value is zero.
    pub is_zero: Z,
    /// Where a gesture that was at a point is after it has moved on.
    pub drag: D,
}

/// `entries` can be what a scroll in one direction tells, given how far it went.
pub open spec fn tells_value<S, T: Fn(S) -> i32>(
    axis: Axis,
    v120: Option<S>,
    truncate: &T,
    value: S,
    still: bool,
    entries: Seq<AxisEntry<S>>,
) -> bool {
    if still {
        entries == Seq::<AxisEntry<S>>::empty()
    } else {
        match v120 {
            None => entries == seq![AxisEntry::Value(axis, value)],
            Some(parts) => exists|whole: i32| #[trigger]
                call_ensures(*truncate, (parts,), whole) && entries == seq![
                    AxisEntry::Value(axis, value),
                    AxisEntry::V120(axis, whole),
                ],
        }
    }
}

/// `entries` can be what a scroll that ended in one direction tells.
pub open spec fn tells_stop<S, Z: Fn(S) -> bool>(
    axis: Axis,
    amount: Option<S>,
    is_zero: &Z,
    entries: Seq<AxisEntry<S>>,
) -> bool {
    match amount {
        None => entries == Seq::<AxisEntry<S>>::empty(),
        Some(value) => exists|still: bool| #[trigger]
            call_ensures(*is_zero, (value,), still) && entries == (if still {
                seq![AxisEntry::<S>::Stop(axis)]
            } else {
                Seq::empty()
            }),
    }
}

/// `entries` can be what the ends of a scroll tell: only one by finger has them.
pub open spec fn tells_stops<S, Z: Fn(S) -> bool>(
    finger: bool,
    horizontal: AxisAmount<S>,
    vertical: AxisAmount<S>,
    is_zero: &Z,
    entries: Seq<AxisEntry<S>>,
) -> bool {
    if finger {
        exists|first: Seq<AxisEntry<S>>, second: Seq<AxisEntry<S>>|
            {
                &&& #[trigger] tells_stop(Axis::Horizontal, horizontal.amount, is_zero, first)
                &&& #[trigger] tells_stop(Axis::Vertical, vertical.amount, is_zero, second)
                &&& entries == first + second
            }
    } else {
        entries == Seq::<AxisEntry<S>>::empty()
    }
}

impl<
    S,
    K: Fn(S, i32) -> S,
    T: Fn(S) -> i32,
    R: Fn(Point<S>) -> Point<i32>,
    X: Fn(i32, i32) -> Point<S>,
    V: Fn(S) -> S,
    Z: Fn(S) -> bool,
    D: Fn(Point<S>, Point<S>) -> Point<S>,
> Pointing<K, T, R, X, V, Z, D> {
    /// Each of the functions takes every value; no bound is negative.
    pub open spec fn ready(&self) -> bool {
        &&& can_clamp(&self.clamp)
        &&& forall|value: S| #[trigger] call_requires(self.truncate, (value,))
        &&& forall|point: Point<S>| #[trigger] call_requires(self.round, (point,))
        &&& forall|width: i32, height: i32| #[trigger]
            call_requires(self.transformed, (width, height))
        &&& forall|parts: S| #[trigger] call_requires(self.from_v120, (parts,))
        &&& forall|value: S| #[trigger] call_requires(self.is_zero, (value,))
        &&& forall|at: Point<S>, moved: Point<S>| #[trigger] call_requires(self.drag, (at, moved))
    }

    /// `value` can be how far a scroll went in one direction: what the device tells, or else what the
    /// parts of a wheel step stand for.
    pub open spec fn is_amount(&self, told: AxisAmount<S>, zero: S, value: S) -> bool {
        match told.amount {
            Some(amount) => value == amount,
            None => call_ensures(
                self.from_v120,
                (match told.v120 {
                    Some(parts) => parts,
                    None => zero,
                },),
                value,
            ),
        }
    }

    /// `entries` can be what a scroll in one direction tells: nothing if it went nowhere.
    pub open spec fn tells_amount(
        &self,
        axis: Axis,
        told: AxisAmount<S>,
        zero: S,
        entries: Seq<AxisEntry<S>>,
    ) -> bool {
        exists|value: S, still: bool|
            {
                &&& self.is_amount(told, zero, value)
                &&& #[trigger] call_ensures(self.is_zero, (value,), still)
                &&& tells_value(axis, told.v120, &self.truncate, value, still, entries)
            }
    }

    /// `entries` can be what a scroll tells in both directions.
    pub open spec fn tells_amounts(
        &self,
        horizontal: AxisAmount<S>,
        vertical: AxisAmount<S>,
        zero: S,
        entries: Seq<AxisEntry<S>>,
    ) -> bool {
        exists|first: Seq<AxisEntry<S>>, second: Seq<AxisEntry<S>>|
            {
                &&& #[trigger] self.tells_amount(Axis::Horizontal, horizontal, zero, first)
                &&& #[trigger] self.tells_amount(Axis::Vertical, vertical, zero, second)
                &&& entries == first + second
            }
    }

    /// `entries` can be what a client is told of a scroll: how far it went, then where it ended.
    pub open spec fn tells_scroll(
        &self,
        finger: bool,
        horizontal: AxisAmount<S>,
        vertical: AxisAmount<S>,
        zero: S,
        entries: Seq<AxisEntry<S>>,
    ) -> bool {
        exists|amounts: Seq<AxisEntry<S>>, stops: Seq<AxisEntry<S>>|
            {
                &&& #[trigger] self.tells_amounts(horizontal, vertical, zero, amounts)
                &&& #[trigger] tells_stops(finger, horizontal, vertical, &self.is_zero, stops)
                &&& entries == amounts + stops
            }
    }

    /// Lists what a scroll in one direction tells.
    fn amount_entries(&self, axis: Axis, told: &AxisAmount<S>, zero: S) -> (entries: Vec<
        AxisEntry<S>,
    >) where S: Copy
        requires
            self.ready(),
        ensures
            self.tells_amount(axis, *told, zero, entries@),
    {
        let value: S = match told.amount {
            Some(amount) => amount,
            None => {
                let parts: S = match told.v120 {
                    Some(parts) => parts,
                    None => zero,
                };
                (self.from_v120)(parts)
            },
        };
        let still: bool = (self.is_zero)(value);
        let mut entries: Vec<AxisEntry<S>> = Vec::new();
        if !still {
            entries.push(AxisEntry::Value(axis, value));
            if let Some(parts) = told.v120 {
                let whole: i32 = (self.truncate)(parts);
                entries.push(AxisEntry::V120(axis, whole));
                assert(entries@ =~= seq![
                    AxisEntry::Value(axis, value),
                    AxisEntry::V120(axis, whole),
                ]);
            } else {
                assert(entries@ =~= seq![AxisEntry::Value(axis, value)]);
            }
        }
        assert(tells_value(axis, told.v120, &self.truncate, value, still, entries@));
        entries
    }

    /// Lists what a scroll that ended in one direction tells.
    fn stop_entries(&self, axis: Axis, amount: &Option<S>) -> (entries: Vec<AxisEntry<S>>) where
        S: Copy,

        requires
            self.ready(),
        ensures
            tells_stop(axis, *amount, &self.is_zero, entries@),
    {
        let mut entries: Vec<AxisEntry<S>> = Vec::new();
        if let Some(value) = amount {
            let still: bool = (self.is_zero)(*value);
            if still {
                entries.push(AxisEntry::Stop(axis));
                assert(entries@ =~= seq![AxisEntry::<S>::Stop(axis)]);
            }
        }
        entries
    }

    /// Lists what a client is told of a scroll.
    pub fn scroll_entries(
        &self,
        finger: bool,
        horizontal: &AxisAmount<S>,
        vertical: &AxisAmount<S>,
        zero: S,
    ) -> (entries: Vec<AxisEntry<S>>) where S: Copy
        requires
            self.ready(),
        ensures
            self.tells_scroll(finger, *horizontal, *vertical, zero, entries@),
    {
        let mut entries: Vec<AxisEntry<S>> = self.amount_entries(
            Axis::Horizontal,
            horizontal,
            zero,
        );
        let ghost first = entries@;
        let mut second: Vec<AxisEntry<S>> = self.amount_entries(Axis::Vertical, vertical, zero);
        let ghost amounts = first + second@;
        entries.append(&mut second);
        assert(self.tells_amounts(*horizontal, *vertical, zero, amounts));
        let ghost mut stops: Seq<AxisEntry<S>> = Seq::empty();
        if finger {
            let mut ended: Vec<AxisEntry<S>> = self.stop_entries(
                Axis::Horizontal,
                &horizontal.amount,
            );
            let ghost one = ended@;
            let mut other: Vec<AxisEntry<S>> = self.stop_entries(Axis::Vertical, &vertical.amount);
            proof {
                stops = one + other@;
            }
            ended.append(&mut other);
            entries.append(&mut ended);
        }
        assert(tells_stops(finger, *horizontal, *vertical, &self.is_zero, stops));
        assert(entries@ =~= amounts + stops);
        entries
    }
}

/// What a button does: one that is pressed while nothing holds the pointer gives the keyboard to the
/// window under it, or to none; in any case the client gets the button.
pub open spec fn button_effects<S>(
    pressed: bool,
    grabbed: bool,
    under: Option<Window>,
) -> Seq<InputEffect<S>> {
    (if pressed && !grabbed {
        match under {
            Some(window) => seq![
                InputEffect::Raise(window),
                InputEffect::SetFocus(Some(window.surface)),
                InputEffect::ConfigureAll,
            ],
            None => seq![InputEffect::DeactivateAll, InputEffect::SetFocus(None)],
        }
    } else {
        Seq::empty()
    }) + seq![InputEffect::PressButton, InputEffect::Frame]
}

/// Lists what a button does.
pub fn press_button<S>(pressed: bool, grabbed: bool, under: &Option<Window>) -> (effects: Vec<
    InputEffect<S>,
>)
    ensures
        effects@ == button_effects::<S>(pressed, grabbed, *under),
{
    let mut effects: Vec<InputEffect<S>> = Vec::new();
    if pressed && !grabbed {
        match under {
            Some(window) => {
                effects.push(InputEffect::Raise(*window));
                effects.push(InputEffect::SetFocus(Some(window.surface)));
                effects.push(InputEffect::ConfigureAll);
            },
            None => {
                effects.push(InputEffect::DeactivateAll);
                effects.push(InputEffect::SetFocus(None));
            },
        }
    }
    effects.push(InputEffect::PressButton);
    effects.push(InputEffect::Frame);
    assert(effects@ =~= button_effects::<S>(pressed, grabbed, *under));
    effects
}

impl<M> Smallvil<M> {
    /// `after` and `effects` can come of a pointer that is moved to `requested`: it goes where it is
    /// held within the outputs, and the output under it becomes the current one.
    pub open spec fn moves_pointer<
        S,
        K: Fn(S, i32) -> S,
        T: Fn(S) -> i32,
        R: Fn(Point<S>) -> Point<i32>,
        X,
        V,
        Z,
        D,
    >(
        self,
        outputs: Seq<Output>,
        requested: Point<S>,
        pointing: &Pointing<K, T, R, X, V, Z, D>,
        after: Self,
        effects: Seq<InputEffect<S>>,
    ) -> bool {
        exists|location: Point<S>, pixel: Point<i32>, found: Option<usize>|
            {
                &&& outputs.len() == 0 ==> location == requested
                &&& outputs.len() > 0 ==> is_held(
                    outputs,
                    requested,
                    &pointing.clamp,
                    &pointing.truncate,
                    location,
                )
                &&& #[trigger] call_ensures(pointing.round, (location,), pixel)
                &&& #[trigger] is_output_at(outputs, pixel, found)
                &&& after == (Smallvil {
                    cur_monitor: match found {
                        Some(index) => index,
                        None => self.cur_monitor,
                    },
                    ..self
                })
                &&& effects == seq![InputEffect::MovePointer(location), InputEffect::Frame]
            }
    }

    /// Moves the pointer.
    pub fn move_pointer<
        S: Copy,
        K: Fn(S, i32) -> S,
        T: Fn(S) -> i32,
        R: Fn(Point<S>) -> Point<i32>,
        X: Fn(i32, i32) -> Point<S>,
        V: Fn(S) -> S,
        Z: Fn(S) -> bool,
        D: Fn(Point<S>, Point<S>) -> Point<S>,
    >(
        &mut self,
        outputs: &Vec<Output>,
        requested: Point<S>,
        pointing: &Pointing<K, T, R, X, V, Z, D>,
    ) -> (effects: Vec<InputEffect<S>>)
        requires
            all_mapped(outputs@),
            widths_fit(outputs@),
            width_sum(outputs@) >= 0,
            pointing.ready(),
        ensures
            old(self).moves_pointer(outputs@, requested, pointing, *final(self), effects@),
    {
        let location: Point<S> = clamp_coords(
            outputs,
            requested,
            &pointing.clamp,
            &pointing.truncate,
        );
        let pixel: Point<i32> = (pointing.round)(location);
        self.update_cur_monitor(outputs, pixel);
        let mut effects: Vec<InputEffect<S>> = Vec::new();
        effects.push(InputEffect::MovePointer(location));
        effects.push(InputEffect::Frame);
        assert(effects@ =~= seq![InputEffect::MovePointer(location), InputEffect::Frame]);
        effects
    }
}

/// A pointer goes where it is asked to only where there are no outputs. Otherwise it goes where `clamp`
/// keeps it: across within the width of all outputs together, and down within the height of the output
/// whose column that is. The first output that has the pixel which is the closest to that place becomes
/// the current one, and nothing else changes.
pub proof fn pointer_goes_where_it_is_held<
    M,
    S,
    K: Fn(S, i32) -> S,
    T: Fn(S) -> i32,
    R: Fn(Point<S>) -> Point<i32>,
    X,
    V,
    Z,
    D,
>(
    before: Smallvil<M>,
    outputs: Seq<Output>,
    requested: Point<S>,
    pointing: &Pointing<K, T, R, X, V, Z, D>,
    after: Smallvil<M>,
    effects: Seq<InputEffect<S>>,
)
    requires
        before.moves_pointer(outputs, requested, pointing, after, effects),
    ensures
        effects.len() == 2,
        effects[0] is MovePointer,
        effects[1] is Frame,
        outputs.len() == 0 ==> effects[0]->MovePointer_0 == requested,
        outputs.len() > 0 ==> call_ensures(
            pointing.clamp,
            (requested.x, width_sum(outputs) as i32),
            effects[0]->MovePointer_0.x,
        ),
        outputs.len() > 0 ==> exists|column: i32, above: Option<usize>|
            {
                &&& #[trigger] call_ensures(
                    pointing.truncate,
                    (effects[0]->MovePointer_0.x,),
                    column,
                )
                &&& #[trigger] is_output_at(outputs, Point { x: column, y: 0 }, above)
                &&& match above {
                    Some(index) => call_ensures(
                        pointing.clamp,
                        (requested.y, outputs[index as int].geometry->0.size.h),
                        effects[0]->MovePointer_0.y,
                    ),
                    None => effects[0]->MovePointer_0.y == requested.y,
                }
            },
        exists|pixel: Point<i32>, found: Option<usize>|
            {
                &&& #[trigger] call_ensures(pointing.round, (effects[0]->MovePointer_0,), pixel)
                &&& #[trigger] is_output_at(outputs, pixel, found)
                &&& match found {
                    Some(index) => after.cur_monitor == index,
                    None => after.cur_monitor == before.cur_monitor,
                }
            },
        after == (Smallvil { cur_monitor: after.cur_monitor, ..before }),
{
    let (location, pixel, found) = choose|
        location: Point<S>,
        pixel: Point<i32>,
        found: Option<usize>,
    |
        {
            &&& outputs.len() == 0 ==> location == requested
            &&& outputs.len() > 0 ==> is_held(
                outputs,
                requested,
                &pointing.clamp,
                &pointing.truncate,
                location,
            )
            &&& #[trigger] call_ensures(pointing.round, (location,), pixel)
            &&& #[trigger] is_output_at(outputs, pixel, found)
            &&& after == (Smallvil {
                cur_monitor: match found {
                    Some(index) => index,
                    None => before.cur_monitor,
                },
                ..before
            })
            &&& effects == seq![InputEffect::MovePointer(location), InputEffect::Frame]
        };
    assert(effects[0] == InputEffect::MovePointer(location));
    assert(call_ensures(pointing.round, (effects[0]->MovePointer_0,), pixel));
    assert(is_output_at(outputs, pixel, found));
    if outputs.len() > 0 {
        held_pointer_was_clamped(
            outputs,
            requested,
            &pointing.clamp,
            &pointing.truncate,
            location,
        );
    }
}

/// A pointer that is moved stays within the width of all outputs together, as `clamp` keeps it there.
pub proof fn pointer_stays_within_the_outputs<
    M,
    S,
    K: Fn(S, i32) -> S,
    T: Fn(S) -> i32,
    R: Fn(Point<S>) -> Point<i32>,
    X,
    V,
    Z,
    D,
>(
    before: Smallvil<M>,
    outputs: Seq<Output>,
    requested: Point<S>,
    pointing: &Pointing<K, T, R, X, V, Z, D>,
    after: Smallvil<M>,
    effects: Seq<InputEffect<S>>,
    inside: spec_fn(S, i32) -> bool,
)
    requires
        before.moves_pointer(outputs, requested, pointing, after, effects),
        outputs.len() > 0,
        forall|bound: i32, kept: S| #[trigger]
            call_ensures(pointing.clamp, (requested.x, bound), kept) ==> inside(kept, bound),
    ensures
        effects[0] matches InputEffect::MovePointer(location) && inside(
            location.x,
            width_sum(outputs) as i32,
        ),
{
}

/// A button reaches the client whatever it does before. It changes the focus only when it is pressed
/// while nothing holds the pointer: the window under it is raised and gets the keyboard, and where there
/// is none, no window stays active and nothing has the keyboard.
pub proof fn button_focusses_what_is_under_it<S>(
    pressed: bool,
    grabbed: bool,
    under: Option<Window>,
    window: Window,
    focus: Option<u64>,
)
    ensures
        ({
            let effects = button_effects::<S>(pressed, grabbed, under);
            let focusses = pressed && !grabbed;
            &&& effects.len() >= 2
            &&& effects[effects.len() - 2] is PressButton
            &&& effects[effects.len() - 1] is Frame
            &&& !focusses ==> effects.len() == 2
            &&& effects.contains(InputEffect::SetFocus(focus)) <==> focusses && focus == (
            match under {
                Some(window) => Some(window.surface),
                None => None,
            })
            &&& effects.contains(InputEffect::Raise(window)) <==> focusses && under == Some(window)
            &&& effects.contains(InputEffect::ConfigureAll) <==> focusses && under is Some
            &&& effects.contains(InputEffect::DeactivateAll) <==> focusses && under is None
            &&& focusses ==> effects.len() == (if under is Some {
                5int
            } else {
                4int
            })
        }),
{
    let effects = button_effects::<S>(pressed, grabbed, under);
    if pressed && !grabbed {
        match under {
            Some(window) => {
                assert(effects[0] == InputEffect::<S>::Raise(window));
                assert(effects[1] == InputEffect::<S>::SetFocus(Some(window.surface)));
                assert(effects[2] is ConfigureAll);
            },
            None => {
                assert(effects[0] is DeactivateAll);
                assert(effects[1] == InputEffect::<S>::SetFocus(None));
            },
        }
    }
}

/// What one direction of a scroll tells.
proof fn amount_tells<
    S,
    K: Fn(S, i32) -> S,
    T: Fn(S) -> i32,
    R: Fn(Point<S>) -> Point<i32>,
    X: Fn(i32, i32) -> Point<S>,
    V: Fn(S) -> S,
    Z: Fn(S) -> bool,
    D: Fn(Point<S>, Point<S>) -> Point<S>,
>(
    pointing: &Pointing<K, T, R, X, V, Z, D>,
    axis: Axis,
    told: AxisAmount<S>,
    zero: S,
    entries: Seq<AxisEntry<S>>,
    entry: AxisEntry<S>,
    pixels: spec_fn(S) -> S,
    still: spec_fn(S) -> bool,
    whole: spec_fn(S) -> i32,
)
    requires
        pointing.tells_amount(axis, told, zero, entries),
        forall|parts: S, value: S| #[trigger]
            call_ensures(pointing.from_v120, (parts,), value) ==> value == pixels(parts),
        forall|value: S, answer: bool| #[trigger]
            call_ensures(pointing.is_zero, (value,), answer) ==> answer == still(value),
        forall|value: S, cut: i32| #[trigger]
            call_ensures(pointing.truncate, (value,), cut) ==> cut == whole(value),
    ensures
        ({
            let gone = match (told.amount, told.v120) {
                (Some(amount), _) => amount,
                (None, Some(parts)) => pixels(parts),
                (None, None) => pixels(zero),
            };
            &&& entries.no_duplicates()
            &&& entries.contains(entry) <==> !still(gone) && match entry {
                AxisEntry::Value(direction, value) => direction == axis && value == gone,
                AxisEntry::V120(direction, steps) => direction == axis && (
                told.v120 matches Some(parts) && steps == whole(parts)),
                AxisEntry::Stop(_) => false,
            }
        }),
{
    let (value, quiet) = choose|value: S, quiet: bool|
        {
            &&& pointing.is_amount(told, zero, value)
            &&& #[trigger] call_ensures(pointing.is_zero, (value,), quiet)
            &&& tells_value(axis, told.v120, &pointing.truncate, value, quiet, entries)
        };
    if !quiet {
        assert(entries[0] == AxisEntry::Value(axis, value));
        if told.v120 is Some {
            assert(entries[1] == AxisEntry::<S>::V120(axis, whole(told.v120->0)));
        }
    }
}

/// What one direction of a scroll that has come to rest tells.
proof fn stop_tells<S, Z: Fn(S) -> bool>(
    axis: Axis,
    amount: Option<S>,
    is_zero: &Z,
    entries: Seq<AxisEntry<S>>,
    entry: AxisEntry<S>,
    still: spec_fn(S) -> bool,
)
    requires
        tells_stop(axis, amount, is_zero, entries),
        forall|value: S, answer: bool| #[trigger]
            call_ensures(*is_zero, (value,), answer) ==> answer == still(value),
    ensures
        entries.no_duplicates(),
        entries.contains(entry) <==> entry == AxisEntry::<S>::Stop(axis) && (
        amount matches Some(value) && still(value)),
{
    if entries.len() > 0 {
        assert(entries[0] == AxisEntry::<S>::Stop(axis));
    }
}

proof fn joined_contains<A>(first: Seq<A>, second: Seq<A>, entry: A)
    ensures
        (first + second).contains(entry) <==> first.contains(entry) || second.contains(entry),
{
    let all = first + second;
    if first.contains(entry) {
        assert(all[first.index_of(entry)] == entry);
    }
    if second.contains(entry) {
        assert(all[first.len() + second.index_of(entry)] == entry);
    }
    if all.contains(entry) {
        let at = all.index_of(entry);
        if at < first.len() {
            assert(first[at] == entry);
        } else {
            assert(second[at - first.len()] == entry);
        }
    }
}

/// A client is told of a scroll how far it went in each direction in which it went anywhere, with the
/// parts of a wheel step where the device gives them; and of one by finger, each direction that the
/// device says has come to rest. The way is what the device gives, or else what the parts of a wheel
/// step stand for.
pub proof fn scroll_tells_both_directions<
    S,
    K: Fn(S, i32) -> S,
    T: Fn(S) -> i32,
    R: Fn(Point<S>) -> Point<i32>,
    X: Fn(i32, i32) -> Point<S>,
    V: Fn(S) -> S,
    Z: Fn(S) -> bool,
    D: Fn(Point<S>, Point<S>) -> Point<S>,
>(
    pointing: &Pointing<K, T, R, X, V, Z, D>,
    finger: bool,
    horizontal: AxisAmount<S>,
    vertical: AxisAmount<S>,
    zero: S,
    entries: Seq<AxisEntry<S>>,
    entry: AxisEntry<S>,
    pixels: spec_fn(S) -> S,
    still: spec_fn(S) -> bool,
    whole: spec_fn(S) -> i32,
)
    requires
        pointing.tells_scroll(finger, horizontal, vertical, zero, entries),
        forall|parts: S, value: S| #[trigger]
            call_ensures(pointing.from_v120, (parts,), value) ==> value == pixels(parts),
        forall|value: S, answer: bool| #[trigger]
            call_ensures(pointing.is_zero, (value,), answer) ==> answer == still(value),
        forall|value: S, cut: i32| #[trigger]
            call_ensures(pointing.truncate, (value,), cut) ==> cut == whole(value),
    ensures
        ({
            let gone = |told: AxisAmount<S>|
                match (told.amount, told.v120) {
                    (Some(amount), _) => amount,
                    (None, Some(parts)) => pixels(parts),
                    (None, None) => pixels(zero),
                };
            let told = |axis: Axis|
                match axis {
                    Axis::Horizontal => horizontal,
                    Axis::Vertical => vertical,
                };
            entries.contains(entry) <==> match entry {
                AxisEntry::Value(axis, value) => value == gone(told(axis)) && !still(value),
                AxisEntry::V120(axis, steps) => !still(gone(told(axis))) && (
                told(axis).v120 matches Some(parts) && steps == whole(parts)),
                AxisEntry::Stop(axis) => finger && (told(axis).amount matches Some(value) && still(
                    value,
                )),
            }
        }),
        entries.len() <= 6,
        entries.no_duplicates(),
{
    let (amounts, stops) = choose|amounts: Seq<AxisEntry<S>>, stops: Seq<AxisEntry<S>>|
        {
            &&& #[trigger] pointing.tells_amounts(horizontal, vertical, zero, amounts)
            &&& #[trigger] tells_stops(finger, horizontal, vertical, &pointing.is_zero, stops)
            &&& entries == amounts + stops
        };
    let (first, second) = choose|first: Seq<AxisEntry<S>>, second: Seq<AxisEntry<S>>|
        {
            &&& #[trigger] pointing.tells_amount(Axis::Horizontal, horizontal, zero, first)
            &&& #[trigger] pointing.tells_amount(Axis::Vertical, vertical, zero, second)
            &&& amounts == first + second
        };
    amount_tells(
        pointing,
        Axis::Horizontal,
        horizontal,
        zero,
        first,
        entry,
        pixels,
        still,
        whole,
    );
    amount_tells(pointing, Axis::Vertical, vertical, zero, second, entry, pixels, still, whole);
    joined_contains(first, second, entry);
    joined_contains(amounts, stops, entry);
    if finger {
        let (one, other) = choose|one: Seq<AxisEntry<S>>, other: Seq<AxisEntry<S>>|
            {
                &&& #[trigger] tells_stop(
                    Axis::Horizontal,
                    horizontal.amount,
                    &pointing.is_zero,
                    one,
                )
                &&& #[trigger] tells_stop(Axis::Vertical, vertical.amount, &pointing.is_zero, other)
                &&& stops == one + other
            };
        stop_tells(
            Axis::Horizontal,
            horizontal.amount,
            &pointing.is_zero,
            one,
            entry,
            still,
        );
        stop_tells(Axis::Vertical, vertical.amount, &pointing.is_zero, other, entry, still);
        joined_contains(one, other, entry);
    }
}

} // verus!
