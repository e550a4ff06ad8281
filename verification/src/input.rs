//! What keys, the pointer and gestures do.

use vstd::prelude::*;

use crate::extra_state::{
    decides, least_is_minimal, narrowed_to_least, orders, AnimationInfo, ProgressAndVelocity,
    WindowAreas, WindowPosition, WorkspaceAreas, WorkspaceState,
};
use crate::geometry::{logical, Point, Rectangle, Size};
use crate::handlers::xdg_shell::{added_window_can_be_taken_out, free_slot};
use crate::motion::{began_before, Motion};
use crate::outputs::{
    absolute_extent, all_mapped, max_height, width_sum, widths_fit, Output,
};
use crate::placement::{
    can_place, no_windows, put_in_place, puts_in_place, AnvilWorkspace, Window, WindowEffect,
};
use crate::pointer::{
    button_effects, pointer_goes_where_it_is_held, press_button, AxisAmount, AxisEntry, InputEffect,
    Pointing,
};
use crate::state::{main_area, Smallvil};

verus! {

/// The keys that are bound, by the numbers of their symbols in X11.
pub const KEY_COMMA: u32 = 0x2c;

pub const KEY_F: u32 = 0x66;

pub const KEY_G: u32 = 0x67;

pub const KEY_H: u32 = 0x68;

pub const KEY_I: u32 = 0x69;

pub const KEY_J: u32 = 0x6a;

pub const KEY_K: u32 = 0x6b;

pub const KEY_M: u32 = 0x6d;

pub const KEY_N: u32 = 0x6e;

pub const KEY_U: u32 = 0x75;

pub const KEY_X: u32 = 0x78;

pub const KEY_Y: u32 = 0x79;

pub const KEY_TAB: u32 = 0xff09;

pub const KEY_SWITCH_VT_1: u32 = 0x1008_fe01;

pub const KEY_SWITCH_VT_12: u32 = 0x1008_fe0c;

/// Which modifier keys are held.
#[derive(Debug, Clone, Copy, PartialEq, Eq)]
pub struct ModifiersState {
    pub ctrl: bool,
    pub alt: bool,
    pub logo: bool,
}

/// Possible results of a keyboard action.
#[derive(Debug, Clone, Copy, PartialEq, Eq)]
pub enum Action {
    /// Move the focus to the window of a slot.
    FocusInDirection(WindowPosition),
    /// Spawn a command.
    SpawnCommand(&'static str),
    /// Close the currently focussed window.
    CloseFocussedWindow,
    /// Quit the compositor.
    Quit,
    /// Switch to another virtual terminal.
    VtSwitch(i32),
}

/// What becomes of a key.
#[derive(Debug, Clone, Copy, PartialEq, Eq)]
pub enum FilterResult {
    /// The client with the focus gets it.
    Forward,
    /// The compositor takes it.
    Intercept(Action),
}

/// The slot that a key stands for.
pub open spec fn key_slot(sym: u32) -> Option<WindowPosition> {
    if sym == KEY_Y {
        Some(WindowPosition::TopLeft)
    } else if sym == KEY_U {
        Some(WindowPosition::Top)
    } else if sym == KEY_I {
        Some(WindowPosition::TopRight)
    } else if sym == KEY_K {
        Some(WindowPosition::Right)
    } else if sym == KEY_COMMA {
        Some(WindowPosition::BottomRight)
    } else if sym == KEY_M || sym == KEY_J {
        Some(WindowPosition::Bottom)
    } else if sym == KEY_N {
        Some(WindowPosition::BottomLeft)
    } else if sym == KEY_H {
        Some(WindowPosition::Left)
    } else {
        None
    }
}

/// The command that a key stands for.
pub open spec fn key_command(sym: u32) -> Option<&'static str> {
    if sym == KEY_F {
        Some("firefox")
    } else if sym == KEY_G {
        Some("ghostty")
    } else if sym == KEY_X {
        Some("systemctl suspend")
    } else {
        None
    }
}

/// A key that switches to a virtual terminal.
pub open spec fn switches_vt(sym: u32) -> bool {
    KEY_SWITCH_VT_1 <= sym <= KEY_SWITCH_VT_12
}

/// What a key that is pressed is bound to.
pub open spec fn binding(modifiers: ModifiersState, sym: u32) -> Option<Action> {
    if modifiers.alt && modifiers.ctrl && switches_vt(sym) {
        Some(Action::VtSwitch((sym - KEY_SWITCH_VT_1 + 1) as i32))
    } else if !modifiers.alt && !modifiers.logo {
        None
    } else if sym == KEY_TAB {
        Some(Action::Quit)
    } else if key_command(sym) is Some {
        Some(Action::SpawnCommand(key_command(sym)->0))
    } else if key_slot(sym) is Some {
        Some(Action::FocusInDirection(key_slot(sym)->0))
    } else {
        None
    }
}

/// What becomes of a key, as a mathematical value.
pub open spec fn filtered(pressed: bool, modifiers: ModifiersState, sym: u32) -> FilterResult {
    if pressed && binding(modifiers, sym) is Some {
        FilterResult::Intercept(binding(modifiers, sym)->0)
    } else {
        FilterResult::Forward
    }
}

/// What becomes of a key that is released: the client gets it.
pub fn parse_released_key(_modifiers: &ModifiersState, _sym: u32) -> (result: FilterResult)
    ensures
        result == filtered(false, *_modifiers, _sym),
{
    FilterResult::Forward
}

/// What becomes of a key that is pressed: the compositor takes those that are bound.
pub fn parse_pressed_key(modifiers: &ModifiersState, sym: u32) -> (result: FilterResult)
    ensures
        result == filtered(true, *modifiers, sym),
{
    // ctrl+alt+Fx switches to the corresponding virtual terminal
    if modifiers.alt && modifiers.ctrl && KEY_SWITCH_VT_1 <= sym && sym <= KEY_SWITCH_VT_12 {
        return FilterResult::Intercept(Action::VtSwitch((sym - KEY_SWITCH_VT_1 + 1) as i32));
    }
    if modifiers.alt || modifiers.logo {
        if sym == KEY_TAB {
            FilterResult::Intercept(Action::Quit)
        } else if sym == KEY_F {
            FilterResult::Intercept(Action::SpawnCommand("firefox"))
        } else if sym == KEY_G {
            FilterResult::Intercept(Action::SpawnCommand("ghostty"))
        } else if sym == KEY_X {
            FilterResult::Intercept(Action::SpawnCommand("systemctl suspend"))
        } else if sym == KEY_Y {
            FilterResult::Intercept(Action::FocusInDirection(WindowPosition::TopLeft))
        } else if sym == KEY_U {
            FilterResult::Intercept(Action::FocusInDirection(WindowPosition::Top))
        } else if sym == KEY_I {
            FilterResult::Intercept(Action::FocusInDirection(WindowPosition::TopRight))
        } else if sym == KEY_K {
            FilterResult::Intercept(Action::FocusInDirection(WindowPosition::Right))
        } else if sym == KEY_COMMA {
            FilterResult::Intercept(Action::FocusInDirection(WindowPosition::BottomRight))
        } else if sym == KEY_M || sym == KEY_J {
            FilterResult::Intercept(Action::FocusInDirection(WindowPosition::Bottom))
        } else if sym == KEY_N {
            FilterResult::Intercept(Action::FocusInDirection(WindowPosition::BottomLeft))
        } else if sym == KEY_H {
            FilterResult::Intercept(Action::FocusInDirection(WindowPosition::Left))
        } else {
            FilterResult::Forward
        }
    } else {
        FilterResult::Forward
    }
}

/// What becomes of a key.
pub fn parse_key(pressed: bool, modifiers: &ModifiersState, sym: u32) -> (result: FilterResult)
    ensures
        result == filtered(pressed, *modifiers, sym),
{
    if pressed {
        parse_pressed_key(modifiers, sym)
    } else {
        parse_released_key(modifiers, sym)
    }
}

/// Without alt and logo no key is taken from the clients.
pub proof fn plain_keys_reach_the_clients(modifiers: ModifiersState, sym: u32)
    requires
        !modifiers.alt,
        !modifiers.logo,
    ensures
        binding(modifiers, sym) is None,
{
}

/// The terminals that keys switch to are the first twelve, and each of them has a key.
pub proof fn keys_reach_twelve_terminals(modifiers: ModifiersState, sym: u32, vt: i32)
    ensures
        binding(modifiers, sym) == Some(Action::VtSwitch(vt)) ==> 1 <= vt <= 12,
        modifiers.alt && modifiers.ctrl && 1 <= vt <= 12 ==> binding(
            modifiers,
            (KEY_SWITCH_VT_1 + vt - 1) as u32,
        ) == Some(Action::VtSwitch(vt)),
{
}

/// Each slot has a key that moves the focus to it.
pub proof fn every_slot_has_a_key(modifiers: ModifiersState, slot: WindowPosition)
    requires
        modifiers.alt || modifiers.logo,
    ensures
        exists|sym: u32| #[trigger] binding(modifiers, sym) == Some(Action::FocusInDirection(slot)),
{
    let sym: u32 = match slot {
        WindowPosition::TopLeft => KEY_Y,
        WindowPosition::Top => KEY_U,
        WindowPosition::TopRight => KEY_I,
        WindowPosition::Right => KEY_K,
        WindowPosition::BottomRight => KEY_COMMA,
        WindowPosition::Bottom => KEY_M,
        WindowPosition::BottomLeft => KEY_N,
        WindowPosition::Left => KEY_H,
    };
    assert(binding(modifiers, sym) == Some(Action::FocusInDirection(slot)));
}

/// Lists what puts the windows of the current workspace where they have come. Every window is shown
/// again.
pub fn position_windows<S: Copy, M, P: Fn(Point<i64>, Point<i64>, S) -> Point<i32>>(
    s: &Smallvil<M>,
    window_areas: &WindowAreas<S>,
    main_window_area: Rectangle<i32>,
    main_window_area_size: Size<i32>,
    geometries: &WorkspaceAreas<Rectangle<i32>>,
    place: &P,
) -> (effects: Vec<WindowEffect>)
    requires
        s.wf(),
        can_place(place),
    ensures
        puts_in_place(
            s.current(),
            *geometries,
            *window_areas,
            main_window_area,
            main_window_area_size,
            false,
            place,
            effects@,
        ),
{
    put_in_place(
        &s.workspaces[s.cur_workspace],
        geometries,
        window_areas,
        main_window_area,
        main_window_area_size,
        false,
        place,
    )
}

/// The slots in the order in which they are searched: those of the edges, then those of the corners.
pub open spec fn edges_first(index: int) -> WindowPosition {
    if index <= 0 {
        WindowPosition::Left
    } else if index == 1 {
        WindowPosition::Top
    } else if index == 2 {
        WindowPosition::Right
    } else if index == 3 {
        WindowPosition::Bottom
    } else if index == 4 {
        WindowPosition::TopLeft
    } else if index == 5 {
        WindowPosition::TopRight
    } else if index == 6 {
        WindowPosition::BottomLeft
    } else {
        WindowPosition::BottomRight
    }
}

/// The place of a slot in the order in which they are searched.
pub open spec fn edges_first_index(slot: WindowPosition) -> int {
    match slot {
        WindowPosition::Left => 0,
        WindowPosition::Top => 1,
        WindowPosition::Right => 2,
        WindowPosition::Bottom => 3,
        WindowPosition::TopLeft => 4,
        WindowPosition::TopRight => 5,
        WindowPosition::BottomLeft => 6,
        WindowPosition::BottomRight => 7,
    }
}

/// Whether a slot holds the window with a surface.
pub open spec fn shows_surface(window: Option<Window>, surface: u64) -> bool {
    window matches Some(window) && window.surface == surface
}

/// The first slot that holds the window with a surface, from a place in the order on.
pub open spec fn slot_of_from(
    workspace: AnvilWorkspace,
    surface: u64,
    index: int,
) -> Option<WindowPosition>
    decreases 8 - index,
{
    if index >= 8 {
        None
    } else if shows_surface(workspace.at(edges_first(index)), surface) {
        Some(edges_first(index))
    } else {
        slot_of_from(workspace, surface, index + 1)
    }
}

/// The slot of a workspace that holds the window with a surface.
pub open spec fn slot_of(workspace: AnvilWorkspace, surface: u64) -> Option<WindowPosition> {
    slot_of_from(workspace, surface, 0)
}

proof fn slot_of_from_is_first(
    workspace: AnvilWorkspace,
    surface: u64,
    index: int,
    slot: WindowPosition,
)
    requires
        0 <= index <= 8,
    ensures
        match slot_of_from(workspace, surface, index) {
            Some(found) => shows_surface(workspace.at(found), surface),
            None => index <= edges_first_index(slot) ==> !shows_surface(
                workspace.at(slot),
                surface,
            ),
        },
    decreases 8 - index,
{
    if index < 8 {
        assert(edges_first(edges_first_index(slot)) == slot);
        slot_of_from_is_first(workspace, surface, index + 1, slot);
    }
}

/// The slot that is found holds the window with the surface, and where none is found no slot does.
pub proof fn slot_of_holds_the_surface(
    workspace: AnvilWorkspace,
    surface: u64,
    slot: WindowPosition,
)
    ensures
        match slot_of(workspace, surface) {
            Some(found) => shows_surface(workspace.at(found), surface),
            None => !shows_surface(workspace.at(slot), surface),
        },
{
    slot_of_from_is_first(workspace, surface, 0, slot);
}

/// No two slots of a workspace hold windows with the same surface.
pub open spec fn surfaces_differ(workspace: AnvilWorkspace) -> bool {
    forall|one: WindowPosition, other: WindowPosition, surface: u64|
        #![trigger shows_surface(workspace.at(one), surface), shows_surface(
            workspace.at(other),
            surface,
        )]
        shows_surface(workspace.at(one), surface) && shows_surface(workspace.at(other), surface)
            ==> one == other
}

/// Whether a slot holds the window with the focus.
pub fn is_focussed_window(window: &Option<Window>, focussed: u64) -> (focussed_here: bool)
    ensures
        focussed_here == shows_surface(*window, focussed),
{
    match window {
        Some(window) => window.surface == focussed,
        None => false,
    }
}

/// The slot of a workspace that holds the window with the focus.
fn focussed_slot(workspace: &AnvilWorkspace, focussed: u64) -> (slot: Option<WindowPosition>)
    ensures
        slot == slot_of(*workspace, focussed),
{
    proof {
        reveal_with_fuel(slot_of_from, 9);
    }
    if is_focussed_window(&workspace.left_window, focussed) {
        Some(WindowPosition::Left)
    } else if is_focussed_window(&workspace.top_window, focussed) {
        Some(WindowPosition::Top)
    } else if is_focussed_window(&workspace.right_window, focussed) {
        Some(WindowPosition::Right)
    } else if is_focussed_window(&workspace.bottom_window, focussed) {
        Some(WindowPosition::Bottom)
    } else if is_focussed_window(&workspace.top_left_window, focussed) {
        Some(WindowPosition::TopLeft)
    } else if is_focussed_window(&workspace.top_right_window, focussed) {
        Some(WindowPosition::TopRight)
    } else if is_focussed_window(&workspace.bottom_left_window, focussed) {
        Some(WindowPosition::BottomLeft)
    } else if is_focussed_window(&workspace.bottom_right_window, focussed) {
        Some(WindowPosition::BottomRight)
    } else {
        None
    }
}

/// The window of a slot, taken out of it.
pub open spec fn without_slot(workspace: AnvilWorkspace, slot: WindowPosition) -> AnvilWorkspace {
    workspace.with(slot, None)
}

/// Once the window with the focus has been closed, no slot holds it, and the other slots hold what
/// they held before.
pub proof fn closed_window_is_gone(
    workspace: AnvilWorkspace,
    focussed: u64,
    slot: WindowPosition,
)
    requires
        surfaces_differ(workspace),
        slot_of(workspace, focussed) is Some,
    ensures
        ({
            let closed = slot_of(workspace, focussed)->0;
            let rest = without_slot(workspace, closed);
            &&& !shows_surface(rest.at(slot), focussed)
            &&& slot != closed ==> rest.at(slot) == workspace.at(slot)
            &&& slot_of(rest, focussed) is None
        }),
{
    let closed = slot_of(workspace, focussed)->0;
    let rest = without_slot(workspace, closed);
    slot_of_holds_the_surface(workspace, focussed, closed);
    if shows_surface(workspace.at(slot), focussed) {
        assert(shows_surface(workspace.at(closed), focussed));
    }
    if let Some(left) = slot_of(rest, focussed) {
        slot_of_holds_the_surface(rest, focussed, left);
        assert(shows_surface(workspace.at(left), focussed));
        assert(shows_surface(workspace.at(closed), focussed));
    }
}

/// The windows of a workspace keep surfaces of their own: they have at first, and still have once a
/// window with a new surface was added or a window was taken out.
pub proof fn surfaces_stay_different(
    workspace: AnvilWorkspace,
    window: Window,
    slot: WindowPosition,
)
    requires
        surfaces_differ(workspace),
        slot_of(workspace, window.surface) is None,
    ensures
        surfaces_differ(no_windows()),
        surfaces_differ(workspace.with(slot, Some(window))),
        surfaces_differ(without_slot(workspace, slot)),
{
    let added = workspace.with(slot, Some(window));
    assert forall|one: WindowPosition, other: WindowPosition, surface: u64|
        #![trigger shows_surface(added.at(one), surface), shows_surface(added.at(other), surface)]
        shows_surface(added.at(one), surface) && shows_surface(added.at(other), surface) implies one
        == other by {
        slot_of_holds_the_surface(workspace, window.surface, one);
        slot_of_holds_the_surface(workspace, window.surface, other);
        if one != slot && other != slot {
            assert(shows_surface(workspace.at(one), surface));
            assert(shows_surface(workspace.at(other), surface));
        }
    }
    let rest = without_slot(workspace, slot);
    assert forall|one: WindowPosition, other: WindowPosition, surface: u64|
        #![trigger shows_surface(rest.at(one), surface), shows_surface(rest.at(other), surface)]
        shows_surface(rest.at(one), surface) && shows_surface(rest.at(other), surface) implies one
        == other by {
        assert(shows_surface(workspace.at(one), surface));
        assert(shows_surface(workspace.at(other), surface));
    }
}

/// Closing a window that was just added leaves the workspace as it was.
pub proof fn closing_undoes_opening(workspace: AnvilWorkspace, window: Window)
    requires
        free_slot(workspace) is Some,
        slot_of(workspace, window.surface) is None,
    ensures
        ({
            let opened = workspace.with(free_slot(workspace)->0, Some(window));
            &&& slot_of(opened, window.surface) == free_slot(workspace)
            &&& without_slot(opened, slot_of(opened, window.surface)->0) == workspace
        }),
{
    let slot = free_slot(workspace)->0;
    let opened = workspace.with(slot, Some(window));
    slot_of_holds_the_surface(opened, window.surface, slot);
    if let Some(found) = slot_of(opened, window.surface) {
        slot_of_holds_the_surface(workspace, window.surface, found);
    }
    added_window_can_be_taken_out(workspace, window);
}

impl<M> Smallvil<M> {
    /// The slot of the current workspace that holds the window with the keyboard focus.
    pub open spec fn slot_with(self, focus: Option<u64>) -> Option<WindowPosition> {
        match focus {
            Some(surface) => slot_of(self.current(), surface),
            None => None,
        }
    }

    /// `after` and `effects` are what closing the window with the keyboard focus comes to.
    pub open spec fn closes<S>(
        self,
        focus: Option<u64>,
        after: Self,
        effects: Seq<InputEffect<S>>,
    ) -> bool {
        match self.slot_with(focus) {
            Some(slot) => {
                let window = self.current().at(slot)->0;
                &&& after.workspaces@ == self.workspaces@.update(
                    self.cur_workspace as int,
                    without_slot(self.current(), slot),
                )
                &&& after == (Smallvil { workspaces: after.workspaces, ..self })
                &&& effects == seq![
                    InputEffect::<S>::SendClose(window),
                    InputEffect::Unmap(window),
                    InputEffect::SetFocus(None),
                ]
            },
            None => after == self && effects == Seq::<InputEffect<S>>::empty(),
        }
    }
}

/// Closes the window with the keyboard focus, if it is in the current workspace: it is taken out of
/// its slot and off the screen, and nothing has the focus then.
pub fn close_focussed_window<M, S>(state: &mut Smallvil<M>, focus: Option<u64>) -> (effects: Vec<
    InputEffect<S>,
>)
    requires
        old(state).wf(),
    ensures
        final(state).wf(),
        old(state).closes(focus, *final(state), effects@),
{
    let mut effects: Vec<InputEffect<S>> = Vec::new();
    let Some(focussed) = focus else {
        return effects;
    };
    let current: usize = state.cur_workspace;
    let mut workspace: AnvilWorkspace = state.workspaces[current];
    let Some(slot) = focussed_slot(&workspace, focussed) else {
        return effects;
    };
    proof {
        slot_of_holds_the_surface(workspace, focussed, slot);
    }
    let closed: Option<Window> = match slot {
        WindowPosition::TopLeft => workspace.top_left_window,
        WindowPosition::Top => workspace.top_window,
        WindowPosition::TopRight => workspace.top_right_window,
        WindowPosition::Right => workspace.right_window,
        WindowPosition::BottomRight => workspace.bottom_right_window,
        WindowPosition::Bottom => workspace.bottom_window,
        WindowPosition::BottomLeft => workspace.bottom_left_window,
        WindowPosition::Left => workspace.left_window,
    };
    workspace.replace(slot, None);
    state.workspaces.set(current, workspace);
    if let Some(window) = closed {
        effects.push(InputEffect::SendClose(window));
        effects.push(InputEffect::Unmap(window));
        effects.push(InputEffect::SetFocus(None));
        assert(effects@ =~= seq![
            InputEffect::SendClose(window),
            InputEffect::Unmap(window),
            InputEffect::SetFocus(None),
        ]);
    }
    effects
}

/// The list of one effect.
fn only<S>(effect: InputEffect<S>) -> (effects: Vec<InputEffect<S>>)
    ensures
        effects@ == seq![effect],
{
    let mut effects: Vec<InputEffect<S>> = Vec::new();
    effects.push(effect);
    effects
}

/// An input event.
#[derive(Debug, Clone, Copy)]
pub enum InputEvent<S> {
    /// A key, and what becomes of it; nothing where there is no keyboard.
    Keyboard(Option<FilterResult>),
    /// The pointer moves to a point.
    PointerMotion(Point<S>),
    /// The pointer moves to a place within the extent of all outputs.
    PointerMotionAbsolute,
    /// A button, whether it is pressed, whether something holds the pointer, and the window under it.
    PointerButton { pressed: bool, grabbed: bool, under: Option<Window> },
    /// A scroll, and whether it is made by finger.
    PointerAxis { finger: bool, horizontal: AxisAmount<S>, vertical: AxisAmount<S> },
    GestureSwipeBegin,
    /// A swipe moves on.
    GestureSwipeUpdate(Point<S>),
    GestureSwipeEnd,
    /// An event that means nothing here.
    Other,
}

impl<S> Smallvil<WorkspaceState<S>> {
    /// `after` and `effects` can come of an action.
    pub open spec fn acts<
        L: Fn(S, S) -> bool,
        C: Fn(S) -> S,
        A: Fn(Rectangle<i32>, Point<S>) -> WorkspaceAreas<S>,
        B: Fn(u32, ProgressAndVelocity<S>, ProgressAndVelocity<S>) -> ProgressAndVelocity<S>,
    >(
        self,
        action: Action,
        focus: Option<u64>,
        now: u128,
        motion: &Motion<S, L, C, A, B>,
        after: Self,
        effects: Seq<InputEffect<S>>,
    ) -> bool {
        match action {
            Action::SpawnCommand(command) => {
                &&& after == self
                &&& effects == seq![InputEffect::<S>::Spawn(command)]
            },
            Action::FocusInDirection(direction) => {
                &&& self.focusses(direction, now, motion, after)
                &&& effects == Seq::<InputEffect<S>>::empty()
            },
            Action::CloseFocussedWindow => self.closes(focus, after, effects),
            Action::Quit => {
                &&& after == (Smallvil { running: false, ..self })
                &&& effects == seq![InputEffect::<S>::StopLoop]
            },
            Action::VtSwitch(vt) => {
                &&& after == self
                &&& effects == (if self.backend_data is Some {
                    seq![InputEffect::<S>::ChangeVt(vt)]
                } else {
                    Seq::empty()
                })
            },
        }
    }

    /// Begins a gesture: the windows are held from now on.
    pub fn on_gesture_swipe_begin(&mut self, zero: S) where S: Copy
        ensures
            *final(self) == (Smallvil {
                cur_workspace_state: WorkspaceState::Grabbed(Point { x: zero, y: zero }),
                ..*old(self)
            }),
    {
        self.cur_workspace_state = WorkspaceState::Grabbed(logical(zero, zero));
    }

    /// `after` can come of a gesture that moves on: only windows that are held move with it.
    pub open spec fn drags<D: Fn(Point<S>, Point<S>) -> Point<S>>(
        self,
        delta: Point<S>,
        drag: &D,
        after: Self,
    ) -> bool {
        match self.cur_workspace_state {
            WorkspaceState::Grabbed(at) => exists|moved: Point<S>| #[trigger]
                call_ensures(*drag, (at, delta), moved) && after == (Smallvil {
                    cur_workspace_state: WorkspaceState::Grabbed(moved),
                    ..self
                }),
            _ => after == self,
        }
    }

    /// Moves the windows that a gesture holds.
    pub fn on_gesture_swipe_update<D: Fn(Point<S>, Point<S>) -> Point<S>>(
        &mut self,
        delta: Point<S>,
        drag: &D,
    ) where S: Copy
        requires
            forall|at: Point<S>, moved: Point<S>| #[trigger] call_requires(*drag, (at, moved)),
        ensures
            old(self).drags(delta, drag, *final(self)),
    {
        if let WorkspaceState::Grabbed(old_pos) = self.cur_workspace_state {
            let new_pos: Point<S> = (*drag)(old_pos, delta);
            self.cur_workspace_state = WorkspaceState::Grabbed(new_pos);
        }
    }

    /// `after` can come of the end of a gesture at `now`: the windows go from where it held them to
    /// the focus of the one that it brought the closest. Without a main area nothing happens.
    pub open spec fn releases<
        L: Fn(S, S) -> bool,
        C: Fn(S) -> S,
        A: Fn(Rectangle<i32>, Point<S>) -> WorkspaceAreas<S>,
        B: Fn(u32, ProgressAndVelocity<S>, ProgressAndVelocity<S>) -> ProgressAndVelocity<S>,
    >(
        self,
        area: Option<Rectangle<i32>>,
        now: u128,
        motion: &Motion<S, L, C, A, B>,
        after: Self,
    ) -> bool {
        match (self.cur_workspace_state, area) {
            (WorkspaceState::Grabbed(moved), Some(area)) => exists|
                areas: WindowAreas<S>,
                closest: (S, WindowPosition),
            |
                {
                    &&& motion.holds_at(self.cur_workspace_focussed_window, area, moved, areas)
                    &&& #[trigger] areas.narrows_to(&motion.less, closest)
                    &&& after == (Smallvil {
                        cur_workspace_state: WorkspaceState::Animating(
                            AnimationInfo { start_time: now, start_info: areas },
                        ),
                        cur_workspace_focussed_window: closest.1,
                        ..self
                    })
                },
            _ => after == self,
        }
    }

    /// Ends a gesture.
    pub fn on_gesture_swipe_end<
        L: Fn(S, S) -> bool,
        C: Fn(S) -> S,
        A: Fn(Rectangle<i32>, Point<S>) -> WorkspaceAreas<S>,
        B: Fn(u32, ProgressAndVelocity<S>, ProgressAndVelocity<S>) -> ProgressAndVelocity<S>,
    >(&mut self, outputs: &Vec<Output>, now: u128, motion: &Motion<S, L, C, A, B>) where S: Copy
        requires
            motion.ready(),
        ensures
            began_before(old(self).cur_workspace_state, now) ==> began_before(
                final(self).cur_workspace_state,
                now,
            ),
            old(self).releases(
                main_area(outputs@, old(self).cur_monitor),
                now,
                motion,
                *final(self),
            ),
    {
        let WorkspaceState::Grabbed(grab_delta) = self.cur_workspace_state else {
            return;
        };
        let Some(area) = self.main_window_area(outputs) else {
            return;
        };
        let distances: WorkspaceAreas<S> = (motion.distances_at)(area, grab_delta);
        let start_info: WindowAreas<S> = WindowAreas::<S>::from_gesture(
            self.cur_workspace_focussed_window,
            &distances,
            &motion.ends,
            &motion.less,
            &motion.complement,
        );
        assert(motion.holds_at(self.cur_workspace_focussed_window, area, grab_delta, start_info));
        let closest: (S, WindowPosition) = start_info.min_progress(&motion.less);
        self.cur_workspace_focussed_window = closest.1;
        self.cur_workspace_state = WorkspaceState::Animating(
            AnimationInfo { start_time: now, start_info },
        );
    }

    /// `after` and `effects` can come of an input event.
    pub open spec fn handles<
        L: Fn(S, S) -> bool,
        C: Fn(S) -> S,
        A: Fn(Rectangle<i32>, Point<S>) -> WorkspaceAreas<S>,
        B: Fn(u32, ProgressAndVelocity<S>, ProgressAndVelocity<S>) -> ProgressAndVelocity<S>,
        K: Fn(S, i32) -> S,
        T: Fn(S) -> i32,
        R: Fn(Point<S>) -> Point<i32>,
        X: Fn(i32, i32) -> Point<S>,
        V: Fn(S) -> S,
        Z: Fn(S) -> bool,
        D: Fn(Point<S>, Point<S>) -> Point<S>,
    >(
        self,
        event: InputEvent<S>,
        outputs: Seq<Output>,
        focus: Option<u64>,
        now: u128,
        motion: &Motion<S, L, C, A, B>,
        pointing: &Pointing<K, T, R, X, V, Z, D>,
        after: Self,
        effects: Seq<InputEffect<S>>,
    ) -> bool {
        match event {
            InputEvent::Keyboard(None) => {
                &&& after == self
                &&& effects == Seq::<InputEffect<S>>::empty()
            },
            InputEvent::Keyboard(Some(FilterResult::Forward)) => {
                &&& after == self
                &&& effects == seq![InputEffect::<S>::ForwardKey]
            },
            InputEvent::Keyboard(Some(FilterResult::Intercept(action))) => self.acts(
                action,
                focus,
                now,
                motion,
                after,
                effects,
            ),
            InputEvent::PointerMotion(requested) => self.moves_pointer(
                outputs,
                requested,
                pointing,
                after,
                effects,
            ),
            InputEvent::PointerMotionAbsolute => exists|requested: Point<S>| #[trigger]
                call_ensures(
                    pointing.transformed,
                    (width_sum(outputs) as i32, max_height(outputs) as i32),
                    requested,
                ) && self.moves_pointer(outputs, requested, pointing, after, effects),
            InputEvent::PointerButton { pressed, grabbed, under } => {
                &&& after == self
                &&& effects == button_effects::<S>(pressed, grabbed, under)
            },
            InputEvent::PointerAxis { finger, horizontal, vertical } => {
                &&& after == self
                &&& effects.len() == 2
                &&& effects[0] matches InputEffect::Scroll(entries) && pointing.tells_scroll(
                    finger,
                    horizontal,
                    vertical,
                    motion.ends.zero,
                    entries@,
                )
                &&& effects[1] == InputEffect::<S>::Frame
            },
            InputEvent::GestureSwipeBegin => {
                &&& after == (Smallvil {
                    cur_workspace_state: WorkspaceState::Grabbed(
                        Point { x: motion.ends.zero, y: motion.ends.zero },
                    ),
                    ..self
                })
                &&& effects == Seq::<InputEffect<S>>::empty()
            },
            InputEvent::GestureSwipeUpdate(delta) => {
                &&& self.drags(delta, &pointing.drag, after)
                &&& effects == Seq::<InputEffect<S>>::empty()
            },
            InputEvent::GestureSwipeEnd => {
                &&& self.releases(main_area(outputs, self.cur_monitor), now, motion, after)
                &&& effects == Seq::<InputEffect<S>>::empty()
            },
            InputEvent::Other => {
                &&& after == self
                &&& effects == Seq::<InputEffect<S>>::empty()
            },
        }
    }

    /// Handles an input event and lists what is to be done because of it.
    ///
    /// `focus` is the surface that has the keyboard.
    pub fn process_input_event<
        L: Fn(S, S) -> bool,
        C: Fn(S) -> S,
        A: Fn(Rectangle<i32>, Point<S>) -> WorkspaceAreas<S>,
        B: Fn(u32, ProgressAndVelocity<S>, ProgressAndVelocity<S>) -> ProgressAndVelocity<S>,
        K: Fn(S, i32) -> S,
        T: Fn(S) -> i32,
        R: Fn(Point<S>) -> Point<i32>,
        X: Fn(i32, i32) -> Point<S>,
        V: Fn(S) -> S,
        Z: Fn(S) -> bool,
        D: Fn(Point<S>, Point<S>) -> Point<S>,
    >(
        &mut self,
        event: InputEvent<S>,
        outputs: &Vec<Output>,
        focus: Option<u64>,
        now: u128,
        motion: &Motion<S, L, C, A, B>,
        pointing: &Pointing<K, T, R, X, V, Z, D>,
    ) -> (effects: Vec<InputEffect<S>>) where S: Copy
        requires
            old(self).wf(),
            event matches InputEvent::Keyboard(Some(FilterResult::Intercept(action)))
                && action is FocusInDirection ==> began_before(old(self).cur_workspace_state, now),
            motion.ready(),
            pointing.ready(),
            event is PointerMotion || event is PointerMotionAbsolute ==> all_mapped(outputs@)
                && widths_fit(outputs@) && width_sum(outputs@) >= 0,
        ensures
            final(self).wf(),
            began_before(old(self).cur_workspace_state, now) ==> began_before(
                final(self).cur_workspace_state,
                now,
            ),
            old(self).handles(
                event,
                outputs@,
                focus,
                now,
                motion,
                pointing,
                *final(self),
                effects@,
            ),
    {
        match event {
            InputEvent::Keyboard(None) => Vec::new(),
            InputEvent::Keyboard(Some(FilterResult::Forward)) => only(InputEffect::ForwardKey),
            InputEvent::Keyboard(Some(FilterResult::Intercept(action))) => handle_key_action(
                self,
                action,
                focus,
                now,
                motion,
            ),
            InputEvent::PointerMotion(requested) => self.move_pointer(outputs, requested, pointing),
            InputEvent::PointerMotionAbsolute => {
                let (max_x, max_y) = absolute_extent(outputs);
                let requested: Point<S> = (pointing.transformed)(max_x, max_y);
                assert(call_ensures(
                    pointing.transformed,
                    (width_sum(outputs@) as i32, max_height(outputs@) as i32),
                    requested,
                ));
                self.move_pointer(outputs, requested, pointing)
            },
            InputEvent::PointerButton { pressed, grabbed, under } => press_button(
                pressed,
                grabbed,
                &under,
            ),
            InputEvent::PointerAxis { finger, horizontal, vertical } => {
                let entries: Vec<AxisEntry<S>> = pointing.scroll_entries(
                    finger,
                    &horizontal,
                    &vertical,
                    motion.ends.zero,
                );
                let mut effects: Vec<InputEffect<S>> = Vec::new();
                effects.push(InputEffect::Scroll(entries));
                effects.push(InputEffect::Frame);
                effects
            },
            InputEvent::GestureSwipeBegin => {
                self.on_gesture_swipe_begin(motion.ends.zero);
                Vec::new()
            },
            InputEvent::GestureSwipeUpdate(delta) => {
                self.on_gesture_swipe_update(delta, &pointing.drag);
                Vec::new()
            },
            InputEvent::GestureSwipeEnd => {
                self.on_gesture_swipe_end(outputs, now, motion);
                Vec::new()
            },
            InputEvent::Other => Vec::new(),
        }
    }
}

/// Does what a key is bound to, and lists what is to be done because of it.
pub fn handle_key_action<
    S: Copy,
    L: Fn(S, S) -> bool,
    C: Fn(S) -> S,
    A: Fn(Rectangle<i32>, Point<S>) -> WorkspaceAreas<S>,
    B: Fn(u32, ProgressAndVelocity<S>, ProgressAndVelocity<S>) -> ProgressAndVelocity<S>,
>(
    state: &mut Smallvil<WorkspaceState<S>>,
    action: Action,
    focus: Option<u64>,
    now: u128,
    motion: &Motion<S, L, C, A, B>,
) -> (effects: Vec<InputEffect<S>>)
    requires
        old(state).wf(),
        action is FocusInDirection ==> began_before(old(state).cur_workspace_state, now),
        motion.ready(),
    ensures
        final(state).wf(),
        began_before(old(state).cur_workspace_state, now) ==> began_before(
            final(state).cur_workspace_state,
            now,
        ),
        old(state).acts(action, focus, now, motion, *final(state), effects@),
{
    match action {
        Action::SpawnCommand(command) => only(InputEffect::Spawn(command)),
        Action::FocusInDirection(direction) => {
            state.focus_in_direction(direction, now, motion);
            Vec::new()
        },
        Action::CloseFocussedWindow => close_focussed_window(state, focus),
        Action::Quit => {
            state.running = false;
            only(InputEffect::StopLoop)
        },
        Action::VtSwitch(vt) => {
            if state.backend_data.is_some() {
                only(InputEffect::ChangeVt(vt))
            } else {
                Vec::new()
            }
        },
    }
}

/// While a gesture holds the windows, no other event moves them or changes the focus.
pub proof fn only_the_gesture_moves_held_windows<
    S,
    L: Fn(S, S) -> bool,
    C: Fn(S) -> S,
    A: Fn(Rectangle<i32>, Point<S>) -> WorkspaceAreas<S>,
    B: Fn(u32, ProgressAndVelocity<S>, ProgressAndVelocity<S>) -> ProgressAndVelocity<S>,
    K: Fn(S, i32) -> S,
    T: Fn(S) -> i32,
    R: Fn(Point<S>) -> Point<i32>,
    X: Fn(i32, i32) -> Point<S>,
    V: Fn(S) -> S,
    Z: Fn(S) -> bool,
    D: Fn(Point<S>, Point<S>) -> Point<S>,
>(
    before: Smallvil<WorkspaceState<S>>,
    event: InputEvent<S>,
    outputs: Seq<Output>,
    focus: Option<u64>,
    now: u128,
    motion: &Motion<S, L, C, A, B>,
    pointing: &Pointing<K, T, R, X, V, Z, D>,
    after: Smallvil<WorkspaceState<S>>,
    effects: Seq<InputEffect<S>>,
)
    requires
        before.handles(event, outputs, focus, now, motion, pointing, after, effects),
        before.cur_workspace_state is Grabbed,
        !(event is GestureSwipeBegin || event is GestureSwipeUpdate || event is GestureSwipeEnd),
    ensures
        after.cur_workspace_state == before.cur_workspace_state,
        after.cur_workspace_focussed_window == before.cur_workspace_focussed_window,
{
}

/// Input ends the compositor only through the key that quits it, and never starts it again.
pub proof fn only_quitting_ends_the_compositor<
    S,
    L: Fn(S, S) -> bool,
    C: Fn(S) -> S,
    A: Fn(Rectangle<i32>, Point<S>) -> WorkspaceAreas<S>,
    B: Fn(u32, ProgressAndVelocity<S>, ProgressAndVelocity<S>) -> ProgressAndVelocity<S>,
    K: Fn(S, i32) -> S,
    T: Fn(S) -> i32,
    R: Fn(Point<S>) -> Point<i32>,
    X: Fn(i32, i32) -> Point<S>,
    V: Fn(S) -> S,
    Z: Fn(S) -> bool,
    D: Fn(Point<S>, Point<S>) -> Point<S>,
>(
    before: Smallvil<WorkspaceState<S>>,
    event: InputEvent<S>,
    outputs: Seq<Output>,
    focus: Option<u64>,
    now: u128,
    motion: &Motion<S, L, C, A, B>,
    pointing: &Pointing<K, T, R, X, V, Z, D>,
    after: Smallvil<WorkspaceState<S>>,
    effects: Seq<InputEffect<S>>,
)
    requires
        before.handles(event, outputs, focus, now, motion, pointing, after, effects),
    ensures
        after.running == (before.running && event != InputEvent::<S>::Keyboard(
            Some(FilterResult::Intercept(Action::Quit)),
        )),
{
}

/// The window that a gesture ends on is the closest to filling the main area of all windows, as the
/// gesture held them.
pub proof fn gesture_ends_on_the_closest_window<
    S,
    L: Fn(S, S) -> bool,
    C: Fn(S) -> S,
    A: Fn(Rectangle<i32>, Point<S>) -> WorkspaceAreas<S>,
    B: Fn(u32, ProgressAndVelocity<S>, ProgressAndVelocity<S>) -> ProgressAndVelocity<S>,
>(
    before: Smallvil<WorkspaceState<S>>,
    area: Rectangle<i32>,
    now: u128,
    motion: &Motion<S, L, C, A, B>,
    after: Smallvil<WorkspaceState<S>>,
    order: spec_fn(S, S) -> bool,
    slot: WindowPosition,
)
    requires
        before.cur_workspace_state is Grabbed,
        before.releases(Some(area), now, motion, after),
        decides(&motion.less, order),
        after.cur_workspace_state matches WorkspaceState::Animating(info) ==> orders(
            info.start_info,
            order,
        ),
    ensures
        ({
            let moved = before.cur_workspace_state->Grabbed_0;
            &&& after.cur_workspace_state matches WorkspaceState::Animating(info)
                && info.start_time == now && motion.holds_at(
                before.cur_workspace_focussed_window,
                area,
                moved,
                info.start_info,
            ) && !order(
                info.start_info.at(slot).progress,
                info.start_info.at(after.cur_workspace_focussed_window).progress,
            )
        }),
{
    let moved = before.cur_workspace_state->Grabbed_0;
    let (areas, closest) = choose|areas: WindowAreas<S>, closest: (S, WindowPosition)|
        {
            &&& motion.holds_at(before.cur_workspace_focussed_window, area, moved, areas)
            &&& #[trigger] areas.narrows_to(&motion.less, closest)
            &&& after == (Smallvil {
                cur_workspace_state: WorkspaceState::Animating(
                    AnimationInfo { start_time: now, start_info: areas },
                ),
                cur_workspace_focussed_window: closest.1,
                ..before
            })
        };
    narrowed_to_least(areas, &motion.less, order, closest);
    least_is_minimal(areas, order, slot);
}

/// With alt or logo held, each bound key does what it is bound to, whatever else is held, and no other key
/// is taken from the clients but those that switch terminals with ctrl and alt.
pub proof fn bound_keys_do_what_they_are_bound_to(modifiers: ModifiersState, sym: u32)
    ensures
        ({
            let bound = binding(modifiers, sym);
            let focusses = |slot: WindowPosition| Some(Action::FocusInDirection(slot));
            let held = modifiers.alt || modifiers.logo;
            let terminal = 0x1008_fe01 <= sym <= 0x1008_fe0c;
            &&& held && sym == 0xff09 ==> bound == Some(Action::Quit)
            &&& held && sym == 0x66 ==> bound == Some(Action::SpawnCommand("firefox"))
            &&& held && sym == 0x67 ==> bound == Some(Action::SpawnCommand("ghostty"))
            &&& held && sym == 0x78 ==> bound == Some(Action::SpawnCommand("systemctl suspend"))
            &&& held && sym == 0x79 ==> bound == focusses(WindowPosition::TopLeft)
            &&& held && sym == 0x75 ==> bound == focusses(WindowPosition::Top)
            &&& held && sym == 0x69 ==> bound == focusses(WindowPosition::TopRight)
            &&& held && sym == 0x6b ==> bound == focusses(WindowPosition::Right)
            &&& held && sym == 0x2c ==> bound == focusses(WindowPosition::BottomRight)
            &&& held && (sym == 0x6d || sym == 0x6a) ==> bound == focusses(WindowPosition::Bottom)
            &&& held && sym == 0x6e ==> bound == focusses(WindowPosition::BottomLeft)
            &&& held && sym == 0x68 ==> bound == focusses(WindowPosition::Left)
            &&& terminal && modifiers.ctrl && modifiers.alt ==> bound == Some(
                Action::VtSwitch((sym - 0x1008_fe00) as i32),
            )
            &&& terminal && !(modifiers.ctrl && modifiers.alt) ==> bound is None
            &&& !held ==> bound is None
            &&& bound is Some ==> terminal || sym == 0xff09 || sym == 0x66 || sym == 0x67 || sym
                == 0x78 || sym == 0x79 || sym == 0x75 || sym == 0x69 || sym == 0x6b || sym == 0x2c
                || sym == 0x6d || sym == 0x6a || sym == 0x6e || sym == 0x68
        }),
{
}

/// Closing takes the window with the keyboard out of its slot and off the screen, and the keyboard from
/// it; the other slots, the other workspaces and everything else stay. Where no slot of the current
/// workspace holds that window, nothing happens.
pub proof fn only_the_focussed_window_is_closed<M, S>(
    before: Smallvil<M>,
    focus: Option<u64>,
    after: Smallvil<M>,
    effects: Seq<InputEffect<S>>,
    slot: WindowPosition,
    window: Window,
    index: int,
)
    requires
        before.wf(),
        before.closes(focus, after, effects),
        surfaces_differ(before.current()),
        before.current().at(slot) == Some(window),
    ensures
        after.wf(),
        focus == Some(window.surface) ==> {
            &&& after.current().at(slot) is None
            &&& effects == seq![
                InputEffect::<S>::SendClose(window),
                InputEffect::Unmap(window),
                InputEffect::SetFocus(None),
            ]
        },
        focus != Some(window.surface) ==> after.current().at(slot) == Some(window),
        focus != Some(window.surface) && effects.len() > 0 ==> exists|other: WindowPosition|
            other != slot && ((#[trigger] before.current().at(other)) matches Some(closed) && focus
                == Some(closed.surface)),
        focus is None ==> effects.len() == 0 && after == before,
        after.workspaces@.len() == before.workspaces@.len(),
        0 <= index < before.workspaces@.len() && index != before.cur_workspace
            ==> after.workspaces@[index] == before.workspaces@[index],
        after == (Smallvil { workspaces: after.workspaces, ..before }),
{
    if let Some(surface) = focus {
        slot_of_holds_the_surface(before.current(), surface, slot);
        if let Some(found) = slot_of(before.current(), surface) {
            if surface == window.surface {
                assert(shows_surface(before.current().at(slot), surface));
                assert(shows_surface(before.current().at(found), surface));
                assert(found == slot);
            } else {
                assert(found != slot);
                assert(before.current().at(found) is Some);
            }
        }
    }
}

/// Nothing is closed where no window of the current workspace has the keyboard.
pub proof fn windows_elsewhere_are_not_closed<M, S>(
    before: Smallvil<M>,
    focus: Option<u64>,
    after: Smallvil<M>,
    effects: Seq<InputEffect<S>>,
)
    requires
        before.closes(focus, after, effects),
        forall|slot: WindowPosition|
            (#[trigger] before.current().at(slot)) matches Some(window) ==> focus != Some(
                window.surface,
            ),
    ensures
        after == before,
        effects.len() == 0,
{
    if let Some(surface) = focus {
        if let Some(found) = slot_of(before.current(), surface) {
            slot_of_holds_the_surface(before.current(), surface, found);
            assert(before.current().at(found) is Some);
        }
    }
}

/// A bound key does its action and nothing else: it starts its program, sends the focus to its slot, ends
/// the compositor, or switches to its terminal where there is a session.
pub proof fn actions_do_what_they_say<
    S,
    L: Fn(S, S) -> bool,
    C: Fn(S) -> S,
    A: Fn(Rectangle<i32>, Point<S>) -> WorkspaceAreas<S>,
    B: Fn(u32, ProgressAndVelocity<S>, ProgressAndVelocity<S>) -> ProgressAndVelocity<S>,
>(
    before: Smallvil<WorkspaceState<S>>,
    action: Action,
    focus: Option<u64>,
    now: u128,
    motion: &Motion<S, L, C, A, B>,
    after: Smallvil<WorkspaceState<S>>,
    effects: Seq<InputEffect<S>>,
)
    requires
        before.acts(action, focus, now, motion, after, effects),
    ensures
        match action {
            Action::SpawnCommand(command) => {
                &&& after == before
                &&& effects.len() == 1 && effects[0] == InputEffect::<S>::Spawn(command)
            },
            Action::FocusInDirection(direction) => {
                &&& effects.len() == 0
                &&& before.cur_workspace_state is Grabbed ==> after == before
                &&& !(before.cur_workspace_state is Grabbed) ==> {
                    &&& after.cur_workspace_focussed_window == direction
                    &&& after.cur_workspace_state matches WorkspaceState::Animating(info)
                    &&& info.start_time == now
                    &&& after == (Smallvil {
                        cur_workspace_state: after.cur_workspace_state,
                        cur_workspace_focussed_window: direction,
                        ..before
                    })
                }
            },
            Action::CloseFocussedWindow => before.closes(focus, after, effects),
            Action::Quit => {
                &&& !after.running
                &&& after == (Smallvil { running: false, ..before })
                &&& effects.len() == 1 && effects[0] is StopLoop
            },
            Action::VtSwitch(vt) => {
                &&& after == before
                &&& before.backend_data is Some ==> effects.len() == 1 && effects[0]
                    == InputEffect::<S>::ChangeVt(vt)
                &&& before.backend_data is None ==> effects.len() == 0
            },
        },
{
}

/// A gesture that begins holds the windows where it has not moved yet; one that goes on moves windows that
/// are held, and only those, to where `drag` puts them; and one that ends releases them.
pub proof fn gestures_hold_move_and_release<
    S,
    L: Fn(S, S) -> bool,
    C: Fn(S) -> S,
    A: Fn(Rectangle<i32>, Point<S>) -> WorkspaceAreas<S>,
    B: Fn(u32, ProgressAndVelocity<S>, ProgressAndVelocity<S>) -> ProgressAndVelocity<S>,
    K: Fn(S, i32) -> S,
    T: Fn(S) -> i32,
    R: Fn(Point<S>) -> Point<i32>,
    X: Fn(i32, i32) -> Point<S>,
    V: Fn(S) -> S,
    Z: Fn(S) -> bool,
    D: Fn(Point<S>, Point<S>) -> Point<S>,
>(
    before: Smallvil<WorkspaceState<S>>,
    event: InputEvent<S>,
    outputs: Seq<Output>,
    focus: Option<u64>,
    now: u128,
    motion: &Motion<S, L, C, A, B>,
    pointing: &Pointing<K, T, R, X, V, Z, D>,
    after: Smallvil<WorkspaceState<S>>,
    effects: Seq<InputEffect<S>>,
)
    requires
        before.handles(event, outputs, focus, now, motion, pointing, after, effects),
        event is GestureSwipeBegin || event is GestureSwipeUpdate || event is GestureSwipeEnd,
    ensures
        effects.len() == 0,
        event is GestureSwipeBegin ==> {
            &&& after.cur_workspace_state matches WorkspaceState::Grabbed(moved)
            &&& moved.x == motion.ends.zero && moved.y == motion.ends.zero
            &&& after.cur_workspace_focussed_window == before.cur_workspace_focussed_window
        },
        event matches InputEvent::GestureSwipeUpdate(delta) ==> {
            &&& after.cur_workspace_focussed_window == before.cur_workspace_focussed_window
            &&& match before.cur_workspace_state {
                WorkspaceState::Grabbed(at) => after.cur_workspace_state matches WorkspaceState::Grabbed(
                    moved,
                ) && call_ensures(pointing.drag, (at, delta), moved),
                _ => after.cur_workspace_state == before.cur_workspace_state,
            }
        },
        event is GestureSwipeEnd ==> before.releases(
            main_area(outputs, before.cur_monitor),
            now,
            motion,
            after,
        ),
        after == (Smallvil {
            cur_workspace_state: after.cur_workspace_state,
            cur_workspace_focussed_window: after.cur_workspace_focussed_window,
            ..before
        }),
{
}

/// A key without a binding goes to the client, a button and a scroll go to the client under the pointer
/// and end a group of events, and neither they nor events that mean nothing change anything.
pub proof fn clients_get_what_is_theirs<
    S,
    L: Fn(S, S) -> bool,
    C: Fn(S) -> S,
    A: Fn(Rectangle<i32>, Point<S>) -> WorkspaceAreas<S>,
    B: Fn(u32, ProgressAndVelocity<S>, ProgressAndVelocity<S>) -> ProgressAndVelocity<S>,
    K: Fn(S, i32) -> S,
    T: Fn(S) -> i32,
    R: Fn(Point<S>) -> Point<i32>,
    X: Fn(i32, i32) -> Point<S>,
    V: Fn(S) -> S,
    Z: Fn(S) -> bool,
    D: Fn(Point<S>, Point<S>) -> Point<S>,
>(
    before: Smallvil<WorkspaceState<S>>,
    event: InputEvent<S>,
    outputs: Seq<Output>,
    focus: Option<u64>,
    now: u128,
    motion: &Motion<S, L, C, A, B>,
    pointing: &Pointing<K, T, R, X, V, Z, D>,
    after: Smallvil<WorkspaceState<S>>,
    effects: Seq<InputEffect<S>>,
)
    requires
        before.handles(event, outputs, focus, now, motion, pointing, after, effects),
        event is PointerButton || event is PointerAxis || event is Other || event
            == InputEvent::<S>::Keyboard(None) || event == InputEvent::<S>::Keyboard(
            Some(FilterResult::Forward),
        ),
    ensures
        after == before,
        event == InputEvent::<S>::Keyboard(Some(FilterResult::Forward)) ==> effects.len() == 1
            && effects[0] is ForwardKey,
        event is Other || event == InputEvent::<S>::Keyboard(None) ==> effects.len() == 0,
        event is PointerButton ==> effects.len() >= 2 && effects[effects.len() - 2] is PressButton
            && effects[effects.len() - 1] is Frame,
        event matches InputEvent::PointerButton { pressed, grabbed, under } ==> {
            &&& !pressed || grabbed ==> effects.len() == 2
            &&& pressed && !grabbed ==> effects[1] == InputEffect::<S>::SetFocus(
                match under {
                    Some(window) => Some(window.surface),
                    None => None,
                },
            )
        },
        event matches InputEvent::PointerAxis { finger, horizontal, vertical } ==> {
            &&& effects.len() == 2
            &&& effects[0] matches InputEffect::Scroll(entries)
            &&& pointing.tells_scroll(finger, horizontal, vertical, motion.ends.zero, entries@)
            &&& effects[1] is Frame
        },
{
}

/// The pointer is moved to where it is asked to be, or, by a device that tells a place within the outputs,
/// to that place within the width of all of them and the height of the tallest; either way as far as it
/// is held within them.
pub proof fn pointer_events_move_the_pointer<
    S,
    L: Fn(S, S) -> bool,
    C: Fn(S) -> S,
    A: Fn(Rectangle<i32>, Point<S>) -> WorkspaceAreas<S>,
    B: Fn(u32, ProgressAndVelocity<S>, ProgressAndVelocity<S>) -> ProgressAndVelocity<S>,
    K: Fn(S, i32) -> S,
    T: Fn(S) -> i32,
    R: Fn(Point<S>) -> Point<i32>,
    X: Fn(i32, i32) -> Point<S>,
    V: Fn(S) -> S,
    Z: Fn(S) -> bool,
    D: Fn(Point<S>, Point<S>) -> Point<S>,
>(
    before: Smallvil<WorkspaceState<S>>,
    event: InputEvent<S>,
    outputs: Seq<Output>,
    focus: Option<u64>,
    now: u128,
    motion: &Motion<S, L, C, A, B>,
    pointing: &Pointing<K, T, R, X, V, Z, D>,
    after: Smallvil<WorkspaceState<S>>,
    effects: Seq<InputEffect<S>>,
    requested: Point<S>,
    transforms: spec_fn(i32, i32) -> Point<S>,
)
    requires
        before.handles(event, outputs, focus, now, motion, pointing, after, effects),
        event == InputEvent::PointerMotion(requested) || event is PointerMotionAbsolute && requested
            == transforms(width_sum(outputs) as i32, max_height(outputs) as i32),
        forall|width: i32, height: i32, point: Point<S>| #[trigger]
            call_ensures(pointing.transformed, (width, height), point) ==> point == transforms(
                width,
                height,
            ),
    ensures
        before.moves_pointer(outputs, requested, pointing, after, effects),
        effects.len() == 2,
        effects[0] is MovePointer,
        outputs.len() == 0 ==> effects[0]->MovePointer_0 == requested,
        outputs.len() > 0 ==> call_ensures(
            pointing.clamp,
            (requested.x, width_sum(outputs) as i32),
            effects[0]->MovePointer_0.x,
        ),
        after == (Smallvil { cur_monitor: after.cur_monitor, ..before }),
{
    pointer_goes_where_it_is_held(before, outputs, requested, pointing, after, effects);
}

/// When a gesture ends, the windows go from where it held them: each but the one that it began on from its
/// distance. The animation begins at that time. Windows that are not held, or have no main area to go to,
/// stay as they are.
pub proof fn released_windows_start_where_they_were_held<
    S,
    L: Fn(S, S) -> bool,
    C: Fn(S) -> S,
    A: Fn(Rectangle<i32>, Point<S>) -> WorkspaceAreas<S>,
    B: Fn(u32, ProgressAndVelocity<S>, ProgressAndVelocity<S>) -> ProgressAndVelocity<S>,
>(
    before: Smallvil<WorkspaceState<S>>,
    area: Option<Rectangle<i32>>,
    now: u128,
    motion: &Motion<S, L, C, A, B>,
    after: Smallvil<WorkspaceState<S>>,
    slot: WindowPosition,
)
    requires
        before.releases(area, now, motion, after),
    ensures
        !(before.cur_workspace_state is Grabbed) || area is None ==> after == before,
        before.cur_workspace_state matches WorkspaceState::Grabbed(moved) ==> (
        area matches Some(area) ==> {
            &&& after.cur_workspace_state matches WorkspaceState::Animating(info)
            &&& info.start_time == now
            &&& exists|distances: WorkspaceAreas<S>|
                {
                    &&& #[trigger] call_ensures(motion.distances_at, (area, moved), distances)
                    &&& slot != before.cur_workspace_focussed_window ==> info.start_info.at(
                        slot,
                    ).progress == distances.at(slot)
                }
            &&& motion.shows(
                before.cur_workspace_state,
                before.cur_workspace_focussed_window,
                area,
                now,
                info.start_info,
            )
        }),
        after == (Smallvil {
            cur_workspace_state: after.cur_workspace_state,
            cur_workspace_focussed_window: after.cur_workspace_focussed_window,
            ..before
        }),
{
    if let (WorkspaceState::Grabbed(moved), Some(area)) = (before.cur_workspace_state, area) {
        let focussed = before.cur_workspace_focussed_window;
        let (areas, closest) = choose|areas: WindowAreas<S>, closest: (S, WindowPosition)|
            {
                &&& motion.holds_at(focussed, area, moved, areas)
                &&& #[trigger] areas.narrows_to(&motion.less, closest)
                &&& after == (Smallvil {
                    cur_workspace_state: WorkspaceState::Animating(
                        AnimationInfo { start_time: now, start_info: areas },
                    ),
                    cur_workspace_focussed_window: closest.1,
                    ..before
                })
            };
        let distances = choose|distances: WorkspaceAreas<S>| #[trigger]
            call_ensures(motion.distances_at, (area, moved), distances)
                && WindowAreas::<S>::follows_gesture(
                focussed,
                distances,
                motion.ends,
                &motion.less,
                &motion.complement,
                areas,
            );
        assert(call_ensures(motion.distances_at, (area, moved), distances));
    }
}

/// A key is taken from the client exactly if it is pressed and something is bound to it; that is done then.
/// Without Alt and Logo, and when it is released, every key is the client's.
pub proof fn clients_get_every_other_key(pressed: bool, modifiers: ModifiersState, sym: u32)
    ensures
        filtered(false, modifiers, sym) is Forward,
        !modifiers.alt && !modifiers.logo ==> filtered(pressed, modifiers, sym) is Forward,
        filtered(pressed, modifiers, sym) is Forward <==> !pressed || binding(modifiers, sym) is None,
        filtered(pressed, modifiers, sym) matches FilterResult::Intercept(action) ==> binding(
            modifiers,
            sym,
        ) == Some(action),
{
}

/// A key that is taken from the clients is acted on, whatever else is going on: the action comes to what it
/// would come to alone.
pub proof fn taken_keys_are_acted_on<
    S,
    L: Fn(S, S) -> bool,
    C: Fn(S) -> S,
    A: Fn(Rectangle<i32>, Point<S>) -> WorkspaceAreas<S>,
    B: Fn(u32, ProgressAndVelocity<S>, ProgressAndVelocity<S>) -> ProgressAndVelocity<S>,
    K: Fn(S, i32) -> S,
    T: Fn(S) -> i32,
    R: Fn(Point<S>) -> Point<i32>,
    X: Fn(i32, i32) -> Point<S>,
    V: Fn(S) -> S,
    Z: Fn(S) -> bool,
    D: Fn(Point<S>, Point<S>) -> Point<S>,
>(
    before: Smallvil<WorkspaceState<S>>,
    action: Action,
    outputs: Seq<Output>,
    focus: Option<u64>,
    now: u128,
    motion: &Motion<S, L, C, A, B>,
    pointing: &Pointing<K, T, R, X, V, Z, D>,
    after: Smallvil<WorkspaceState<S>>,
    effects: Seq<InputEffect<S>>,
)
    requires
        before.handles(
            InputEvent::Keyboard(Some(FilterResult::Intercept(action))),
            outputs,
            focus,
            now,
            motion,
            pointing,
            after,
            effects,
        ),
    ensures
        before.acts(action, focus, now, motion, after, effects),
        action is Quit ==> !after.running,
        action matches Action::SpawnCommand(command) ==> effects.len() == 1 && effects[0]
            == InputEffect::<S>::Spawn(command),
        action matches Action::FocusInDirection(direction) ==> (!(
        before.cur_workspace_state is Grabbed) ==> after.cur_workspace_focussed_window == direction
            && after.cur_workspace_state is Animating),
{
}

} // verus!
