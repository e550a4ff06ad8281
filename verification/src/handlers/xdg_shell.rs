//! Toplevel windows and popups.

use vstd::prelude::*;

use crate::extra_state::{
    areas_equal_by_slot, clockwise, clockwise_index, AnimationInfo, ProgressAndVelocity,
    WindowAreas, WindowPosition, WorkspaceAreas, WorkspaceState,
};
use crate::geometry::{Point, Rectangle};
use crate::motion::{began_before, Motion};
use crate::outputs::Output;
use crate::placement::{empty_workspace, no_windows, AnvilWorkspace, Window};
use crate::state::Smallvil;

verus! {

/// The first slot without a window in clockwise order, from a place in that order on.
pub open spec fn free_slot_from(workspace: AnvilWorkspace, index: int) -> Option<WindowPosition>
    decreases 8 - index,
{
    if index >= 8 {
        None
    } else if workspace.at(clockwise(index)) is None {
        Some(clockwise(index))
    } else {
        free_slot_from(workspace, index + 1)
    }
}

/// The slot that the next window goes to: the first without one in clockwise order, from the top left
/// on.
pub open spec fn free_slot(workspace: AnvilWorkspace) -> Option<WindowPosition> {
    free_slot_from(workspace, 0)
}

proof fn free_slot_from_is_first(workspace: AnvilWorkspace, index: int, slot: WindowPosition)
    requires
        0 <= index <= 8,
    ensures
        match free_slot_from(workspace, index) {
            Some(free) => {
                &&& clockwise_index(free) >= index
                &&& workspace.at(free) is None
                &&& index <= clockwise_index(slot) < clockwise_index(free) ==> workspace.at(
                    slot,
                ) is Some
            },
            None => index <= clockwise_index(slot) ==> workspace.at(slot) is Some,
        },
    decreases 8 - index,
{
    if index < 8 {
        assert(clockwise_index(clockwise(index)) == index);
        assert(clockwise(clockwise_index(slot)) == slot);
        free_slot_from_is_first(workspace, index + 1, slot);
    }
}

/// A window goes to an empty slot, all slots before that in clockwise order are taken, and only in a
/// full workspace there is no slot for it.
pub proof fn free_slot_is_the_first_empty_one(workspace: AnvilWorkspace, slot: WindowPosition)
    ensures
        match free_slot(workspace) {
            Some(free) => {
                &&& workspace.at(free) is None
                &&& clockwise_index(slot) < clockwise_index(free) ==> workspace.at(slot) is Some
            },
            None => workspace.at(slot) is Some,
        },
{
    free_slot_from_is_first(workspace, 0, slot);
}

/// The slot that the next window goes to.
pub fn first_free(workspace: &AnvilWorkspace) -> (slot: Option<WindowPosition>)
    ensures
        slot == free_slot(*workspace),
{
    proof {
        reveal_with_fuel(free_slot_from, 9);
    }
    if workspace.top_left_window.is_none() {
        Some(WindowPosition::TopLeft)
    } else if workspace.top_window.is_none() {
        Some(WindowPosition::Top)
    } else if workspace.top_right_window.is_none() {
        Some(WindowPosition::TopRight)
    } else if workspace.right_window.is_none() {
        Some(WindowPosition::Right)
    } else if workspace.bottom_right_window.is_none() {
        Some(WindowPosition::BottomRight)
    } else if workspace.bottom_window.is_none() {
        Some(WindowPosition::Bottom)
    } else if workspace.bottom_left_window.is_none() {
        Some(WindowPosition::BottomLeft)
    } else if workspace.left_window.is_none() {
        Some(WindowPosition::Left)
    } else {
        None
    }
}

/// The current workspace and all workspaces once a window has been added: it goes to the first empty
/// slot of the current workspace, or else to the top left of a new one right behind it.
pub open spec fn with_toplevel(
    workspaces: Seq<AnvilWorkspace>,
    current: int,
    window: Window,
) -> (int, Seq<AnvilWorkspace>) {
    match free_slot(workspaces[current]) {
        Some(slot) => (
            current,
            workspaces.update(current, workspaces[current].with(slot, Some(window))),
        ),
        None => (
            current + 1,
            workspaces.insert(
                current + 1,
                no_windows().with(WindowPosition::TopLeft, Some(window)),
            ),
        ),
    }
}

impl<S> Smallvil<WorkspaceState<S>> {
    /// `after` can come of a change of the focus at `now`: the windows go from where they are to
    /// where the new focus puts them, unless a gesture holds them.
    pub open spec fn focusses<
        L: Fn(S, S) -> bool,
        C: Fn(S) -> S,
        A: Fn(Rectangle<i32>, Point<S>) -> WorkspaceAreas<S>,
        B: Fn(u32, ProgressAndVelocity<S>, ProgressAndVelocity<S>) -> ProgressAndVelocity<S>,
    >(
        self,
        direction: WindowPosition,
        now: u128,
        motion: &Motion<S, L, C, A, B>,
        after: Self,
    ) -> bool {
        if self.cur_workspace_state is Grabbed {
            after == self
        } else {
            exists|started: AnimationInfo<S>| #[trigger]
                motion.starts(
                    self.cur_workspace_state,
                    self.cur_workspace_focussed_window,
                    now,
                    started,
                ) && after == (Smallvil {
                    cur_workspace_state: WorkspaceState::Animating(started),
                    cur_workspace_focussed_window: direction,
                    ..self
                })
        }
    }

    /// Moves the focus to the window of a slot, unless a gesture holds the windows.
    pub fn focus_in_direction<
        L: Fn(S, S) -> bool,
        C: Fn(S) -> S,
        A: Fn(Rectangle<i32>, Point<S>) -> WorkspaceAreas<S>,
        B: Fn(u32, ProgressAndVelocity<S>, ProgressAndVelocity<S>) -> ProgressAndVelocity<S>,
    >(&mut self, direction: WindowPosition, now: u128, motion: &Motion<S, L, C, A, B>) where S: Copy
        requires
            began_before(old(self).cur_workspace_state, now),
            motion.ready(),
        ensures
            old(self).focusses(direction, now, motion, *final(self)),
            began_before(final(self).cur_workspace_state, now),
    {
        let start_info: WindowAreas<S> = match &self.cur_workspace_state {
            WorkspaceState::Grabbed(_) => {
                return;
            },
            WorkspaceState::Normal => WindowAreas::<S>::from_position(
                self.cur_workspace_focussed_window,
                &motion.ends,
            ),
            WorkspaceState::Animating(info) => WindowAreas::<S>::from_animation(
                info,
                self.cur_workspace_focussed_window,
                now,
                &motion.ends,
                &motion.blend,
            ).0,
        };
        let started: AnimationInfo<S> = AnimationInfo { start_time: now, start_info };
        assert(motion.starts(
            old(self).cur_workspace_state,
            old(self).cur_workspace_focussed_window,
            now,
            started,
        ));
        self.cur_workspace_state = WorkspaceState::Animating(started);
        self.cur_workspace_focussed_window = direction;
    }

    /// `after` can come of a window that opens at `now`.
    pub open spec fn opens<
        L: Fn(S, S) -> bool,
        C: Fn(S) -> S,
        A: Fn(Rectangle<i32>, Point<S>) -> WorkspaceAreas<S>,
        B: Fn(u32, ProgressAndVelocity<S>, ProgressAndVelocity<S>) -> ProgressAndVelocity<S>,
    >(
        self,
        window: Window,
        now: u128,
        motion: &Motion<S, L, C, A, B>,
        after: Self,
    ) -> bool {
        &&& (after.cur_workspace as int, after.workspaces@) == with_toplevel(
            self.workspaces@,
            self.cur_workspace as int,
            window,
        )
        &&& match free_slot(self.current()) {
            Some(slot) => (Smallvil { workspaces: after.workspaces, ..self }).focusses(
                slot,
                now,
                motion,
                after,
            ),
            None => after == (Smallvil {
                cur_workspace: after.cur_workspace,
                workspaces: after.workspaces,
                ..self
            }),
        }
    }

    /// Adds a window to the current workspace and moves the focus to it. Where the workspace is full,
    /// a new one right behind it becomes the current one, and the focus stays as it is.
    pub fn new_toplevel<
        L: Fn(S, S) -> bool,
        C: Fn(S) -> S,
        A: Fn(Rectangle<i32>, Point<S>) -> WorkspaceAreas<S>,
        B: Fn(u32, ProgressAndVelocity<S>, ProgressAndVelocity<S>) -> ProgressAndVelocity<S>,
    >(&mut self, window: Window, now: u128, motion: &Motion<S, L, C, A, B>) where S: Copy
        requires
            old(self).wf(),
            free_slot(old(self).current()) is Some ==> began_before(
                old(self).cur_workspace_state,
                now,
            ),
            motion.ready(),
        ensures
            final(self).wf(),
            began_before(old(self).cur_workspace_state, now) ==> began_before(
                final(self).cur_workspace_state,
                now,
            ),
            old(self).opens(window, now, motion, *final(self)),
    {
        let current: usize = self.cur_workspace;
        match first_free(&self.workspaces[current]) {
            Some(slot) => {
                let mut workspace: AnvilWorkspace = self.workspaces[current];
                workspace.replace(slot, Some(window));
                self.workspaces.set(current, workspace);
                self.focus_in_direction(slot, now, motion);
            },
            None => {
                let mut workspace: AnvilWorkspace = empty_workspace();
                workspace.replace(WindowPosition::TopLeft, Some(window));
                assert(current < self.workspaces.len());
                self.cur_workspace = current + 1;
                self.workspaces.insert(current + 1, workspace);
            },
        }
    }
}

/// A window is in one of the workspaces.
pub open spec fn holds_window(workspaces: Seq<AnvilWorkspace>, window: Window) -> bool {
    exists|index: int, slot: WindowPosition|
        0 <= index < workspaces.len() && #[trigger] workspaces[index].at(slot) == Some(window)
}

/// Adding a window takes none away and adds no other: afterwards the workspaces hold the windows that
/// they held before, and the new one.
pub proof fn new_toplevel_keeps_every_window(
    workspaces: Seq<AnvilWorkspace>,
    current: int,
    window: Window,
    other: Window,
)
    requires
        0 <= current < workspaces.len(),
    ensures
        holds_window(with_toplevel(workspaces, current, window).1, other) <==> (holds_window(
            workspaces,
            other,
        ) || other == window),
{
    let (_, added) = with_toplevel(workspaces, current, window);
    let free = free_slot(workspaces[current]);
    new_window_is_in_the_current_workspace(workspaces, current, window);
    if free is Some {
        free_slot_is_the_first_empty_one(workspaces[current], free->0);
    }
    if holds_window(workspaces, other) {
        let (index, slot) = choose|index: int, slot: WindowPosition|
            0 <= index < workspaces.len() && #[trigger] workspaces[index].at(slot) == Some(other);
        if free is Some || index <= current {
            assert(added[index].at(slot) == Some(other));
        } else {
            assert(added[index + 1].at(slot) == Some(other));
        }
    }
    if holds_window(added, other) && other != window {
        let (index, slot) = choose|index: int, slot: WindowPosition|
            0 <= index < added.len() && #[trigger] added[index].at(slot) == Some(other);
        if free is Some || index <= current {
            assert(workspaces[index].at(slot) == Some(other));
        } else {
            assert(index != current + 1);
            assert(workspaces[index - 1].at(slot) == Some(other));
        }
    }
}

/// A new window is in the workspace that is the current one then: in the first empty slot, or at the
/// top left of a workspace without other windows.
pub proof fn new_window_is_in_the_current_workspace(
    workspaces: Seq<AnvilWorkspace>,
    current: int,
    window: Window,
)
    requires
        0 <= current < workspaces.len(),
    ensures
        ({
            let (shown, added) = with_toplevel(workspaces, current, window);
            &&& 0 <= shown < added.len()
            &&& match free_slot(workspaces[current]) {
                Some(slot) => added[shown].at(slot) == Some(window),
                None => forall|slot: WindowPosition| #[trigger]
                    added[shown].at(slot) == (if slot == WindowPosition::TopLeft {
                        Some(window)
                    } else {
                        None
                    }),
            }
            &&& holds_window(added, window)
        }),
{
    let (shown, added) = with_toplevel(workspaces, current, window);
    match free_slot(workspaces[current]) {
        Some(slot) => {
            assert(added[shown].at(slot) == Some(window));
        },
        None => {
            assert(added[shown].at(WindowPosition::TopLeft) == Some(window));
        },
    }
}

/// How many windows the slots before a place in clockwise order hold.
pub open spec fn windows_before(workspace: AnvilWorkspace, index: int) -> nat
    decreases index,
{
    if index <= 0 {
        0
    } else {
        windows_before(workspace, index - 1) + (if workspace.at(clockwise(index - 1)) is Some {
            1nat
        } else {
            0nat
        })
    }
}

proof fn one_more_before(
    workspace: AnvilWorkspace,
    slot: WindowPosition,
    window: Window,
    index: int,
)
    requires
        workspace.at(slot) is None,
        0 <= index <= 8,
    ensures
        windows_before(workspace.with(slot, Some(window)), index) == windows_before(
            workspace,
            index,
        ) + (if clockwise_index(slot) < index {
            1int
        } else {
            0int
        }),
    decreases index,
{
    if index > 0 {
        one_more_before(workspace, slot, window, index - 1);
        assert(clockwise(clockwise_index(slot)) == slot);
        assert(clockwise_index(clockwise(index - 1)) == index - 1);
    }
}

proof fn all_taken_before(workspace: AnvilWorkspace, index: int)
    requires
        0 <= index <= 8,
    ensures
        windows_before(workspace, index) <= index,
        windows_before(workspace, index) == index <==> (forall|slot: WindowPosition|
            clockwise_index(slot) < index ==> #[trigger] workspace.at(slot) is Some),
    decreases index,
{
    if index > 0 {
        all_taken_before(workspace, index - 1);
        assert(clockwise_index(clockwise(index - 1)) == index - 1);
        if windows_before(workspace, index) == index {
            assert forall|slot: WindowPosition| clockwise_index(slot) < index implies #[trigger]
                workspace.at(slot) is Some by {
                assert(clockwise(clockwise_index(slot)) == slot);
                if clockwise_index(slot) == index - 1 {
                    assert(slot == clockwise(index - 1));
                }
            }
        }
        if forall|slot: WindowPosition|
            clockwise_index(slot) < index ==> #[trigger] workspace.at(slot) is Some {
            assert(workspace.at(clockwise(index - 1)) is Some);
        }
    }
}

/// A workspace takes eight windows: with fewer, a new window makes it one more; with eight, the new
/// window goes to another workspace.
pub proof fn workspace_takes_eight_windows(workspace: AnvilWorkspace, window: Window)
    ensures
        windows_before(workspace, 8) <= 8,
        match free_slot(workspace) {
            Some(slot) => windows_before(workspace, 8) < 8 && windows_before(
                workspace.with(slot, Some(window)),
                8,
            ) == windows_before(workspace, 8) + 1,
            None => windows_before(workspace, 8) == 8,
        },
{
    all_taken_before(workspace, 8);
    match free_slot(workspace) {
        Some(slot) => {
            free_slot_is_the_first_empty_one(workspace, slot);
            one_more_before(workspace, slot, window, 8);
        },
        None => {
            assert forall|slot: WindowPosition| clockwise_index(slot) < 8 implies #[trigger]
                workspace.at(slot) is Some by {
                free_slot_is_the_first_empty_one(workspace, slot);
            }
        },
    }
}

/// Taking a window that was just added out of its slot again leaves the workspace as it was.
pub proof fn added_window_can_be_taken_out(workspace: AnvilWorkspace, window: Window)
    requires
        free_slot(workspace) is Some,
    ensures
        ({
            let slot = free_slot(workspace)->0;
            workspace.with(slot, Some(window)).with(slot, None) == workspace
        }),
{
    let slot = free_slot(workspace)->0;
    free_slot_is_the_first_empty_one(workspace, slot);
    areas_equal_by_slot(workspace.with(slot, Some(window)).with(slot, None), workspace);
}

/// `found` is the first of the windows with a surface, if there is one.
pub open spec fn is_window_of(windows: Seq<Window>, surface: u64, found: Option<usize>) -> bool {
    match found {
        Some(index) => {
            &&& index < windows.len()
            &&& windows[index as int].surface == surface
            &&& forall|before: int| 0 <= before < index ==> windows[before].surface != surface
        },
        None => forall|index: int| 0 <= index < windows.len() ==> windows[index].surface != surface,
    }
}

/// One of the windows has the surface.
pub open spec fn has_window_of(windows: Seq<Window>, surface: u64) -> bool {
    exists|index: int| 0 <= index < windows.len() && #[trigger] windows[index].surface == surface
}

/// The first of the windows with a surface.
pub fn window_of(windows: &Vec<Window>, surface: u64) -> (found: Option<usize>)
    ensures
        is_window_of(windows@, surface, found),
{
    let mut index: usize = 0;
    while index < windows.len()
        invariant
            index <= windows@.len(),
            forall|before: int| 0 <= before < index ==> windows@[before].surface != surface,
        decreases windows@.len() - index,
    {
        if windows[index].surface == surface {
            return Some(index);
        }
        index = index + 1;
    }
    None
}

/// `configured` is the window that can be configured on a commit of a surface.
pub open spec fn configures<F: Fn(u64) -> bool>(
    windows: Seq<Window>,
    surface: u64,
    initial_configure_sent: &F,
    configured: Option<Window>,
) -> bool {
    exists|found: Option<usize>| #[trigger]
        is_window_of(windows, surface, found) && match found {
            None => configured is None,
            Some(index) => exists|sent: bool| #[trigger]
                call_ensures(*initial_configure_sent, (surface,), sent) && configured == (
                if sent {
                    None
                } else {
                    Some(windows[index as int])
                }),
        }
}

/// The window that is configured on a commit of a surface: that of the surface, unless it has been
/// configured before.
///
/// `initial_configure_sent` tells whether the toplevel of a surface has been configured.
pub fn handle_commit<F: Fn(u64) -> bool>(
    windows: &Vec<Window>,
    surface: u64,
    initial_configure_sent: &F,
) -> (configured: Option<Window>)
    requires
        has_window_of(windows@, surface) ==> call_requires(*initial_configure_sent, (surface,)),
    ensures
        configures(windows@, surface, initial_configure_sent, configured),
{
    let found: Option<usize> = window_of(windows, surface);
    assert(is_window_of(windows@, surface, found));
    let Some(index) = found else {
        return None;
    };
    let sent: bool = (*initial_configure_sent)(surface);
    if sent {
        None
    } else {
        Some(windows[index])
    }
}

/// A popup that a surface belongs to.
#[derive(Debug, Clone, Copy, PartialEq, Eq)]
pub enum PopupKind {
    /// A popup of a window, and whether it has been configured.
    Xdg { initial_configure_sent: bool },
    InputMethod,
}

/// Whether the popup of a surface has yet to be configured.
pub open spec fn awaits_configure(popup: Option<PopupKind>) -> bool {
    popup == Some(PopupKind::Xdg { initial_configure_sent: false })
}

/// Whether the popup of a surface is configured on a commit: that of a window is, unless it has been
/// before.
pub fn configures_popup(popup: &Option<PopupKind>) -> (configure: bool)
    ensures
        configure == awaits_configure(*popup),
{
    match popup {
        Some(PopupKind::Xdg { initial_configure_sent }) => !*initial_configure_sent,
        Some(PopupKind::InputMethod) => false,
        None => false,
    }
}

/// `target` is the area that a popup should stay within.
pub open spec fn confines(
    outputs: Seq<Output>,
    windows: Seq<Window>,
    corners: Seq<Point<i32>>,
    root: Option<u64>,
    coords: Point<i32>,
    target: Option<Rectangle<i32>>,
) -> bool {
    match root {
        None => target is None,
        Some(surface) => exists|found: Option<usize>| #[trigger]
            is_window_of(windows, surface, found) && target == (match found {
                None => None,
                Some(index) => Some(
                    Rectangle {
                        loc: outputs[0].geometry->0.loc.spec_relative_to(
                            coords,
                        ).spec_relative_to(corners[index as int]),
                        size: outputs[0].geometry->0.size,
                    },
                ),
            }),
    }
}

/// The area that a popup should stay within, relative to its parent: the first output.
///
/// `root` is the surface of the window that the popup belongs to, `coords` where the popup lies in
/// that window, and `corners` where the windows lie.
pub fn unconstrain_popup(
    outputs: &Vec<Output>,
    windows: &Vec<Window>,
    corners: &Vec<Point<i32>>,
    root: Option<u64>,
    coords: Point<i32>,
) -> (target: Option<Rectangle<i32>>)
    requires
        corners@.len() == windows@.len(),
        root matches Some(surface) && has_window_of(windows@, surface) ==> outputs@.len() > 0
            && outputs@[0].geometry is Some,
    ensures
        confines(outputs@, windows@, corners@, root, coords, target),
{
    let Some(surface) = root else {
        return None;
    };
    let found: Option<usize> = window_of(windows, surface);
    assert(is_window_of(windows@, surface, found));
    let Some(index) = found else {
        return None;
    };
    match outputs[0].geometry {
        Some(geometry) => Some(
            Rectangle {
                loc: geometry.loc.relative_to(coords).relative_to(corners[index]),
                size: geometry.size,
            },
        ),
        None => None,
    }
}

/// A change of the focus goes where it is sent, whenever that is, unless a gesture holds the windows: from
/// then on the window of the slot has the focus, and the windows go there from where they are. Nothing
/// else changes.
pub proof fn focus_goes_where_it_is_sent<
    S,
    L: Fn(S, S) -> bool,
    C: Fn(S) -> S,
    A: Fn(Rectangle<i32>, Point<S>) -> WorkspaceAreas<S>,
    B: Fn(u32, ProgressAndVelocity<S>, ProgressAndVelocity<S>) -> ProgressAndVelocity<S>,
>(
    before: Smallvil<WorkspaceState<S>>,
    direction: WindowPosition,
    now: u128,
    motion: &Motion<S, L, C, A, B>,
    after: Smallvil<WorkspaceState<S>>,
    area: Rectangle<i32>,
)
    requires
        before.focusses(direction, now, motion, after),
    ensures
        before.cur_workspace_state is Grabbed ==> after == before,
        !(before.cur_workspace_state is Grabbed) ==> {
            &&& after.cur_workspace_focussed_window == direction
            &&& after.cur_workspace_state matches WorkspaceState::Animating(info)
            &&& info.start_time == now
            &&& motion.shows(
                before.cur_workspace_state,
                before.cur_workspace_focussed_window,
                area,
                now,
                info.start_info,
            )
            &&& after.cur_workspace == before.cur_workspace
            &&& after.workspaces == before.workspaces
            &&& after.cur_monitor == before.cur_monitor
            &&& after.seat_name == before.seat_name
            &&& after.running == before.running
            &&& after.cursor_status == before.cursor_status
            &&& after.dnd_icon == before.dnd_icon
            &&& after.backend_data == before.backend_data
        },
{
}

/// A window that opens is in the workspace that is shown from then on, and has the focus where a slot
/// was free for it and no gesture holds the windows: in the first slot clockwise that was empty. Where
/// none was, the workspace is a new one right behind, and the focus stays.
pub proof fn opened_window_gets_the_focus<
    S,
    L: Fn(S, S) -> bool,
    C: Fn(S) -> S,
    A: Fn(Rectangle<i32>, Point<S>) -> WorkspaceAreas<S>,
    B: Fn(u32, ProgressAndVelocity<S>, ProgressAndVelocity<S>) -> ProgressAndVelocity<S>,
>(
    before: Smallvil<WorkspaceState<S>>,
    window: Window,
    now: u128,
    motion: &Motion<S, L, C, A, B>,
    after: Smallvil<WorkspaceState<S>>,
    slot: WindowPosition,
)
    requires
        before.wf(),
        before.opens(window, now, motion, after),
    ensures
        after.wf(),
        exists|free: WindowPosition|
            {
                &&& #[trigger] after.current().at(free) == Some(window)
                &&& before.current().at(free) is None ==> {
                    &&& after.cur_workspace == before.cur_workspace
                    &&& slot != free ==> after.current().at(slot) == before.current().at(slot)
                    &&& clockwise_index(slot) < clockwise_index(free) ==> before.current().at(
                        slot,
                    ) is Some
                    &&& !(before.cur_workspace_state is Grabbed)
                        ==> after.cur_workspace_focussed_window == free && (
                    after.cur_workspace_state matches WorkspaceState::Animating(info)
                        && info.start_time == now)
                    &&& before.cur_workspace_state is Grabbed ==> after.cur_workspace_state
                        == before.cur_workspace_state && after.cur_workspace_focussed_window
                        == before.cur_workspace_focussed_window
                }
                &&& before.current().at(free) is Some ==> {
                    &&& free == WindowPosition::TopLeft
                    &&& before.current().at(slot) is Some
                    &&& after.cur_workspace == before.cur_workspace + 1
                    &&& slot != free ==> after.current().at(slot) is None
                    &&& after.cur_workspace_state == before.cur_workspace_state
                    &&& after.cur_workspace_focussed_window == before.cur_workspace_focussed_window
                }
            },
        after.running == before.running,
        after.cur_monitor == before.cur_monitor,
{
    free_slot_is_the_first_empty_one(before.current(), slot);
    free_slot_is_the_first_empty_one(before.current(), WindowPosition::TopLeft);
    new_window_is_in_the_current_workspace(
        before.workspaces@,
        before.cur_workspace as int,
        window,
    );
    match free_slot(before.current()) {
        Some(free) => {
            assert(after.current().at(free) == Some(window));
        },
        None => {
            assert(after.current().at(WindowPosition::TopLeft) == Some(window));
        },
    }
}

/// No window changes its workspace or its slot when another one opens; the workspaces behind a new one
/// only move back.
pub proof fn opening_moves_no_window(
    workspaces: Seq<AnvilWorkspace>,
    current: int,
    window: Window,
    index: int,
    slot: WindowPosition,
)
    requires
        0 <= current < workspaces.len(),
        0 <= index < workspaces.len(),
        workspaces[index].at(slot) is Some,
    ensures
        ({
            let added = with_toplevel(workspaces, current, window).1;
            let moved = added.len() - workspaces.len();
            &&& moved == 0 || moved == 1
            &&& index <= current ==> added[index].at(slot) == workspaces[index].at(slot)
            &&& index > current ==> added[index + moved].at(slot) == workspaces[index].at(slot)
        }),
{
    free_slot_is_the_first_empty_one(workspaces[current], slot);
}

/// The window that is found has the surface, and none before it has; where none is found, none has.
pub proof fn found_window_has_the_surface(
    windows: Seq<Window>,
    surface: u64,
    found: Option<usize>,
    other: int,
)
    requires
        is_window_of(windows, surface, found),
        0 <= other < windows.len(),
    ensures
        match found {
            Some(index) => {
                &&& index < windows.len()
                &&& windows[index as int].surface == surface
                &&& windows[other].surface == surface ==> index <= other
            },
            None => windows[other].surface != surface,
        },
{
}

/// A commit configures the first window of the surface, once: it does so exactly if there is such a window
/// that has not been configured.
pub proof fn window_is_configured_once<F: Fn(u64) -> bool>(
    windows: Seq<Window>,
    surface: u64,
    initial_configure_sent: &F,
    configured: Option<Window>,
    sent: bool,
    other: int,
)
    requires
        configures(windows, surface, initial_configure_sent, configured),
        forall|told: bool| #[trigger]
            call_ensures(*initial_configure_sent, (surface,), told) ==> told == sent,
        0 <= other < windows.len(),
    ensures
        sent ==> configured is None,
        !sent && windows[other].surface == surface ==> configured is Some,
        configured matches Some(window) ==> window.surface == surface && windows.contains(window),
        configured matches Some(window) ==> (windows[other].surface == surface
            ==> windows.index_of_first(window)->0 <= other),
{
    let found = choose|found: Option<usize>| #[trigger]
        is_window_of(windows, surface, found) && match found {
            None => configured is None,
            Some(index) => exists|told: bool| #[trigger]
                call_ensures(*initial_configure_sent, (surface,), told) && configured == (if told {
                    None
                } else {
                    Some(windows[index as int])
                }),
        };
    found_window_has_the_surface(windows, surface, found, other);
    if let Some(window) = configured {
        assert(windows[found->0 as int] == window);
        windows.index_of_first_ensures(window);
    }
}

/// The popup of a window is configured exactly if it was not before; no other popup is.
pub proof fn popup_is_configured_once(popup: Option<PopupKind>)
    ensures
        awaits_configure(popup) <==> (popup matches Some(PopupKind::Xdg { initial_configure_sent })
            && !initial_configure_sent),
{
}

/// A popup of a window should stay within the first output: moved by where the popup and its window lie, the
/// area is that output, as far as the coordinates fit. A popup without a window is not confined.
pub proof fn popup_stays_on_the_first_output(
    outputs: Seq<Output>,
    windows: Seq<Window>,
    corners: Seq<Point<i32>>,
    root: Option<u64>,
    coords: Point<i32>,
    target: Option<Rectangle<i32>>,
    found: Option<usize>,
)
    requires
        confines(outputs, windows, corners, root, coords, target),
        root matches Some(surface) ==> is_window_of(windows, surface, found),
        outputs.len() > 0,
        outputs[0].geometry is Some,
    ensures
        target is Some <==> root is Some && found is Some,
        target matches Some(area) ==> {
            let output = outputs[0].geometry->0;
            let corner = corners[found->0 as int];
            &&& area.size == output.size
            &&& i32::MIN <= output.loc.x - coords.x <= i32::MAX && i32::MIN <= output.loc.x - coords.x
                - corner.x <= i32::MAX ==> area.loc.x + coords.x + corner.x == output.loc.x
            &&& i32::MIN <= output.loc.y - coords.y <= i32::MAX && i32::MIN <= output.loc.y - coords.y
                - corner.y <= i32::MAX ==> area.loc.y + coords.y + corner.y == output.loc.y
        },
{
    if let Some(surface) = root {
        let own = choose|own: Option<usize>| #[trigger]
            is_window_of(windows, surface, own) && target == (match own {
                None => None,
                Some(index) => Some(
                    Rectangle {
                        loc: outputs[0].geometry->0.loc.spec_relative_to(coords).spec_relative_to(
                            corners[index as int],
                        ),
                        size: outputs[0].geometry->0.size,
                    },
                ),
            });
        if let (Some(a), Some(b)) = (own, found) {
            found_window_has_the_surface(windows, surface, own, b as int);
            found_window_has_the_surface(windows, surface, found, a as int);
        }
        if own is Some && found is None {
            found_window_has_the_surface(windows, surface, found, own->0 as int);
        }
        if own is None && found is Some {
            found_window_has_the_surface(windows, surface, own, found->0 as int);
        }
        assert(own == found);
    }
}

} // verus!
