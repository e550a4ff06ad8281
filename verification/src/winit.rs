//! The compositor in a window of another one.

use vstd::prelude::*;
use vstd::string::*;

use crate::geometry::{Point, Size};
use crate::state::Smallvil;

verus! {

/// The refresh rate of the window, in thousandths of a hertz.
pub const REFRESH: i32 = 60_000;

/// What an output shows.
#[derive(Debug, Clone, Copy, PartialEq, Eq)]
pub struct Mode {
    pub size: Size<i32>,
    /// In thousandths of a hertz.
    pub refresh: i32,
}

/// What the output of a window of this size shows.
pub fn mode_of(size: Size<i32>) -> (mode: Mode)
    ensures
        mode == (Mode { size, refresh: REFRESH }),
{
    Mode { size, refresh: REFRESH }
}

/// The output that a window is.
#[derive(Debug)]
pub struct WindowOutput {
    pub name: String,
    pub make: String,
    pub model: String,
    /// The size of the screen in millimetres, zero where it is unknown.
    pub physical_size: (i32, i32),
    pub mode: Mode,
    /// Where the output lies.
    pub position: Point<i32>,
}

/// `output` is that of a window of the given size.
pub open spec fn is_output_of_window(size: Size<i32>, output: WindowOutput) -> bool {
    &&& output.name@ == "winit"@
    &&& output.make@ == "Smithay"@
    &&& output.model@ == "Winit"@
    &&& output.physical_size == (0i32, 0i32)
    &&& output.mode == (Mode { size, refresh: REFRESH })
    &&& output.position == (Point { x: 0i32, y: 0i32 })
}

/// The output that a window of this size is: the only one, at the origin.
pub fn window_output(size: Size<i32>) -> (output: WindowOutput)
    ensures
        is_output_of_window(size, output),
{
    WindowOutput {
        name: String::from_str("winit"),
        make: String::from_str("Smithay"),
        model: String::from_str("Winit"),
        physical_size: (0, 0),
        mode: mode_of(size),
        position: Point { x: 0, y: 0 },
    }
}

/// Something that happens to the window.
#[derive(Debug, Clone, Copy, PartialEq, Eq)]
pub enum WinitEvent {
    Resized(Size<i32>),
    Input,
    Redraw,
    CloseRequested,
    Other,
}

/// Something that is done because of that.
#[derive(Debug, Clone, Copy, PartialEq, Eq)]
pub enum WinitAction {
    /// Change what the output shows.
    ChangeMode(Mode),
    /// Handle the input event.
    ProcessInput,
    /// Put the windows where they are now.
    UpdateWorkspacePosition,
    /// Draw the windows.
    Render,
    /// Show what was drawn, all of it.
    Submit,
    /// Tell each window on the screen that a frame was shown.
    SendFrames,
    /// Forget windows that are gone.
    RefreshSpace,
    /// Forget popups that are gone.
    CleanupPopups,
    /// Send what clients were told.
    FlushClients,
    /// Ask for the next frame.
    RequestRedraw,
    /// End the event loop.
    StopLoop,
}

/// What is done because of an event, in its order. Before a frame is drawn the windows are put where
/// they are now, and after it the next one is asked for.
pub open spec fn winit_actions(event: WinitEvent) -> Seq<WinitAction> {
    match event {
        WinitEvent::Resized(size) => seq![
            WinitAction::ChangeMode(Mode { size, refresh: REFRESH }),
        ],
        WinitEvent::Input => seq![WinitAction::ProcessInput],
        WinitEvent::Redraw => seq![
            WinitAction::UpdateWorkspacePosition,
            WinitAction::Render,
            WinitAction::Submit,
            WinitAction::SendFrames,
            WinitAction::RefreshSpace,
            WinitAction::CleanupPopups,
            WinitAction::FlushClients,
            WinitAction::RequestRedraw,
        ],
        WinitEvent::CloseRequested => seq![WinitAction::StopLoop],
        WinitEvent::Other => Seq::empty(),
    }
}

/// Whenever a frame is drawn, the windows have been put where they are now before.
pub proof fn windows_are_placed_before_they_are_drawn(event: WinitEvent, drawn: int)
    requires
        0 <= drawn < winit_actions(event).len(),
        winit_actions(event)[drawn] is Render,
    ensures
        winit_actions(event).take(drawn).contains(WinitAction::UpdateWorkspacePosition),
{
    let before = winit_actions(event).take(drawn);
    assert(before[0] == WinitAction::UpdateWorkspacePosition);
}

impl<M> Smallvil<M> {
    /// `after` and `actions` come of an event of the window.
    pub open spec fn follows_window(self, event: WinitEvent, after: Self, actions: Seq<WinitAction>) -> bool {
        &&& actions == winit_actions(event)
        &&& after == (Smallvil {
            running: self.running && event != WinitEvent::CloseRequested,
            ..self
        })
    }

    /// Lists what is done because of an event; a window that is to be closed ends the compositor.
    pub fn handle_winit_event(&mut self, event: WinitEvent) -> (actions: Vec<WinitAction>)
        ensures
            old(self).follows_window(event, *final(self), actions@),
    {
        let mut actions: Vec<WinitAction> = Vec::new();
        match event {
            WinitEvent::Resized(size) => {
                actions.push(WinitAction::ChangeMode(mode_of(size)));
            },
            WinitEvent::Input => {
                actions.push(WinitAction::ProcessInput);
            },
            WinitEvent::Redraw => {
                actions.push(WinitAction::UpdateWorkspacePosition);
                actions.push(WinitAction::Render);
                actions.push(WinitAction::Submit);
                actions.push(WinitAction::SendFrames);
                actions.push(WinitAction::RefreshSpace);
                actions.push(WinitAction::CleanupPopups);
                actions.push(WinitAction::FlushClients);
                actions.push(WinitAction::RequestRedraw);
            },
            WinitEvent::CloseRequested => {
                self.running = false;
                actions.push(WinitAction::StopLoop);
            },
            WinitEvent::Other => {},
        }
        assert(actions@ =~= winit_actions(event));
        actions
    }
}

/// A window of another size changes what its output shows to that size and to nothing else.
pub proof fn output_takes_the_size_of_its_window(size: Size<i32>)
    ensures
        ({
            let actions = winit_actions(WinitEvent::Resized(size));
            &&& actions.len() == 1
            &&& actions[0] matches WinitAction::ChangeMode(mode)
            &&& mode.size == size
            &&& mode.refresh == 60_000
        }),
{
}

/// Input is handled, and nothing is drawn for it; only a request to close ends the event loop; and every
/// frame asks for the next one at its end, after clients were told of it.
pub proof fn window_goes_on_until_it_is_closed(event: WinitEvent, step: int)
    ensures
        ({
            let actions = winit_actions(event);
            &&& event is Input ==> actions.len() == 1 && actions[0] is ProcessInput
            &&& event is Other ==> actions.len() == 0
            &&& actions.contains(WinitAction::StopLoop) <==> event is CloseRequested
            &&& event is Redraw ==> actions.last() is RequestRedraw
            &&& event is Redraw ==> actions.contains(WinitAction::SendFrames) && actions.contains(
                WinitAction::FlushClients,
            ) && actions.contains(WinitAction::RefreshSpace) && actions.contains(
                WinitAction::CleanupPopups,
            )
            &&& 0 <= step < actions.len() && actions[step] is Submit ==> actions.take(
                step,
            ).contains(WinitAction::Render)
            &&& 0 <= step < actions.len() && actions[step] is SendFrames ==> actions.take(
                step,
            ).contains(WinitAction::Submit)
        }),
{
    let actions = winit_actions(event);
    match event {
        WinitEvent::Redraw => {
            assert(actions[3] is SendFrames);
            assert(actions[4] is RefreshSpace);
            assert(actions[5] is CleanupPopups);
            assert(actions[6] is FlushClients);
            if step == 2 {
                assert(actions.take(step)[1] is Render);
            }
            if step == 3 {
                assert(actions.take(step)[2] is Submit);
            }
        },
        WinitEvent::CloseRequested => {
            assert(actions[0] is StopLoop);
        },
        _ => {},
    }
}

/// The output of a window shows what the window does, from its corner on, at sixty frames a second.
pub proof fn output_shows_its_window(size: Size<i32>, output: WindowOutput)
    requires
        is_output_of_window(size, output),
    ensures
        output.mode.size.w == size.w,
        output.mode.size.h == size.h,
        output.mode.refresh == 60_000,
        output.position.x == 0,
        output.position.y == 0,
        output.physical_size.0 == 0,
        output.physical_size.1 == 0,
        output.name@ == "winit"@,
        output.make@ == "Smithay"@,
        output.model@ == "Winit"@,
{
}

/// A request to close the window stops the event loop and is remembered; no other event does either, and
/// nothing else that is known changes. Windows are put where they are before a frame is rendered.
pub proof fn closed_window_ends_the_loop<M>(
    before: Smallvil<M>,
    event: WinitEvent,
    after: Smallvil<M>,
    actions: Seq<WinitAction>,
    step: int,
)
    requires
        before.follows_window(event, after, actions),
    ensures
        event is CloseRequested ==> !after.running && actions.contains(WinitAction::StopLoop),
        !(event is CloseRequested) ==> after == before && !actions.contains(WinitAction::StopLoop),
        after == (Smallvil { running: after.running, ..before }),
        event matches WinitEvent::Resized(size) ==> {
            &&& actions.len() == 1
            &&& actions[0] matches WinitAction::ChangeMode(mode) && mode.size == size
        },
        event is Input ==> actions.len() == 1 && actions[0] is ProcessInput,
        event is Redraw ==> actions.contains(WinitAction::Render) && actions.last() is RequestRedraw,
        0 <= step < actions.len() && actions[step] is Render ==> event is Redraw && actions.take(
            step,
        ).contains(WinitAction::UpdateWorkspacePosition),
{
    window_goes_on_until_it_is_closed(event, step);
    if event is Redraw {
        assert(actions[1] is Render);
        if step == 1 {
            assert(actions.take(step)[0] is UpdateWorkspacePosition);
        }
    }
}

} // verus!
