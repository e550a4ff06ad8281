//! Where the windows of a workspace rest, and what it takes to put them there.

use vstd::prelude::*;

use crate::extra_state::{areas_equal_by_slot, WindowAreas, WindowPosition, WorkspaceAreas};
use crate::geometry::{Point, Rectangle, Size};
use crate::input::{edges_first, edges_first_index};

verus! {

/// The gap between two neighbouring windows.
pub const PADDING: i32 = 10;

/// The gap between the main window area and the edge of its output.
pub const MARGIN: i32 = 50;

/// A toplevel window.
#[derive(Debug, Clone, Copy, PartialEq, Eq, Structural)]
pub struct Window {
    /// The number by which the window is known.
    pub id: u64,
    /// The number of its surface.
    pub surface: u64,
}

/// The windows of one workspace.
pub type AnvilWorkspace = WorkspaceAreas<Option<Window>>;

/// A workspace without windows.
pub open spec fn no_windows() -> AnvilWorkspace {
    AnvilWorkspace::build(|slot: WindowPosition| None::<Window>)
}

/// A workspace without windows.
pub fn empty_workspace() -> (workspace: AnvilWorkspace)
    ensures
        workspace == no_windows(),
{
    WorkspaceAreas {
        left_window: None,
        top_window: None,
        right_window: None,
        bottom_window: None,
        top_left_window: None,
        top_right_window: None,
        bottom_left_window: None,
        bottom_right_window: None,
    }
}

/// How many slots to the right of the main area a slot lies.
pub open spec fn columns(slot: WindowPosition) -> int {
    match slot {
        WindowPosition::TopLeft | WindowPosition::Left | WindowPosition::BottomLeft => -1,
        WindowPosition::Top | WindowPosition::Bottom => 0,
        WindowPosition::TopRight | WindowPosition::Right | WindowPosition::BottomRight => 1,
    }
}

/// How many slots below the main area a slot lies.
pub open spec fn rows(slot: WindowPosition) -> int {
    match slot {
        WindowPosition::TopLeft | WindowPosition::Top | WindowPosition::TopRight => -1,
        WindowPosition::Left | WindowPosition::Right => 0,
        WindowPosition::BottomLeft | WindowPosition::Bottom | WindowPosition::BottomRight => 1,
    }
}

/// The length of `count` steps, of which there are at most one either way.
pub open spec fn steps(count: int, length: int) -> int {
    if count < 0 {
        -length
    } else if count == 0 {
        0
    } else {
        length
    }
}

/// The top left corner of the window that rests in a slot: the slots lie around the main area in a
/// grid of cells as large as it, [`PADDING`] apart.
pub open spec fn corner(area: Rectangle<i32>, slot: WindowPosition) -> Point<i64> {
    Point {
        x: (area.loc.x + steps(columns(slot), area.size.w + PADDING)) as i64,
        y: (area.loc.y + steps(rows(slot), area.size.h + PADDING)) as i64,
    }
}

/// The top left corner of the main area.
pub open spec fn origin(area: Rectangle<i32>) -> Point<i64> {
    Point { x: area.loc.x as i64, y: area.loc.y as i64 }
}

/// The corner of the window that rests to the left.
pub fn get_left(area: Rectangle<i32>) -> (point: Point<i64>)
    ensures
        point == corner(area, WindowPosition::Left),
{
    Point {
        x: area.loc.x as i64 - area.size.w as i64 - PADDING as i64,
        y: area.loc.y as i64,
    }
}

/// The corner of the window that rests above.
pub fn get_top(area: Rectangle<i32>) -> (point: Point<i64>)
    ensures
        point == corner(area, WindowPosition::Top),
{
    Point {
        x: area.loc.x as i64,
        y: area.loc.y as i64 - area.size.h as i64 - PADDING as i64,
    }
}

/// The corner of the window that rests to the right.
pub fn get_right(area: Rectangle<i32>) -> (point: Point<i64>)
    ensures
        point == corner(area, WindowPosition::Right),
{
    Point {
        x: area.loc.x as i64 + area.size.w as i64 + PADDING as i64,
        y: area.loc.y as i64,
    }
}

/// The corner of the window that rests below.
pub fn get_bottom(area: Rectangle<i32>) -> (point: Point<i64>)
    ensures
        point == corner(area, WindowPosition::Bottom),
{
    Point {
        x: area.loc.x as i64,
        y: area.loc.y as i64 + area.size.h as i64 + PADDING as i64,
    }
}

/// The corner of the window that rests above and to the left.
pub fn get_top_left(area: Rectangle<i32>) -> (point: Point<i64>)
    ensures
        point == corner(area, WindowPosition::TopLeft),
{
    Point {
        x: area.loc.x as i64 - area.size.w as i64 - PADDING as i64,
        y: area.loc.y as i64 - area.size.h as i64 - PADDING as i64,
    }
}

/// The corner of the window that rests above and to the right.
pub fn get_top_right(area: Rectangle<i32>) -> (point: Point<i64>)
    ensures
        point == corner(area, WindowPosition::TopRight),
{
    Point {
        x: area.loc.x as i64 + area.size.w as i64 + PADDING as i64,
        y: area.loc.y as i64 - area.size.h as i64 - PADDING as i64,
    }
}

/// The corner of the window that rests below and to the left.
pub fn get_bottom_left(area: Rectangle<i32>) -> (point: Point<i64>)
    ensures
        point == corner(area, WindowPosition::BottomLeft),
{
    Point {
        x: area.loc.x as i64 - area.size.w as i64 - PADDING as i64,
        y: area.loc.y as i64 + area.size.h as i64 + PADDING as i64,
    }
}

/// The corner of the window that rests below and to the right.
pub fn get_bottom_right(area: Rectangle<i32>) -> (point: Point<i64>)
    ensures
        point == corner(area, WindowPosition::BottomRight),
{
    Point {
        x: area.loc.x as i64 + area.size.w as i64 + PADDING as i64,
        y: area.loc.y as i64 + area.size.h as i64 + PADDING as i64,
    }
}

/// Two windows of the same size with these corners are at least [`PADDING`] apart.
pub open spec fn apart(a: Point<i64>, b: Point<i64>, size: Size<i32>) -> bool {
    ||| a.x + size.w + PADDING <= b.x
    ||| b.x + size.w + PADDING <= a.x
    ||| a.y + size.h + PADDING <= b.y
    ||| b.y + size.h + PADDING <= a.y
}

/// Windows at rest overlap neither one another nor the main area.
pub proof fn windows_at_rest_are_apart(
    area: Rectangle<i32>,
    one: WindowPosition,
    other: WindowPosition,
)
    requires
        area.size.w >= 0,
        area.size.h >= 0,
        one != other,
    ensures
        apart(corner(area, one), corner(area, other), area.size),
        apart(corner(area, one), origin(area), area.size),
{
}

/// Something that is done to the windows on the screen.
#[derive(Debug, Clone, Copy, PartialEq, Eq)]
pub enum WindowEffect {
    /// Take every window off the screen.
    UnmapAll,
    /// Show a window with its corner at a point.
    Show { window: Window, at: Point<i32> },
    /// Ask a window to take a size.
    Resize { window: Window, size: Size<i32> },
}

/// What is done to the window of one slot. Where `only_moved` is set, a window whose geometry
/// already lies at the point is not shown again.
pub open spec fn slot_effects(
    window: Option<Window>,
    geometry: Rectangle<i32>,
    at: Point<i32>,
    size: Size<i32>,
    only_moved: bool,
) -> Seq<WindowEffect> {
    match window {
        None => Seq::empty(),
        Some(window) => {
            (if only_moved && geometry.loc == at {
                Seq::<WindowEffect>::empty()
            } else {
                seq![WindowEffect::Show { window, at }]
            }) + (if geometry.size == size {
                Seq::<WindowEffect>::empty()
            } else {
                seq![WindowEffect::Resize { window, size }]
            })
        },
    }
}

/// What is done to the windows of a workspace: all are taken off the screen, then those of the
/// edges are handled, then those of the corners.
pub open spec fn workspace_effects(
    workspace: AnvilWorkspace,
    geometries: WorkspaceAreas<Rectangle<i32>>,
    positions: WorkspaceAreas<Point<i32>>,
    size: Size<i32>,
    only_moved: bool,
) -> Seq<WindowEffect> {
    let handled = |slot: WindowPosition|
        slot_effects(
            workspace.at(slot),
            geometries.at(slot),
            positions.at(slot),
            size,
            only_moved,
        );
    seq![WindowEffect::UnmapAll] + handled(WindowPosition::Left) + handled(WindowPosition::Top)
        + handled(WindowPosition::Right) + handled(WindowPosition::Bottom) + handled(
        WindowPosition::TopLeft,
    ) + handled(WindowPosition::TopRight) + handled(WindowPosition::BottomLeft) + handled(
        WindowPosition::BottomRight,
    )
}

/// Appends what is done to the window of one slot.
fn handle_window(
    effects: &mut Vec<WindowEffect>,
    window: &Option<Window>,
    geometry: Rectangle<i32>,
    at: Point<i32>,
    size: Size<i32>,
    only_moved: bool,
)
    ensures
        final(effects)@ == old(effects)@ + slot_effects(*window, geometry, at, size, only_moved),
{
    if let Some(window) = window {
        if !only_moved || !geometry.loc.same(at) {
            effects.push(WindowEffect::Show { window: *window, at });
        }
        if !geometry.size.same(size) {
            effects.push(WindowEffect::Resize { window: *window, size });
        }
    }
}

/// Lists what is done to the windows of a workspace to put each at its position.
pub fn arrange(
    workspace: &AnvilWorkspace,
    geometries: &WorkspaceAreas<Rectangle<i32>>,
    positions: &WorkspaceAreas<Point<i32>>,
    size: Size<i32>,
    only_moved: bool,
) -> (effects: Vec<WindowEffect>)
    ensures
        effects@ == workspace_effects(*workspace, *geometries, *positions, size, only_moved),
{
    let mut effects: Vec<WindowEffect> = Vec::new();
    effects.push(WindowEffect::UnmapAll);
    handle_window(
        &mut effects,
        &workspace.left_window,
        geometries.left_window,
        positions.left_window,
        size,
        only_moved,
    );
    handle_window(
        &mut effects,
        &workspace.top_window,
        geometries.top_window,
        positions.top_window,
        size,
        only_moved,
    );
    handle_window(
        &mut effects,
        &workspace.right_window,
        geometries.right_window,
        positions.right_window,
        size,
        only_moved,
    );
    handle_window(
        &mut effects,
        &workspace.bottom_window,
        geometries.bottom_window,
        positions.bottom_window,
        size,
        only_moved,
    );
    handle_window(
        &mut effects,
        &workspace.top_left_window,
        geometries.top_left_window,
        positions.top_left_window,
        size,
        only_moved,
    );
    handle_window(
        &mut effects,
        &workspace.top_right_window,
        geometries.top_right_window,
        positions.top_right_window,
        size,
        only_moved,
    );
    handle_window(
        &mut effects,
        &workspace.bottom_left_window,
        geometries.bottom_left_window,
        positions.bottom_left_window,
        size,
        only_moved,
    );
    handle_window(
        &mut effects,
        &workspace.bottom_right_window,
        geometries.bottom_right_window,
        positions.bottom_right_window,
        size,
        only_moved,
    );
    effects
}

/// Any point of the way between two points can be asked for.
pub open spec fn can_place<S, P: Fn(Point<i64>, Point<i64>, S) -> Point<i32>>(place: &P) -> bool {
    forall|start: Point<i64>, end: Point<i64>, progress: S| #[trigger]
        call_requires(*place, (start, end, progress))
}

/// `point` can come of `place` for a window that has come so far from the main area to its slot.
pub open spec fn placed<S, P: Fn(Point<i64>, Point<i64>, S) -> Point<i32>>(
    place: &P,
    area: Rectangle<i32>,
    slot: WindowPosition,
    progress: S,
    point: Point<i32>,
) -> bool {
    call_ensures(*place, (origin(area), corner(area, slot), progress), point)
}

/// The point `place` gives back is what `along` says.
pub open spec fn places<S, P: Fn(Point<i64>, Point<i64>, S) -> Point<i32>>(
    place: &P,
    along: spec_fn(Point<i64>, Point<i64>, S) -> Point<i32>,
) -> bool {
    forall|start: Point<i64>, end: Point<i64>, progress: S, point: Point<i32>| #[trigger]
        call_ensures(*place, (start, end, progress), point) ==> point == along(
            start,
            end,
            progress,
        )
}

/// Where each window goes, where `along` says what point it has come to.
pub open spec fn spec_positions<S>(
    progress: WorkspaceAreas<S>,
    area: Rectangle<i32>,
    along: spec_fn(Point<i64>, Point<i64>, S) -> Point<i32>,
) -> WorkspaceAreas<Point<i32>> {
    WorkspaceAreas::build(
        |slot: WindowPosition| along(origin(area), corner(area, slot), progress.at(slot)),
    )
}

/// Where each window goes when it has come so far from the main area to its slot.
pub fn positions_of<S: Copy, P: Fn(Point<i64>, Point<i64>, S) -> Point<i32>>(
    progress: &WorkspaceAreas<S>,
    area: Rectangle<i32>,
    place: &P,
) -> (positions: WorkspaceAreas<Point<i32>>)
    requires
        can_place(place),
    ensures
        forall|slot: WindowPosition|
            placed(place, area, slot, progress.at(slot), #[trigger] positions.at(slot)),
        forall|along: spec_fn(Point<i64>, Point<i64>, S) -> Point<i32>| #[trigger]
            places(place, along) ==> positions == spec_positions(*progress, area, along),
{
    let start: Point<i64> = Point { x: area.loc.x as i64, y: area.loc.y as i64 };
    let positions = WorkspaceAreas {
        left_window: (*place)(start, get_left(area), progress.left_window),
        top_window: (*place)(start, get_top(area), progress.top_window),
        right_window: (*place)(start, get_right(area), progress.right_window),
        bottom_window: (*place)(start, get_bottom(area), progress.bottom_window),
        top_left_window: (*place)(start, get_top_left(area), progress.top_left_window),
        top_right_window: (*place)(start, get_top_right(area), progress.top_right_window),
        bottom_left_window: (*place)(start, get_bottom_left(area), progress.bottom_left_window),
        bottom_right_window: (*place)(start, get_bottom_right(area), progress.bottom_right_window),
    };
    assert forall|along: spec_fn(Point<i64>, Point<i64>, S) -> Point<i32>| #[trigger]
        places(place, along) implies positions == spec_positions(*progress, area, along) by {
        let expected = spec_positions(*progress, area, along);
        assert forall|slot: WindowPosition| #[trigger] positions.at(slot) == expected.at(slot) by {
            assert(placed(place, area, slot, progress.at(slot), positions.at(slot)));
        }
        areas_equal_by_slot(positions, expected);
    }
    positions
}

/// `positions` can be where `place` puts windows that have come so far.
pub open spec fn are_positions<S, P: Fn(Point<i64>, Point<i64>, S) -> Point<i32>>(
    place: &P,
    areas: WindowAreas<S>,
    area: Rectangle<i32>,
    positions: WorkspaceAreas<Point<i32>>,
) -> bool {
    forall|slot: WindowPosition|
        placed(place, area, slot, areas.at(slot).progress, #[trigger] positions.at(slot))
}

/// `effects` can be what is done to the windows of a workspace that have come so far.
pub open spec fn puts_in_place<S, P: Fn(Point<i64>, Point<i64>, S) -> Point<i32>>(
    workspace: AnvilWorkspace,
    geometries: WorkspaceAreas<Rectangle<i32>>,
    areas: WindowAreas<S>,
    area: Rectangle<i32>,
    size: Size<i32>,
    only_moved: bool,
    place: &P,
    effects: Seq<WindowEffect>,
) -> bool {
    exists|positions: WorkspaceAreas<Point<i32>>| #[trigger]
        are_positions(place, areas, area, positions) && effects == workspace_effects(
            workspace,
            geometries,
            positions,
            size,
            only_moved,
        )
}

/// Lists what is done to the windows of a workspace to put each where it has come and to give it
/// the size.
pub fn put_in_place<S: Copy, P: Fn(Point<i64>, Point<i64>, S) -> Point<i32>>(
    workspace: &AnvilWorkspace,
    geometries: &WorkspaceAreas<Rectangle<i32>>,
    areas: &WindowAreas<S>,
    area: Rectangle<i32>,
    size: Size<i32>,
    only_moved: bool,
    place: &P,
) -> (effects: Vec<WindowEffect>)
    requires
        can_place(place),
    ensures
        puts_in_place(*workspace, *geometries, *areas, area, size, only_moved, place, effects@),
{
    let progress: WorkspaceAreas<S> = WorkspaceAreas {
        left_window: areas.left_window.progress,
        top_window: areas.top_window.progress,
        right_window: areas.right_window.progress,
        bottom_window: areas.bottom_window.progress,
        top_left_window: areas.top_left_window.progress,
        top_right_window: areas.top_right_window.progress,
        bottom_left_window: areas.bottom_left_window.progress,
        bottom_right_window: areas.bottom_right_window.progress,
    };
    let positions: WorkspaceAreas<Point<i32>> = positions_of(&progress, area, place);
    assert(are_positions(place, *areas, area, positions));
    arrange(workspace, geometries, &positions, size, only_moved)
}

/// Two slots on opposite sides of the main area.
pub open spec fn are_opposite(one: WindowPosition, other: WindowPosition) -> bool {
    columns(one) == -columns(other) && rows(one) == -rows(other)
}

/// How much of the way a window has come, in parts of `whole`: at least nothing and at most all.
pub open spec fn part_of_way(part: int, whole: int) -> int {
    if part < 0 {
        0
    } else if part > whole {
        whole
    } else {
        part
    }
}

/// The coordinate on the straight line from `start` to `end` after `part` of `whole` of the way,
/// times `whole`.
pub open spec fn on_line(start: int, end: int, part: int, whole: int) -> int {
    (whole - part) * start + part * end
}

/// The corner of a window that has come so much of the way from the main area to its slot, on the
/// straight line between them, times `whole`.
pub open spec fn on_way(
    area: Rectangle<i32>,
    slot: WindowPosition,
    part: int,
    whole: int,
) -> Point<int> {
    let held = part_of_way(part, whole);
    Point {
        x: on_line(origin(area).x as int, corner(area, slot).x as int, held, whole),
        y: on_line(origin(area).y as int, corner(area, slot).y as int, held, whole),
    }
}

/// A coordinate that was multiplied by `whole` is one that a pixel can have.
pub open spec fn has_pixel(scaled: int, whole: int) -> bool {
    whole * i32::MIN <= scaled <= whole * i32::MAX
}

/// A pixel is at most three quarters of a pixel away from a coordinate that was multiplied by
/// `whole`.
pub open spec fn is_close(pixel: i32, scaled: int, whole: int) -> bool {
    -3 * whole <= 4 * (whole * pixel - scaled) <= 3 * whole
}

/// `place` keeps the windows close to the straight lines between the main area and their slots.
/// `parts` says how many parts of `whole` a progress value stands for.
pub open spec fn follows_lines<S, P: Fn(Point<i64>, Point<i64>, S) -> Point<i32>>(
    place: &P,
    parts: spec_fn(S) -> int,
    whole: int,
) -> bool {
    forall|area: Rectangle<i32>, slot: WindowPosition, progress: S, point: Point<i32>| #[trigger]
        placed(place, area, slot, progress, point) ==> {
            let exact = on_way(area, slot, parts(progress), whole);
            &&& has_pixel(exact.x, whole) ==> is_close(point.x, exact.x, whole)
            &&& has_pixel(exact.y, whole) ==> is_close(point.y, exact.y, whole)
        }
}

/// The ways that two windows have come add up to one, or miss it by less than half a pixel of a
/// step of this length.
pub open spec fn adds_up(one: int, other: int, whole: int, step: int) -> bool {
    -whole < 2 * ((part_of_way(one, whole) + part_of_way(other, whole) - whole) * step) < whole
}

/// Two pixels on one line that runs through the main area, on either side of it, are as far apart as
/// a window and its padding are long, give or take one; where the line does not lead that way they
/// are the same.
proof fn pixels_are_a_step_apart(
    start: int,
    step: int,
    one: int,
    other: int,
    whole: int,
    one_pixel: i32,
    other_pixel: i32,
)
    requires
        whole > 0,
        is_close(one_pixel, on_line(start, start - step, one, whole), whole),
        is_close(other_pixel, on_line(start, start + step, other, whole), whole),
        -whole < 2 * ((one + other - whole) * step) < whole,
    ensures
        -1 <= other_pixel - one_pixel - step <= 1,
        step == 0 ==> other_pixel == one_pixel,
{
    let missing = (one + other - whole) * step;
    let apart = other_pixel - one_pixel - step;
    let first = on_line(start, start - step, one, whole);
    let second = on_line(start, start + step, other, whole);
    assert(first == whole * start - one * step) by (nonlinear_arith)
        requires
            first == (whole - one) * start + one * (start - step),
    ;
    assert(second == whole * start + other * step) by (nonlinear_arith)
        requires
            second == (whole - other) * start + other * (start + step),
    ;
    assert(second - first == whole * step + missing) by (nonlinear_arith)
        requires
            first == whole * start - one * step,
            second == whole * start + other * step,
            missing == (one + other - whole) * step,
    ;
    assert(whole * other_pixel - whole * one_pixel == whole * apart + whole * step)
        by (nonlinear_arith)
        requires
            apart == other_pixel - one_pixel - step,
    ;
    assert(-8 * whole < 4 * (whole * apart) < 8 * whole);
    assert(-2 < apart < 2) by (nonlinear_arith)
        requires
            whole > 0,
            -8 * whole < 4 * (whole * apart) < 8 * whole,
    ;
    if step == 0 {
        assert(one * step == 0 && other * step == 0) by (nonlinear_arith)
            requires
                step == 0,
        ;
        pixel_is_exact(start, whole, one_pixel);
        pixel_is_exact(start, whole, other_pixel);
    }
}

/// The only pixel that is close to a whole coordinate is that coordinate.
proof fn pixel_is_exact(coordinate: int, whole: int, pixel: i32)
    requires
        whole > 0,
        is_close(pixel, whole * coordinate, whole),
    ensures
        pixel == coordinate,
{
    let off = pixel - coordinate;
    assert(whole * pixel - whole * coordinate == whole * off) by (nonlinear_arith)
        requires
            off == pixel - coordinate,
    ;
    assert(off == 0) by (nonlinear_arith)
        requires
            whole > 0,
            -3 * whole <= 4 * (whole * off) <= 3 * whole,
    ;
}

/// There is no gap between windows on opposite sides of the main area while one leaves it by as much
/// as the other comes in: they stay as far apart as a window and its padding are long, give or take
/// one pixel, and across that direction they do not differ at all. The pixels must be such that a
/// window can be put there.
pub proof fn opposite_windows_leave_no_gap<S, P: Fn(Point<i64>, Point<i64>, S) -> Point<i32>>(
    place: &P,
    areas: WindowAreas<S>,
    area: Rectangle<i32>,
    positions: WorkspaceAreas<Point<i32>>,
    one: WindowPosition,
    other: WindowPosition,
    parts: spec_fn(S) -> int,
    whole: int,
)
    requires
        are_positions(place, areas, area, positions),
        follows_lines(place, parts, whole),
        whole > 0,
        are_opposite(one, other),
        adds_up(
            parts(areas.at(one).progress),
            parts(areas.at(other).progress),
            whole,
            steps(columns(other), area.size.w + PADDING),
        ),
        adds_up(
            parts(areas.at(one).progress),
            parts(areas.at(other).progress),
            whole,
            steps(rows(other), area.size.h + PADDING),
        ),
        has_pixel(on_way(area, one, parts(areas.at(one).progress), whole).x, whole),
        has_pixel(on_way(area, one, parts(areas.at(one).progress), whole).y, whole),
        has_pixel(on_way(area, other, parts(areas.at(other).progress), whole).x, whole),
        has_pixel(on_way(area, other, parts(areas.at(other).progress), whole).y, whole),
    ensures
        ({
            let step_x = steps(columns(other), area.size.w + PADDING);
            let step_y = steps(rows(other), area.size.h + PADDING);
            let one_at = positions.at(one);
            let other_at = positions.at(other);
            &&& -1 <= other_at.x - one_at.x - step_x <= 1
            &&& -1 <= other_at.y - one_at.y - step_y <= 1
            &&& columns(other) == 0 ==> other_at.x == one_at.x
            &&& rows(other) == 0 ==> other_at.y == one_at.y
        }),
{
    let step_x = steps(columns(other), area.size.w + PADDING);
    let step_y = steps(rows(other), area.size.h + PADDING);
    let one_part = part_of_way(parts(areas.at(one).progress), whole);
    let other_part = part_of_way(parts(areas.at(other).progress), whole);
    assert(placed(place, area, one, areas.at(one).progress, positions.at(one)));
    assert(placed(place, area, other, areas.at(other).progress, positions.at(other)));
    assert(corner(area, one).x == origin(area).x - step_x);
    assert(corner(area, one).y == origin(area).y - step_y);
    assert(corner(area, other).x == origin(area).x + step_x);
    assert(corner(area, other).y == origin(area).y + step_y);
    pixels_are_a_step_apart(
        origin(area).x as int,
        step_x,
        one_part,
        other_part,
        whole,
        positions.at(one).x,
        positions.at(other).x,
    );
    pixels_are_a_step_apart(
        origin(area).y as int,
        step_y,
        one_part,
        other_part,
        whole,
        positions.at(one).y,
        positions.at(other).y,
    );
}

/// The slots lie around the main area in a grid: a window to the left or to the right is a width and the
/// padding away from it, one above or below a height and the padding, and one at a corner both.
pub proof fn slots_lie_around_the_main_area(area: Rectangle<i32>)
    ensures
        ({
            let at = |x: int, y: int| Point { x: (area.loc.x + x) as i64, y: (area.loc.y + y) as i64 };
            let right = area.size.w + PADDING;
            let down = area.size.h + PADDING;
            &&& origin(area) == at(0, 0)
            &&& corner(area, WindowPosition::Left) == at(-right, 0)
            &&& corner(area, WindowPosition::Right) == at(right, 0)
            &&& corner(area, WindowPosition::Top) == at(0, -down)
            &&& corner(area, WindowPosition::Bottom) == at(0, down)
            &&& corner(area, WindowPosition::TopLeft) == at(-right, -down)
            &&& corner(area, WindowPosition::TopRight) == at(right, -down)
            &&& corner(area, WindowPosition::BottomLeft) == at(-right, down)
            &&& corner(area, WindowPosition::BottomRight) == at(right, down)
        }),
{
}

/// What is done to the windows of the first slots, those of the edges before those of the corners.
spec fn effects_of_first(
    workspace: AnvilWorkspace,
    geometries: WorkspaceAreas<Rectangle<i32>>,
    positions: WorkspaceAreas<Point<i32>>,
    size: Size<i32>,
    only_moved: bool,
    count: nat,
) -> Seq<WindowEffect>
    decreases count,
{
    if count == 0 {
        seq![WindowEffect::UnmapAll]
    } else {
        let slot = edges_first(count - 1);
        effects_of_first(
            workspace,
            geometries,
            positions,
            size,
            only_moved,
            (count - 1) as nat,
        ) + slot_effects(
            workspace.at(slot),
            geometries.at(slot),
            positions.at(slot),
            size,
            only_moved,
        )
    }
}

proof fn all_slots_are_handled(
    workspace: AnvilWorkspace,
    geometries: WorkspaceAreas<Rectangle<i32>>,
    positions: WorkspaceAreas<Point<i32>>,
    size: Size<i32>,
    only_moved: bool,
)
    ensures
        workspace_effects(workspace, geometries, positions, size, only_moved) == effects_of_first(
            workspace,
            geometries,
            positions,
            size,
            only_moved,
            8,
        ),
{
    reveal_with_fuel(effects_of_first, 9);
}

/// The effects of the first slots begin with those of fewer slots.
proof fn earlier_effects_come_first(
    workspace: AnvilWorkspace,
    geometries: WorkspaceAreas<Rectangle<i32>>,
    positions: WorkspaceAreas<Point<i32>>,
    size: Size<i32>,
    only_moved: bool,
    fewer: nat,
    more: nat,
)
    requires
        fewer <= more,
    ensures
        ({
            let first = effects_of_first(
                workspace,
                geometries,
                positions,
                size,
                only_moved,
                fewer,
            );
            let all = effects_of_first(workspace, geometries, positions, size, only_moved, more);
            first.len() <= all.len() && all.take(first.len() as int) == first
        }),
    decreases more,
{
    let first = effects_of_first(workspace, geometries, positions, size, only_moved, fewer);
    let all = effects_of_first(workspace, geometries, positions, size, only_moved, more);
    if fewer < more {
        earlier_effects_come_first(
            workspace,
            geometries,
            positions,
            size,
            only_moved,
            fewer,
            (more - 1) as nat,
        );
        let most = effects_of_first(
            workspace,
            geometries,
            positions,
            size,
            only_moved,
            (more - 1) as nat,
        );
        assert(all.take(first.len() as int) =~= most.take(first.len() as int));
    } else {
        assert(all.take(first.len() as int) =~= first);
    }
}

/// Each window of a workspace is shown at the position of its slot, after everything was taken off the
/// screen; only one that is there already may be left out, where that is asked for. A window that does
/// not have the size is asked to take it.
pub proof fn every_window_is_shown(
    workspace: AnvilWorkspace,
    geometries: WorkspaceAreas<Rectangle<i32>>,
    positions: WorkspaceAreas<Point<i32>>,
    size: Size<i32>,
    only_moved: bool,
    slot: WindowPosition,
    window: Window,
)
    requires
        workspace.at(slot) == Some(window),
    ensures
        ({
            let effects = workspace_effects(workspace, geometries, positions, size, only_moved);
            &&& effects.len() > 0 && effects[0] is UnmapAll
            &&& only_moved && geometries.at(slot).loc == positions.at(slot) || exists|index: int|
                1 <= index < effects.len() && #[trigger] effects[index] == (WindowEffect::Show {
                    window,
                    at: positions.at(slot),
                })
            &&& geometries.at(slot).size == size || exists|index: int|
                1 <= index < effects.len() && #[trigger] effects[index] == (WindowEffect::Resize {
                    window,
                    size,
                })
        }),
{
    let effects = workspace_effects(workspace, geometries, positions, size, only_moved);
    let place = edges_first_index(slot) as nat;
    all_slots_are_handled(workspace, geometries, positions, size, only_moved);
    assert(edges_first(place as int) == slot);
    earlier_effects_come_first(workspace, geometries, positions, size, only_moved, place + 1, 8);
    earlier_effects_come_first(workspace, geometries, positions, size, only_moved, 0, place);
    earlier_effects_come_first(workspace, geometries, positions, size, only_moved, 0, 8);
    let before = effects_of_first(workspace, geometries, positions, size, only_moved, place);
    let own = slot_effects(
        workspace.at(slot),
        geometries.at(slot),
        positions.at(slot),
        size,
        only_moved,
    );
    let until = effects_of_first(workspace, geometries, positions, size, only_moved, place + 1);
    assert(until == before + own);
    let nothing = effects_of_first(workspace, geometries, positions, size, only_moved, 0);
    assert(nothing.len() == 1 && nothing[0] is UnmapAll);
    assert(effects[0] == effects.take(1)[0]);
    assert(forall|index: int|
        0 <= index < until.len() ==> #[trigger] effects[index] == effects.take(
            until.len() as int,
        )[index]);
    let shown = !(only_moved && geometries.at(slot).loc == positions.at(slot));
    if shown {
        assert(own[0] == (WindowEffect::Show { window, at: positions.at(slot) }));
        assert(effects[before.len() as int] == own[0]);
    }
    if geometries.at(slot).size != size {
        let last = own.len() - 1;
        assert(own[last] == (WindowEffect::Resize { window, size }));
        assert(effects[before.len() + last] == own[last]);
    }
}

proof fn first_effects_are_of_windows(
    workspace: AnvilWorkspace,
    geometries: WorkspaceAreas<Rectangle<i32>>,
    positions: WorkspaceAreas<Point<i32>>,
    size: Size<i32>,
    only_moved: bool,
    count: nat,
    index: int,
)
    requires
        count <= 8,
        1 <= index < effects_of_first(
            workspace,
            geometries,
            positions,
            size,
            only_moved,
            count,
        ).len(),
    ensures
        ({
            let effects = effects_of_first(
                workspace,
                geometries,
                positions,
                size,
                only_moved,
                count,
            );
            exists|slot: WindowPosition|
                (#[trigger] workspace.at(slot)) matches Some(window) && match effects[index] {
                    WindowEffect::UnmapAll => false,
                    WindowEffect::Show { window: shown, at } => shown == window && at
                        == positions.at(slot) && !(only_moved && geometries.at(slot).loc == at),
                    WindowEffect::Resize { window: resized, size: asked } => resized == window
                        && asked == size && geometries.at(slot).size != size,
                }
        }),
    decreases count,
{
    let before = effects_of_first(
        workspace,
        geometries,
        positions,
        size,
        only_moved,
        (count - 1) as nat,
    );
    if index < before.len() {
        first_effects_are_of_windows(
            workspace,
            geometries,
            positions,
            size,
            only_moved,
            (count - 1) as nat,
            index,
        );
    } else {
        let slot = edges_first(count - 1);
        assert(workspace.at(slot) is Some);
    }
}

/// Nothing is shown but the windows of the workspace, each where the position of its slot is, and none is
/// asked to take a size that it has. A window is taken off the screen only before all are shown.
pub proof fn no_other_window_is_touched(
    workspace: AnvilWorkspace,
    geometries: WorkspaceAreas<Rectangle<i32>>,
    positions: WorkspaceAreas<Point<i32>>,
    size: Size<i32>,
    only_moved: bool,
    index: int,
)
    requires
        1 <= index < workspace_effects(workspace, geometries, positions, size, only_moved).len(),
    ensures
        ({
            let effects = workspace_effects(workspace, geometries, positions, size, only_moved);
            exists|slot: WindowPosition|
                (#[trigger] workspace.at(slot)) matches Some(window) && match effects[index] {
                    WindowEffect::UnmapAll => false,
                    WindowEffect::Show { window: shown, at } => shown == window && at
                        == positions.at(slot) && !(only_moved && geometries.at(slot).loc == at),
                    WindowEffect::Resize { window: resized, size: asked } => resized == window
                        && asked == size && geometries.at(slot).size != size,
                }
        }),
{
    all_slots_are_handled(workspace, geometries, positions, size, only_moved);
    first_effects_are_of_windows(workspace, geometries, positions, size, only_moved, 8, index);
}

/// A window is shown right after what is done to the windows of earlier slots.
proof fn window_is_shown_in_its_turn(
    workspace: AnvilWorkspace,
    geometries: WorkspaceAreas<Rectangle<i32>>,
    positions: WorkspaceAreas<Point<i32>>,
    size: Size<i32>,
    slot: WindowPosition,
    window: Window,
)
    requires
        workspace.at(slot) == Some(window),
    ensures
        ({
            let place = edges_first_index(slot) as nat;
            let before = effects_of_first(workspace, geometries, positions, size, false, place);
            let until = effects_of_first(workspace, geometries, positions, size, false, place + 1);
            let all = workspace_effects(workspace, geometries, positions, size, false);
            &&& before.len() < until.len() <= all.len()
            &&& all[before.len() as int] == (WindowEffect::Show { window, at: positions.at(slot) })
        }),
{
    let place = edges_first_index(slot) as nat;
    all_slots_are_handled(workspace, geometries, positions, size, false);
    assert(edges_first(place as int) == slot);
    let before = effects_of_first(workspace, geometries, positions, size, false, place);
    let until = effects_of_first(workspace, geometries, positions, size, false, place + 1);
    let all = workspace_effects(workspace, geometries, positions, size, false);
    let own = slot_effects(
        workspace.at(slot),
        geometries.at(slot),
        positions.at(slot),
        size,
        false,
    );
    assert(until == before + own);
    assert(own[0] == (WindowEffect::Show { window, at: positions.at(slot) }));
    earlier_effects_come_first(workspace, geometries, positions, size, false, place + 1, 8);
    assert(all.take(until.len() as int)[before.len() as int] == until[before.len() as int]);
}

/// Windows at the corners are shown after those at the edges, and so in front of them.
pub proof fn corners_are_shown_after_edges(
    workspace: AnvilWorkspace,
    geometries: WorkspaceAreas<Rectangle<i32>>,
    positions: WorkspaceAreas<Point<i32>>,
    size: Size<i32>,
    edge: WindowPosition,
    at_corner: WindowPosition,
    first: Window,
    second: Window,
)
    requires
        edge == WindowPosition::Left || edge == WindowPosition::Top || edge == WindowPosition::Right
            || edge == WindowPosition::Bottom,
        !(at_corner == WindowPosition::Left || at_corner == WindowPosition::Top || at_corner
            == WindowPosition::Right || at_corner == WindowPosition::Bottom),
        workspace.at(edge) == Some(first),
        workspace.at(at_corner) == Some(second),
    ensures
        ({
            let effects = workspace_effects(workspace, geometries, positions, size, false);
            exists|earlier: int, later: int|
                0 <= earlier < later < effects.len() && #[trigger] effects[earlier] == (
                WindowEffect::Show { window: first, at: positions.at(edge) })
                    && #[trigger] effects[later] == (WindowEffect::Show {
                    window: second,
                    at: positions.at(at_corner),
                })
        }),
{
    let effects = workspace_effects(workspace, geometries, positions, size, false);
    let one = edges_first_index(edge) as nat;
    let other = edges_first_index(at_corner) as nat;
    assert(one + 1 <= other);
    window_is_shown_in_its_turn(workspace, geometries, positions, size, edge, first);
    window_is_shown_in_its_turn(workspace, geometries, positions, size, at_corner, second);
    earlier_effects_come_first(workspace, geometries, positions, size, false, one + 1, other);
    let earlier = effects_of_first(
        workspace,
        geometries,
        positions,
        size,
        false,
        one,
    ).len() as int;
    let later = effects_of_first(
        workspace,
        geometries,
        positions,
        size,
        false,
        other,
    ).len() as int;
    assert(effects[earlier] == (WindowEffect::Show { window: first, at: positions.at(edge) }));
    assert(effects[later] == (WindowEffect::Show { window: second, at: positions.at(at_corner) }));
}

/// A window is shown at the point that `place` gives for its progress on the way from the main area to
/// its slot; only one that is there already may be left out, where that is asked for.
pub proof fn windows_are_shown_where_place_says<
    S,
    P: Fn(Point<i64>, Point<i64>, S) -> Point<i32>,
>(
    workspace: AnvilWorkspace,
    geometries: WorkspaceAreas<Rectangle<i32>>,
    areas: WindowAreas<S>,
    area: Rectangle<i32>,
    size: Size<i32>,
    only_moved: bool,
    place: &P,
    effects: Seq<WindowEffect>,
    slot: WindowPosition,
    window: Window,
)
    requires
        puts_in_place(workspace, geometries, areas, area, size, only_moved, place, effects),
        workspace.at(slot) == Some(window),
    ensures
        effects.len() > 0 && effects[0] is UnmapAll,
        exists|at: Point<i32>|
            {
                &&& #[trigger] call_ensures(
                    *place,
                    (
                        Point { x: area.loc.x as i64, y: area.loc.y as i64 },
                        corner(area, slot),
                        areas.at(slot).progress,
                    ),
                    at,
                )
                &&& only_moved && geometries.at(slot).loc == at || effects.contains(
                    WindowEffect::Show { window, at },
                )
            },
        geometries.at(slot).size == size || effects.contains(WindowEffect::Resize { window, size }),
{
    let positions = choose|positions: WorkspaceAreas<Point<i32>>| #[trigger]
        are_positions(place, areas, area, positions) && effects == workspace_effects(
            workspace,
            geometries,
            positions,
            size,
            only_moved,
        );
    every_window_is_shown(workspace, geometries, positions, size, only_moved, slot, window);
    assert(placed(place, area, slot, areas.at(slot).progress, positions.at(slot)));
    assert(call_ensures(
        *place,
        (
            Point { x: area.loc.x as i64, y: area.loc.y as i64 },
            corner(area, slot),
            areas.at(slot).progress,
        ),
        positions.at(slot),
    ));
}

/// No window is in two slots of a workspace.
pub open spec fn windows_differ(workspace: AnvilWorkspace) -> bool {
    forall|one: WindowPosition, other: WindowPosition|
        #![trigger workspace.at(one), workspace.at(other)]
        workspace.at(one) is Some && workspace.at(one) == workspace.at(other) ==> one == other
}

proof fn first_shown_are_of_first_slots(
    workspace: AnvilWorkspace,
    geometries: WorkspaceAreas<Rectangle<i32>>,
    positions: WorkspaceAreas<Point<i32>>,
    size: Size<i32>,
    only_moved: bool,
    count: nat,
    index: int,
    slot: WindowPosition,
)
    requires
        count <= 8,
        windows_differ(workspace),
        0 <= index < effects_of_first(
            workspace,
            geometries,
            positions,
            size,
            only_moved,
            count,
        ).len(),
        workspace.at(slot) is Some,
        effects_of_first(
            workspace,
            geometries,
            positions,
            size,
            only_moved,
            count,
        )[index] matches WindowEffect::Show { window, .. } && workspace.at(slot) == Some(window),
    ensures
        edges_first_index(slot) < count,
    decreases count,
{
    if count > 0 {
        let before = effects_of_first(
            workspace,
            geometries,
            positions,
            size,
            only_moved,
            (count - 1) as nat,
        );
        if index < before.len() {
            first_shown_are_of_first_slots(
                workspace,
                geometries,
                positions,
                size,
                only_moved,
                (count - 1) as nat,
                index,
                slot,
            );
        } else {
            let own = edges_first(count - 1);
            assert(workspace.at(own) == workspace.at(slot));
            assert(edges_first_index(own) == count - 1);
        }
    }
}

proof fn first_are_shown_in_order(
    workspace: AnvilWorkspace,
    geometries: WorkspaceAreas<Rectangle<i32>>,
    positions: WorkspaceAreas<Point<i32>>,
    size: Size<i32>,
    only_moved: bool,
    count: nat,
    earlier: int,
    later: int,
    one: WindowPosition,
    other: WindowPosition,
)
    requires
        count <= 8,
        windows_differ(workspace),
        workspace.at(one) is Some,
        workspace.at(other) is Some,
        ({
            let effects = effects_of_first(
                workspace,
                geometries,
                positions,
                size,
                only_moved,
                count,
            );
            &&& 0 <= earlier < later < effects.len()
            &&& effects[earlier] matches WindowEffect::Show { window, .. } && workspace.at(one)
                == Some(window)
            &&& effects[later] matches WindowEffect::Show { window, .. } && workspace.at(other)
                == Some(window)
        }),
    ensures
        edges_first_index(one) < edges_first_index(other),
    decreases count,
{
    if count > 0 {
        let before = effects_of_first(
            workspace,
            geometries,
            positions,
            size,
            only_moved,
            (count - 1) as nat,
        );
        if later < before.len() {
            first_are_shown_in_order(
                workspace,
                geometries,
                positions,
                size,
                only_moved,
                (count - 1) as nat,
                earlier,
                later,
                one,
                other,
            );
        } else {
            let own = edges_first(count - 1);
            assert(workspace.at(own) == workspace.at(other));
            assert(edges_first_index(own) == count - 1);
            assert(earlier < before.len());
            first_shown_are_of_first_slots(
                workspace,
                geometries,
                positions,
                size,
                only_moved,
                (count - 1) as nat,
                earlier,
                one,
            );
        }
    }
}

/// Windows are shown once each and in the order of their slots: left, top, right, bottom, then the corners
/// at the top left, top right, bottom left and bottom right. What is shown later lies in front.
pub proof fn windows_are_shown_once_and_in_order<
    S,
    P: Fn(Point<i64>, Point<i64>, S) -> Point<i32>,
>(
    workspace: AnvilWorkspace,
    geometries: WorkspaceAreas<Rectangle<i32>>,
    areas: WindowAreas<S>,
    area: Rectangle<i32>,
    size: Size<i32>,
    only_moved: bool,
    place: &P,
    effects: Seq<WindowEffect>,
    earlier: int,
    later: int,
    one: WindowPosition,
    other: WindowPosition,
)
    requires
        puts_in_place(workspace, geometries, areas, area, size, only_moved, place, effects),
        windows_differ(workspace),
        workspace.at(one) is Some,
        workspace.at(other) is Some,
        0 <= earlier < later < effects.len(),
        effects[earlier] matches WindowEffect::Show { window, .. } && workspace.at(one) == Some(
            window,
        ),
        effects[later] matches WindowEffect::Show { window, .. } && workspace.at(other) == Some(
            window,
        ),
    ensures
        ({
            let rank = |slot: WindowPosition|
                match slot {
                    WindowPosition::Left => 0int,
                    WindowPosition::Top => 1,
                    WindowPosition::Right => 2,
                    WindowPosition::Bottom => 3,
                    WindowPosition::TopLeft => 4,
                    WindowPosition::TopRight => 5,
                    WindowPosition::BottomLeft => 6,
                    WindowPosition::BottomRight => 7,
                };
            rank(one) < rank(other)
        }),
{
    let positions = choose|positions: WorkspaceAreas<Point<i32>>| #[trigger]
        are_positions(place, areas, area, positions) && effects == workspace_effects(
            workspace,
            geometries,
            positions,
            size,
            only_moved,
        );
    all_slots_are_handled(workspace, geometries, positions, size, only_moved);
    first_are_shown_in_order(
        workspace,
        geometries,
        positions,
        size,
        only_moved,
        8,
        earlier,
        later,
        one,
        other,
    );
}

/// Everything is taken off the screen once, at first. After that nothing is done but to show windows of the
/// workspace, each at a point that `place` gives for its progress, and to ask those for the size that do not
/// have it.
pub proof fn only_windows_in_slots_are_touched<
    S,
    P: Fn(Point<i64>, Point<i64>, S) -> Point<i32>,
>(
    workspace: AnvilWorkspace,
    geometries: WorkspaceAreas<Rectangle<i32>>,
    areas: WindowAreas<S>,
    area: Rectangle<i32>,
    size: Size<i32>,
    only_moved: bool,
    place: &P,
    effects: Seq<WindowEffect>,
    index: int,
)
    requires
        puts_in_place(workspace, geometries, areas, area, size, only_moved, place, effects),
        1 <= index < effects.len(),
    ensures
        effects[0] is UnmapAll,
        exists|slot: WindowPosition|
            (#[trigger] workspace.at(slot)) matches Some(window) && match effects[index] {
                WindowEffect::UnmapAll => false,
                WindowEffect::Show { window: shown, at } => shown == window && call_ensures(
                    *place,
                    (
                        Point { x: area.loc.x as i64, y: area.loc.y as i64 },
                        corner(area, slot),
                        areas.at(slot).progress,
                    ),
                    at,
                ) && !(only_moved && geometries.at(slot).loc == at),
                WindowEffect::Resize { window: resized, size: asked } => resized == window && asked
                    == size && geometries.at(slot).size != size,
            },
{
    let positions = choose|positions: WorkspaceAreas<Point<i32>>| #[trigger]
        are_positions(place, areas, area, positions) && effects == workspace_effects(
            workspace,
            geometries,
            positions,
            size,
            only_moved,
        );
    no_other_window_is_touched(workspace, geometries, positions, size, only_moved, index);
    let slot = choose|slot: WindowPosition|
        (#[trigger] workspace.at(slot)) matches Some(window) && match effects[index] {
            WindowEffect::UnmapAll => false,
            WindowEffect::Show { window: shown, at } => shown == window && at == positions.at(slot)
                && !(only_moved && geometries.at(slot).loc == at),
            WindowEffect::Resize { window: resized, size: asked } => resized == window && asked
                == size && geometries.at(slot).size != size,
        };
    assert(placed(place, area, slot, areas.at(slot).progress, positions.at(slot)));
    assert(workspace.at(slot) is Some);
}

} // verus!
