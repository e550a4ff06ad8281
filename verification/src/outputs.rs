//! The outputs of the compositor, side by side in the space that holds the windows.

use vstd::prelude::*;

use crate::geometry::{Point, Rectangle};

verus! {

/// The device and the display controller that an output is driven by.
#[derive(Debug, Clone, Copy, PartialEq, Eq, Structural)]
pub struct UdevOutputId {
    pub device_id: u64,
    pub crtc: u32,
}

/// An output, as far as the window manager reads it.
#[derive(Debug, Clone, Copy)]
pub struct Output {
    /// Where the output lies, if it is mapped.
    pub geometry: Option<Rectangle<i32>>,
    /// What drives the output, if a device of this machine does.
    pub udev: Option<UdevOutputId>,
    /// How long a frame of the current mode lasts, in nanoseconds.
    pub frame_duration: Option<u128>,
    /// The refresh rate of the current mode, in thousandths of a hertz.
    pub refresh: Option<i32>,
}

/// Every output is mapped.
pub open spec fn all_mapped(outputs: Seq<Output>) -> bool {
    forall|index: int| 0 <= index < outputs.len() ==> (#[trigger] outputs[index]).geometry is Some
}

/// The widths of the outputs, added up.
pub open spec fn width_sum(outputs: Seq<Output>) -> int
    decreases outputs.len(),
{
    if outputs.len() == 0 {
        0
    } else {
        width_sum(outputs.drop_last()) + outputs.last().geometry->0.size.w
    }
}

/// The widths of the outputs can be added up from the first on.
pub open spec fn widths_fit(outputs: Seq<Output>) -> bool {
    forall|count: int|
        0 <= count <= outputs.len() ==> i32::MIN <= #[trigger] width_sum(outputs.take(count))
            <= i32::MAX
}

/// The width of all outputs together.
pub fn total_width(outputs: &Vec<Output>) -> (width: i32)
    requires
        all_mapped(outputs@),
        widths_fit(outputs@),
    ensures
        width == width_sum(outputs@),
{
    let mut width: i32 = 0;
    let mut index: usize = 0;
    assert(outputs@.take(0) =~= Seq::empty());
    while index < outputs.len()
        invariant
            index <= outputs@.len(),
            all_mapped(outputs@),
            widths_fit(outputs@),
            width == width_sum(outputs@.take(index as int)),
        decreases outputs@.len() - index,
    {
        let ghost next = outputs@.take(index + 1);
        assert(next.drop_last() =~= outputs@.take(index as int));
        assert(i32::MIN <= width_sum(outputs@.take(index + 1)) <= i32::MAX);
        match &outputs[index].geometry {
            Some(geometry) => {
                width = width + geometry.size.w;
            },
            None => {},
        }
        index = index + 1;
    }
    assert(outputs@.take(outputs@.len() as int) =~= outputs@);
    width
}

/// The height of the tallest output; zero where there is none.
pub open spec fn max_height(outputs: Seq<Output>) -> int
    decreases outputs.len(),
{
    if outputs.len() == 0 {
        0
    } else if outputs.len() == 1 {
        outputs[0].geometry->0.size.h as int
    } else {
        crate::geometry::larger(
            max_height(outputs.drop_last()),
            outputs.last().geometry->0.size.h as int,
        )
    }
}

/// The extent over which an absolute pointer position is spread: the width of all outputs together
/// and the height of the tallest.
pub fn absolute_extent(outputs: &Vec<Output>) -> (extent: (i32, i32))
    requires
        all_mapped(outputs@),
        widths_fit(outputs@),
    ensures
        extent.0 == width_sum(outputs@),
        extent.1 == max_height(outputs@),
{
    let width: i32 = total_width(outputs);
    let mut height: i32 = 0;
    let mut index: usize = 0;
    while index < outputs.len()
        invariant
            index <= outputs@.len(),
            all_mapped(outputs@),
            height == max_height(outputs@.take(index as int)),
        decreases outputs@.len() - index,
    {
        let ghost next = outputs@.take(index + 1);
        assert(next.drop_last() =~= outputs@.take(index as int));
        match &outputs[index].geometry {
            Some(geometry) => {
                if index == 0 || geometry.size.h > height {
                    height = geometry.size.h;
                }
            },
            None => {},
        }
        index = index + 1;
    }
    assert(outputs@.take(outputs@.len() as int) =~= outputs@);
    (width, height)
}

/// Whether the output is mapped and covers the point.
pub open spec fn covers(output: Output, point: Point<i32>) -> bool {
    output.geometry matches Some(geometry) && geometry.has(point)
}

/// `found` is the first output that covers the point, if any does.
pub open spec fn is_output_at(outputs: Seq<Output>, point: Point<i32>, found: Option<usize>) -> bool {
    match found {
        Some(index) => {
            &&& index < outputs.len()
            &&& covers(outputs[index as int], point)
            &&& forall|before: int| 0 <= before < index ==> !covers(#[trigger] outputs[before], point)
        },
        None => forall|any: int| 0 <= any < outputs.len() ==> !covers(#[trigger] outputs[any], point),
    }
}

/// The first output that covers the point.
pub fn output_at(outputs: &Vec<Output>, point: Point<i32>) -> (found: Option<usize>)
    ensures
        is_output_at(outputs@, point, found),
{
    let mut index: usize = 0;
    while index < outputs.len()
        invariant
            index <= outputs@.len(),
            forall|before: int|
                0 <= before < index ==> !covers(#[trigger] outputs@[before], point),
        decreases outputs@.len() - index,
    {
        if let Some(geometry) = &outputs[index].geometry {
            if geometry.contains(point) {
                return Some(index);
            }
        }
        index = index + 1;
    }
    None
}

/// There is at most one first output that covers a point.
pub proof fn output_at_is_unique(
    outputs: Seq<Output>,
    point: Point<i32>,
    one: Option<usize>,
    other: Option<usize>,
)
    requires
        is_output_at(outputs, point, one),
        is_output_at(outputs, point, other),
    ensures
        one == other,
{
    if let Some(a) = one {
        if let Some(b) = other {
            if a < b {
                assert(!covers(outputs[a as int], point));
            } else if b < a {
                assert(!covers(outputs[b as int], point));
            }
        }
    }
}

/// `held` is where a pointer at `pos` is held: horizontally within the width of all outputs
/// together, vertically within the height of the output that it is then above or below.
pub open spec fn is_held<S, K: Fn(S, i32) -> S, T: Fn(S) -> i32>(
    outputs: Seq<Output>,
    pos: Point<S>,
    clamp: &K,
    truncate: &T,
    held: Point<S>,
) -> bool {
    exists|column: i32, found: Option<usize>|
        {
            &&& call_ensures(*clamp, (pos.x, width_sum(outputs) as i32), held.x)
            &&& #[trigger] call_ensures(*truncate, (held.x,), column)
            &&& #[trigger] is_output_at(outputs, Point { x: column, y: 0 }, found)
            &&& match found {
                Some(index) => call_ensures(
                    *clamp,
                    (pos.y, outputs[index as int].geometry->0.size.h),
                    held.y,
                ),
                None => held.y == pos.y,
            }
        }
}

/// Any coordinate can be kept between zero and any bound that is not below.
pub open spec fn can_clamp<S, K: Fn(S, i32) -> S>(clamp: &K) -> bool {
    forall|value: S, bound: i32| bound >= 0 ==> #[trigger] call_requires(*clamp, (value, bound))
}

/// Keeps a pointer within the outputs.
///
/// `clamp` keeps a coordinate between zero and a bound, `truncate` gives the whole pixel that a
/// coordinate falls in.
pub fn clamp_coords<S: Copy, K: Fn(S, i32) -> S, T: Fn(S) -> i32>(
    outputs: &Vec<Output>,
    pos: Point<S>,
    clamp: &K,
    truncate: &T,
) -> (held: Point<S>)
    requires
        all_mapped(outputs@),
        widths_fit(outputs@),
        width_sum(outputs@) >= 0,
        can_clamp(clamp),
        forall|value: S| #[trigger] call_requires(*truncate, (value,)),
    ensures
        outputs@.len() == 0 ==> held == pos,
        outputs@.len() > 0 ==> is_held(outputs@, pos, clamp, truncate, held),
{
    if outputs.len() == 0 {
        return pos;
    }
    let max_x: i32 = total_width(outputs);
    let clamped_x: S = (*clamp)(pos.x, max_x);
    let column: i32 = (*truncate)(clamped_x);
    let found: Option<usize> = output_at(outputs, Point { x: column, y: 0 });
    assert(is_output_at(outputs@, Point { x: column, y: 0 }, found));
    let clamped_y: S = match found {
        Some(index) => match &outputs[index].geometry {
            Some(geometry) => (*clamp)(pos.y, geometry.size.h),
            None => pos.y,
        },
        None => pos.y,
    };
    let held = Point { x: clamped_x, y: clamped_y };
    assert(call_ensures(*truncate, (held.x,), column));
    held
}

/// A pointer is held where `clamp` keeps it: across within the width of all outputs, and down within
/// the height of the output that it is then above or below.
pub proof fn pointer_is_held_inside<S, K: Fn(S, i32) -> S, T: Fn(S) -> i32>(
    outputs: Seq<Output>,
    pos: Point<S>,
    clamp: &K,
    truncate: &T,
    held: Point<S>,
    inside: spec_fn(S, i32) -> bool,
)
    requires
        is_held(outputs, pos, clamp, truncate, held),
        forall|bound: i32, kept: S| #[trigger]
            call_ensures(*clamp, (pos.x, bound), kept) ==> inside(kept, bound),
        forall|bound: i32, kept: S| #[trigger]
            call_ensures(*clamp, (pos.y, bound), kept) ==> inside(kept, bound),
    ensures
        inside(held.x, width_sum(outputs) as i32),
        exists|column: i32, found: Option<usize>|
            {
                &&& #[trigger] call_ensures(*truncate, (held.x,), column)
                &&& #[trigger] is_output_at(outputs, Point { x: column, y: 0 }, found)
                &&& found matches Some(index) ==> inside(
                    held.y,
                    outputs[index as int].geometry->0.size.h,
                )
            },
{
}

/// The outputs lie side by side from the origin on, in their order.
pub open spec fn side_by_side(outputs: Seq<Output>) -> bool {
    &&& all_mapped(outputs)
    &&& forall|index: int|
        0 <= index < outputs.len() ==> {
            let geometry = (#[trigger] outputs[index]).geometry->0;
            &&& geometry.loc.x == width_sum(outputs.take(index))
            &&& geometry.loc.y == 0
            &&& geometry.size.w >= 0
        }
}

/// An output that is put at the top, to the right of all others, keeps the outputs side by side.
pub proof fn new_output_goes_beside_the_others(outputs: Seq<Output>, new: Output)
    requires
        side_by_side(outputs),
        new.geometry matches Some(geometry) && geometry.loc.x == width_sum(outputs)
            && geometry.loc.y == 0 && geometry.size.w >= 0,
    ensures
        side_by_side(outputs.push(new)),
{
    let grown = outputs.push(new);
    assert forall|index: int| 0 <= index < grown.len() implies {
        let geometry = (#[trigger] grown[index]).geometry->0;
        &&& geometry.loc.x == width_sum(grown.take(index))
        &&& geometry.loc.y == 0
        &&& geometry.size.w >= 0
    } by {
        assert(grown.take(index) =~= outputs.take(index));
        if index < outputs.len() {
            assert(grown[index] == outputs[index]);
        } else {
            assert(outputs.take(index) =~= outputs);
        }
    }
}

proof fn widths_add_up(outputs: Seq<Output>, shorter: int, longer: int)
    requires
        side_by_side(outputs),
        0 <= shorter <= longer <= outputs.len(),
    ensures
        width_sum(outputs.take(shorter)) <= width_sum(outputs.take(longer)),
        shorter < longer ==> width_sum(outputs.take(shorter))
            + outputs[shorter].geometry->0.size.w <= width_sum(outputs.take(longer)),
    decreases longer - shorter,
{
    if shorter < longer {
        assert(outputs.take(longer).drop_last() =~= outputs.take(longer - 1));
        assert(outputs.take(longer).last() == outputs[longer - 1]);
        assert(outputs[longer - 1].geometry->0.size.w >= 0);
        widths_add_up(outputs, shorter, longer - 1);
    }
}

/// No point lies in two of the outputs that are side by side.
pub proof fn outputs_side_by_side_are_disjoint(
    outputs: Seq<Output>,
    one: int,
    other: int,
    point: Point<i32>,
)
    requires
        side_by_side(outputs),
        0 <= one < other < outputs.len(),
    ensures
        !(covers(outputs[one], point) && covers(outputs[other], point)),
{
    widths_add_up(outputs, one, other);
    assert(outputs[one].geometry->0.loc.x == width_sum(outputs.take(one)));
    assert(outputs[other].geometry->0.loc.x == width_sum(outputs.take(other)));
}

/// Every column of outputs that are side by side belongs to one of them, so that a pointer in it is
/// held within the height of that output.
pub proof fn every_column_has_an_output(outputs: Seq<Output>, column: i32)
    requires
        side_by_side(outputs),
        forall|index: int|
            0 <= index < outputs.len() ==> (#[trigger] outputs[index]).geometry->0.size.h > 0,
        0 <= column < width_sum(outputs),
        width_sum(outputs) <= i32::MAX,
    ensures
        exists|index: int|
            0 <= index < outputs.len() && #[trigger] covers(
                outputs[index],
                Point { x: column, y: 0 },
            ),
    decreases outputs.len(),
{
    let point = Point { x: column, y: 0i32 };
    if outputs.len() == 0 {
        assert(false);
    } else {
        let before = outputs.drop_last();
        let last = outputs[outputs.len() - 1];
        assert(last == outputs.last());
        assert(outputs.take(outputs.len() - 1) =~= before);
        assert(last.geometry->0.loc.x == width_sum(before));
        if column >= width_sum(before) {
            assert(covers(outputs[outputs.len() - 1], point));
        } else {
            assert forall|index: int| 0 <= index < before.len() implies {
                let geometry = (#[trigger] before[index]).geometry->0;
                &&& before[index].geometry is Some
                &&& geometry.loc.x == width_sum(before.take(index))
                &&& geometry.loc.y == 0
                &&& geometry.size.w >= 0
                &&& geometry.size.h > 0
            } by {
                assert(before[index] == outputs[index]);
                assert(before.take(index) =~= outputs.take(index));
            }
            every_column_has_an_output(before, column);
            let index = choose|index: int|
                0 <= index < before.len() && #[trigger] covers(before[index], point);
            assert(covers(outputs[index], point));
        }
    }
}

/// The width of no outputs is zero, that of one output is its own, and that of two groups is the sum of
/// theirs.
pub proof fn widths_are_added_up(first: Seq<Output>, second: Seq<Output>, output: Output)
    ensures
        width_sum(Seq::empty()) == 0,
        output.geometry matches Some(geometry) ==> width_sum(seq![output]) == geometry.size.w,
        width_sum(first + second) == width_sum(first) + width_sum(second),
    decreases second.len(),
{
    reveal_with_fuel(width_sum, 2);
    assert(seq![output].drop_last() =~= Seq::empty());
    if second.len() == 0 {
        assert(first + second =~= first);
    } else {
        widths_are_added_up(first, second.drop_last(), output);
        assert((first + second).drop_last() =~= first + second.drop_last());
    }
}

/// No output is taller than the tallest, which is one of them.
pub proof fn tallest_is_one_of_them(outputs: Seq<Output>, index: int)
    ensures
        outputs.len() == 0 ==> max_height(outputs) == 0,
        0 <= index < outputs.len() ==> outputs[index].geometry->0.size.h <= max_height(outputs),
        outputs.len() > 0 ==> exists|tallest: int|
            0 <= tallest < outputs.len() && (#[trigger] outputs[tallest]).geometry->0.size.h
                == max_height(outputs),
    decreases outputs.len(),
{
    if outputs.len() == 1 {
        assert(outputs[0].geometry->0.size.h == max_height(outputs));
    } else if outputs.len() > 1 {
        let before = outputs.drop_last();
        let last = outputs.len() - 1;
        tallest_is_one_of_them(before, index);
        let tallest = choose|tallest: int|
            0 <= tallest < before.len() && (#[trigger] before[tallest]).geometry->0.size.h
                == max_height(before);
        assert(before[tallest] == outputs[tallest]);
        if 0 <= index < before.len() {
            assert(before[index] == outputs[index]);
        }
        if max_height(outputs) == max_height(before) {
            assert(outputs[tallest].geometry->0.size.h == max_height(outputs));
        } else {
            assert(outputs[last].geometry->0.size.h == max_height(outputs));
        }
    }
}

/// The output that is found at a point is mapped and has the point within its edges, and none before it
/// does; where none is found, no output does.
pub proof fn found_output_has_the_point(
    outputs: Seq<Output>,
    point: Point<i32>,
    found: Option<usize>,
    other: int,
)
    requires
        is_output_at(outputs, point, found),
        point.x < i32::MAX,
        point.y < i32::MAX,
        0 <= other < outputs.len(),
    ensures
        ({
            let within = |output: Output|
                output.geometry matches Some(area) && area.loc.x <= point.x < area.loc.x
                    + area.size.w && area.loc.y <= point.y < area.loc.y + area.size.h;
            match found {
                Some(index) => {
                    &&& 0 <= index < outputs.len()
                    &&& within(outputs[index as int])
                    &&& other < index ==> !within(outputs[other])
                },
                None => !within(outputs[other]),
            }
        }),
{
    assert(found matches Some(index) && other < index ==> !covers(outputs[other], point));
    assert(found is None ==> !covers(outputs[other], point));
}

/// A pointer is held by keeping its place across within the width of all outputs, and its place down
/// within the height of the first output that has the pixel at the top of that column.
pub proof fn held_pointer_was_clamped<S, K: Fn(S, i32) -> S, T: Fn(S) -> i32>(
    outputs: Seq<Output>,
    pos: Point<S>,
    clamp: &K,
    truncate: &T,
    held: Point<S>,
)
    requires
        is_held(outputs, pos, clamp, truncate, held),
    ensures
        call_ensures(*clamp, (pos.x, width_sum(outputs) as i32), held.x),
        exists|column: i32, found: Option<usize>|
            {
                &&& #[trigger] call_ensures(*truncate, (held.x,), column)
                &&& #[trigger] is_output_at(outputs, Point { x: column, y: 0 }, found)
                &&& match found {
                    Some(index) => call_ensures(
                        *clamp,
                        (pos.y, outputs[index as int].geometry->0.size.h),
                        held.y,
                    ),
                    None => held.y == pos.y,
                }
            },
{
}

} // verus!
