//! Buffer formats: which ones an output may use, and what clients are told about them.
//!
//! Sets of formats are lists without repetitions, in the order of their first occurrence. smithay has
//! a `FormatSet` of the same order, but a program that links it needs libinput, libxkbcommon and
//! libgbm on its system; this library does without them.

use vstd::prelude::*;

verus! {

/// A pixel format together with the layout of its buffer.
#[derive(Debug, Clone, Copy, PartialEq, Eq, Structural)]
pub struct Format {
    /// The four-character code of the pixel format.
    pub code: u32,
    /// The layout modifier.
    pub modifier: u64,
}

/// `AB30`: ten bits for each of blue, green and red.
pub const ABGR2101010: u32 = 0x3033_4241;

/// `AR30`: ten bits for each of red, green and blue.
pub const ARGB2101010: u32 = 0x3033_5241;

/// `AB24`: eight bits for each of blue, green and red.
pub const ABGR8888: u32 = 0x3432_4241;

/// `AR24`: eight bits for each of red, green and blue.
pub const ARGB8888: u32 = 0x3432_5241;

/// The modifier of a buffer without tiling.
pub const LINEAR: u64 = 0;

/// The pixel formats that an output may be driven with, as a mathematical value.
pub open spec fn offered_codes(disable_10bit: bool) -> Seq<u32> {
    if disable_10bit {
        seq![ABGR8888, ARGB8888]
    } else {
        seq![ABGR2101010, ARGB2101010, ABGR8888, ARGB8888]
    }
}

/// The pixel formats that an output may be driven with, the preferred ones first: those with ten
/// bits for a colour only where they are not disabled.
pub fn color_formats(disable_10bit: bool) -> (codes: Vec<u32>)
    ensures
        codes@ == offered_codes(disable_10bit),
{
    let mut codes: Vec<u32> = Vec::new();
    if !disable_10bit {
        codes.push(ABGR2101010);
        codes.push(ARGB2101010);
    }
    codes.push(ABGR8888);
    codes.push(ARGB8888);
    codes
}

/// The formats without those that occurred before, in the order of their first occurrence.
pub open spec fn distinct(formats: Seq<Format>) -> Seq<Format>
    decreases formats.len(),
{
    if formats.len() == 0 {
        Seq::empty()
    } else {
        let before = distinct(formats.drop_last());
        if formats.drop_last().contains(formats.last()) {
            before
        } else {
            before.push(formats.last())
        }
    }
}

/// Taking out repeated formats loses none and leaves each once.
pub proof fn distinct_keeps_each_format_once(formats: Seq<Format>)
    ensures
        distinct(formats).no_duplicates(),
        forall|format: Format| #[trigger]
            distinct(formats).contains(format) <==> formats.contains(format),
    decreases formats.len(),
{
    if formats.len() > 0 {
        let rest = formats.drop_last();
        let last = formats.last();
        distinct_keeps_each_format_once(rest);
        assert(formats =~= rest.push(last));
        assert(distinct(rest).contains(last) <==> rest.contains(last));
        assert forall|format: Format| #[trigger]
            distinct(formats).contains(format) <==> formats.contains(format) by {
            assert(rest.push(last).contains(format) <==> rest.contains(format) || format == last)
                by {
                if rest.contains(format) {
                    let at = rest.index_of(format);
                    assert(rest.push(last)[at] == format);
                }
                if format == last {
                    assert(rest.push(last)[rest.len() as int] == format);
                }
            }
            let before = distinct(rest);
            assert(before.push(last).contains(format) <==> before.contains(format) || format
                == last) by {
                if before.contains(format) {
                    let at = before.index_of(format);
                    assert(before.push(last)[at] == format);
                }
                if format == last {
                    assert(before.push(last)[before.len() as int] == format);
                }
            }
        }
    }
}

/// Whether the format is among the formats.
pub fn includes(formats: &Vec<Format>, format: Format) -> (found: bool)
    ensures
        found == formats@.contains(format),
{
    let mut index: usize = 0;
    while index < formats.len()
        invariant
            index <= formats@.len(),
            forall|before: int| 0 <= before < index ==> formats@[before] != format,
        decreases formats@.len() - index,
    {
        if formats[index] == format {
            return true;
        }
        index = index + 1;
    }
    false
}

/// The formats of both lists, each once.
pub open spec fn either(first: Seq<Format>, second: Seq<Format>) -> Seq<Format> {
    distinct(first + second)
}

/// Joins two lists of formats; a format that occurs again is left out.
pub fn union(first: &Vec<Format>, second: &Vec<Format>) -> (joined: Vec<Format>)
    ensures
        joined@ == either(first@, second@),
{
    let mut joined: Vec<Format> = Vec::new();
    let mut index: usize = 0;
    let ghost all = first@ + second@;
    assert(all.take(0) =~= Seq::empty());
    while index < first.len()
        invariant
            index <= first@.len(),
            all == first@ + second@,
            joined@ == distinct(all.take(index as int)),
        decreases first@.len() - index,
    {
        let format: Format = first[index];
        assert(format == all[index as int]);
        append_new(&mut joined, format, Ghost(all.take(index as int)));
        assert(all.take(index + 1) =~= all.take(index as int).push(format));
        index = index + 1;
    }
    let mut index: usize = 0;
    while index < second.len()
        invariant
            index <= second@.len(),
            all == first@ + second@,
            joined@ == distinct(all.take(first@.len() + index)),
        decreases second@.len() - index,
    {
        let format: Format = second[index];
        assert(format == all[first@.len() + index]);
        append_new(&mut joined, format, Ghost(all.take(first@.len() + index)));
        assert(all.take(first@.len() + index + 1) =~= all.take(first@.len() + index).push(format));
        index = index + 1;
    }
    assert(all.take(all.len() as int) =~= all);
    joined
}

/// Appends a format unless it is there already; `seen` is what the list was made of.
fn append_new(formats: &mut Vec<Format>, format: Format, Ghost(seen): Ghost<Seq<Format>>)
    requires
        old(formats)@ == distinct(seen),
    ensures
        final(formats)@ == distinct(seen.push(format)),
{
    proof {
        distinct_keeps_each_format_once(seen);
        assert(seen.push(format).drop_last() =~= seen);
    }
    if !includes(formats, format) {
        formats.push(format);
    }
}

/// The formats of the first list that the second holds too, in the order of the first.
pub open spec fn common(formats: Seq<Format>, others: Seq<Format>) -> Seq<Format> {
    formats.filter(|format: Format| others.contains(format))
}

/// Keeps the formats of the first list that the second holds too.
pub fn intersection(formats: &Vec<Format>, others: &Vec<Format>) -> (kept: Vec<Format>)
    ensures
        kept@ == common(formats@, others@),
{
    let mut kept: Vec<Format> = Vec::new();
    let mut index: usize = 0;
    assert(formats@.take(0) =~= Seq::empty());
    reveal_with_fuel(Seq::<_>::filter, 1);
    while index < formats.len()
        invariant
            index <= formats@.len(),
            kept@ == common(formats@.take(index as int), others@),
        decreases formats@.len() - index,
    {
        reveal_with_fuel(Seq::<_>::filter, 1);
        assert(formats@.take(index + 1).drop_last() =~= formats@.take(index as int));
        if includes(others, formats[index]) {
            kept.push(formats[index]);
        }
        index = index + 1;
    }
    assert(formats@.take(formats@.len() as int) =~= formats@);
    kept
}

/// Whether buffers of the format can be rendered to: without a render node only those that are not
/// tiled.
pub open spec fn is_usable(format: Format, has_render_node: bool) -> bool {
    has_render_node || format.modifier == LINEAR
}

/// The formats that can be rendered to, as a mathematical value.
pub open spec fn usable_ones(formats: Seq<Format>, has_render_node: bool) -> Seq<Format> {
    distinct(formats.filter(|format: Format| is_usable(format, has_render_node)))
}

/// The formats that can be rendered to.
pub fn usable_formats(formats: &Vec<Format>, has_render_node: bool) -> (usable: Vec<Format>)
    ensures
        usable@ == usable_ones(formats@, has_render_node),
{
    let ghost usable_only = |format: Format| is_usable(format, has_render_node);
    let mut usable: Vec<Format> = Vec::new();
    let mut index: usize = 0;
    assert(formats@.take(0) =~= Seq::empty());
    reveal_with_fuel(Seq::<_>::filter, 1);
    while index < formats.len()
        invariant
            index <= formats@.len(),
            usable_only == (|format: Format| is_usable(format, has_render_node)),
            usable@ == distinct(formats@.take(index as int).filter(usable_only)),
        decreases formats@.len() - index,
    {
        reveal_with_fuel(Seq::<_>::filter, 1);
        let ghost seen = formats@.take(index as int).filter(usable_only);
        assert(formats@.take(index + 1).drop_last() =~= formats@.take(index as int));
        let format: Format = formats[index];
        if has_render_node || format.modifier == LINEAR {
            append_new(&mut usable, format, Ghost(seen));
        }
        index = index + 1;
    }
    assert(formats@.take(formats@.len() as int) =~= formats@);
    usable
}

/// A group of formats that a client should prefer on a device.
#[derive(Debug)]
pub struct Tranche {
    /// The number of the device.
    pub device: u64,
    /// Whether buffers of these formats may be scanned out directly.
    pub scanout: bool,
    pub formats: Vec<Format>,
}

/// What clients of an output are told about buffer formats.
#[derive(Debug)]
pub struct SurfaceDmabufFeedback {
    /// The number of the main device.
    pub main_device: u64,
    /// The formats of the main device.
    pub main_formats: Vec<Format>,
    /// What a client that is rendered should prefer.
    pub render_feedback: Vec<Tranche>,
    /// What a client that may be scanned out should prefer.
    pub scanout_feedback: Vec<Tranche>,
}

/// The formats that an output can scan out and that can be rendered from as well.
pub open spec fn scanout_formats(
    plane_formats: Seq<Format>,
    overlay_formats: Seq<Format>,
    primary_formats: Seq<Format>,
    render_formats: Seq<Format>,
) -> Seq<Format> {
    common(
        distinct(plane_formats + overlay_formats),
        distinct(primary_formats + render_formats),
    )
}

/// What a client of an output is told, as a mathematical value: a preference for the render node,
/// where there is one.
pub open spec fn is_render_feedback(
    tranches: Seq<Tranche>,
    render_node: Option<u64>,
    render_formats: Seq<Format>,
) -> bool {
    match render_node {
        Some(node) => {
            &&& tranches.len() == 1
            &&& tranches[0].device == node
            &&& !tranches[0].scanout
            &&& tranches[0].formats@ == render_formats
        },
        None => tranches.len() == 0,
    }
}

/// What a client of an output is told, as a mathematical value: a preference for what can be
/// scanned out, then for what the scan-out node can render.
pub open spec fn is_scanout_feedback(
    tranches: Seq<Tranche>,
    surface_device: u64,
    scanout_node: u64,
    scanout: Seq<Format>,
    render_formats: Seq<Format>,
) -> bool {
    &&& tranches.len() == 2
    &&& tranches[0].device == surface_device
    &&& tranches[0].scanout
    &&& tranches[0].formats@ == scanout
    &&& tranches[1].device == scanout_node
    &&& !tranches[1].scanout
    &&& tranches[1].formats@ == render_formats
}

fn copied(formats: &Vec<Format>) -> (copy: Vec<Format>)
    ensures
        copy@ == formats@,
{
    let mut copy: Vec<Format> = Vec::new();
    let mut index: usize = 0;
    while index < formats.len()
        invariant
            index <= formats@.len(),
            copy@ == formats@.take(index as int),
        decreases formats@.len() - index,
    {
        copy.push(formats[index]);
        assert(formats@.take(index + 1) =~= formats@.take(index as int).push(formats@[index as int]));
        index = index + 1;
    }
    assert(formats@.take(formats@.len() as int) =~= formats@);
    copy
}

/// The formats of the render node: those that its renderer reported, or none where there is no
/// render node.
pub open spec fn render_node_formats(render_node: Option<u64>, reported: Seq<Format>) -> Seq<Format> {
    if render_node is Some {
        reported
    } else {
        Seq::empty()
    }
}

/// `feedback` is what clients of an output can be told about buffer formats.
pub open spec fn tells_formats(
    primary_gpu: u64,
    render_node: Option<u64>,
    scanout_node: u64,
    surface_device: u64,
    primary_formats: Option<Vec<Format>>,
    render_formats: Option<Vec<Format>>,
    plane_formats: Seq<Format>,
    overlay_formats: Seq<Format>,
    feedback: Option<SurfaceDmabufFeedback>,
) -> bool {
    &&& feedback is Some <==> primary_formats is Some && (render_node is Some ==> render_formats
        is Some)
    &&& feedback matches Some(told) ==> {
        let rendered = render_node_formats(render_node, render_formats->0@);
        &&& told.main_device == primary_gpu
        &&& told.main_formats@ == primary_formats->0@
        &&& is_render_feedback(told.render_feedback@, render_node, rendered)
        &&& is_scanout_feedback(
            told.scanout_feedback@,
            surface_device,
            scanout_node,
            scanout_formats(
                plane_formats,
                overlay_formats,
                primary_formats->0@,
                rendered,
            ),
            rendered,
        )
    }
}

/// What clients of an output are told about buffer formats.
///
/// `primary_formats` and `render_formats` are what the renderers of the primary device and of the
/// render node report; nothing is told where a renderer that is needed is missing. The formats that
/// may be scanned out are limited to those that can be rendered from as well, so that there is
/// always a way to show a buffer.
pub fn get_surface_dmabuf_feedback(
    primary_gpu: u64,
    render_node: Option<u64>,
    scanout_node: u64,
    surface_device: u64,
    primary_formats: Option<Vec<Format>>,
    render_formats: Option<Vec<Format>>,
    plane_formats: &Vec<Format>,
    overlay_formats: &Vec<Format>,
) -> (feedback: Option<SurfaceDmabufFeedback>)
    ensures
        tells_formats(
            primary_gpu,
            render_node,
            scanout_node,
            surface_device,
            primary_formats,
            render_formats,
            plane_formats@,
            overlay_formats@,
            feedback,
        ),
{
    let Some(primary_formats) = primary_formats else {
        return None;
    };
    let rendered: Vec<Format> = match render_node {
        Some(_) => match render_formats {
            Some(formats) => formats,
            None => {
                return None;
            },
        },
        None => Vec::new(),
    };
    let all_render_formats: Vec<Format> = union(&primary_formats, &rendered);
    let all_plane_formats: Vec<Format> = union(plane_formats, overlay_formats);
    let planes_formats: Vec<Format> = intersection(&all_plane_formats, &all_render_formats);

    let mut render_feedback: Vec<Tranche> = Vec::new();
    if let Some(node) = render_node {
        render_feedback.push(Tranche { device: node, scanout: false, formats: copied(&rendered) });
    }
    let mut scanout_feedback: Vec<Tranche> = Vec::new();
    scanout_feedback.push(
        Tranche { device: surface_device, scanout: true, formats: planes_formats },
    );
    scanout_feedback.push(Tranche { device: scanout_node, scanout: false, formats: rendered });
    Some(
        SurfaceDmabufFeedback {
            main_device: primary_gpu,
            main_formats: primary_formats,
            render_feedback,
            scanout_feedback,
        },
    )
}

/// Every format that may be scanned out is one that the planes take and that the primary device or
/// the render node can render from, and none is told twice.
pub proof fn scanned_out_formats_can_be_rendered(
    plane_formats: Seq<Format>,
    overlay_formats: Seq<Format>,
    primary_formats: Seq<Format>,
    render_formats: Seq<Format>,
    format: Format,
)
    ensures
        ({
            let scanout = scanout_formats(
                plane_formats,
                overlay_formats,
                primary_formats,
                render_formats,
            );
            &&& scanout.no_duplicates()
            &&& scanout.contains(format) <==> {
                &&& plane_formats.contains(format) || overlay_formats.contains(format)
                &&& primary_formats.contains(format) || render_formats.contains(format)
            }
        }),
{
    let planes = distinct(plane_formats + overlay_formats);
    let renderable = distinct(primary_formats + render_formats);
    distinct_keeps_each_format_once(plane_formats + overlay_formats);
    distinct_keeps_each_format_once(primary_formats + render_formats);
    contained_in_either(plane_formats, overlay_formats, format);
    contained_in_either(primary_formats, render_formats, format);
    filtered_has(planes, |kept: Format| renderable.contains(kept), format);
}

proof fn contained_in_either(first: Seq<Format>, second: Seq<Format>, format: Format)
    ensures
        (first + second).contains(format) <==> first.contains(format) || second.contains(format),
{
    let all = first + second;
    if first.contains(format) {
        assert(all[first.index_of(format)] == format);
    }
    if second.contains(format) {
        assert(all[first.len() + second.index_of(format)] == format);
    }
    if all.contains(format) {
        let at = all.index_of(format);
        if at < first.len() {
            assert(first[at] == format);
        } else {
            assert(second[at - first.len()] == format);
        }
    }
}

proof fn filtered_has(formats: Seq<Format>, kept: spec_fn(Format) -> bool, format: Format)
    requires
        formats.no_duplicates(),
    ensures
        formats.filter(kept).no_duplicates(),
        formats.filter(kept).contains(format) <==> formats.contains(format) && kept(format),
    decreases formats.len(),
{
    reveal_with_fuel(Seq::<_>::filter, 1);
    if formats.len() > 0 {
        let rest = formats.drop_last();
        let last = formats.last();
        filtered_has(rest, kept, format);
        filtered_has(rest, kept, last);
        assert(formats =~= rest.push(last));
        assert(!rest.contains(last));
        assert(rest.push(last).contains(format) <==> rest.contains(format) || format == last) by {
            if rest.contains(format) {
                assert(rest.push(last)[rest.index_of(format)] == format);
            }
            if format == last {
                assert(rest.push(last)[rest.len() as int] == format);
            }
        }
        let before = rest.filter(kept);
        assert(before.push(last).contains(format) <==> before.contains(format) || format == last)
            by {
            if before.contains(format) {
                assert(before.push(last)[before.index_of(format)] == format);
            }
            if format == last {
                assert(before.push(last)[before.len() as int] == format);
            }
        }
    }
}

/// A format that is added to a list is told after those that were there before, unless it was among them.
pub proof fn new_format_comes_last(formats: Seq<Format>, format: Format)
    ensures
        distinct(Seq::empty()) == Seq::<Format>::empty(),
        formats.contains(format) ==> distinct(formats.push(format)) == distinct(formats),
        !formats.contains(format) ==> distinct(formats.push(format)) == distinct(formats).push(
            format,
        ),
{
    assert(formats.push(format).drop_last() =~= formats);
}

/// The formats that two lists have in common keep the order of the first.
pub proof fn common_formats_keep_their_order(
    first: Seq<Format>,
    second: Seq<Format>,
    others: Seq<Format>,
    format: Format,
)
    ensures
        common(Seq::empty(), others) == Seq::<Format>::empty(),
        others.contains(format) ==> common(seq![format], others) == seq![format],
        !others.contains(format) ==> common(seq![format], others) == Seq::<Format>::empty(),
        common(first + second, others) == common(first, others) + common(second, others),
    decreases second.len(),
{
    reveal_with_fuel(Seq::<_>::filter, 2);
    assert(seq![format].drop_last() =~= Seq::empty());
    if second.len() == 0 {
        assert(first + second =~= first);
    } else {
        common_formats_keep_their_order(first, second.drop_last(), others, format);
        assert((first + second).drop_last() =~= first + second.drop_last());
        assert(common(first + second.drop_last(), others) == common(first, others) + common(
            second.drop_last(),
            others,
        ));
    }
}

/// A format can be rendered to if there is a render node, or if its buffers are not tiled.
pub proof fn usable_formats_can_be_rendered_to(
    formats: Seq<Format>,
    has_render_node: bool,
    format: Format,
)
    ensures
        ({
            let usable = usable_ones(formats, has_render_node);
            &&& usable.no_duplicates()
            &&& usable.contains(format) <==> formats.contains(format) && (has_render_node
                || format.modifier == 0)
        }),
    decreases formats.len(),
{
    let kept = |format: Format| is_usable(format, has_render_node);
    distinct_keeps_each_format_once(formats.filter(kept));
    filter_keeps_what_it_should(formats, kept, format);
}

proof fn filter_keeps_what_it_should(
    formats: Seq<Format>,
    kept: spec_fn(Format) -> bool,
    format: Format,
)
    ensures
        formats.filter(kept).contains(format) <==> formats.contains(format) && kept(format),
    decreases formats.len(),
{
    reveal_with_fuel(Seq::<_>::filter, 1);
    if formats.len() > 0 {
        let rest = formats.drop_last();
        let last = formats.last();
        filter_keeps_what_it_should(rest, kept, format);
        assert(formats =~= rest.push(last));
        contained_in_either(rest, seq![last], format);
        assert(rest + seq![last] =~= rest.push(last));
        let before = rest.filter(kept);
        contained_in_either(before, seq![last], format);
        assert(before + seq![last] =~= before.push(last));
        assert(seq![last].contains(format) <==> format == last) by {
            assert(seq![last][0] == last);
        }
    }
}

/// A client that is rendered should prefer the render node, if there is one; one that may be scanned out
/// should prefer first what the device of the surface scans out, then what the scan-out node renders.
pub proof fn feedback_prefers_its_devices(
    render: Seq<Tranche>,
    scanout: Seq<Tranche>,
    render_node: Option<u64>,
    surface_device: u64,
    scanout_node: u64,
    scanned_out: Seq<Format>,
    reported: Seq<Format>,
)
    requires
        is_render_feedback(render, render_node, render_node_formats(render_node, reported)),
        is_scanout_feedback(
            scanout,
            surface_device,
            scanout_node,
            scanned_out,
            render_node_formats(render_node, reported),
        ),
    ensures
        render_node is None ==> render.len() == 0,
        render_node matches Some(node) ==> {
            &&& render.len() == 1
            &&& render[0].device == node && !render[0].scanout && render[0].formats@ == reported
        },
        scanout.len() == 2,
        scanout[0].device == surface_device && scanout[0].scanout && scanout[0].formats@
            == scanned_out,
        scanout[1].device == scanout_node && !scanout[1].scanout,
        render_node is Some ==> scanout[1].formats@ == reported,
        render_node is None ==> scanout[1].formats@.len() == 0,
{
}

/// Formats with ten bits for a colour come first, and are offered exactly if they are not disabled; those
/// with eight bits are always offered.
pub proof fn ten_bits_are_preferred_unless_disabled(disable_10bit: bool)
    ensures
        ({
            let codes = offered_codes(disable_10bit);
            &&& codes.len() >= 2
            &&& codes.skip(codes.len() - 2) == seq![0x3432_4241u32, 0x3432_5241u32]
            &&& codes.take(codes.len() - 2) == (if disable_10bit {
                Seq::<u32>::empty()
            } else {
                seq![0x3033_4241u32, 0x3033_5241u32]
            })
        }),
{
    let codes = offered_codes(disable_10bit);
    assert(codes.skip(codes.len() - 2) =~= seq![0x3432_4241u32, 0x3432_5241u32]);
    assert(codes.take(codes.len() - 2) =~= (if disable_10bit {
        Seq::<u32>::empty()
    } else {
        seq![0x3033_4241u32, 0x3033_5241u32]
    }));
}

/// Two lists joined have every format of both, each once, and begin with those of the first.
pub proof fn joined_formats_are_those_of_both(
    first: Seq<Format>,
    second: Seq<Format>,
    format: Format,
)
    ensures
        either(first, second).contains(format) <==> first.contains(format) || second.contains(
            format,
        ),
        either(first, second).no_duplicates(),
        either(first, Seq::empty()).is_prefix_of(either(first, second)),
    decreases second.len(),
{
    distinct_keeps_each_format_once(first + second);
    contained_in_either(first, second, format);
    assert(first + Seq::<Format>::empty() =~= first);
    if second.len() == 0 {
        assert(second =~= Seq::empty());
    } else {
        joined_formats_are_those_of_both(first, second.drop_last(), format);
        assert((first + second).drop_last() =~= first + second.drop_last());
        assert(distinct(first + second.drop_last()).is_prefix_of(distinct(first + second)));
    }
}

/// Clients are told of formats exactly if every renderer that is needed is there. The main device is the
/// primary one, with its formats; what may be scanned out is what the planes take and a renderer can render
/// from.
pub proof fn clients_are_told_what_can_be_shown(
    primary_gpu: u64,
    render_node: Option<u64>,
    scanout_node: u64,
    surface_device: u64,
    primary_formats: Option<Vec<Format>>,
    render_formats: Option<Vec<Format>>,
    plane_formats: Seq<Format>,
    overlay_formats: Seq<Format>,
    feedback: Option<SurfaceDmabufFeedback>,
    format: Format,
)
    requires
        tells_formats(
            primary_gpu,
            render_node,
            scanout_node,
            surface_device,
            primary_formats,
            render_formats,
            plane_formats,
            overlay_formats,
            feedback,
        ),
    ensures
        feedback is None <==> primary_formats is None || (render_node is Some && render_formats
            is None),
        feedback matches Some(told) ==> {
            &&& told.main_device == primary_gpu
            &&& told.main_formats@ == primary_formats->0@
            &&& render_node is None ==> told.render_feedback@.len() == 0
            &&& render_node matches Some(node) ==> {
                &&& told.render_feedback@.len() == 1
                &&& told.render_feedback@[0].device == node
                &&& !told.render_feedback@[0].scanout
                &&& told.render_feedback@[0].formats@ == render_formats->0@
            }
            &&& told.scanout_feedback@.len() == 2
            &&& told.scanout_feedback@[0].device == surface_device
            &&& told.scanout_feedback@[0].scanout
            &&& told.scanout_feedback@[0].formats@.no_duplicates()
            &&& told.scanout_feedback@[0].formats@.contains(format) <==> {
                &&& plane_formats.contains(format) || overlay_formats.contains(format)
                &&& primary_formats->0@.contains(format) || (render_node is Some
                    && render_formats->0@.contains(format))
            }
            &&& told.scanout_feedback@[1].device == scanout_node
            &&& !told.scanout_feedback@[1].scanout
            &&& render_node is Some ==> told.scanout_feedback@[1].formats@ == render_formats->0@
            &&& render_node is None ==> told.scanout_feedback@[1].formats@.len() == 0
        },
{
    if feedback is Some {
        scanned_out_formats_can_be_rendered(
            plane_formats,
            overlay_formats,
            primary_formats->0@,
            render_node_formats(render_node, render_formats->0@),
            format,
        );
        assert(!Seq::<Format>::empty().contains(format));
    }
}

} // verus!
