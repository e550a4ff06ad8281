//! The pointer: its images, its status and what is drawn with it.

use vstd::prelude::*;

use crate::geometry::Point;

verus! {

/// One image of a pointer theme.
#[derive(Debug)]
pub struct CursorFrame {
    pub size: u32,
    pub width: u32,
    pub height: u32,
    pub xhot: u32,
    pub yhot: u32,
    pub delay: u32,
    pub pixels_rgba: Vec<u8>,
    pub pixels_argb: Vec<u8>,
}

fn same_bytes(a: &Vec<u8>, b: &Vec<u8>) -> (same: bool)
    ensures
        same == (a@ == b@),
{
    if a.len() != b.len() {
        return false;
    }
    let mut index: usize = 0;
    while index < a.len()
        invariant
            index <= a@.len(),
            a@.len() == b@.len(),
            forall|before: int| 0 <= before < index ==> a@[before] == b@[before],
        decreases a@.len() - index,
    {
        if a[index] != b[index] {
            assert(a@[index as int] != b@[index as int]);
            return false;
        }
        index = index + 1;
    }
    assert(a@ =~= b@);
    true
}

impl CursorFrame {
    /// Whether two images agree in everything.
    pub open spec fn equals(self, other: CursorFrame) -> bool {
        &&& self.size == other.size
        &&& self.width == other.width
        &&& self.height == other.height
        &&& self.xhot == other.xhot
        &&& self.yhot == other.yhot
        &&& self.delay == other.delay
        &&& self.pixels_rgba@ == other.pixels_rgba@
        &&& self.pixels_argb@ == other.pixels_argb@
    }

    /// Whether two images agree in everything.
    pub fn same(&self, other: &CursorFrame) -> (same: bool)
        ensures
            same == self.equals(*other),
    {
        self.size == other.size && self.width == other.width && self.height == other.height
            && self.xhot == other.xhot && self.yhot == other.yhot && self.delay == other.delay
            && same_bytes(&self.pixels_rgba, &other.pixels_rgba) && same_bytes(
            &self.pixels_argb,
            &other.pixels_argb,
        )
    }
}

/// `found` is the first image that agrees with `frame`, if any does.
pub open spec fn is_frame_at(
    frames: Seq<CursorFrame>,
    frame: CursorFrame,
    found: Option<usize>,
) -> bool {
    match found {
        Some(index) => {
            &&& index < frames.len()
            &&& frames[index as int].equals(frame)
            &&& forall|before: int|
                0 <= before < index ==> !(#[trigger] frames[before]).equals(frame)
        },
        None => forall|any: int| 0 <= any < frames.len() ==> !(#[trigger] frames[any]).equals(frame),
    }
}

/// `kept` and `after` can come of looking an image up.
pub open spec fn remembers(
    before: Seq<CursorFrame>,
    frame: CursorFrame,
    kept: (usize, bool),
    after: Seq<CursorFrame>,
) -> bool {
    &&& is_frame_at(before, frame, if kept.1 { None } else { Some(kept.0) })
    &&& kept.1 ==> kept.0 == before.len() && after == before.push(frame)
    &&& !kept.1 ==> after == before
}

/// Looks an image up among those that were drawn before and keeps it if it is new. Returns where
/// it is and whether it is new.
pub fn remember_frame(frames: &mut Vec<CursorFrame>, frame: CursorFrame) -> (kept: (usize, bool))
    ensures
        remembers(old(frames)@, frame, kept, final(frames)@),
{
    let mut index: usize = 0;
    while index < frames.len()
        invariant
            index <= frames@.len(),
            frames@ == old(frames)@,
            forall|before: int|
                0 <= before < index ==> !(#[trigger] frames@[before]).equals(frame),
        decreases frames@.len() - index,
    {
        if frames[index].same(&frame) {
            return (index, false);
        }
        index = index + 1;
    }
    frames.push(frame);
    (index, true)
}

/// An image that was kept is found again, where it was kept.
pub proof fn kept_frame_is_found_again(frames: Seq<CursorFrame>, frame: CursorFrame)
    requires
        is_frame_at(frames, frame, None),
        frames.len() < usize::MAX,
    ensures
        is_frame_at(frames.push(frame), frame, Some(frames.len() as usize)),
{
    let kept = frames.push(frame);
    assert forall|before: int| 0 <= before < frames.len() implies !(#[trigger] kept[before]).equals(
        frame,
    ) by {
        assert(kept[before] == frames[before]);
    }
}

/// The number of the arrow that a pointer without a status of its own shows.
pub const DEFAULT_ICON: u32 = 0;

/// What the pointer shows.
#[derive(Debug, Clone, Copy, PartialEq, Eq)]
pub enum CursorImageStatus {
    Hidden,
    /// An icon of the pointer theme.
    Named(u32),
    /// The surface of a client.
    Surface(u64),
}

/// What a client drags along with the pointer.
#[derive(Debug, Clone, Copy, PartialEq, Eq)]
pub struct DndIcon {
    pub surface: u64,
    pub offset: Point<i32>,
}

/// `offset` is that of a drag icon.
pub open spec fn is_drag_offset(
    status: CursorImageStatus,
    hotspot: Point<i32>,
    offset: Point<i32>,
) -> bool {
    &&& status is Surface ==> offset.x == -hotspot.x && offset.y == -hotspot.y
    &&& !(status is Surface) ==> offset.x == 0 && offset.y == 0
}

/// The offset of a drag icon from the pointer: it is drawn at the origin of the pointer image.
///
/// `hotspot` is that of the surface that the pointer shows, where it shows one.
pub fn drag_offset(status: &CursorImageStatus, hotspot: Point<i32>) -> (offset: Point<i32>)
    requires
        status is Surface ==> hotspot.x > i32::MIN && hotspot.y > i32::MIN,
    ensures
        is_drag_offset(*status, hotspot, offset),
{
    match status {
        CursorImageStatus::Surface(_) => Point { x: -hotspot.x, y: -hotspot.y },
        _ => Point { x: 0, y: 0 },
    }
}

/// Something that is drawn above the windows.
#[derive(Debug, Clone, Copy, PartialEq, Eq)]
pub enum CustomElement {
    /// The pointer, with its hotspot at the pointer position.
    Pointer { hotspot: Point<i32> },
    /// A drag icon.
    DndIcon { surface: u64, offset: Point<i32> },
}

/// The status that the pointer has once a surface that is gone is no longer shown.
pub open spec fn living_status(status: CursorImageStatus, surface_alive: bool) -> CursorImageStatus {
    if status is Surface && !surface_alive {
        CursorImageStatus::Named(DEFAULT_ICON)
    } else {
        status
    }
}

/// What is drawn above the windows of an output that the pointer is on.
pub open spec fn elements_at_pointer(
    status: CursorImageStatus,
    hotspot: Point<i32>,
    icon: Option<DndIcon>,
    icon_alive: bool,
) -> Seq<CustomElement> {
    seq![
        CustomElement::Pointer {
            hotspot: if status is Surface {
                hotspot
            } else {
                Point { x: 0, y: 0 }
            },
        },
    ] + (match icon {
        Some(icon) => if icon_alive {
            seq![CustomElement::DndIcon { surface: icon.surface, offset: icon.offset }]
        } else {
            Seq::empty()
        },
        None => Seq::empty(),
    })
}

/// `after` and `elements` come of drawing the pointer.
pub open spec fn draws_pointer(
    on_output: bool,
    before: CursorImageStatus,
    hotspot: Point<i32>,
    surface_alive: bool,
    icon: Option<DndIcon>,
    icon_alive: bool,
    after: CursorImageStatus,
    elements: Seq<CustomElement>,
) -> bool {
    &&& elements == (if on_output {
        elements_at_pointer(before, hotspot, icon, icon_alive)
    } else {
        Seq::empty()
    })
    &&& after == (if on_output {
        living_status(before, surface_alive)
    } else {
        before
    })
}

/// Lists what is drawn above the windows of an output, and resets the status of a pointer whose
/// surface is gone. Nothing is drawn, and nothing reset, where the pointer is elsewhere.
pub fn custom_elements(
    on_output: bool,
    status: &mut CursorImageStatus,
    hotspot: Point<i32>,
    surface_alive: bool,
    icon: &Option<DndIcon>,
    icon_alive: bool,
) -> (elements: Vec<CustomElement>)
    ensures
        draws_pointer(
            on_output,
            *old(status),
            hotspot,
            surface_alive,
            *icon,
            icon_alive,
            *final(status),
            elements@,
        ),
{
    let mut elements: Vec<CustomElement> = Vec::new();
    if on_output {
        let shown: Point<i32> = match *status {
            CursorImageStatus::Surface(_) => hotspot,
            _ => Point { x: 0, y: 0 },
        };
        let mut reset: bool = false;
        if let CursorImageStatus::Surface(_) = *status {
            reset = !surface_alive;
        }
        if reset {
            *status = CursorImageStatus::Named(DEFAULT_ICON);
        }
        elements.push(CustomElement::Pointer { hotspot: shown });
        if let Some(icon) = icon {
            if icon_alive {
                elements.push(CustomElement::DndIcon { surface: icon.surface, offset: icon.offset });
            }
        }
    }
    assert(elements@ =~= (if on_output {
        elements_at_pointer(*old(status), hotspot, *icon, icon_alive)
    } else {
        Seq::empty()
    }));
    elements
}

/// The image that is found agrees with the one that is looked for in everything, and none before it does;
/// where none is found, each differs in something.
pub proof fn found_image_agrees_in_everything(
    frames: Seq<CursorFrame>,
    frame: CursorFrame,
    found: Option<usize>,
    other: int,
)
    requires
        is_frame_at(frames, frame, found),
        0 <= other < frames.len(),
    ensures
        ({
            let agrees = |own: CursorFrame|
                {
                    &&& own.size == frame.size && own.width == frame.width && own.height
                        == frame.height
                    &&& own.xhot == frame.xhot && own.yhot == frame.yhot && own.delay == frame.delay
                    &&& own.pixels_rgba@ == frame.pixels_rgba@
                    &&& own.pixels_argb@ == frame.pixels_argb@
                };
            match found {
                Some(index) => {
                    &&& index < frames.len()
                    &&& agrees(frames[index as int])
                    &&& agrees(frames[other]) ==> index <= other
                },
                None => !agrees(frames[other]),
            }
        }),
{
    assert(found matches Some(index) && other < index ==> !frames[other].equals(frame));
    assert(found is None ==> !frames[other].equals(frame));
}

/// Where the pointer is, it is drawn above everything, with its hotspot where it is if a client draws it;
/// a drag icon is drawn below it as long as it is alive.
pub proof fn pointer_is_drawn_first(
    status: CursorImageStatus,
    hotspot: Point<i32>,
    icon: Option<DndIcon>,
    icon_alive: bool,
)
    ensures
        ({
            let elements = elements_at_pointer(status, hotspot, icon, icon_alive);
            &&& elements.len() >= 1
            &&& elements[0] matches CustomElement::Pointer { hotspot: at }
            &&& status is Surface ==> at == hotspot
            &&& !(status is Surface) ==> at.x == 0 && at.y == 0
            &&& elements.len() == 2 <==> icon is Some && icon_alive
            &&& elements.len() <= 2
            &&& icon matches Some(dragged) ==> (icon_alive ==> elements[1] == (
            CustomElement::DndIcon { surface: dragged.surface, offset: dragged.offset }))
        }),
{
}

/// A pointer shows the arrow once the surface that it showed is gone, and otherwise what it showed.
pub proof fn pointer_shows_no_surface_that_is_gone(status: CursorImageStatus, alive: bool)
    ensures
        alive ==> living_status(status, alive) == status,
        !(status is Surface) ==> living_status(status, alive) == status,
        status is Surface && !alive ==> living_status(status, alive) == CursorImageStatus::Named(
            DEFAULT_ICON,
        ),
{
}

/// An image that is new is kept behind the others; one that was drawn before is found where it is. Either
/// way it is there afterwards, the others stay where they are, and it is found there when it is looked up
/// again.
pub proof fn image_is_kept_once(
    before: Seq<CursorFrame>,
    frame: CursorFrame,
    kept: (usize, bool),
    between: Seq<CursorFrame>,
    again: (usize, bool),
    after: Seq<CursorFrame>,
)
    requires
        remembers(before, frame, kept, between),
        remembers(between, frame, again, after),
    ensures
        kept.0 < between.len(),
        between[kept.0 as int].equals(frame),
        before.is_prefix_of(between),
        between.len() == before.len() + (if kept.1 {
            1int
        } else {
            0int
        }),
        again.0 == kept.0 && !again.1,
        after == between,
{
    assert(between[kept.0 as int].equals(frame));
    if again.1 {
        assert(!between[kept.0 as int].equals(frame));
    } else if again.0 < kept.0 {
        assert(between[again.0 as int] == before[again.0 as int]);
    } else if kept.0 < again.0 {
        assert(!between[kept.0 as int].equals(frame));
    }
}

/// Nothing is drawn where the pointer is elsewhere. Where it is, it comes first, with the hotspot of the
/// surface that it shows; a living drag icon follows; and a surface that is gone is no longer shown.
pub proof fn pointer_is_drawn_where_it_is(
    on_output: bool,
    before: CursorImageStatus,
    hotspot: Point<i32>,
    surface_alive: bool,
    icon: Option<DndIcon>,
    icon_alive: bool,
    after: CursorImageStatus,
    elements: Seq<CustomElement>,
)
    requires
        draws_pointer(
            on_output,
            before,
            hotspot,
            surface_alive,
            icon,
            icon_alive,
            after,
            elements,
        ),
    ensures
        !on_output ==> elements.len() == 0 && after == before,
        on_output ==> {
            &&& elements.len() == (if icon is Some && icon_alive {
                2int
            } else {
                1int
            })
            &&& elements[0] matches CustomElement::Pointer { hotspot: at }
            &&& before is Surface ==> at == hotspot
            &&& !(before is Surface) ==> at.x == 0 && at.y == 0
            &&& icon matches Some(dragged) ==> (icon_alive ==> elements[1] == (
            CustomElement::DndIcon { surface: dragged.surface, offset: dragged.offset }))
            &&& before is Surface && !surface_alive ==> after == CursorImageStatus::Named(0)
            &&& !(before is Surface) || surface_alive ==> after == before
        },
{
    pointer_is_drawn_first(before, hotspot, icon, icon_alive);
    pointer_shows_no_surface_that_is_gone(before, surface_alive);
}

/// A drag icon is drawn where the image of the pointer begins.
pub proof fn drag_icon_is_at_the_pointer_image(
    status: CursorImageStatus,
    hotspot: Point<i32>,
    offset: Point<i32>,
)
    requires
        is_drag_offset(status, hotspot, offset),
    ensures
        status is Surface ==> hotspot.x + offset.x == 0 && hotspot.y + offset.y == 0,
        !(status is Surface) ==> offset.x == 0 && offset.y == 0,
{
}

} // verus!
