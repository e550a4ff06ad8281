//! What clients ask for.

pub mod xdg_shell;

use vstd::prelude::*;

use crate::cursor::{drag_offset, CursorImageStatus, DndIcon};
use crate::geometry::Point;
use crate::state::Smallvil;

verus! {

impl<M> Smallvil<M> {
    /// `after` comes of a client that changes what the pointer shows.
    pub open spec fn shows_image(self, image: CursorImageStatus, after: Self) -> bool {
        after == (Smallvil { cursor_status: image, ..self })
    }

    /// Changes what the pointer shows.
    pub fn cursor_image(&mut self, image: CursorImageStatus)
        ensures
            old(self).shows_image(image, *final(self)),
    {
        self.cursor_status = image;
    }

    /// `after` comes of a drag that begins.
    pub open spec fn starts_drag(self, icon: Option<u64>, hotspot: Point<i32>, after: Self) -> bool {
        after == (Smallvil {
            dnd_icon: match icon {
                Some(surface) => Some(
                    DndIcon {
                        surface,
                        offset: if self.cursor_status is Surface {
                            Point { x: (-hotspot.x) as i32, y: (-hotspot.y) as i32 }
                        } else {
                            Point { x: 0, y: 0 }
                        },
                    },
                ),
                None => None,
            },
            ..self
        })
    }

    /// Begins a drag: the icon is drawn where the pointer image is.
    ///
    /// `hotspot` is that of the surface that the pointer shows, where it shows one.
    pub fn started(&mut self, icon: Option<u64>, hotspot: Point<i32>)
        requires
            old(self).cursor_status is Surface ==> hotspot.x > i32::MIN && hotspot.y > i32::MIN,
        ensures
            old(self).starts_drag(icon, hotspot, *final(self)),
    {
        let offset: Point<i32> = drag_offset(&self.cursor_status, hotspot);
        self.dnd_icon = match icon {
            Some(surface) => Some(DndIcon { surface, offset }),
            None => None,
        };
    }

    /// `after` comes of a drag that ends.
    pub open spec fn ends_drag(self, after: Self) -> bool {
        after == (Smallvil { dnd_icon: None, ..self })
    }

    /// Ends a drag.
    pub fn dropped(&mut self)
        ensures
            old(self).ends_drag(*final(self)),
    {
        self.dnd_icon = None;
    }
}

/// A client changes what the pointer shows, and nothing else.
pub proof fn pointer_shows_what_is_asked_for<M>(
    before: Smallvil<M>,
    image: CursorImageStatus,
    after: Smallvil<M>,
)
    requires
        before.shows_image(image, after),
    ensures
        after.cursor_status == image,
        after == (Smallvil { cursor_status: after.cursor_status, ..before }),
{
}

/// A drag with an icon shows it, so that the hotspot of the surface that the pointer shows and the offset of
/// the icon cancel out; where the pointer shows none, the icon has no offset. Its end takes the icon away
/// and leaves everything as it was without one.
pub proof fn drag_shows_its_icon_until_it_ends<M>(
    before: Smallvil<M>,
    icon: Option<u64>,
    hotspot: Point<i32>,
    during: Smallvil<M>,
    after: Smallvil<M>,
)
    requires
        before.cursor_status is Surface ==> hotspot.x > i32::MIN && hotspot.y > i32::MIN,
        before.starts_drag(icon, hotspot, during),
        during.ends_drag(after),
    ensures
        icon is None <==> during.dnd_icon is None,
        during.dnd_icon matches Some(shown) ==> {
            &&& icon == Some(shown.surface)
            &&& before.cursor_status is Surface ==> shown.offset.x + hotspot.x == 0
                && shown.offset.y + hotspot.y == 0
            &&& !(before.cursor_status is Surface) ==> shown.offset.x == 0 && shown.offset.y == 0
        },
        during == (Smallvil { dnd_icon: during.dnd_icon, ..before }),
        after.dnd_icon is None,
        after == (Smallvil { dnd_icon: None, ..before }),
{
}

} // verus!
