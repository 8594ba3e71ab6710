use vstd::prelude::*;

verus! {

/// The rendered box of an element. The position counts from the viewport's
/// corner and may be negative; the right edge is `left + width`, the bottom
/// edge `top + height`.
#[derive(Debug, Clone, Copy, PartialEq, Eq, Structural)]
pub struct Rect {
    pub left: i32,
    pub top: i32,
    pub width: u32,
    pub height: u32,
}

/// Where the pointer is, in the coordinates of `Rect`.
#[derive(Debug, Clone, Copy, PartialEq, Eq, Structural)]
pub struct Pointer {
    pub x: i32,
    pub y: i32,
}

/// One region under a container: its box as rendered now, and the key under
/// which its length is reported, if it carries one.
#[derive(Debug, Clone, Copy, PartialEq, Eq, Structural)]
pub struct Region {
    pub rect: Rect,
    pub key: Option<u64>,
}

/// A container as measured for one pointer sample: its scrollable extents,
/// its regions in document order, and which of them owns the handle.
#[derive(Debug, Clone)]
pub struct Layout {
    pub scroll_width: u32,
    pub scroll_height: u32,
    pub regions: Vec<Region>,
    pub owner: usize,
}

impl Rect {
    /// The extent of the box along the axis.
    pub open spec fn extent(self, is_lateral: bool) -> u32 {
        if is_lateral {
            self.width
        } else {
            self.height
        }
    }

    /// The coordinate of the leading edge along the axis.
    pub open spec fn leading(self, is_lateral: bool) -> int {
        if is_lateral {
            self.left as int
        } else {
            self.top as int
        }
    }

    /// The coordinate of the trailing edge along the axis.
    pub open spec fn trailing(self, is_lateral: bool) -> int {
        self.leading(is_lateral) + self.extent(is_lateral)
    }
}

impl Pointer {
    /// The pointer's coordinate along the axis.
    pub open spec fn along(self, is_lateral: bool) -> int {
        if is_lateral {
            self.x as int
        } else {
            self.y as int
        }
    }
}

impl Layout {
    /// The scrollable extent of the container along the axis.
    pub open spec fn extent(self, is_lateral: bool) -> u32 {
        if is_lateral {
            self.scroll_width
        } else {
            self.scroll_height
        }
    }

    /// The extents of the regions along the axis, in document order.
    pub open spec fn extents(self, is_lateral: bool) -> Seq<int> {
        Seq::new(self.regions@.len(), |i: int| self.regions@[i].rect.extent(is_lateral) as int)
    }
}

/// The sum of a row of extents.
pub open spec fn spec_total(extents: Seq<int>) -> int
    decreases extents.len(),
{
    if extents.len() == 0 {
        0
    } else {
        spec_total(extents.drop_last()) + extents.last()
    }
}

/// Changing one extent changes the sum by as much.
pub proof fn lemma_total_update(extents: Seq<int>, i: int, v: int)
    requires
        0 <= i < extents.len(),
    ensures
        spec_total(extents.update(i, v)) == spec_total(extents) - extents[i] + v,
    decreases extents.len(),
{
    let changed = extents.update(i, v);
    if i == extents.len() - 1 {
        assert(changed.drop_last() =~= extents.drop_last());
    } else {
        lemma_total_update(extents.drop_last(), i, v);
        assert(changed.drop_last() =~= extents.drop_last().update(i, v));
    }
}

} // verus!
