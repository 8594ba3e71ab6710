use vstd::prelude::*;
use crate::drag::DragSession;
use crate::geometry::{Layout, Pointer, Rect};
use crate::resizer::panel::{handle_panel_mousemove, spec_panel_answer, PanelResize};
use crate::resizer::parcels::{handle_parcels_mousemove, spec_parcels_answer, ParcelsResize};
use crate::stylelength::StyleLength;

pub mod panel;
pub mod parcels;

verus! {

/// The settings of one handle: the axis it works along, the edge of its
/// region it sits on, the unit of the lengths it gives, the limits of those
/// lengths, and the markers that show a drag.
#[derive(Debug, Clone, Copy)]
pub struct Resizer {
    pub is_lateral: bool,
    pub to_left: bool,
    pub to_pixel: bool,
    pub min_len: Option<StyleLength>,
    pub max_len: Option<StyleLength>,
    pub change_class_on_move: Option<(Option<&'static str>, &'static str)>,
}

/// A handle that resizes its own region against the container.
#[derive(Debug, Clone, Copy)]
pub struct PanelSession {
    pub resizer: Resizer,
    pub skip_set_style: bool,
    pub drag: DragSession,
}

/// A handle that resizes a region of a row or column against its neighbours.
#[derive(Debug, Clone, Copy)]
pub struct ParcelsSession {
    pub resizer: Resizer,
    pub parcel_name: Option<&'static str>,
    pub skip_set_style: bool,
    pub drag: DragSession,
}

impl Resizer {
    pub fn new(
        is_lateral: bool,
        to_left: bool,
        to_pixel: bool,
        min_len: Option<StyleLength>,
        max_len: Option<StyleLength>,
        change_class_on_move: Option<(Option<&'static str>, &'static str)>,
    ) -> (res: Resizer)
        ensures
            res.is_lateral == is_lateral,
            res.to_left == to_left,
            res.to_pixel == to_pixel,
            res.min_len == min_len,
            res.max_len == max_len,
            res.change_class_on_move == change_class_on_move,
    {
        Resizer { is_lateral, to_left, to_pixel, min_len, max_len, change_class_on_move }
    }

    /// Makes the handle one that resizes its own region. The session starts
    /// idle. With `skip_set_style` its answers carry no style to write.
    pub fn set_panel_resizer(self, skip_set_style: bool) -> (res: PanelSession)
        ensures
            res.resizer == self,
            res.skip_set_style == skip_set_style,
            res.drag.change_class_on_move == self.change_class_on_move,
            !res.drag.dragging,
    {
        PanelSession {
            resizer: self,
            skip_set_style,
            drag: DragSession::set_event_handlers(self.change_class_on_move),
        }
    }

    /// Makes the handle one that resizes a region among its neighbours. The
    /// session starts idle. With a `parcel_name` its answers carry the map of
    /// lengths by key.
    pub fn set_parcels_resizer(self, parcel_name: Option<&'static str>, skip_set_style: bool) -> (res:
        ParcelsSession)
        ensures
            res.resizer == self,
            res.parcel_name == parcel_name,
            res.skip_set_style == skip_set_style,
            res.drag.change_class_on_move == self.change_class_on_move,
            !res.drag.dragging,
    {
        ParcelsSession {
            resizer: self,
            parcel_name,
            skip_set_style,
            drag: DragSession::set_event_handlers(self.change_class_on_move),
        }
    }
}

impl PanelSession {
    /// The pointer moved. Outside a drag, or without a layout to measure, a
    /// move changes nothing; during a drag the region is resized as
    /// `handle_panel_mousemove` says.
    pub fn mousemove(&self, layout: Option<&Layout>, e: Pointer) -> (res: Option<PanelResize>)
        ensures
            !self.drag.dragging || layout.is_none() ==> res.is_none(),
            self.drag.dragging && layout.is_some() ==> spec_panel_answer(
                res,
                self.resizer.is_lateral,
                self.resizer.to_left,
                self.resizer.to_pixel,
                self.resizer.min_len,
                self.resizer.max_len,
                *layout.unwrap(),
                e,
                self.skip_set_style,
            ),
    {
        if !self.drag.dragging {
            return None;
        }
        let Some(layout) = layout else {
            return None;
        };
        handle_panel_mousemove(
            self.resizer.is_lateral,
            self.resizer.to_left,
            self.resizer.to_pixel,
            self.resizer.min_len,
            self.resizer.max_len,
            layout,
            e,
            self.skip_set_style,
        )
    }
}

impl ParcelsSession {
    /// The pointer moved. Outside a drag, or without a layout to measure, a
    /// move changes nothing; during a drag the regions are resized as
    /// `handle_parcels_mousemove` says.
    pub fn mousemove(&self, layout: Option<&Layout>, e: Pointer) -> (res: Option<ParcelsResize>)
        ensures
            !self.drag.dragging || layout.is_none() ==> res.is_none(),
            self.drag.dragging && layout.is_some() ==> spec_parcels_answer(
                res,
                self.resizer.is_lateral,
                self.resizer.to_left,
                self.resizer.to_pixel,
                self.resizer.min_len,
                self.resizer.max_len,
                *layout.unwrap(),
                e,
                self.parcel_name.is_some(),
                self.skip_set_style,
            ),
    {
        if !self.drag.dragging {
            return None;
        }
        let Some(layout) = layout else {
            return None;
        };
        let parcel_name: Option<&str> = match self.parcel_name {
            Some(name) => Some(name),
            None => None,
        };
        handle_parcels_mousemove(
            self.resizer.is_lateral,
            self.resizer.to_left,
            self.resizer.to_pixel,
            self.resizer.min_len,
            self.resizer.max_len,
            layout,
            e,
            parcel_name,
            self.skip_set_style,
        )
    }
}

/// The signed distance from the handle's edge of `rect` to the pointer,
/// counted outwards: above zero where the pointer asks the box to grow. The
/// handle sits on the leading edge if `to_left`, else on the trailing edge.
pub open spec fn spec_gap(rect: Rect, e: Pointer, is_lateral: bool, to_left: bool) -> int {
    if to_left {
        rect.leading(is_lateral) - e.along(is_lateral)
    } else {
        e.along(is_lateral) - rect.trailing(is_lateral)
    }
}

/// The scrollable extent of the container along the axis.
pub fn scroll_length(layout: &Layout, is_lateral: bool) -> (res: u32)
    ensures
        res == layout.extent(is_lateral),
{
    if is_lateral {
        layout.scroll_width
    } else {
        layout.scroll_height
    }
}

/// The rendered extent of a box along the axis.
pub fn get_length(rect: &Rect, is_lateral: bool) -> (res: u32)
    ensures
        res == rect.extent(is_lateral),
{
    if is_lateral {
        rect.width
    } else {
        rect.height
    }
}

/// The region at `index`, where the layout has one.
pub fn resizer_parent_element(layout: &Layout, index: usize) -> (res: Option<Rect>)
    ensures
        res == if index < layout.regions@.len() {
            Some(layout.regions@[index as int].rect)
        } else {
            None
        },
{
    if index < layout.regions.len() {
        Some(layout.regions[index].rect)
    } else {
        None
    }
}

/// For the region at `index`: the container's scrollable extent, the region's
/// own extent, and the gap between its handle's edge and the pointer.
pub fn get_lengths(layout: &Layout, index: usize, e: Pointer, is_lateral: bool, to_left: bool) -> (res: Option<(u32, u32, i64)>)
    ensures
        res.is_some() == (index < layout.regions@.len()),
        res matches Some((par_len, len, gap)) ==> {
            &&& par_len == layout.extent(is_lateral)
            &&& len == layout.regions@[index as int].rect.extent(is_lateral)
            &&& gap == spec_gap(layout.regions@[index as int].rect, e, is_lateral, to_left)
        },
{
    let Some(rect) = resizer_parent_element(layout, index) else {
        return None;
    };
    let par_len = scroll_length(layout, is_lateral);
    Some(
        if is_lateral {
            let cur = e.x as i64;
            let gap = if to_left {
                rect.left as i64 - cur
            } else {
                cur - (rect.left as i64 + rect.width as i64)
            };
            (par_len, rect.width, gap)
        } else {
            let cur = e.y as i64;
            let gap = if to_left {
                rect.top as i64 - cur
            } else {
                cur - (rect.top as i64 + rect.height as i64)
            };
            (par_len, rect.height, gap)
        },
    )
}

} // verus!
