use vstd::prelude::*;
use crate::geometry::{Layout, Pointer};
use crate::resizer::{get_lengths, spec_gap};
use crate::stylelength::{
    lemma_max_check_shrinks, lemma_min_check_grows, lemma_percent_of_bounds, percent_of, spec_length_property, StyleLength, StyleWrite,
};

verus! {

/// A region's new size: its extent, the length that stands for it, and the
/// style to write on the region, unless writing was switched off.
#[derive(Debug, Clone)]
pub struct PanelResize {
    pub extent: u32,
    pub length: StyleLength,
    pub style: Option<StyleWrite>,
}

/// Whether a region may take the size `to_len` in a container of `par_len`.
/// A region that grows is held to the upper limit only, one that shrinks to
/// the lower limit only; a limit that is not set holds nothing back.
pub open spec fn spec_within_limits(
    min_len: Option<StyleLength>,
    max_len: Option<StyleLength>,
    is_expanding: bool,
    to_len: u32,
    par_len: u32,
) -> bool {
    if is_expanding {
        match max_len {
            Some(limit) => limit.spec_max_check(to_len, par_len),
            None => true,
        }
    } else {
        match min_len {
            Some(limit) => limit.spec_min_check(to_len, par_len),
            None => true,
        }
    }
}

/// The extent that the owner of the handle takes for this pointer sample, or
/// `None` where the sample changes nothing: the layout has no such region,
/// the container has no extent, the pointer is on the handle's edge, the new
/// extent would be below zero or beyond the container, or a limit forbids it.
pub open spec fn spec_panel_extent(
    is_lateral: bool,
    to_left: bool,
    min_len: Option<StyleLength>,
    max_len: Option<StyleLength>,
    layout: Layout,
    e: Pointer,
) -> Option<u32> {
    if layout.owner >= layout.regions@.len() {
        None
    } else {
        let rect = layout.regions@[layout.owner as int].rect;
        let par_len = layout.extent(is_lateral);
        let gap = spec_gap(rect, e, is_lateral, to_left);
        let to_len = rect.extent(is_lateral) + gap;
        if par_len == 0 || gap == 0 || to_len < 0 || par_len < to_len {
            None
        } else if !spec_within_limits(min_len, max_len, gap > 0, to_len as u32, par_len) {
            None
        } else {
            Some(to_len as u32)
        }
    }
}

/// Whether `res` is the answer to a pointer sample: nothing where
/// `spec_panel_extent` has no extent; else that extent, the length that
/// stands for it, and the style that sets this length on the region along the
/// axis, unless `skip_set_style`.
pub open spec fn spec_panel_answer(
    res: Option<PanelResize>,
    is_lateral: bool,
    to_left: bool,
    to_pixel: bool,
    min_len: Option<StyleLength>,
    max_len: Option<StyleLength>,
    layout: Layout,
    e: Pointer,
    skip_set_style: bool,
) -> bool {
    &&& res.is_some() == spec_panel_extent(is_lateral, to_left, min_len, max_len, layout, e).is_some()
    &&& res matches Some(r) ==> {
        &&& Some(r.extent) == spec_panel_extent(is_lateral, to_left, min_len, max_len, layout, e)
        &&& r.length == StyleLength::spec_new(r.extent, layout.extent(is_lateral), to_pixel)
        &&& r.style.is_some() == !skip_set_style
        &&& r.style matches Some(w) ==> w.property@ == spec_length_property(is_lateral) && w.value@
            == r.length.spec_style_value()
    }
}

/// Resizes the one region that owns the handle against its container.
///
/// The region follows the pointer: its new extent is its rendered extent plus
/// the gap between the handle's edge and the pointer. A sample that a rule
/// forbids is dropped, not clamped: the answer is `None` and the region keeps
/// the size it has. Otherwise the answer carries the new extent, the length
/// for it (absolute if `to_pixel`, else the share of the container) and, unless
/// `skip_set_style`, the style that gives the region this length.
pub fn handle_panel_mousemove(
    is_lateral: bool,
    to_left: bool,
    to_pixel: bool,
    min_len: Option<StyleLength>,
    max_len: Option<StyleLength>,
    layout: &Layout,
    e: Pointer,
    skip_set_style: bool,
) -> (res: Option<PanelResize>)
    ensures
        spec_panel_answer(
            res,
            is_lateral,
            to_left,
            to_pixel,
            min_len,
            max_len,
            *layout,
            e,
            skip_set_style,
        ),
{
    let Some((par_len, len, gap)) = get_lengths(layout, layout.owner, e, is_lateral, to_left) else {
        return None;
    };
    if par_len == 0 || gap == 0 {
        return None;
    }
    let to_len: i64 = len as i64 + gap;
    let is_expanding = gap > 0;
    if to_len < 0 || (par_len as i64) < to_len {
        return None;
    }
    let to_len: u32 = to_len as u32;
    let allowed = if is_expanding {
        match max_len {
            Some(limit) => limit.max_check(to_len, par_len),
            None => true,
        }
    } else {
        match min_len {
            Some(limit) => limit.min_check(to_len, par_len),
            None => true,
        }
    };
    if !allowed {
        return None;
    }
    let length = StyleLength::new(to_len, par_len, to_pixel);
    let style = if skip_set_style {
        None
    } else {
        length.set_style(is_lateral)
    };
    Some(PanelResize { extent: to_len, length, style })
}

/// Whether a size meets both limits, each where it is set.
pub open spec fn spec_meets_limits(
    min_len: Option<StyleLength>,
    max_len: Option<StyleLength>,
    len: u32,
    par_len: u32,
) -> bool {
    &&& min_len matches Some(limit) ==> limit.spec_min_check(len, par_len)
    &&& max_len matches Some(limit) ==> limit.spec_max_check(len, par_len)
}

/// A pointer on the handle's edge changes nothing.
pub proof fn lemma_panel_still(
    is_lateral: bool,
    to_left: bool,
    min_len: Option<StyleLength>,
    max_len: Option<StyleLength>,
    layout: Layout,
    e: Pointer,
)
    requires
        layout.owner < layout.regions@.len(),
        spec_gap(layout.regions@[layout.owner as int].rect, e, is_lateral, to_left) == 0,
    ensures
        spec_panel_extent(is_lateral, to_left, min_len, max_len, layout, e).is_none(),
{
}

/// The same sample twice changes something at most once. Where a sample was
/// accepted and the region has taken the new extent, its far edge staying
/// where it was, the handle's edge stands under the pointer, and the same
/// sample again changes nothing, whatever else the layout holds by then.
pub proof fn lemma_panel_repeat(
    is_lateral: bool,
    to_left: bool,
    min_len: Option<StyleLength>,
    max_len: Option<StyleLength>,
    layout: Layout,
    resized: Layout,
    e: Pointer,
)
    requires
        spec_panel_extent(is_lateral, to_left, min_len, max_len, layout, e).is_some(),
        resized.owner < resized.regions@.len(),
        ({
            let to_len = spec_panel_extent(is_lateral, to_left, min_len, max_len, layout, e).unwrap();
            let before = layout.regions@[layout.owner as int].rect;
            let after = resized.regions@[resized.owner as int].rect;
            &&& after.extent(is_lateral) == to_len
            &&& to_left ==> after.trailing(is_lateral) == before.trailing(is_lateral)
            &&& !to_left ==> after.leading(is_lateral) == before.leading(is_lateral)
        }),
    ensures
        spec_gap(resized.regions@[resized.owner as int].rect, e, is_lateral, to_left) == 0,
        spec_panel_extent(is_lateral, to_left, min_len, max_len, resized, e).is_none(),
{
}

/// An accepted extent lies in the container and meets the limit on the side
/// it moved to: the upper one if the region grew, the lower one if it shrank.
/// It does so as an absolute size and as a share of the container.
pub proof fn lemma_panel_respects_bounds(
    is_lateral: bool,
    to_left: bool,
    min_len: Option<StyleLength>,
    max_len: Option<StyleLength>,
    layout: Layout,
    e: Pointer,
)
    requires
        spec_panel_extent(is_lateral, to_left, min_len, max_len, layout, e).is_some(),
    ensures
        ({
            let to_len = spec_panel_extent(is_lateral, to_left, min_len, max_len, layout, e).unwrap();
            let par_len = layout.extent(is_lateral);
            let rect = layout.regions@[layout.owner as int].rect;
            let share = percent_of(to_len as int, par_len as int);
            &&& 0 <= to_len <= par_len
            &&& 0 <= share <= 10000
            &&& to_len > rect.extent(is_lateral) ==> (max_len matches Some(limit)
                ==> limit.spec_max_check(to_len, par_len) && limit.spec_check_max_limit(
                to_len as int,
                share,
            ))
            &&& to_len < rect.extent(is_lateral) ==> (min_len matches Some(limit)
                ==> limit.spec_min_check(to_len, par_len) && limit.spec_check_min_limit(
                to_len as int,
                share,
            ))
        }),
{
    let to_len = spec_panel_extent(is_lateral, to_left, min_len, max_len, layout, e).unwrap();
    let par_len = layout.extent(is_lateral);
    let rect = layout.regions@[layout.owner as int].rect;
    lemma_percent_of_bounds(to_len as int, par_len as int);
    if to_len > rect.extent(is_lateral) {
        if let Some(limit) = max_len {
        }
    } else {
        if let Some(limit) = min_len {
        }
    }
}

/// A region that met both limits before an accepted resize meets both after
/// it, as an absolute size and as a share of the container.
pub proof fn lemma_panel_keeps_limits(
    is_lateral: bool,
    to_left: bool,
    min_len: Option<StyleLength>,
    max_len: Option<StyleLength>,
    layout: Layout,
    e: Pointer,
)
    requires
        spec_panel_extent(is_lateral, to_left, min_len, max_len, layout, e).is_some(),
        spec_meets_limits(
            min_len,
            max_len,
            layout.regions@[layout.owner as int].rect.extent(is_lateral),
            layout.extent(is_lateral),
        ),
    ensures
        ({
            let to_len = spec_panel_extent(is_lateral, to_left, min_len, max_len, layout, e).unwrap();
            let par_len = layout.extent(is_lateral);
            let share = percent_of(to_len as int, par_len as int);
            &&& spec_meets_limits(min_len, max_len, to_len, par_len)
            &&& min_len matches Some(limit) ==> limit.spec_check_min_limit(to_len as int, share)
            &&& max_len matches Some(limit) ==> limit.spec_check_max_limit(to_len as int, share)
        }),
{
    let to_len = spec_panel_extent(is_lateral, to_left, min_len, max_len, layout, e).unwrap();
    let par_len = layout.extent(is_lateral);
    let len = layout.regions@[layout.owner as int].rect.extent(is_lateral);
    if let Some(limit) = min_len {
        if to_len > len {
            lemma_min_check_grows(limit, len, to_len, par_len);
        }
    }
    if let Some(limit) = max_len {
        if to_len < len {
            lemma_max_check_shrinks(limit, to_len, len, par_len);
        }
    }
}

/// Beyond a refused sample every sample is refused: where the pointer is
/// off the handle's edge and changes nothing, a pointer farther out on the
/// same side changes nothing either. The region is never set to the limit
/// that stopped it. This is said of a region that is not refused for being
/// larger than its container while it shrinks: such a region is taken again
/// once the pointer has brought it inside.
pub proof fn lemma_panel_sticky(
    is_lateral: bool,
    to_left: bool,
    min_len: Option<StyleLength>,
    max_len: Option<StyleLength>,
    layout: Layout,
    e: Pointer,
    farther: Pointer,
)
    requires
        layout.owner < layout.regions@.len(),
        spec_panel_extent(is_lateral, to_left, min_len, max_len, layout, e).is_none(),
        ({
            let rect = layout.regions@[layout.owner as int].rect;
            let gap = spec_gap(rect, e, is_lateral, to_left);
            let gap_farther = spec_gap(rect, farther, is_lateral, to_left);
            (0 < gap <= gap_farther) || (gap_farther <= gap < 0 && rect.extent(is_lateral) + gap
                <= layout.extent(is_lateral))
        }),
    ensures
        spec_panel_extent(is_lateral, to_left, min_len, max_len, layout, farther).is_none(),
{
    let rect = layout.regions@[layout.owner as int].rect;
    let par_len = layout.extent(is_lateral);
    let gap = spec_gap(rect, e, is_lateral, to_left);
    let gap_farther = spec_gap(rect, farther, is_lateral, to_left);
    let to_len = rect.extent(is_lateral) + gap;
    let to_len_farther = rect.extent(is_lateral) + gap_farther;
    if par_len != 0 && 0 <= to_len_farther <= par_len {
        if gap > 0 {
            if let Some(limit) = max_len {
                if limit.spec_max_check(to_len_farther as u32, par_len) {
                    lemma_max_check_shrinks(limit, to_len as u32, to_len_farther as u32, par_len);
                }
            }
        } else {
            if let Some(limit) = min_len {
                if limit.spec_min_check(to_len_farther as u32, par_len) {
                    lemma_min_check_grows(limit, to_len_farther as u32, to_len as u32, par_len);
                }
            }
        }
    }
}

} // verus!
