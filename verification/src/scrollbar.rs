use vstd::prelude::*;
use vstd::string::StringExecFns;
use crate::arith::{lemma_product_bound, product_u32, product_u64, size_i32};
use crate::drag::{spec_dragging_after, spec_listeners_on, DragEvent, Listeners, PRIMARY_BUTTON};
use crate::decimal::{hundredths, push_hundredths, push_signed_hundredths, signed_hundredths};
use crate::geometry::Pointer;
use crate::stylelength::{percent, percent_of, spec_length_property, StyleLength, StyleWrite};

verus! {

/// The thumb's least length where none is configured: twenty pixels.
pub const DEFAULT_MIN_LENGTH: u32 = 2000;

/// A scrollable container as measured now: what of it is visible, how far
/// its content reaches, and how far it is scrolled.
#[derive(Debug, Clone, Copy, PartialEq, Eq, Structural)]
pub struct ScrollMetrics {
    pub client_width: u32,
    pub client_height: u32,
    pub scroll_width: u32,
    pub scroll_height: u32,
    pub scroll_left: i32,
    pub scroll_top: i32,
}

/// A command to scroll a container on from where it stands.
#[derive(Debug, Clone, Copy, PartialEq, Eq, Structural)]
pub struct ScrollBy {
    pub x: i128,
    pub y: i128,
}

/// Where the thumb goes: its length and its offset in hundredths of a percent
/// of the visible extent, and the two styles that put it there.
#[derive(Debug, Clone)]
pub struct BarStyle {
    pub length: u64,
    pub offset: i64,
    pub length_style: StyleWrite,
    pub offset_style: StyleWrite,
}

/// The outcome of looking at the container again: the thumb's place, where one
/// can be computed, and the new answer to "can it scroll?", where that answer
/// has changed.
#[derive(Debug, Clone)]
pub struct BarUpdate {
    pub scrollable: Option<bool>,
    pub style: Option<BarStyle>,
}

/// The settings of one scrollbar.
#[derive(Debug, Clone, Copy)]
pub struct ScrollBar {
    pub is_lateral: bool,
    pub take_orthogonal: bool,
    pub min_length: Option<StyleLength>,
}

/// A scrollbar at work. `last` is where the pointer was at the latest sample
/// of a drag of the thumb, and `None` while no drag goes on.
#[derive(Debug, Clone, Copy)]
pub struct ScrollBarSession {
    pub bar: ScrollBar,
    pub last: Option<i32>,
}

impl ScrollMetrics {
    /// The visible extent along the axis.
    pub open spec fn visible(self, is_lateral: bool) -> u32 {
        if is_lateral {
            self.client_width
        } else {
            self.client_height
        }
    }

    /// The scrollable extent along the axis.
    pub open spec fn scrollable(self, is_lateral: bool) -> u32 {
        if is_lateral {
            self.scroll_width
        } else {
            self.scroll_height
        }
    }

    /// The scroll offset along the axis.
    pub open spec fn offset(self, is_lateral: bool) -> i32 {
        if is_lateral {
            self.scroll_left
        } else {
            self.scroll_top
        }
    }
}

/// `a / b` rounded to the nearest whole number, for `b > 0`; a half goes
/// away from zero.
pub open spec fn spec_div_nearest(a: int, b: int) -> int
    recommends
        b > 0,
{
    if a >= 0 {
        (a + b / 2) / b
    } else {
        -((-a + b / 2) / b)
    }
}

/// The thumb's length in hundredths of a percent: the visible share of the
/// content, raised to the least length, taken as a share of the visible
/// extent, where that is more. The least length never shortens the thumb.
pub open spec fn spec_thumb_length(min_length: StyleLength, visible: u32, scrollable: u32) -> int
    recommends
        visible > 0,
        scrollable > 0,
{
    let natural = percent_of(visible as int, scrollable as int);
    let least = min_length.spec_to_percent(visible);
    if natural >= least {
        natural
    } else {
        least
    }
}

/// The thumb's offset in hundredths of a percent:
/// `offset * (1 + visible / scrollable) / visible`, to the nearest hundredth.
/// It passes a hundred percent where the content is longer than what is
/// visible.
pub open spec fn spec_thumb_offset(offset: i32, visible: u32, scrollable: u32) -> int
    recommends
        visible > 0,
        scrollable > 0,
{
    spec_div_nearest(offset * (scrollable + visible) * 10000, scrollable * visible)
}

/// How far the content scrolls when the thumb is dragged by `delta`: the
/// thumb's way divided by the visible share, to the nearest hundredth of a
/// pixel.
pub open spec fn spec_drag_scroll(delta: int, visible: u32, scrollable: u32) -> int
    recommends
        visible > 0,
{
    spec_div_nearest(delta * scrollable, visible as int)
}

/// The names of the thumb's two properties along the axis.
pub open spec fn spec_offset_property(is_lateral: bool) -> Seq<char> {
    if is_lateral {
        "left"@
    } else {
        "top"@
    }
}

/// The property that keeps an element at a scrolled container's edge.
pub open spec fn spec_edge_property(lateral_scroll: bool, on_left: bool) -> Seq<char> {
    if lateral_scroll {
        if on_left {
            "left"@
        } else {
            "right"@
        }
    } else {
        if on_left {
            "top"@
        } else {
            "bottom"@
        }
    }
}

/// Whether `res` is what a look at the container gives: nothing without a
/// container; else the new answer to "can it scroll?" where `is_scrollable`
/// holds another one, and the thumb's place unless the visible or the
/// scrollable extent is zero. The thumb's least length is `min_length`, or
/// twenty pixels where none is given.
pub open spec fn spec_bar_update(
    res: Option<BarUpdate>,
    is_lateral: bool,
    parent: Option<ScrollMetrics>,
    min_length: Option<StyleLength>,
    is_scrollable: Option<bool>,
) -> bool {
    &&& res.is_some() == parent.is_some()
    &&& res matches Some(u) ==> {
        let m = parent.unwrap();
        let w = m.visible(is_lateral);
        let sw = m.scrollable(is_lateral);
        let least = match min_length {
            Some(l) => l,
            None => StyleLength::Pixel(DEFAULT_MIN_LENGTH),
        };
        &&& u.scrollable == match is_scrollable {
            Some(b) => if b != (sw > w) {
                Some(sw > w)
            } else {
                None
            },
            None => None,
        }
        &&& u.style.is_some() == (w > 0 && sw > 0)
        &&& u.style matches Some(s) ==> {
            &&& s.length == spec_thumb_length(least, w, sw)
            &&& s.offset == spec_thumb_offset(m.offset(is_lateral), w, sw)
            &&& s.length_style.property@ == spec_length_property(is_lateral)
            &&& s.length_style.value@ == hundredths(s.length as nat) + "%"@
            &&& s.offset_style.property@ == spec_offset_property(is_lateral)
            &&& s.offset_style.value@ == signed_hundredths(s.offset as int) + "%"@
        }
    }
}

/// `n / d` to the nearest whole number, for a numerator given by its size
/// and its sign.
fn div_nearest(negative: bool, size: u128, d: u128) -> (q: i128)
    requires
        d > 0,
        size + d / 2 <= u128::MAX,
        (size + d / 2) / (d as int) <= i128::MAX,
    ensures
        q == spec_div_nearest(if negative { -(size as int) } else { size as int }, d as int),
{
    let q = ((size + d / 2) / d) as i128;
    if negative && size > 0 {
        -q
    } else {
        q
    }
}

impl ScrollBar {
    pub fn new(is_lateral: bool, take_orthogonal: bool, min_length: Option<StyleLength>) -> (res: ScrollBar)
        ensures
            res.is_lateral == is_lateral,
            res.take_orthogonal == take_orthogonal,
            res.min_length == min_length,
    {
        ScrollBar { is_lateral, take_orthogonal, min_length }
    }

    /// Puts the scrollbar to work, with no drag going on.
    pub fn set_scrollbar(self) -> (res: ScrollBarSession)
        ensures
            res.bar == self,
            res.last.is_none(),
    {
        ScrollBarSession { bar: self, last: None }
    }

    /// The command that scrolls on by `delta` along the axis.
    pub fn update_scroll(is_lateral: bool, delta: i128) -> (res: ScrollBy)
        ensures
            res == if is_lateral {
                (ScrollBy { x: delta, y: 0 })
            } else {
                (ScrollBy { x: 0, y: delta })
            },
    {
        if is_lateral {
            ScrollBy { x: delta, y: 0 }
        } else {
            ScrollBy { x: 0, y: delta }
        }
    }

    /// Looks at the scrolled container and says where the thumb goes.
    ///
    /// Without a container there is nothing to say. With one, `scrollable`
    /// carries whether the content is longer than what is visible, but only
    /// where `is_scrollable` holds another answer (where it holds none, nobody
    /// listens). The thumb's place is computed unless the visible or the
    /// scrollable extent is zero; its least length is `min_length`, or twenty
    /// pixels where none is given.
    pub fn update_bar_style(
        is_lateral: bool,
        parent: Option<ScrollMetrics>,
        min_length: Option<StyleLength>,
        is_scrollable: Option<bool>,
    ) -> (res: Option<BarUpdate>)
        ensures
            spec_bar_update(res, is_lateral, parent, min_length, is_scrollable),
    {
        let min_length = match min_length {
            Some(l) => l,
            None => StyleLength::Pixel(DEFAULT_MIN_LENGTH),
        };
        let Some(parent) = parent else {
            return None;
        };
        let (w, sw, sl) = if is_lateral {
            (parent.client_width, parent.scroll_width, parent.scroll_left)
        } else {
            (parent.client_height, parent.scroll_height, parent.scroll_top)
        };
        let b = sw > w;
        let scrollable = match is_scrollable {
            Some(known) => if b != known {
                Some(b)
            } else {
                None
            },
            None => None,
        };
        if w == 0 || sw == 0 {
            return Some(BarUpdate { scrollable, style: None });
        }
        // the bar's length in percent

        let mut bar_pl: u64 = percent(w, sw);
        let least: u64 = min_length.to_percent(w);
        if bar_pl < least {
            bar_pl = least;
        }
        // the bar's offset in percent

        let ghost n = sl * (sw + w) * 10000;
        let ghost d = sw * w;
        let reach: u64 = sw as u64 + w as u64;
        let away: u32 = size_i32(sl);
        proof {
            lemma_product_bound(away as int, reach as int, 0x8000_0000, 0x2_0000_0000);
        }
        let size: u128 = product_u64(away as u64, reach) * 10000;
        let span: u128 = product_u32(sw, w) as u128;
        proof {
            lemma_offset_bound(sl as int, sw as int, w as int);
            assert(size == if sl < 0 {
                -n
            } else {
                n
            }) by (nonlinear_arith)
                requires
                    n == sl * (sw + w) * 10000,
                    size == (if sl < 0 {
                        -sl
                    } else {
                        sl as int
                    }) * (sw + w) * 10000,
            ;
        }
        let bar_left: i64 = div_nearest(sl < 0, size, span) as i64;

        let (width, left) = if is_lateral {
            ("width", "left")
        } else {
            ("height", "top")
        };
        let mut length_value = String::new();
        push_hundredths(&mut length_value, bar_pl);
        length_value.append("%");
        let mut offset_value = String::new();
        push_signed_hundredths(&mut offset_value, bar_left);
        offset_value.append("%");
        assert(length_value@ =~= hundredths(bar_pl as nat) + "%"@);
        assert(offset_value@ =~= signed_hundredths(bar_left as int) + "%"@);
        Some(
            BarUpdate {
                scrollable,
                style: Some(
                    BarStyle {
                        length: bar_pl,
                        offset: bar_left,
                        length_style: StyleWrite { property: width, value: length_value },
                        offset_style: StyleWrite { property: left, value: offset_value },
                    },
                ),
            },
        )
    }
}

impl ScrollBarSession {
    /// Whether the thumb is being dragged.
    pub open spec fn dragging(self) -> bool {
        self.last.is_some()
    }

    /// The container has scrolled or changed its size, or the bar has just
    /// been put in place: where the thumb goes now.
    pub fn update(&self, parent: Option<ScrollMetrics>, is_scrollable: Option<bool>) -> (res: Option<
        BarUpdate,
    >)
        ensures
            spec_bar_update(res, self.bar.is_lateral, parent, self.bar.min_length, is_scrollable),
    {
        ScrollBar::update_bar_style(self.bar.is_lateral, parent, self.bar.min_length, is_scrollable)
    }

    /// The wheel turned over the container. A bar that takes the movement
    /// across its axis scrolls by it along its axis: a lateral bar by the
    /// vertical turn, a vertical bar by the lateral one. No command comes from
    /// a bar that does not take it, from a turn of zero, or without a
    /// container.
    pub fn wheel(&self, delta_x: i32, delta_y: i32, has_parent: bool) -> (res: Option<ScrollBy>)
        ensures
            ({
                let delta = if self.bar.is_lateral {
                    delta_y
                } else {
                    delta_x
                };
                res == if self.bar.take_orthogonal && delta != 0 && has_parent {
                    Some(
                        if self.bar.is_lateral {
                            (ScrollBy { x: delta as i128, y: 0 })
                        } else {
                            (ScrollBy { x: 0, y: delta as i128 })
                        },
                    )
                } else {
                    None
                }
            }),
    {
        if !self.bar.take_orthogonal {
            return None;
        }
        let delta = if self.bar.is_lateral {
            delta_y
        } else {
            delta_x
        };
        if delta != 0 && has_parent {
            Some(ScrollBar::update_scroll(self.bar.is_lateral, delta as i128))
        } else {
            None
        }
    }

    /// A button went down on the thumb. With the primary button a drag starts
    /// at the pointer, or goes on from there, and the two listeners are
    /// attached unless a drag was going on already. Another button changes
    /// nothing.
    pub fn mousedown(&mut self, e: Pointer, button: i16) -> (res: Listeners)
        ensures
            final(self).bar == old(self).bar,
            final(self).last == if button == PRIMARY_BUTTON {
                Some(if old(self).bar.is_lateral { e.x } else { e.y })
            } else {
                old(self).last
            },
            final(self).dragging() == spec_dragging_after(
                old(self).dragging(),
                DragEvent::Press { button },
            ),
            res == spec_listeners_on(old(self).dragging(), DragEvent::Press { button }),
    {
        if button != PRIMARY_BUTTON {
            return Listeners::Keep;
        }
        let was_dragging = self.last.is_some();
        self.last = Some(if self.bar.is_lateral {
            e.x
        } else {
            e.y
        });
        if was_dragging {
            Listeners::Keep
        } else {
            Listeners::Attach
        }
    }

    /// The pointer moved. Outside a drag nothing happens. During one the
    /// pointer's place is kept for the next move, and the container scrolls by
    /// the thumb's way since the last move, divided by the visible share of the
    /// content; no command comes without a container or with nothing visible.
    pub fn mousemove(&mut self, e: Pointer, parent: Option<ScrollMetrics>) -> (res: Option<ScrollBy>)
        ensures
            final(self).bar == old(self).bar,
            !old(self).dragging() ==> res.is_none() && final(self).last.is_none(),
            old(self).dragging() ==> {
                let is_lateral = old(self).bar.is_lateral;
                let delta = e.along(is_lateral) - old(self).last.unwrap();
                &&& final(self).last == Some(e.along(is_lateral) as i32)
                &&& res.is_some() == (parent.is_some() && parent.unwrap().visible(is_lateral) > 0)
                &&& res matches Some(by) ==> {
                    let way = spec_drag_scroll(
                        delta,
                        parent.unwrap().visible(is_lateral),
                        parent.unwrap().scrollable(is_lateral),
                    );
                    by == if is_lateral {
                        (ScrollBy { x: way as i128, y: 0 })
                    } else {
                        (ScrollBy { x: 0, y: way as i128 })
                    } && i128::MIN <= way <= i128::MAX
                }
            },
    {
        let Some(x0) = self.last else {
            return None;
        };
        let is_lateral = self.bar.is_lateral;
        let x1 = if is_lateral {
            e.x
        } else {
            e.y
        };
        self.last = Some(x1);
        let delta: i64 = x1 as i64 - x0 as i64;
        let Some(parent) = parent else {
            return None;
        };
        let (w, sw) = if is_lateral {
            (parent.client_width, parent.scroll_width)
        } else {
            (parent.client_height, parent.scroll_height)
        };
        if w == 0 {
            return None;
        }
        let size: u64 = if delta < 0 {
            (-delta) as u64
        } else {
            delta as u64
        };
        let reach: u128 = product_u64(size, sw as u64);
        proof {
            lemma_product_bound(size as int, sw as int, 0x1_0000_0000, 0x1_0000_0000);
            assert((reach + w / 2) / (w as int) <= reach + w / 2) by (nonlinear_arith)
                requires
                    w > 0,
                    reach >= 0,
            ;
        }
        let way = div_nearest(delta < 0, reach, w as u128);
        assert(delta * sw == if delta < 0 {
            -(size * sw)
        } else {
            size * sw
        }) by (nonlinear_arith)
            requires
                size == if delta < 0 {
                    -delta
                } else {
                    delta as int
                },
        ;
        Some(ScrollBar::update_scroll(is_lateral, way))
    }

    /// The button came up, or the bar is taken away: the drag ends. The two
    /// listeners are detached if a drag was going on, and ending twice does
    /// no harm.
    pub fn mouseup(&mut self) -> (res: Listeners)
        ensures
            final(self).bar == old(self).bar,
            final(self).last.is_none(),
            res == spec_listeners_on(old(self).dragging(), DragEvent::Release),
            res == if old(self).dragging() {
                Listeners::Detach
            } else {
                Listeners::Keep
            },
    {
        let was_dragging = self.last.is_some();
        self.last = None;
        if was_dragging {
            Listeners::Detach
        } else {
            Listeners::Keep
        }
    }
}

/// The least length only raises the thumb: the thumb is never shorter than
/// the visible share of the content, and never shorter than the least length
/// as a share of the visible extent. It is one of the two.
pub proof fn lemma_thumb_not_shortened(min_length: StyleLength, visible: u32, scrollable: u32)
    ensures
        ({
            let length = spec_thumb_length(min_length, visible, scrollable);
            let natural = percent_of(visible as int, scrollable as int);
            let least = min_length.spec_to_percent(visible);
            &&& length >= natural
            &&& length >= least
            &&& length == natural || length == least
        }),
{
}

/// The thumb's offset is at most twice the scroll offset, as a percentage.
proof fn lemma_offset_bound(sl: int, sw: int, w: int)
    requires
        sw > 0,
        w > 0,
        -0x8000_0000 <= sl < 0x8000_0000,
    ensures
        ({
            let size = (if sl < 0 {
                -sl
            } else {
                sl
            }) * (sw + w) * 10000;
            0 <= (size + sw * w / 2) / (sw * w) <= 0x8000_0000 * 20000 + 1
        }),
        sw * w > 0,
{
    let a = if sl < 0 {
        -sl
    } else {
        sl
    };
    let d = sw * w;
    assert(d > 0 && sw + w <= 2 * d) by (nonlinear_arith)
        requires
            sw > 0,
            w > 0,
            d == sw * w,
    ;
    let size = a * (sw + w) * 10000;
    assert(0 <= size <= (a * 20000) * d) by (nonlinear_arith)
        requires
            0 <= a,
            0 < sw + w <= 2 * d,
            size == a * (sw + w) * 10000,
    ;
    assert(0 <= (size + d / 2) / d <= a * 20000 + 1) by (nonlinear_arith)
        requires
            d > 0,
            0 <= size <= (a * 20000) * d,
    ;
}

/// Keeps an element at the edge of a scrolled container: the property to set,
/// and the offset that outweighs the container's scrolling. At the leading
/// edges (`on_left`) that is the scroll offset itself, at the trailing ones
/// its negative.
pub fn sync_scroll_absolute_position(
    parent: Option<ScrollMetrics>,
    lateral_scroll: bool,
    on_left: bool,
) -> (res: Option<StyleWrite>)
    ensures
        res.is_some() == parent.is_some(),
        res matches Some(w) ==> {
            let offset = parent.unwrap().offset(lateral_scroll) as int;
            &&& w.property@ == spec_edge_property(lateral_scroll, on_left)
            &&& w.value@ == signed_hundredths(if on_left { offset } else { -offset }) + "px"@
        },
{
    let Some(parent) = parent else {
        return None;
    };
    let mut to: i64 = (if lateral_scroll {
        parent.scroll_left
    } else {
        parent.scroll_top
    }) as i64;
    let property = if lateral_scroll {
        if on_left {
            "left"
        } else {
            "right"
        }
    } else {
        if on_left {
            "top"
        } else {
            "bottom"
        }
    };
    if !on_left {
        to = -to;
    }
    let mut value = String::new();
    push_signed_hundredths(&mut value, to);
    value.append("px");
    assert(value@ =~= signed_hundredths(to as int) + "px"@);
    Some(StyleWrite { property, value })
}

} // verus!
