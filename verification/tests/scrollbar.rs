use sycamore_seoul::{
    sync_scroll_absolute_position, Listeners, Pointer, ScrollBar, ScrollBy, ScrollMetrics,
    StyleLength,
};

fn lateral(visible: u32, scrollable: u32, offset: i32) -> ScrollMetrics {
    ScrollMetrics {
        client_width: visible,
        client_height: 11,
        scroll_width: scrollable,
        scroll_height: 13,
        scroll_left: offset,
        scroll_top: 17,
    }
}

fn vertical(visible: u32, scrollable: u32, offset: i32) -> ScrollMetrics {
    ScrollMetrics {
        client_width: 11,
        client_height: visible,
        scroll_width: 13,
        scroll_height: scrollable,
        scroll_left: 17,
        scroll_top: offset,
    }
}

#[test]
fn thumb_of_a_fifth_at_sixty_percent() {
    // visible 200px, content 1000px, scrolled by 100px
    let u = ScrollBar::update_bar_style(true, Some(lateral(20000, 100000, 10000)), None, None).unwrap();
    let s = u.style.unwrap();
    assert_eq!(s.length, 2000);
    assert_eq!(s.offset, 6000);
    assert_eq!(s.length_style.property, "width");
    assert_eq!(s.length_style.value, "20.00%");
    assert_eq!(s.offset_style.property, "left");
    assert_eq!(s.offset_style.value, "60.00%");
}

#[test]
fn vertical_bar_writes_height_and_top() {
    let u = ScrollBar::update_bar_style(false, Some(vertical(20000, 100000, 10000)), None, None).unwrap();
    let s = u.style.unwrap();
    assert_eq!(s.length_style.property, "height");
    assert_eq!(s.length_style.value, "20.00%");
    assert_eq!(s.offset_style.property, "top");
    assert_eq!(s.offset_style.value, "60.00%");
}

#[test]
fn short_thumb_is_raised_to_the_least_length() {
    // visible 200px of 10000px: the natural thumb is 2% or 4px, under the 20px of the default
    let u = ScrollBar::update_bar_style(true, Some(lateral(20000, 1000000, 0)), None, None).unwrap();
    let s = u.style.unwrap();
    assert_eq!(s.length, 1000);
    assert_eq!(s.length_style.value, "10.00%");
    // a configured least length of 50px is a quarter of what is visible
    let min = Some(StyleLength::Pixel(5000));
    let s = ScrollBar::update_bar_style(true, Some(lateral(20000, 1000000, 0)), min, None).unwrap().style.unwrap();
    assert_eq!(s.length, 2500);
}

#[test]
fn thumb_exactly_at_the_least_length_is_natural() {
    // 200px visible of 2000px: the natural thumb is 20px, the default least length
    let s = ScrollBar::update_bar_style(true, Some(lateral(20000, 200000, 0)), None, None).unwrap().style.unwrap();
    assert_eq!(s.length, 1000);
    // one hundredth of a pixel more content, and the thumb is the least length in percent
    let s = ScrollBar::update_bar_style(true, Some(lateral(20000, 200001, 0)), None, None).unwrap().style.unwrap();
    assert_eq!(s.length, 1000);
    let s = ScrollBar::update_bar_style(true, Some(lateral(30000, 450001, 0)), None, None).unwrap().style.unwrap();
    // natural is 6.67%, and the least length of 20px is 6.67% of 300px too
    assert_eq!(s.length, 667);
}

#[test]
fn thumb_rounds_to_the_nearest_hundredth() {
    // 200px visible of 300px are 66.666..%
    let s = ScrollBar::update_bar_style(true, Some(lateral(20000, 30000, 0)), None, None).unwrap().style.unwrap();
    assert_eq!(s.length, 6667);
    assert_eq!(s.length_style.value, "66.67%");
    let s = ScrollBar::update_bar_style(true, Some(lateral(10000, 30000, 0)), None, None).unwrap().style.unwrap();
    assert_eq!(s.length_style.value, "33.33%");
}

#[test]
fn least_length_only_raises_the_thumb() {
    // a fifth of the content is visible
    let m = lateral(20000, 100000, 0);
    let s = ScrollBar::update_bar_style(true, Some(m), Some(StyleLength::Percent(400)), None).unwrap().style.unwrap();
    assert_eq!(s.length, 2000);
    let s = ScrollBar::update_bar_style(true, Some(m), Some(StyleLength::Percent(2000)), None).unwrap().style.unwrap();
    assert_eq!(s.length, 2000);
    let s = ScrollBar::update_bar_style(true, Some(m), Some(StyleLength::Percent(2001)), None).unwrap().style.unwrap();
    assert_eq!(s.length, 2001);
    // a least length of 30% does not shorten a thumb of a half
    let half = lateral(20000, 40000, 0);
    let s = ScrollBar::update_bar_style(true, Some(half), Some(StyleLength::Percent(3000)), None).unwrap().style.unwrap();
    assert_eq!(s.length, 5000);
    // a length with both parts counts by its proportional part
    let s = ScrollBar::update_bar_style(true, Some(m), Some(StyleLength::PixelPercent(19000, 300)), None).unwrap().style.unwrap();
    assert_eq!(s.length, 2000);
    let s = ScrollBar::update_bar_style(true, Some(m), Some(StyleLength::PixelPercent(1, 2500)), None).unwrap().style.unwrap();
    assert_eq!(s.length, 2500);
    let s = ScrollBar::update_bar_style(true, Some(m), Some(StyleLength::Null), None).unwrap().style.unwrap();
    assert_eq!(s.length, 2000);
}

#[test]
fn offset_may_pass_the_whole() {
    // scrolled to the end: 800px of 1000px with 200px visible
    let s = ScrollBar::update_bar_style(true, Some(lateral(20000, 100000, 80000)), None, None).unwrap().style.unwrap();
    assert_eq!(s.offset, 48000);
    assert_eq!(s.offset_style.value, "480.00%");
}

#[test]
fn offset_rounds_to_the_nearest_hundredth() {
    // 1 * (3 + 7) * 10000 / 21 = 4761.9..
    let s = ScrollBar::update_bar_style(true, Some(lateral(3, 7, 1)), Some(StyleLength::Null), None).unwrap().style.unwrap();
    assert_eq!(s.offset, 4762);
    assert_eq!(s.offset_style.value, "47.62%");
    let s = ScrollBar::update_bar_style(true, Some(lateral(3, 7, -1)), Some(StyleLength::Null), None).unwrap().style.unwrap();
    assert_eq!(s.offset, -4762);
    assert_eq!(s.offset_style.value, "-47.62%");
    // 1 * (3 + 4) * 10000 / 12 = 5833.3..
    let s = ScrollBar::update_bar_style(true, Some(lateral(3, 4, 1)), Some(StyleLength::Null), None).unwrap().style.unwrap();
    assert_eq!(s.offset, 5833);
    // 1 * (40000 + 1) * 10000 / 40000 = 10000.25
    let s = ScrollBar::update_bar_style(true, Some(lateral(1, 40000, 1)), Some(StyleLength::Null), None).unwrap().style.unwrap();
    assert_eq!(s.offset, 10000);
    // a half goes away from zero: 1 * (20000 + 1) * 10000 / 20000 = 10000.5
    let s = ScrollBar::update_bar_style(true, Some(lateral(1, 20000, 1)), Some(StyleLength::Null), None).unwrap().style.unwrap();
    assert_eq!(s.offset, 10001);
    let s = ScrollBar::update_bar_style(true, Some(lateral(1, 20000, -1)), Some(StyleLength::Null), None).unwrap().style.unwrap();
    assert_eq!(s.offset, -10001);
}

#[test]
fn extreme_metrics_do_not_overflow() {
    let s = ScrollBar::update_bar_style(true, Some(lateral(1, 1, i32::MIN)), Some(StyleLength::Percent(u64::MAX)), None)
        .unwrap()
        .style
        .unwrap();
    assert_eq!(s.offset, -42949672960000);
    assert_eq!(s.length, u64::MAX);
    let s = ScrollBar::update_bar_style(true, Some(lateral(u32::MAX, u32::MAX, i32::MAX)), Some(StyleLength::Percent(u64::MAX)), None)
        .unwrap()
        .style
        .unwrap();
    assert_eq!(s.length, u64::MAX);
    // (2^31 - 1) * 2 * (2^32 - 1) * 10000 / (2^32 - 1)^2 = 9999.99..
    assert_eq!(s.offset, 10000);
    let s = ScrollBar::update_bar_style(true, Some(lateral(u32::MAX, 1, 0)), None, None).unwrap().style.unwrap();
    assert_eq!(s.length, 42949672950000);
}

#[test]
fn scrollable_is_told_only_when_it_changes() {
    let longer = Some(lateral(20000, 100000, 0));
    let fits = Some(lateral(20000, 20000, 0));
    assert_eq!(ScrollBar::update_bar_style(true, longer, None, Some(false)).unwrap().scrollable, Some(true));
    assert_eq!(ScrollBar::update_bar_style(true, longer, None, Some(true)).unwrap().scrollable, None);
    assert_eq!(ScrollBar::update_bar_style(true, fits, None, Some(true)).unwrap().scrollable, Some(false));
    assert_eq!(ScrollBar::update_bar_style(true, fits, None, Some(false)).unwrap().scrollable, None);
    // nobody listens
    assert_eq!(ScrollBar::update_bar_style(true, longer, None, None).unwrap().scrollable, None);
}

#[test]
fn collapsed_container_gets_no_thumb() {
    let u = ScrollBar::update_bar_style(true, Some(lateral(0, 100000, 0)), None, Some(false)).unwrap();
    assert!(u.style.is_none());
    assert_eq!(u.scrollable, Some(true));
    let u = ScrollBar::update_bar_style(true, Some(lateral(20000, 0, 0)), None, Some(true)).unwrap();
    assert!(u.style.is_none());
    assert_eq!(u.scrollable, Some(false));
    let u = ScrollBar::update_bar_style(true, Some(lateral(0, 0, 0)), None, Some(false)).unwrap();
    assert!(u.style.is_none());
    assert_eq!(u.scrollable, None);
}

#[test]
fn without_a_container_nothing_is_said() {
    assert!(ScrollBar::update_bar_style(true, None, None, Some(false)).is_none());
}

#[test]
fn update_scroll_moves_along_the_axis() {
    assert_eq!(ScrollBar::update_scroll(true, 5), ScrollBy { x: 5, y: 0 });
    assert_eq!(ScrollBar::update_scroll(false, -5), ScrollBy { x: 0, y: -5 });
}

#[test]
fn new_keeps_the_settings() {
    let bar = ScrollBar::new(true, false, Some(StyleLength::Pixel(3000)));
    assert!(bar.is_lateral);
    assert!(!bar.take_orthogonal);
    assert_eq!(bar.min_length, Some(StyleLength::Pixel(3000)));
    let session = bar.set_scrollbar();
    assert_eq!(session.last, None);
    assert!(session.bar.is_lateral);
}

#[test]
fn session_update_uses_the_bars_settings() {
    let session = ScrollBar::new(false, false, Some(StyleLength::Pixel(5000))).set_scrollbar();
    let u = session.update(Some(vertical(20000, 1000000, 0)), Some(false)).unwrap();
    assert_eq!(u.scrollable, Some(true));
    let s = u.style.unwrap();
    assert_eq!(s.length, 2500);
    assert_eq!(s.length_style.property, "height");
}

#[test]
fn thumb_drag_scrolls_by_the_way_over_the_visible_share() {
    let mut session = ScrollBar::new(true, false, None).set_scrollbar();
    assert_eq!(session.mousedown(Pointer { x: 1000, y: 50 }, 0), Listeners::Attach);
    assert_eq!(session.last, Some(1000));
    // a fifth is visible: 10px of the thumb are 50px of the content
    let m = Some(lateral(20000, 100000, 0));
    assert_eq!(session.mousemove(Pointer { x: 2000, y: 99 }, m), Some(ScrollBy { x: 5000, y: 0 }));
    assert_eq!(session.last, Some(2000));
    // the way counts from the last sample
    assert_eq!(session.mousemove(Pointer { x: 1500, y: 99 }, m), Some(ScrollBy { x: -2500, y: 0 }));
    assert_eq!(session.mousemove(Pointer { x: 1500, y: 0 }, m), Some(ScrollBy { x: 0, y: 0 }));
    assert_eq!(session.mouseup(), Listeners::Detach);
    assert_eq!(session.last, None);
    // after the release a move does nothing and leaves the session idle
    assert_eq!(session.mousemove(Pointer { x: 9000, y: 0 }, m), None);
    assert_eq!(session.last, None);
    assert_eq!(session.mouseup(), Listeners::Keep);
}

#[test]
fn thumb_drag_of_a_vertical_bar_reads_y() {
    let mut session = ScrollBar::new(false, false, None).set_scrollbar();
    assert_eq!(session.mousedown(Pointer { x: 1000, y: 50 }, 0), Listeners::Attach);
    assert_eq!(session.mousedown(Pointer { x: 1000, y: 60 }, 0), Listeners::Keep);
    let m = Some(vertical(30000, 100000, 0));
    // 1 * 100000 / 30000 = 3.33.., -1 gives -3.33..
    assert_eq!(session.mousemove(Pointer { x: 0, y: 61 }, m), Some(ScrollBy { x: 0, y: 3 }));
    assert_eq!(session.mousemove(Pointer { x: 0, y: 60 }, m), Some(ScrollBy { x: 0, y: -3 }));
    // 2 * 100000 / 30000 = 6.66.., to the nearest hundredth of a pixel 7
    assert_eq!(session.mousemove(Pointer { x: 0, y: 62 }, m), Some(ScrollBy { x: 0, y: 7 }));
    assert_eq!(session.mousemove(Pointer { x: 0, y: 60 }, m), Some(ScrollBy { x: 0, y: -7 }));
}

#[test]
fn thumb_drag_starts_with_the_primary_button_only() {
    let mut session = ScrollBar::new(true, false, None).set_scrollbar();
    let m = Some(lateral(20000, 100000, 0));
    for button in [1, 2, 3, 4, -1] {
        assert_eq!(session.mousedown(Pointer { x: 1000, y: 50 }, button), Listeners::Keep);
        assert_eq!(session.last, None);
        assert_eq!(session.mousemove(Pointer { x: 2000, y: 50 }, m), None);
    }
    assert_eq!(session.mousedown(Pointer { x: 1000, y: 50 }, 0), Listeners::Attach);
    // another button during the drag does not move its start
    assert_eq!(session.mousedown(Pointer { x: 7000, y: 50 }, 2), Listeners::Keep);
    assert_eq!(session.last, Some(1000));
    assert_eq!(session.mousemove(Pointer { x: 2000, y: 50 }, m), Some(ScrollBy { x: 5000, y: 0 }));
}

#[test]
fn thumb_drag_without_measure_keeps_the_pointer() {
    let mut session = ScrollBar::new(true, false, None).set_scrollbar();
    session.mousedown(Pointer { x: 0, y: 0 }, 0);
    assert_eq!(session.mousemove(Pointer { x: 100, y: 0 }, None), None);
    assert_eq!(session.last, Some(100));
    assert_eq!(session.mousemove(Pointer { x: 200, y: 0 }, Some(lateral(0, 100000, 0))), None);
    assert_eq!(session.last, Some(200));
    assert_eq!(session.mousemove(Pointer { x: 300, y: 0 }, Some(lateral(20000, 0, 0))), Some(ScrollBy { x: 0, y: 0 }));
}

#[test]
fn thumb_drag_at_the_extremes() {
    let mut session = ScrollBar::new(true, false, None).set_scrollbar();
    session.mousedown(Pointer { x: i32::MIN, y: 0 }, 0);
    let by = session.mousemove(Pointer { x: i32::MAX, y: 0 }, Some(lateral(1, u32::MAX, 0))).unwrap();
    assert_eq!(by, ScrollBy { x: 4294967295 * 4294967295, y: 0 });
    let by = session.mousemove(Pointer { x: i32::MIN, y: 0 }, Some(lateral(1, u32::MAX, 0))).unwrap();
    assert_eq!(by, ScrollBy { x: -(4294967295 * 4294967295), y: 0 });
}

#[test]
fn wheel_across_the_axis_scrolls_along_it() {
    let lateral_bar = ScrollBar::new(true, true, None).set_scrollbar();
    assert_eq!(lateral_bar.wheel(7, 300, true), Some(ScrollBy { x: 300, y: 0 }));
    assert_eq!(lateral_bar.wheel(7, -300, true), Some(ScrollBy { x: -300, y: 0 }));
    assert_eq!(lateral_bar.wheel(7, 0, true), None);
    assert_eq!(lateral_bar.wheel(7, 300, false), None);
    let vertical_bar = ScrollBar::new(false, true, None).set_scrollbar();
    assert_eq!(vertical_bar.wheel(7, 300, true), Some(ScrollBy { x: 0, y: 7 }));
    assert_eq!(vertical_bar.wheel(0, 300, true), None);
}

#[test]
fn wheel_is_left_alone_unless_taken() {
    let bar = ScrollBar::new(true, false, None).set_scrollbar();
    assert_eq!(bar.wheel(7, 300, true), None);
}

#[test]
fn sync_scroll_absolute_position_follows_the_scrolling() {
    let m = ScrollMetrics {
        client_width: 0,
        client_height: 0,
        scroll_width: 0,
        scroll_height: 0,
        scroll_left: 12345,
        scroll_top: 678,
    };
    let w = sync_scroll_absolute_position(Some(m), true, true).unwrap();
    assert_eq!((w.property, w.value.as_str()), ("left", "123.45px"));
    let w = sync_scroll_absolute_position(Some(m), true, false).unwrap();
    assert_eq!((w.property, w.value.as_str()), ("right", "-123.45px"));
    let w = sync_scroll_absolute_position(Some(m), false, true).unwrap();
    assert_eq!((w.property, w.value.as_str()), ("top", "6.78px"));
    let w = sync_scroll_absolute_position(Some(m), false, false).unwrap();
    assert_eq!((w.property, w.value.as_str()), ("bottom", "-6.78px"));
    assert!(sync_scroll_absolute_position(None, true, true).is_none());
}

#[test]
fn sync_scroll_absolute_position_at_the_extremes() {
    let m = ScrollMetrics {
        client_width: 0,
        client_height: 0,
        scroll_width: 0,
        scroll_height: 0,
        scroll_left: i32::MIN,
        scroll_top: 0,
    };
    assert_eq!(sync_scroll_absolute_position(Some(m), true, true).unwrap().value, "-21474836.48px");
    assert_eq!(sync_scroll_absolute_position(Some(m), true, false).unwrap().value, "21474836.48px");
    assert_eq!(sync_scroll_absolute_position(Some(m), false, false).unwrap().value, "0.00px");
}
