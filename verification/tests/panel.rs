use sycamore_seoul::{handle_panel_mousemove, Layout, Pointer, Rect, Region, StyleLength};

fn panel(container: u32, left: i32, extent: u32) -> Layout {
    Layout {
        scroll_width: container,
        scroll_height: 7,
        regions: vec![Region { rect: Rect { left, top: 3, width: extent, height: 5 }, key: None }],
        owner: 0,
    }
}

fn column(container: u32, top: i32, extent: u32) -> Layout {
    Layout {
        scroll_width: 7,
        scroll_height: container,
        regions: vec![Region { rect: Rect { left: 3, top, width: 5, height: extent }, key: None }],
        owner: 0,
    }
}

const MIN: Option<StyleLength> = Some(StyleLength::Pixel(10000));
const MAX: Option<StyleLength> = Some(StyleLength::Pixel(80000));

#[test]
fn accepts_within_limits_then_refuses_beyond() {
    // container 1000px, region 400px, min 100px, max 800px, trailing handle
    let before = panel(100000, 0, 40000);
    let r = handle_panel_mousemove(true, false, true, MIN, MAX, &before, Pointer { x: 45000, y: 0 }, false)
        .unwrap();
    assert_eq!(r.extent, 45000);
    assert_eq!(r.length, StyleLength::Pixel(45000));
    let style = r.style.unwrap();
    assert_eq!(style.property, "width");
    assert_eq!(style.value, "450.00px");

    // the region is 450px now; 500px more would be 950px, over the limit of 800px
    let after = panel(100000, 0, 45000);
    let refused = handle_panel_mousemove(true, false, true, MIN, MAX, &after, Pointer { x: 95000, y: 0 }, false);
    assert!(refused.is_none());
}

#[test]
fn refused_sample_is_not_clamped_to_the_limit() {
    let layout = panel(100000, 0, 45000);
    // anything beyond 800px is dropped, however far
    for x in [80001, 85000, 95000, 100000, 2000000] {
        assert!(handle_panel_mousemove(true, false, true, MIN, MAX, &layout, Pointer { x, y: 0 }, false).is_none());
    }
    // the limit itself is still reached by a sample that asks for it
    let r = handle_panel_mousemove(true, false, true, MIN, MAX, &layout, Pointer { x: 80000, y: 0 }, false).unwrap();
    assert_eq!(r.extent, 80000);
}

#[test]
fn pointer_on_the_edge_is_no_move() {
    let layout = panel(100000, 0, 40000);
    assert!(handle_panel_mousemove(true, false, true, MIN, MAX, &layout, Pointer { x: 40000, y: 9 }, false).is_none());
    let leading = panel(100000, 60000, 40000);
    assert!(handle_panel_mousemove(true, true, true, MIN, MAX, &leading, Pointer { x: 60000, y: 9 }, false).is_none());
}

#[test]
fn same_sample_twice_changes_once() {
    let e = Pointer { x: 45000, y: 0 };
    let before = panel(100000, 0, 40000);
    let r = handle_panel_mousemove(true, false, true, MIN, MAX, &before, e, false).unwrap();
    // the region has taken the new extent: its handle is under the pointer now
    let after = panel(100000, 0, r.extent);
    assert!(handle_panel_mousemove(true, false, true, MIN, MAX, &after, e, false).is_none());

    // a leading handle moves the region's start instead
    let e = Pointer { x: 55000, y: 0 };
    let before = panel(100000, 60000, 40000);
    let r = handle_panel_mousemove(true, true, true, MIN, MAX, &before, e, false).unwrap();
    let after = panel(100000, 100000 - r.extent as i32, r.extent);
    assert!(handle_panel_mousemove(true, true, true, MIN, MAX, &after, e, false).is_none());
}

#[test]
fn shrinking_is_held_by_the_lower_limit_only() {
    let layout = panel(100000, 0, 40000);
    let r = handle_panel_mousemove(true, false, true, MIN, MAX, &layout, Pointer { x: 10000, y: 0 }, false).unwrap();
    assert_eq!(r.extent, 10000);
    assert!(handle_panel_mousemove(true, false, true, MIN, MAX, &layout, Pointer { x: 9999, y: 0 }, false).is_none());
    // a region over its upper limit may shrink to a size that is still over it
    let big = panel(100000, 0, 95000);
    let r = handle_panel_mousemove(true, false, true, MIN, MAX, &big, Pointer { x: 90000, y: 0 }, false).unwrap();
    assert_eq!(r.extent, 90000);
}

#[test]
fn growing_is_held_by_the_upper_limit_only() {
    // a region under its lower limit may grow to a size that is still under it
    let small = panel(100000, 0, 5000);
    let r = handle_panel_mousemove(true, false, true, MIN, MAX, &small, Pointer { x: 6000, y: 0 }, false).unwrap();
    assert_eq!(r.extent, 6000);
}

#[test]
fn no_limits_leave_only_the_container() {
    let layout = panel(100000, 0, 40000);
    let r = handle_panel_mousemove(true, false, true, None, None, &layout, Pointer { x: 100000, y: 0 }, false).unwrap();
    assert_eq!(r.extent, 100000);
    assert!(handle_panel_mousemove(true, false, true, None, None, &layout, Pointer { x: 100001, y: 0 }, false).is_none());
    let r = handle_panel_mousemove(true, false, true, None, None, &layout, Pointer { x: 0, y: 0 }, false).unwrap();
    assert_eq!(r.extent, 0);
    assert_eq!(r.style.unwrap().value, "0.00px");
    assert!(handle_panel_mousemove(true, false, true, None, None, &layout, Pointer { x: -1, y: 0 }, false).is_none());
}

#[test]
fn leading_handle_grows_towards_the_start() {
    let layout = panel(100000, 60000, 40000);
    let r = handle_panel_mousemove(true, true, true, MIN, MAX, &layout, Pointer { x: 55000, y: 0 }, false).unwrap();
    assert_eq!(r.extent, 45000);
    let r = handle_panel_mousemove(true, true, true, MIN, MAX, &layout, Pointer { x: 70000, y: 0 }, false).unwrap();
    assert_eq!(r.extent, 30000);
}

#[test]
fn vertical_handle_reads_the_other_axis() {
    let layout = column(100000, 0, 40000);
    let r = handle_panel_mousemove(false, false, true, MIN, MAX, &layout, Pointer { x: 123, y: 45000 }, false).unwrap();
    assert_eq!(r.extent, 45000);
    let style = r.style.unwrap();
    assert_eq!(style.property, "height");
    assert_eq!(style.value, "450.00px");
    // the pointer's x is of no account
    assert!(handle_panel_mousemove(false, false, true, MIN, MAX, &layout, Pointer { x: 45000, y: 40000 }, false).is_none());
}

#[test]
fn proportional_length_is_the_share_of_the_container() {
    let layout = panel(100000, 0, 40000);
    let r = handle_panel_mousemove(true, false, false, MIN, MAX, &layout, Pointer { x: 45000, y: 0 }, false).unwrap();
    assert_eq!(r.extent, 45000);
    assert_eq!(r.length, StyleLength::Percent(4500));
    assert_eq!(r.style.unwrap().value, "45.00%");
}

#[test]
fn proportional_limits_are_checked_against_the_container() {
    let layout = panel(100000, 0, 40000);
    let max = Some(StyleLength::Percent(5000));
    assert!(handle_panel_mousemove(true, false, true, None, max, &layout, Pointer { x: 50000, y: 0 }, false).is_some());
    // 50.004% is 50.00% to the nearest hundredth, 50.005% is 50.01%
    assert!(handle_panel_mousemove(true, false, true, None, max, &layout, Pointer { x: 50004, y: 0 }, false).is_some());
    assert!(handle_panel_mousemove(true, false, true, None, max, &layout, Pointer { x: 50005, y: 0 }, false).is_none());
    let min = Some(StyleLength::PixelPercent(10000, 2500));
    assert!(handle_panel_mousemove(true, false, true, min, None, &layout, Pointer { x: 25000, y: 0 }, false).is_some());
    assert!(handle_panel_mousemove(true, false, true, min, None, &layout, Pointer { x: 24995, y: 0 }, false).is_some());
    assert!(handle_panel_mousemove(true, false, true, min, None, &layout, Pointer { x: 24994, y: 0 }, false).is_none());
}

#[test]
fn proportional_length_rounds_to_the_nearest_hundredth() {
    let layout = panel(30000, 0, 10000);
    let r = handle_panel_mousemove(true, false, false, None, None, &layout, Pointer { x: 20000, y: 0 }, false).unwrap();
    assert_eq!(r.length, StyleLength::Percent(6667));
    assert_eq!(r.style.unwrap().value, "66.67%");
    // the length that was given out accepts the size it stands for
    assert!(r.length.min_check(r.extent, 30000) && r.length.max_check(r.extent, 30000));
}

#[test]
fn skip_set_style_gives_the_length_without_a_style() {
    let layout = panel(100000, 0, 40000);
    let r = handle_panel_mousemove(true, false, true, MIN, MAX, &layout, Pointer { x: 45000, y: 0 }, true).unwrap();
    assert_eq!(r.extent, 45000);
    assert_eq!(r.length, StyleLength::Pixel(45000));
    assert!(r.style.is_none());
}

#[test]
fn container_without_extent_changes_nothing() {
    let layout = panel(0, 0, 40000);
    assert!(handle_panel_mousemove(true, false, true, None, None, &layout, Pointer { x: 0, y: 0 }, false).is_none());
    assert!(handle_panel_mousemove(true, false, false, None, None, &layout, Pointer { x: 0, y: 0 }, false).is_none());
}

#[test]
fn layout_without_the_owner_changes_nothing() {
    let mut layout = panel(100000, 0, 40000);
    layout.owner = 1;
    assert!(handle_panel_mousemove(true, false, true, None, None, &layout, Pointer { x: 45000, y: 0 }, false).is_none());
    layout.regions.clear();
    layout.owner = 0;
    assert!(handle_panel_mousemove(true, false, true, None, None, &layout, Pointer { x: 45000, y: 0 }, false).is_none());
}

#[test]
fn oversized_region_is_taken_once_it_fits() {
    // 1200px in a container of 1000px: the first 100px inwards still do not fit
    let layout = panel(100000, 0, 120000);
    assert!(handle_panel_mousemove(true, false, true, None, None, &layout, Pointer { x: 110000, y: 0 }, false).is_none());
    let r = handle_panel_mousemove(true, false, true, None, None, &layout, Pointer { x: 90000, y: 0 }, false).unwrap();
    assert_eq!(r.extent, 90000);
}

#[test]
fn extreme_coordinates_do_not_overflow() {
    let layout = Layout {
        scroll_width: u32::MAX,
        scroll_height: 0,
        regions: vec![Region { rect: Rect { left: i32::MAX, top: 0, width: u32::MAX, height: 0 }, key: None }],
        owner: 0,
    };
    assert!(handle_panel_mousemove(true, false, true, None, None, &layout, Pointer { x: i32::MIN, y: 0 }, false).is_none());
    assert!(handle_panel_mousemove(true, true, true, None, None, &layout, Pointer { x: i32::MIN, y: 0 }, false).is_none());
    let at_min = Layout {
        scroll_width: u32::MAX,
        scroll_height: 0,
        regions: vec![Region { rect: Rect { left: i32::MIN, top: 0, width: 0, height: 0 }, key: None }],
        owner: 0,
    };
    let r = handle_panel_mousemove(true, false, true, None, None, &at_min, Pointer { x: i32::MAX, y: 0 }, false).unwrap();
    assert_eq!(r.extent, u32::MAX);
    assert_eq!(r.style.unwrap().value, "42949672.95px");
}
