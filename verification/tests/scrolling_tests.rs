use dune::scrolling::{sat_add, sat_dec, sat_inc, sat_sub, ScrollingWindow};

#[test]
fn sat_add_caps_at_saturation() {
    assert_eq!(sat_add(3, 4, 100), 7);
    assert_eq!(sat_add(90, 20, 100), 100);
    assert_eq!(sat_add(100, 0, 100), 100);
    assert_eq!(sat_add(0, 0, 0), 0);
}

#[test]
fn sat_sub_floors_at_saturation() {
    assert_eq!(sat_sub(10, 3, 0), 7);
    assert_eq!(sat_sub(3, 10, 0), 0);
    assert_eq!(sat_sub(10, 3, 9), 9);
    assert_eq!(sat_sub(20, 5, 10), 15);
}

#[test]
fn sat_inc_and_dec() {
    assert_eq!(sat_inc(5, 10), 6);
    assert_eq!(sat_inc(10, 10), 10);
    assert_eq!(sat_inc(11, 10), 10);
    assert_eq!(sat_dec(5, 0), 4);
    assert_eq!(sat_dec(0, 0), 0);
    assert_eq!(sat_dec(3, 5), 5);
}

#[test]
fn scenario_small_list_fits_window() {
    // 3 entries in a 10-row window: the whole list is visible and neither
    // overflow indicator applies.
    let sw = ScrollingWindow::new(3, 10);
    let rng = sw.visible();
    assert_eq!(rng.start, 0);
    assert_eq!(rng.end, 3);
    assert!(rng.start == 0); // no leading ellipsis row
    assert!(3 <= rng.end); // no trailing ellipsis row: nothing below the end
}

#[test]
fn scenario_long_list_scrolls_after_leaving_window() {
    // 20 entries in a 5-row window.
    let mut sw = ScrollingWindow::new(0, 0);
    sw.resize(5, 20);
    let rng = sw.visible();
    assert_eq!((rng.start, rng.end), (0, 5));
    for _ in 0..4 {
        sw.down();
    }
    assert_eq!(sw.selected(), 4);
    let rng = sw.visible();
    assert_eq!((rng.start, rng.end), (0, 5));
    sw.down();
    assert_eq!(sw.selected(), 5);
    let rng = sw.visible();
    assert_eq!((rng.start, rng.end), (1, 6));
}

#[test]
fn scenario_empty_list_is_inert() {
    let mut sw = ScrollingWindow::new(0, 10);
    sw.down();
    assert_eq!(sw.selected(), 0);
    sw.up();
    assert_eq!(sw.selected(), 0);
    let rng = sw.visible();
    assert_eq!((rng.start, rng.end), (0, 0));
}

#[test]
fn navigation_keeps_selection_inside_viewport() {
    // Any walk of downs and ups keeps the selection inside the window and
    // inside the list.
    let mut sw = ScrollingWindow::new(10, 4);
    let walk = [
        true, true, true, true, true, false, true, true, true, true, true, true, false, false,
        false, false, false, false, false, false, true, false, true, true,
    ];
    for &step in walk.iter() {
        if step {
            sw.down();
        } else {
            sw.up();
        }
        assert!(sw.selected() < 10);
        assert!(sw.viewport.0 <= sw.selected());
        assert!(sw.selected() < sw.viewport.1);
        assert_eq!(sw.selected_line, sw.selected() - sw.viewport.0);
    }
}

#[test]
fn first_last_first_returns_to_the_top() {
    let mut sw = ScrollingWindow::new(20, 5);
    sw.first();
    sw.last();
    assert_eq!(sw.selected(), 19);
    let rng = sw.visible();
    assert_eq!((rng.start, rng.end), (15, 20));
    sw.first();
    assert_eq!(sw.selected(), 0);
    assert_eq!(sw.viewport.0, 0);
    let rng = sw.visible();
    assert_eq!((rng.start, rng.end), (0, 5));
}

#[test]
fn visible_is_idempotent() {
    let mut sw = ScrollingWindow::new(20, 5);
    sw.down();
    sw.down();
    let a = sw.visible();
    let b = sw.visible();
    assert_eq!((a.start, a.end), (b.start, b.end));
}

#[test]
fn up_scrolls_back_at_the_top_edge() {
    let mut sw = ScrollingWindow::new(20, 5);
    sw.last();
    // walk back up to the very first entry
    for _ in 0..19 {
        sw.up();
    }
    assert_eq!(sw.selected(), 0);
    assert_eq!(sw.viewport.0, 0);
}

#[test]
fn down_stops_at_the_last_entry() {
    let mut sw = ScrollingWindow::new(3, 10);
    for _ in 0..10 {
        sw.down();
    }
    assert_eq!(sw.selected(), 2);
    sw.down();
    assert_eq!(sw.selected(), 2);
}

#[test]
fn resize_resets_the_selection() {
    let mut sw = ScrollingWindow::new(20, 5);
    sw.down();
    sw.down();
    sw.resize(5, 20);
    assert_eq!(sw.selected(), 0);
    assert_eq!(sw.viewport.0, 0);
}

#[test]
fn overflow_probes_match_the_viewport() {
    let mut sw = ScrollingWindow::new(20, 5);
    sw.down(); // viewport still [0, 5)
    assert!(!sw.entry_overflow(4));
    assert!(sw.entry_overflow(5));
    assert!(!sw.entry_underflow(0));
    sw.last(); // viewport [15, 20)
    assert!(sw.entry_underflow(14));
    assert!(!sw.entry_underflow(15));
}
