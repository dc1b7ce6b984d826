use dune::vterm::{DrawError, Panel, Style, VTerm};

#[test]
fn draw_text_truncates_to_the_panel_width() {
    // A panel five cells wide drawing "abcdefg" keeps "abcde".
    let mut vt = VTerm::new(10, 3);
    let mut panel = Panel::new();
    panel.update_size(0, 0, 5, 1);
    panel.draw_text(&mut vt, "abcdefg", 0, 0, Style::new()).unwrap();
    let writes = vt.flush();
    let drawn: String = writes.iter().map(|w| w.cell.ch).collect();
    assert_eq!(drawn, "abcde");
    assert_eq!(writes.iter().map(|w| w.x).collect::<Vec<_>>(), vec![0, 1, 2, 3, 4]);
}

#[test]
fn draw_text_translates_by_the_panel_origin() {
    let mut vt = VTerm::new(10, 5);
    let mut panel = Panel::new();
    panel.update_size(2, 3, 6, 2);
    panel.draw_text(&mut vt, "ok", 1, 1, Style::new()).unwrap();
    let writes = vt.flush();
    assert_eq!(writes.len(), 2);
    assert_eq!((writes[0].x, writes[0].y, writes[0].cell.ch), (3, 4, 'o'));
    assert_eq!((writes[1].x, writes[1].y, writes[1].cell.ch), (4, 4, 'k'));
}

#[test]
fn draw_text_outside_the_panel_is_an_error() {
    let mut vt = VTerm::new(10, 5);
    let mut panel = Panel::new();
    panel.update_size(0, 0, 5, 2);
    assert_eq!(panel.draw_text(&mut vt, "x", 6, 0, Style::new()), Err(DrawError::OutOfBounds));
    assert_eq!(panel.draw_text(&mut vt, "x", 0, 3, Style::new()), Err(DrawError::OutOfBounds));
    // nothing was queued by the failed draws
    assert_eq!(vt.flush().len(), 0);
}

#[test]
fn draw_text_clipped_to_nothing_draws_nothing() {
    let mut vt = VTerm::new(10, 5);
    let mut panel = Panel::new();
    panel.update_size(0, 0, 5, 2);
    // the local column equals the width: zero cells remain
    panel.draw_text(&mut vt, "abc", 5, 0, Style::new()).unwrap();
    assert_eq!(vt.flush().len(), 0);
}

#[test]
fn fill_covers_exactly_the_panel_rectangle() {
    let mut vt = VTerm::new(6, 4);
    let mut panel = Panel::new();
    panel.update_size(1, 1, 2, 2);
    panel.fill(&mut vt, '#', Style::new()).unwrap();
    let mut writes = vt.flush();
    writes.sort_by_key(|w| (w.y, w.x));
    let cells: Vec<(usize, usize, char)> = writes.iter().map(|w| (w.x, w.y, w.cell.ch)).collect();
    assert_eq!(cells, vec![(1, 1, '#'), (2, 1, '#'), (1, 2, '#'), (2, 2, '#')]);
}

#[test]
fn fill_outside_the_grid_is_an_error() {
    let mut vt = VTerm::new(4, 4);
    let mut panel = Panel::new();
    panel.update_size(2, 2, 3, 1);
    assert_eq!(panel.fill(&mut vt, '#', Style::new()), Err(DrawError::OutOfBounds));
    assert_eq!(vt.flush().len(), 0);
}

#[test]
fn clear_writes_blank_cells() {
    let mut vt = VTerm::new(4, 2);
    vt.queue_text("abcd", 0, 0, Style::new().bold()).unwrap();
    let _ = vt.flush();
    let mut panel = Panel::new();
    panel.update_size(0, 0, 4, 1);
    panel.clear(&mut vt).unwrap();
    // blanks replace the four drawn cells: every one changed back
    let writes = vt.flush();
    assert_eq!(writes.len(), 4);
    assert!(writes.iter().all(|w| w.cell.ch == ' ' && !w.cell.style.bold));
}

#[test]
fn update_size_repositions_without_touching_the_grid() {
    let mut vt = VTerm::new(8, 3);
    let mut panel = Panel::new();
    panel.update_size(1, 1, 3, 1);
    assert_eq!((panel.x, panel.y, panel.width, panel.height), (1, 1, 3, 1));
    assert_eq!(vt.flush().len(), 0);
}
