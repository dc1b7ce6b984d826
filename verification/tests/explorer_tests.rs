use dune::explorer::{Dune, EventOutcome, Mode, RenderStatus, StateMsg};
use dune::file_info::FileInfo;
use dune::key_bindings::{from_key_code, new as default_bindings, InputEvent, KeyCode, KeyPress};

fn entry(name: &str, is_dir: bool) -> FileInfo {
    FileInfo::new(
        String::from(name),
        format!("/root/{name}"),
        is_dir,
        0o755,
        false,
        1_600_000_000,
        123,
    )
}

fn app(width: usize, height: usize) -> Dune {
    let mut d = Dune::new(width, height, default_bindings(), entry("root", true));
    d.update_panels_size();
    d
}

fn app_with_entries(names: &[(&str, bool)]) -> Dune {
    let mut d = app(40, 12);
    let entries: Vec<FileInfo> = names.iter().map(|(n, dir)| entry(n, *dir)).collect();
    let dir = entry("root", true);
    d.set_entries(entries, dir);
    d
}

#[test]
fn resize_event_recomputes_the_layout() {
    let mut d = app(40, 12);
    let out = d.handle_event(InputEvent::Resize(30, 10));
    assert_eq!(out, EventOutcome::ClearScreen);
    assert_eq!(d.vterm.size(), (30, 10));
    assert_eq!((d.panel_header.x, d.panel_header.y), (0, 0));
    assert_eq!((d.panel_header.width, d.panel_header.height), (30, 1));
    // fixed columns from the right: permissions 12, size 8, date 10
    assert_eq!(d.panel_file_permissions.x, 18);
    assert_eq!(d.panel_file_size.x, 10);
    assert_eq!(d.panel_file_last_modified.x, 0);
    assert_eq!(d.panel_file_name.width, 0);
    assert_eq!((d.panel_state.y, d.panel_prompt.y), (8, 9));
    assert_eq!(d.entries_scrolling_window.window_len, 7);
}

#[test]
fn navigation_keys_move_the_selection() {
    let mut d = app_with_entries(&[("a", false), ("b", false), ("c", false)]);
    assert_eq!(d.entries_scrolling_window.selected(), 0);
    let out = d.handle_event(from_key_code(KeyCode::Down));
    assert_eq!(out, EventOutcome::Continue);
    assert_eq!(d.entries_scrolling_window.selected(), 1);
    d.handle_event(from_key_code(KeyCode::End));
    assert_eq!(d.entries_scrolling_window.selected(), 2);
    d.handle_event(from_key_code(KeyCode::Up));
    assert_eq!(d.entries_scrolling_window.selected(), 1);
    d.handle_event(from_key_code(KeyCode::Home));
    assert_eq!(d.entries_scrolling_window.selected(), 0);
}

#[test]
fn ctrl_c_requests_the_quit() {
    let mut d = app(40, 12);
    assert!(!d.should_quit);
    let ctrl_c = InputEvent::Key(KeyPress { code: KeyCode::Char('c'), ctrl: true });
    d.handle_event(ctrl_c);
    assert!(d.should_quit);
}

#[test]
fn tab_toggles_the_mode_with_its_side_effects() {
    let mut d = app(40, 12);
    assert_eq!(d.mode, Mode::Explorer);
    d.handle_event(from_key_code(KeyCode::Tab));
    assert_eq!(d.mode, Mode::Command);
    // the cursor parks on the prompt row and the status announces it
    assert_eq!(d.cursor, (0, 11));
    assert_eq!(d.state, StateMsg::Info(String::from("Command:")));
    d.handle_event(from_key_code(KeyCode::Tab));
    assert_eq!(d.mode, Mode::Explorer);
    assert_eq!(d.state, StateMsg::Okay);
}

#[test]
fn typed_characters_grow_the_prompt() {
    let mut d = app(40, 12);
    d.handle_event(from_key_code(KeyCode::Tab));
    d.handle_event(from_key_code(KeyCode::Char('l')));
    d.handle_event(from_key_code(KeyCode::Char('s')));
    assert_eq!(d.prompt, "ls");
    assert_eq!(d.cursor.0, 2);
}

#[test]
fn backspace_edits_the_prompt_and_never_underflows() {
    let mut d = app(40, 12);
    d.handle_event(from_key_code(KeyCode::Tab));
    d.handle_event(from_key_code(KeyCode::Char('x')));
    d.handle_event(from_key_code(KeyCode::Backspace));
    assert_eq!(d.prompt, "");
    assert_eq!(d.cursor.0, 0);
    // backspace on the already-empty prompt stays clamped at column zero
    d.handle_event(from_key_code(KeyCode::Backspace));
    assert_eq!(d.prompt, "");
    assert_eq!(d.cursor.0, 0);
}

#[test]
fn enter_in_command_mode_hands_out_the_line() {
    let mut d = app(40, 12);
    d.handle_event(from_key_code(KeyCode::Tab));
    for c in "ls -l".chars() {
        d.handle_event(from_key_code(KeyCode::Char(c)));
    }
    let out = d.handle_event(from_key_code(KeyCode::Enter));
    assert_eq!(out, EventOutcome::RunCommand { line: String::from("ls -l") });
    // the prompt itself stays
    assert_eq!(d.prompt, "ls -l");
}

#[test]
fn enter_on_a_file_asks_to_open_it() {
    let mut d = app_with_entries(&[("a.txt", false), ("sub", true)]);
    let out = d.handle_event(from_key_code(KeyCode::Enter));
    assert_eq!(out, EventOutcome::OpenFile { path: String::from("/root/a.txt") });
}

#[test]
fn enter_on_a_directory_asks_to_enter_it() {
    let mut d = app_with_entries(&[("a.txt", false), ("sub", true)]);
    d.handle_event(from_key_code(KeyCode::Down));
    let out = d.handle_event(from_key_code(KeyCode::Enter));
    assert_eq!(out, EventOutcome::EnterDir { name: String::from("sub") });
}

#[test]
fn enter_with_nothing_selected_is_inert() {
    let mut d = app(40, 12);
    let out = d.handle_event(from_key_code(KeyCode::Enter));
    assert_eq!(out, EventOutcome::Continue);
}

#[test]
fn leave_and_refresh_outcomes() {
    let mut d = app_with_entries(&[("a.txt", false)]);
    assert_eq!(d.handle_event(from_key_code(KeyCode::Backspace)), EventOutcome::LeaveDir);
    assert_eq!(d.handle_event(from_key_code(KeyCode::F(5))), EventOutcome::Refresh);
}

#[test]
fn unbound_events_are_ignored() {
    let mut d = app_with_entries(&[("a.txt", false)]);
    let out = d.handle_event(from_key_code(KeyCode::Char('q')));
    assert_eq!(out, EventOutcome::Continue);
    assert_eq!(d.entries_scrolling_window.selected(), 0);
    assert_eq!(d.handle_event(InputEvent::Other), EventOutcome::Continue);
}

#[test]
fn set_entries_resets_the_selection() {
    let mut d = app_with_entries(&[("a", false), ("b", false), ("c", false)]);
    d.handle_event(from_key_code(KeyCode::Down));
    let fresh: Vec<FileInfo> = vec![entry("x", false), entry("y", false)];
    d.set_entries(fresh, entry("root", true));
    assert_eq!(d.entries_scrolling_window.selected(), 0);
    assert_eq!(d.entries_scrolling_window.entries_len, 2);
}

#[test]
fn command_results_fill_the_status_line() {
    let mut d = app(40, 12);
    d.command_finished("ls -l", 0, true, "two files");
    assert_eq!(d.state, StateMsg::Info(String::from("ls -l: exit 0: two files")));
    d.command_finished("false", 1, false, "");
    assert_eq!(d.state, StateMsg::Error(String::from("false: exit 1: ")));
    d.command_finished("crash", -9, false, "signal");
    assert_eq!(d.state, StateMsg::Error(String::from("crash: exit -9: signal")));
}

#[test]
fn failure_reports_fill_the_status_line() {
    let mut d = app(40, 12);
    d.report_open_error("a.txt", "no opener");
    assert_eq!(d.state, StateMsg::Error(String::from("Tried to open `a.txt`, but failed: no opener")));
    d.report_enter_error("sub", "permission denied");
    assert_eq!(
        d.state,
        StateMsg::Error(String::from("Tried to enter `sub`, but failed because permission denied"))
    );
    d.report_refresh_error("gone");
    assert_eq!(d.state, StateMsg::Error(String::from("gone")));
    d.clear_state();
    assert_eq!(d.state, StateMsg::Okay);
}

#[test]
fn render_refuses_a_tiny_terminal() {
    let mut d = app(21, 12);
    assert_eq!(d.render(), RenderStatus::TooSmall);
    let mut d = app(40, 8);
    assert_eq!(d.render(), RenderStatus::TooSmall);
    let mut d = app(22, 9);
    assert_eq!(d.render(), RenderStatus::Drawn);
}

#[test]
fn render_draws_the_header_path() {
    let mut d = app_with_entries(&[("a.txt", false)]);
    assert_eq!(d.render(), RenderStatus::Drawn);
    let writes = d.vterm.flush();
    // the header row starts with the current path
    let mut row0: Vec<_> = writes.iter().filter(|w| w.y == 0).collect();
    row0.sort_by_key(|w| w.x);
    let text: String = row0.iter().take(10).map(|w| w.cell.ch).collect();
    assert_eq!(text, "/root/root");
}

#[test]
fn render_marks_the_trailing_overflow() {
    // 20 entries, 9 visible rows: the last visible row is an ellipsis
    let names: Vec<(String, bool)> = (0..20).map(|i| (format!("file{i:02}"), false)).collect();
    let refs: Vec<(&str, bool)> = names.iter().map(|(n, d)| (n.as_str(), *d)).collect();
    let mut d = app_with_entries(&refs);
    assert_eq!(d.entries_scrolling_window.window_len, 9);
    assert_eq!(d.render(), RenderStatus::Drawn);
    let writes = d.vterm.flush();
    // rows 1..=9 carry entries; the last of them (y == 9) shows "..." at x 3..6
    let dots: String = {
        let mut v: Vec<_> = writes.iter().filter(|w| w.y == 9 && w.x >= 3 && w.x <= 5).collect();
        v.sort_by_key(|w| w.x);
        v.iter().map(|w| w.cell.ch).collect()
    };
    assert_eq!(dots, "...");
}

#[test]
fn rendering_twice_emits_nothing_new() {
    let mut d = app_with_entries(&[("a.txt", false), ("sub", true)]);
    d.render();
    let first = d.vterm.flush();
    assert!(!first.is_empty());
    d.render();
    let second = d.vterm.flush();
    assert_eq!(second.len(), 0);
}

#[test]
fn render_draws_entry_columns() {
    // width 40: name column [0, 10), date [10, 20), size [20, 28),
    // permissions [28, 40); the first entry sits on grid row 1
    let mut d = app_with_entries(&[("a.txt", false)]);
    assert_eq!(d.render(), RenderStatus::Drawn);
    let writes = d.vterm.flush();
    let row_text = |lo: usize, hi: usize| -> String {
        let mut v: Vec<_> = writes.iter().filter(|w| w.y == 1 && w.x >= lo && w.x < hi).collect();
        v.sort_by_key(|w| w.x);
        v.iter().map(|w| w.cell.ch).collect()
    };
    assert_eq!(row_text(0, 5), "a.txt");
    assert_eq!(row_text(20, 25), "123 B");
    // mode 0o755, not a directory: kind marker, space, three bit triples
    assert_eq!(row_text(28, 39), "- r-x-wxrw-");
}

#[test]
fn render_truncates_long_names_with_an_ellipsis() {
    // the name column is 10 wide: 7 name characters plus "..."
    let mut d = app_with_entries(&[("averylongfilename", false)]);
    assert_eq!(d.render(), RenderStatus::Drawn);
    let writes = d.vterm.flush();
    let mut v: Vec<_> = writes.iter().filter(|w| w.y == 1 && w.x < 10).collect();
    v.sort_by_key(|w| w.x);
    let name: String = v.iter().map(|w| w.cell.ch).collect();
    assert_eq!(name, "averylo...");
}
