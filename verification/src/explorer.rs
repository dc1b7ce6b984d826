//! The browser's application core: its state, the two-mode event
//! dispatcher, the panel layout, and the frame renderer. Everything here is
//! a decision over plain values; the surrounding binary performs the
//! outcomes (running commands, changing directories, terminal writes) and
//! reports their results back.

use vstd::prelude::*;
use vstd::string::StringExecFns;
use crate::file_info::FileInfo;
use crate::file_info::modified_label;
use crate::file_info::spec_pretty_size;
use crate::key_bindings::{
    ActionCommand,
    ActionExplorer,
    ActionGlobal,
    InputEvent,
    KeyBindings,
    KeyCode,
};
use crate::scrolling::{sat_sub, ScrollingWindow};
use crate::text::{pop_char, push_char, push_decimal, push_decimal_i32, spec_decimal, spec_signed_decimal};
use crate::vterm::{spec_cell, Cell, Color, Panel, Style, VTerm};

verus! {

/// What the status line shows.
#[derive(Debug, Clone, PartialEq, Eq)]
pub enum StateMsg {
    Okay,
    Info(String),
    Error(String),
}

#[derive(Debug, Copy, Clone, PartialEq, Eq, Structural)]
pub enum Mode {
    Explorer,
    Command,
}

/// The one transition between the modes.
pub open spec fn spec_toggle(m: Mode) -> Mode {
    match m {
        Mode::Explorer => Mode::Command,
        Mode::Command => Mode::Explorer,
    }
}

/// The plain character of an event: the pressed key's character, if the
/// event is a key press carrying one.
pub open spec fn spec_char_of(evt: InputEvent) -> Option<char> {
    match evt {
        InputEvent::Key(k) => match k.code {
            KeyCode::Char(c) => Some(c),
            _ => None,
        },
        _ => None,
    }
}

/// Whether a frame was drawn, or the terminal is too small for the layout
/// and the caller shows the fixed resize message instead.
#[derive(Debug, Copy, Clone, PartialEq, Eq, Structural)]
pub enum RenderStatus {
    TooSmall,
    Drawn,
}

/// What the surrounding binary must do after an event was handled.
#[derive(Debug, Clone, PartialEq, Eq)]
pub enum EventOutcome {
    /// Nothing beyond drawing the next frame.
    Continue,
    /// The terminal was resized: clear the physical screen.
    ClearScreen,
    /// Launch the file at `path` with the platform's opener and report the
    /// result through `clear_state` or `report_open_error`.
    OpenFile { path: String },
    /// Change into the directory `name`; report failure through
    /// `report_enter_error`, else re-list and call `set_entries`.
    EnterDir { name: String },
    /// Change into the parent directory, then re-list and call
    /// `set_entries`.
    LeaveDir,
    /// Re-list the current directory and call `set_entries`.
    Refresh,
    /// Run `line` as a command, synchronously; report the result through
    /// `command_finished`, then re-list and call `set_entries`.
    RunCommand { line: String },
}

pub const PERMISSIONS_LEN: usize = 12;

pub const SIZE_LEN: usize = 8;

pub const LAST_MODIFIED_LEN: usize = 10;

/// Smallest terminal the layout fits in; below this the caller shows a
/// fixed resize message instead.
pub const MIN_RENDER_WIDTH: usize = 22;

pub const MIN_RENDER_HEIGHT: usize = 9;

/// The status line after a command ran: the command, its exit code and what
/// it printed.
pub open spec fn spec_command_msg(pretty: Seq<char>, exit_code: int, output: Seq<char>) -> Seq<
    char,
> {
    pretty + ": exit "@ + spec_signed_decimal(exit_code) + ": "@ + output
}

/// The status line after launching a file failed.
pub open spec fn spec_open_error_msg(name: Seq<char>, err: Seq<char>) -> Seq<char> {
    "Tried to open `"@ + name + "`, but failed: "@ + err
}

/// The status line after entering a directory failed.
pub open spec fn spec_enter_error_msg(name: Seq<char>, err: Seq<char>) -> Seq<char> {
    "Tried to enter `"@ + name + "`, but failed because "@ + err
}

/// The dimmed style of the secondary columns.
pub open spec fn spec_dim_style() -> Style {
    Style { dim: true, ..Style::spec_new() }
}

/// The style an entry's name is drawn in: highlighted when selected (by the
/// mode's highlight), coloured by kind (directory, executable, read-only),
/// dimmed when hidden (a name starting with a dot).
pub open spec fn spec_entry_style(d: Dune, entry_idx: int) -> Style {
    let e = d.entries@[entry_idx];
    let selected = if entry_idx == d.entries_scrolling_window.selected_entry {
        match d.mode {
            Mode::Command => Style { bold: true, bg: Color::DarkGreen, ..Style::spec_new() },
            Mode::Explorer => Style { bold: true, reverse: true, ..Style::spec_new() },
        }
    } else {
        Style { bold: true, ..Style::spec_new() }
    };
    let kinded = if e.is_dir {
        Style { fg: Color::Cyan, ..selected }
    } else if e.permission_bits & 0o001 == 1 {
        Style { fg: Color::Green, ..selected }
    } else if e.read_only {
        Style { fg: Color::Grey, ..selected }
    } else {
        selected
    };
    if e.name@.len() > 0 && e.name@[0] == '.' {
        Style { dim: true, ..kinded }
    } else {
        kinded
    }
}

/// The name as the name column shows it: the name itself when it fits a
/// column `width` wide, else its first `width - 3` characters followed by
/// an ellipsis.
pub open spec fn spec_entry_name(name: Seq<char>, width: int) -> Seq<char> {
    if name.len() > width {
        name.take(if width >= 3 { width - 3 } else { 0 }) + "..."@
    } else {
        name
    }
}

/// The permission column: a `d` or `-` kind marker, a space, and the
/// bit-derived rwx triples.
pub open spec fn spec_permissions(is_dir: bool, mode: u32) -> Seq<char> {
    seq![
        if is_dir { 'd' } else { '-' },
        ' ',
        if (mode >> 0) & 0o1 > 0 { 'r' } else { '-' },
        if (mode >> 0) & 0o2 > 0 { 'w' } else { '-' },
        if (mode >> 0) & 0o4 > 0 { 'x' } else { '-' },
        if (mode >> 1) & 0o1 > 0 { 'r' } else { '-' },
        if (mode >> 1) & 0o2 > 0 { 'w' } else { '-' },
        if (mode >> 1) & 0o4 > 0 { 'x' } else { '-' },
        if (mode >> 2) & 0o1 > 0 { 'r' } else { '-' },
        if (mode >> 2) & 0o2 > 0 { 'w' } else { '-' },
        if (mode >> 2) & 0o4 > 0 { 'x' } else { '-' },
    ]
}

/// What one entry's row leaves in `grid`: the styled, clipped name, then
/// the date label `label`, the rendered size and the permission string,
/// each through its own column panel at row `line_idx`.
pub open spec fn spec_entry_row(
    d: Dune,
    grid: Seq<Cell>,
    entry_idx: int,
    line_idx: int,
    label: Seq<char>,
) -> Seq<Cell> {
    let e = d.entries@[entry_idx];
    let w = d.vterm.width as int;
    let h = d.vterm.height as int;
    let named = d.panel_file_name.spec_draw_text(
        grid,
        w,
        h,
        spec_entry_name(e.name@, d.panel_file_name.width as int),
        0,
        line_idx,
        spec_entry_style(d, entry_idx),
    );
    let dated = d.panel_file_last_modified.spec_draw_text(
        named,
        w,
        h,
        label,
        0,
        line_idx,
        spec_dim_style(),
    );
    let sized = d.panel_file_size.spec_draw_text(
        dated,
        w,
        h,
        spec_pretty_size(e.size_bytes as int),
        0,
        line_idx,
        spec_dim_style(),
    );
    d.panel_file_permissions.spec_draw_text(
        sized,
        w,
        h,
        spec_permissions(e.is_dir, e.permission_bits),
        0,
        line_idx,
        spec_dim_style(),
    )
}

/// The text the status line shows for a state.
pub open spec fn spec_status_text(state: StateMsg) -> Seq<char> {
    match state {
        StateMsg::Error(msg) => "ERROR: "@ + msg@ + "."@,
        StateMsg::Okay => Seq::<char>::empty(),
        StateMsg::Info(msg) => msg@,
    }
}

/// The style the status line is drawn in for a state.
pub open spec fn spec_status_style(state: StateMsg) -> Style {
    match state {
        StateMsg::Error(msg) => Style {
            bold: true,
            fg: Color::White,
            bg: Color::DarkRed,
            ..Style::spec_new()
        },
        StateMsg::Okay => Style { fg: Color::Black, bg: Color::White, ..Style::spec_new() },
        StateMsg::Info(msg) => Style {
            bold: true,
            fg: Color::Black,
            bg: Color::White,
            ..Style::spec_new()
        },
    }
}

/// The header line: the current path and the entry count.
pub open spec fn spec_header_text(d: Dune) -> Seq<char> {
    d.curr_dir.path_abs@ + ": (total "@ + spec_decimal(d.entries@.len() as int) + ")"@
}

/// The frame outside the entry table: the prompt (in Command mode), the
/// status row filled and written, and the header row with path, count and
/// mode label, composed in drawing order over the current grid.
pub open spec fn spec_frame_base(d: Dune) -> Seq<Cell> {
    let w = d.vterm.width as int;
    let h = d.vterm.height as int;
    let with_prompt = if d.mode is Command {
        d.panel_prompt.spec_draw_text(d.vterm.vterminal@, w, h, d.prompt@, 0, 0, Style::spec_new())
    } else {
        d.vterm.vterminal@
    };
    let sstyle = spec_status_style(d.state);
    let status_filled = d.panel_state.spec_fill(with_prompt, w, h, spec_cell(' ', sstyle));
    let status_drawn = d.panel_state.spec_draw_text(
        status_filled,
        w,
        h,
        spec_status_text(d.state),
        0,
        0,
        sstyle,
    );
    let hstyle = Style { bg: Color::Grey, ..Style::spec_new() };
    let hbold = Style { bold: true, fg: Color::Black, bg: Color::Grey, ..Style::spec_new() };
    let header_filled = d.panel_header.spec_fill(status_drawn, w, h, spec_cell(' ', hstyle));
    let header_drawn = d.panel_header.spec_draw_text(
        header_filled,
        w,
        h,
        spec_header_text(d),
        0,
        0,
        hbold,
    );
    let mode_label = if d.mode is Command {
        "Command Mode"@
    } else {
        "Explorer Mode"@
    };
    let mode_x: int = if d.mode is Command {
        if w >= 13 {
            w - 13
        } else {
            0
        }
    } else {
        if w >= 14 {
            w - 14
        } else {
            0
        }
    };
    d.panel_header.spec_draw_text(header_drawn, w, h, mode_label, mode_x, 0, hbold)
}

/// One row of the entry table: an ellipsis row when the viewport starts
/// past the first entry (row zero) or more entries remain below the last
/// visible row; the entry's own row otherwise.
pub open spec fn spec_row(
    d: Dune,
    grid: Seq<Cell>,
    entry_idx: int,
    line_idx: int,
    end: int,
    label: Seq<char>,
) -> Seq<Cell> {
    let w = d.vterm.width as int;
    let h = d.vterm.height as int;
    if line_idx == 0 && entry_idx > 0 {
        d.panel_file_name.spec_draw_text(grid, w, h, "..."@, 3, line_idx, Style::spec_new())
    } else if d.panel_file_name.height > 0 && line_idx == d.panel_file_name.height - 1
        && d.entries@.len() > end {
        d.panel_file_name.spec_draw_text(grid, w, h, "..."@, 3, line_idx, Style::spec_new())
    } else {
        spec_entry_row(d, grid, entry_idx, line_idx, label)
    }
}

/// The first `k` rows of the entry table drawn over `grid`, the visible
/// entries being `[start, end)` and `labels` the date label of each row.
pub open spec fn spec_entry_rows(
    d: Dune,
    grid: Seq<Cell>,
    start: int,
    end: int,
    k: int,
    labels: Seq<Seq<char>>,
) -> Seq<Cell>
    decreases k,
{
    if k <= 0 {
        grid
    } else {
        let prev = spec_entry_rows(d, grid, start, end, k - 1, labels);
        spec_row(d, prev, start + (k - 1), k - 1, end, labels[k - 1])
    }
}

/// The whole frame: the fixed rows, then every visible entry row with its
/// overflow ellipses, `labels` holding the date label drawn on each row.
pub open spec fn spec_frame(d: Dune, labels: Seq<Seq<char>>) -> Seq<Cell> {
    let start = d.entries_scrolling_window.spec_visible_start();
    let end = d.entries_scrolling_window.spec_visible_end();
    spec_entry_rows(d, spec_frame_base(d), start, end, end - start, labels)
}

/// The first `k` rows read only the first `k` labels: a label appended
/// behind them changes nothing.
proof fn lemma_entry_rows_push(
    d: Dune,
    grid: Seq<Cell>,
    start: int,
    end: int,
    k: int,
    labels: Seq<Seq<char>>,
    label: Seq<char>,
)
    requires
        0 <= k <= labels.len(),
    ensures
        spec_entry_rows(d, grid, start, end, k, labels.push(label)) == spec_entry_rows(
            d,
            grid,
            start,
            end,
            k,
            labels,
        ),
    decreases k,
{
    if k > 0 {
        lemma_entry_rows_push(d, grid, start, end, k - 1, labels, label);
    }
}

/// An entry's row reads nothing of the grids inside `d`: two states that
/// agree on the entries, selection, mode, dimensions and column panels draw
/// the same row.
proof fn lemma_entry_row_fields(
    d1: Dune,
    d2: Dune,
    grid: Seq<Cell>,
    entry_idx: int,
    line_idx: int,
    label: Seq<char>,
)
    requires
        d1.entries == d2.entries,
        d1.entries_scrolling_window == d2.entries_scrolling_window,
        d1.mode == d2.mode,
        d1.vterm.width == d2.vterm.width,
        d1.vterm.height == d2.vterm.height,
        d1.panel_file_name == d2.panel_file_name,
        d1.panel_file_last_modified == d2.panel_file_last_modified,
        d1.panel_file_size == d2.panel_file_size,
        d1.panel_file_permissions == d2.panel_file_permissions,
    ensures
        spec_entry_row(d1, grid, entry_idx, line_idx, label) == spec_entry_row(
            d2,
            grid,
            entry_idx,
            line_idx,
            label,
        ),
{
    assert(spec_entry_style(d1, entry_idx) == spec_entry_style(d2, entry_idx));
}

/// The whole application state: the owned virtual terminal, the entries of
/// the current directory with their scrolling window, the mode with its
/// prompt, and the panels of the column layout.
pub struct Dune {
    pub vterm: VTerm,
    pub should_quit: bool,
    pub entries: Vec<FileInfo>,
    pub entries_scrolling_window: ScrollingWindow,
    pub curr_dir: FileInfo,
    pub state: StateMsg,
    pub mode: Mode,
    pub prompt: String,
    pub cursor: (usize, usize),
    pub key_bindings: KeyBindings,
    pub panel_header: Panel,
    pub panel_file_name: Panel,
    pub panel_file_permissions: Panel,
    pub panel_file_last_modified: Panel,
    pub panel_file_size: Panel,
    pub panel_state: Panel,
    pub panel_prompt: Panel,
}

impl Dune {
    /// The grids are intact, the scrolling window is consistent and tracks
    /// exactly the entries list.
    pub open spec fn wf(self) -> bool {
        &&& self.vterm.wf()
        &&& self.entries_scrolling_window.wf()
        &&& self.entries_scrolling_window.entries_len == self.entries@.len()
    }

    /// The column layout for a terminal of `w` by `h` cells: a one-row
    /// header, the entry table with fixed-width permission, size and date
    /// columns taken from the right (the name column keeps the rest), a
    /// status row, a prompt row, and the scrolling window re-derived for
    /// the table's height.
    pub open spec fn layout_applied(self, w: usize, h: usize) -> bool {
        let len1: usize = if w >= PERMISSIONS_LEN {
            (w - PERMISSIONS_LEN) as usize
        } else {
            0
        };
        let len2: usize = if len1 >= SIZE_LEN {
            (len1 - SIZE_LEN) as usize
        } else {
            0
        };
        let len3: usize = if len2 >= LAST_MODIFIED_LEN {
            (len2 - LAST_MODIFIED_LEN) as usize
        } else {
            0
        };
        &&& self.panel_header == (Panel { x: 0, y: 0, width: w, height: 1 })
        &&& self.panel_file_permissions == (Panel {
            x: len1,
            y: 1,
            width: PERMISSIONS_LEN,
            height: (h - 3) as usize,
        })
        &&& self.panel_file_size == (Panel {
            x: len2,
            y: 1,
            width: SIZE_LEN,
            height: (h - 3) as usize,
        })
        &&& self.panel_file_last_modified == (Panel {
            x: len3,
            y: 1,
            width: LAST_MODIFIED_LEN,
            height: (h - 3) as usize,
        })
        &&& self.panel_file_name == (Panel { x: 0, y: 1, width: len3, height: (h - 3) as usize })
        &&& self.panel_state == (Panel { x: 0, y: (h - 2) as usize, width: w, height: 1 })
        &&& self.panel_prompt == (Panel { x: 0, y: (h - 1) as usize, width: w, height: 1 })
        &&& self.entries_scrolling_window == ScrollingWindow::spec_reset(
            (h - 3) as usize,
            self.entries@.len() as usize,
        )
    }

    pub fn new(width: usize, height: usize, key_bindings: KeyBindings, curr_dir: FileInfo) -> (r:
        Dune)
        requires
            width * height <= usize::MAX,
        ensures
            r.wf(),
            r.vterm.width == width,
            r.vterm.height == height,
            r.should_quit == false,
            r.entries@.len() == 0,
            r.entries_scrolling_window == ScrollingWindow::spec_reset(0, 0),
            r.curr_dir == curr_dir,
            r.state is Okay,
            r.mode is Explorer,
            r.prompt@.len() == 0,
            r.cursor == (0usize, 0usize),
            r.key_bindings == key_bindings,
            r.panel_header == (Panel { x: 0, y: 0, width: 0, height: 0 }),
            r.panel_file_name == (Panel { x: 0, y: 0, width: 0, height: 0 }),
            r.panel_file_permissions == (Panel { x: 0, y: 0, width: 0, height: 0 }),
            r.panel_file_last_modified == (Panel { x: 0, y: 0, width: 0, height: 0 }),
            r.panel_file_size == (Panel { x: 0, y: 0, width: 0, height: 0 }),
            r.panel_state == (Panel { x: 0, y: 0, width: 0, height: 0 }),
            r.panel_prompt == (Panel { x: 0, y: 0, width: 0, height: 0 }),
    {
        Dune {
            vterm: VTerm::new(width, height),
            should_quit: false,
            entries: Vec::new(),
            entries_scrolling_window: ScrollingWindow::new(0, 0),
            curr_dir,
            state: StateMsg::Okay,
            mode: Mode::Explorer,
            prompt: String::new(),
            cursor: (0, 0),
            key_bindings,
            panel_header: Panel::new(),
            panel_file_name: Panel::new(),
            panel_file_permissions: Panel::new(),
            panel_file_last_modified: Panel::new(),
            panel_file_size: Panel::new(),
            panel_state: Panel::new(),
            panel_prompt: Panel::new(),
        }
    }

    /// Lays the panels out for the current terminal size: a one-row header,
    /// the entry table with its fixed-width permission, size and date
    /// columns (the name column takes what is left), a status row and a
    /// prompt row. On a terminal too small for the layout nothing changes.
    pub fn update_panels_size(&mut self)
        requires
            old(self).wf(),
        ensures
            final(self).wf(),
            final(self).vterm == old(self).vterm,
            final(self).should_quit == old(self).should_quit,
            final(self).entries == old(self).entries,
            final(self).curr_dir == old(self).curr_dir,
            final(self).state == old(self).state,
            final(self).mode == old(self).mode,
            final(self).prompt == old(self).prompt,
            final(self).cursor == old(self).cursor,
            final(self).key_bindings == old(self).key_bindings,
            old(self).vterm.width < 4 || old(self).vterm.height < 3 ==> *final(self) == *old(self),
            old(self).vterm.width >= 4 && old(self).vterm.height >= 3 ==> final(self).layout_applied(old(self).vterm.width, old(self).vterm.height),
    {
        let w = self.vterm.width;
        let h = self.vterm.height;
        if w < 4 || h < 3 {
            // Not enough space to draw anything
            return ;
        }
        self.panel_header.update_size(0, 0, w, 1);
        let mut len_left = w;
        len_left = sat_sub(len_left, PERMISSIONS_LEN, 0);
        self.panel_file_permissions.update_size(len_left, 1, PERMISSIONS_LEN, h - 3);
        len_left = sat_sub(len_left, SIZE_LEN, 0);
        self.panel_file_size.update_size(len_left, 1, SIZE_LEN, h - 3);
        len_left = sat_sub(len_left, LAST_MODIFIED_LEN, 0);
        self.panel_file_last_modified.update_size(len_left, 1, LAST_MODIFIED_LEN, h - 3);
        self.panel_file_name.update_size(0, 1, len_left, h - 3);
        self.panel_state.update_size(0, h - 2, w, 1);
        self.panel_prompt.update_size(0, h - 1, w, 1);
        let n = self.entries.len();
        self.entries_scrolling_window.resize(self.panel_file_name.height, n);
    }

    /// Adopts a fresh listing of the current directory: the scrolling
    /// window is re-derived for it and the selection returns to the first
    /// entry.
    pub fn set_entries(&mut self, entries: Vec<FileInfo>, curr_dir: FileInfo)
        requires
            old(self).wf(),
        ensures
            final(self).wf(),
            final(self).entries == entries,
            final(self).curr_dir == curr_dir,
            final(self).entries_scrolling_window == ScrollingWindow::spec_reset(
                old(self).panel_file_name.height,
                entries@.len() as usize,
            ),
            final(self).vterm == old(self).vterm,
            final(self).should_quit == old(self).should_quit,
            final(self).state == old(self).state,
            final(self).mode == old(self).mode,
            final(self).prompt == old(self).prompt,
            final(self).cursor == old(self).cursor,
            final(self).key_bindings == old(self).key_bindings,
            final(self).panel_header == old(self).panel_header,
            final(self).panel_file_name == old(self).panel_file_name,
            final(self).panel_file_permissions == old(self).panel_file_permissions,
            final(self).panel_file_last_modified == old(self).panel_file_last_modified,
            final(self).panel_file_size == old(self).panel_file_size,
            final(self).panel_state == old(self).panel_state,
            final(self).panel_prompt == old(self).panel_prompt,
    {
        self.entries = entries;
        let n = self.entries.len();
        self.entries_scrolling_window.resize(self.panel_file_name.height, n);
        self.curr_dir = curr_dir;
    }

    /// Appends a typed character to the prompt; the prompt cursor advances,
    /// saturating rather than overflowing.
    fn prompt_push(&mut self, ch: char)
        ensures
            final(self).prompt@ == old(self).prompt@.push(ch),
            final(self).cursor.0 == if old(self).cursor.0 < usize::MAX {
                old(self).cursor.0 + 1
            } else {
                old(self).cursor.0 as int
            },
            final(self).cursor.1 == old(self).cursor.1,
            final(self).vterm == old(self).vterm,
            final(self).should_quit == old(self).should_quit,
            final(self).entries == old(self).entries,
            final(self).entries_scrolling_window == old(self).entries_scrolling_window,
            final(self).curr_dir == old(self).curr_dir,
            final(self).state == old(self).state,
            final(self).mode == old(self).mode,
            final(self).key_bindings == old(self).key_bindings,
            final(self).panel_header == old(self).panel_header,
            final(self).panel_file_name == old(self).panel_file_name,
            final(self).panel_file_permissions == old(self).panel_file_permissions,
            final(self).panel_file_last_modified == old(self).panel_file_last_modified,
            final(self).panel_file_size == old(self).panel_file_size,
            final(self).panel_state == old(self).panel_state,
            final(self).panel_prompt == old(self).panel_prompt,
    {
        push_char(&mut self.prompt, ch);
        if self.cursor.0 < usize::MAX {
            self.cursor.0 = self.cursor.0 + 1;
        }
    }

    /// Removes the last prompt character; the prompt cursor column floors
    /// at zero, also on an empty prompt.
    fn prompt_backspace(&mut self)
        ensures
            final(self).prompt@ == if old(self).prompt@.len() > 0 {
                old(self).prompt@.drop_last()
            } else {
                old(self).prompt@
            },
            final(self).cursor.0 == if old(self).cursor.0 > 0 {
                old(self).cursor.0 - 1
            } else {
                0int
            },
            final(self).cursor.1 == old(self).cursor.1,
            final(self).vterm == old(self).vterm,
            final(self).should_quit == old(self).should_quit,
            final(self).entries == old(self).entries,
            final(self).entries_scrolling_window == old(self).entries_scrolling_window,
            final(self).curr_dir == old(self).curr_dir,
            final(self).state == old(self).state,
            final(self).mode == old(self).mode,
            final(self).key_bindings == old(self).key_bindings,
            final(self).panel_header == old(self).panel_header,
            final(self).panel_file_name == old(self).panel_file_name,
            final(self).panel_file_permissions == old(self).panel_file_permissions,
            final(self).panel_file_last_modified == old(self).panel_file_last_modified,
            final(self).panel_file_size == old(self).panel_file_size,
            final(self).panel_state == old(self).panel_state,
            final(self).panel_prompt == old(self).panel_prompt,
    {
        let _ = pop_char(&mut self.prompt);
        if self.cursor.0 > 0 {
            self.cursor.0 = self.cursor.0 - 1;
        }
    }

    /// Flips between the modes. Entering Command mode parks the cursor on
    /// the prompt row and announces the prompt in the status line; leaving
    /// it clears the status.
    fn toggle_mode(&mut self)
        ensures
            final(self).mode == spec_toggle(old(self).mode),
            old(self).mode is Explorer ==> {
                &&& final(self).cursor.0 == 0
                &&& final(self).cursor.1 == if old(self).vterm.height > 0 {
                    old(self).vterm.height - 1
                } else {
                    0int
                }
                &&& final(self).state matches StateMsg::Info(m) && m@ == "Command:"@
            },
            old(self).mode is Command ==> {
                &&& final(self).cursor == old(self).cursor
                &&& final(self).state is Okay
            },
            final(self).prompt == old(self).prompt,
            final(self).vterm == old(self).vterm,
            final(self).should_quit == old(self).should_quit,
            final(self).entries == old(self).entries,
            final(self).entries_scrolling_window == old(self).entries_scrolling_window,
            final(self).curr_dir == old(self).curr_dir,
            final(self).key_bindings == old(self).key_bindings,
            final(self).panel_header == old(self).panel_header,
            final(self).panel_file_name == old(self).panel_file_name,
            final(self).panel_file_permissions == old(self).panel_file_permissions,
            final(self).panel_file_last_modified == old(self).panel_file_last_modified,
            final(self).panel_file_size == old(self).panel_file_size,
            final(self).panel_state == old(self).panel_state,
            final(self).panel_prompt == old(self).panel_prompt,
    {
        match self.mode {
            Mode::Explorer => {
                self.cursor = (0, sat_sub(self.vterm.height, 1, 0));
                self.state = StateMsg::Info(String::from_str("Command:"));
                self.mode = Mode::Command;
            },
            Mode::Command => {
                self.state = StateMsg::Okay;
                self.mode = Mode::Explorer;
            },
        }
    }

    /// Decides what entering the selected entry means: launching a plain
    /// file, or changing into a directory. With nothing to select it is a
    /// no-op.
    fn enter_selected(&self) -> (r: EventOutcome)
        ensures
            ({
                let sw = self.entries_scrolling_window;
                if sw.selected_entry < self.entries@.len() {
                    if !self.entries@[sw.selected_entry as int].is_dir {
                        r matches EventOutcome::OpenFile { path } && path@ == self.entries@[
                            sw.selected_entry as int
                        ].path_abs@
                    } else {
                        r matches EventOutcome::EnterDir { name } && name@ == self.entries@[
                            sw.selected_entry as int
                        ].name@
                    }
                } else {
                    r is Continue
                }
            }),
    {
        let sel = self.entries_scrolling_window.selected();
        if sel < self.entries.len() {
            if !self.entries[sel].is_dir() {
                EventOutcome::OpenFile { path: self.entries[sel].path_abs.clone() }
            } else {
                EventOutcome::EnterDir { name: self.entries[sel].name.clone() }
            }
        } else {
            EventOutcome::Continue
        }
    }

    /// Routes one input event. Resizes are handled first and
    /// unconditionally; then the global bindings (quit, mode toggle); then
    /// the bindings of the mode that now holds: navigation and directory
    /// actions in Explorer mode, prompt editing and execution in Command
    /// mode, where an unbound plain character joins the prompt. The
    /// returned outcome is what the caller still has to perform.
    pub fn handle_event(&mut self, evt: InputEvent) -> (r: EventOutcome)
        requires
            old(self).wf(),
        ensures
            final(self).wf(),
            final(self).key_bindings == old(self).key_bindings,
            final(self).entries == old(self).entries,
            final(self).curr_dir == old(self).curr_dir,
            evt matches InputEvent::Resize(w, h) ==> {
                &&& r is ClearScreen
                &&& final(self).vterm.width == w as usize
                &&& final(self).vterm.height == h as usize
                &&& final(self).vterm.vterminal@ == crate::vterm::spec_blank_grid(
                    (w as usize) * (h as usize),
                )
                &&& final(self).vterm.vterminal_last@ == crate::vterm::spec_blank_grid(
                    (w as usize) * (h as usize),
                )
                &&& final(self).mode == old(self).mode
                &&& final(self).should_quit == old(self).should_quit
                &&& final(self).prompt == old(self).prompt
                &&& final(self).state == old(self).state
                &&& final(self).cursor == old(self).cursor
                &&& (w as usize >= 4 && h as usize >= 3 ==> final(self).layout_applied(
                    w as usize,
                    h as usize,
                ))
            },
            !(evt is Resize) ==> ({
                let g = old(self).key_bindings.spec_global_action(evt);
                let m = if g == Some(ActionGlobal::ModeChange) {
                    spec_toggle(old(self).mode)
                } else {
                    old(self).mode
                };
                &&& final(self).should_quit == (old(self).should_quit || g == Some(
                    ActionGlobal::Quit,
                ))
                &&& final(self).mode == m
                &&& final(self).vterm == old(self).vterm
                &&& final(self).panel_header == old(self).panel_header
                &&& final(self).panel_file_name == old(self).panel_file_name
                &&& final(self).panel_file_permissions == old(self).panel_file_permissions
                &&& final(self).panel_file_last_modified == old(self).panel_file_last_modified
                &&& final(self).panel_file_size == old(self).panel_file_size
                &&& final(self).panel_state == old(self).panel_state
                &&& final(self).panel_prompt == old(self).panel_prompt
                &&& (g == Some(ActionGlobal::ModeChange) && old(self).mode is Explorer ==> (final(self).state matches StateMsg::Info(msg) && msg@ == "Command:"@) && final(self).cursor.1 == (if old(self).vterm.height > 0 {
                    old(self).vterm.height - 1
                } else {
                    0int
                }))
                &&& (g == Some(ActionGlobal::ModeChange) && old(self).mode is Explorer && !(
                spec_char_of(evt) is Some && old(self).key_bindings.spec_command_action(evt)
                    is None) ==> final(self).cursor.0 == 0)
                &&& (g == Some(ActionGlobal::ModeChange) && old(self).mode is Command ==> final(self).state is Okay)
                &&& (g != Some(ActionGlobal::ModeChange) ==> final(self).state == old(self).state
                    && final(self).cursor.1 == old(self).cursor.1)
                &&& (m is Explorer ==> final(self).prompt == old(self).prompt && final(self).cursor.0 == old(self).cursor.0 && ({
                    let a = old(self).key_bindings.spec_explorer_action(evt);
                    let sw = old(self).entries_scrolling_window;
                    &&& (a == Some(ActionExplorer::NavLineUp) ==> final(self).entries_scrolling_window == sw.spec_up() && r is Continue)
                    &&& (a == Some(ActionExplorer::NavLineDown) ==> final(self).entries_scrolling_window == sw.spec_down() && r is Continue)
                    &&& (a == Some(ActionExplorer::NavHome) ==> final(self).entries_scrolling_window == sw.spec_first() && r is Continue)
                    &&& (a == Some(ActionExplorer::NavEnd) ==> final(self).entries_scrolling_window == sw.spec_last() && r is Continue)
                    &&& (a == Some(ActionExplorer::EntriesUpdate) ==> final(self).entries_scrolling_window == sw && r is Refresh)
                    &&& (a == Some(ActionExplorer::DirLeave) ==> final(self).entries_scrolling_window == sw && r is LeaveDir)
                    &&& (a == Some(ActionExplorer::DirEnter) ==> final(self).entries_scrolling_window == sw && (if sw.selected_entry < old(self).entries@.len() {
                        if !old(self).entries@[sw.selected_entry as int].is_dir {
                            r matches EventOutcome::OpenFile { path } && path@ == old(self).entries@[sw.selected_entry as int].path_abs@
                        } else {
                            r matches EventOutcome::EnterDir { name } && name@ == old(self).entries@[sw.selected_entry as int].name@
                        }
                    } else {
                        r is Continue
                    }))
                    &&& (a is None ==> final(self).entries_scrolling_window == sw && r is Continue)
                }))
                &&& (m is Command ==> final(self).entries_scrolling_window == old(self).entries_scrolling_window && ({
                    let c = old(self).key_bindings.spec_command_action(evt);
                    &&& (c == Some(ActionCommand::Execute) ==> (r matches
                        EventOutcome::RunCommand { line } && line@ == old(self).prompt@) && final(self).prompt == old(self).prompt)
                    &&& (c == Some(ActionCommand::PromptBackspace) ==> r is Continue && final(self).prompt@ == (if old(self).prompt@.len() > 0 {
                        old(self).prompt@.drop_last()
                    } else {
                        old(self).prompt@
                    }))
                    &&& (c == Some(ActionCommand::PromptBackspace) ==> final(self).cursor.0
                        == (if g == Some(ActionGlobal::ModeChange) {
                        0int
                    } else if old(self).cursor.0 > 0 {
                        old(self).cursor.0 - 1
                    } else {
                        0int
                    }))
                    &&& (c is None ==> r is Continue && (match spec_char_of(evt) {
                        Some(ch) => final(self).prompt@ == old(self).prompt@.push(ch) && final(self).cursor.0 == (if g == Some(ActionGlobal::ModeChange) {
                            1int
                        } else if old(self).cursor.0 < usize::MAX {
                            old(self).cursor.0 + 1
                        } else {
                            old(self).cursor.0 as int
                        }),
                        None => final(self).prompt == old(self).prompt && final(self).cursor.0
                            == (if g == Some(ActionGlobal::ModeChange) {
                            0int
                        } else {
                            old(self).cursor.0 as int
                        }),
                    }))
                }))
            }),
    {
        if let InputEvent::Resize(w, h) = evt {
            let wu = w as usize;
            let hu = h as usize;
            proof {
                assert(wu * hu <= usize::MAX) by (nonlinear_arith)
                    requires
                        wu <= u16::MAX,
                        hu <= u16::MAX,
                ;
            }
            self.vterm.resize(wu, hu);
            self.update_panels_size();
            return EventOutcome::ClearScreen;
        }
        if let Some(action) = self.key_bindings.get_global(&evt) {
            match action {
                ActionGlobal::Quit => {
                    self.should_quit = true;
                },
                ActionGlobal::ModeChange => {
                    self.toggle_mode();
                },
            }
        }
        match self.mode {
            Mode::Command => {
                if let Some(action) = self.key_bindings.get_command(&evt) {
                    match action {
                        ActionCommand::Execute => {
                            return EventOutcome::RunCommand { line: self.prompt.clone() };
                        },
                        ActionCommand::PromptBackspace => {
                            self.prompt_backspace();
                        },
                    }
                } else {
                    if let InputEvent::Key(k) = evt {
                        if let KeyCode::Char(ch) = k.code {
                            self.prompt_push(ch);
                        }
                    }
                }
                EventOutcome::Continue
            },
            Mode::Explorer => {
                if let Some(action) = self.key_bindings.get_explorer(&evt) {
                    match action {
                        ActionExplorer::NavLineUp => {
                            self.entries_scrolling_window.up();
                        },
                        ActionExplorer::NavLineDown => {
                            self.entries_scrolling_window.down();
                        },
                        ActionExplorer::NavHome => {
                            self.entries_scrolling_window.first();
                        },
                        ActionExplorer::NavEnd => {
                            self.entries_scrolling_window.last();
                        },
                        ActionExplorer::DirEnter => {
                            return self.enter_selected();
                        },
                        ActionExplorer::DirLeave => {
                            return EventOutcome::LeaveDir;
                        },
                        ActionExplorer::EntriesUpdate => {
                            return EventOutcome::Refresh;
                        },
                    }
                }
                EventOutcome::Continue
            },
        }
    }

    /// Draws the row for one entry: its name (truncated to the column with
    /// a trailing ellipsis), styled by selection, kind and permissions,
    /// beside the given date label, the rendered size and the permission
    /// string, exactly as `spec_entry_row` composes them.
    #[verifier::rlimit(50)]
    fn render_entry(&mut self, entry_idx: usize, line_idx: usize, date: &str)
        requires
            old(self).wf(),
            entry_idx < old(self).entries@.len(),
        ensures
            final(self).wf(),
            final(self).vterm.width == old(self).vterm.width,
            final(self).vterm.height == old(self).vterm.height,
            final(self).vterm.vterminal_last == old(self).vterm.vterminal_last,
            *final(self) == (Dune { vterm: final(self).vterm, ..*old(self) }),
            final(self).vterm.vterminal@ == spec_entry_row(
                *old(self),
                old(self).vterm.vterminal@,
                entry_idx as int,
                line_idx as int,
                date@,
            ),
    {
        let style = if entry_idx == self.entries_scrolling_window.selected() {
            match self.mode {
                Mode::Command => Style::new().bold().bg(Color::DarkGreen),
                Mode::Explorer => Style::new().bold().reverse(),
            }
        } else {
            Style::new().bold()
        };
        let mode_bits = self.entries[entry_idx].mode();
        let style = if self.entries[entry_idx].is_dir() {
            style.fg(Color::Cyan)
        } else if mode_bits & 0o001 == 1 {
            style.fg(Color::Green)
        } else if self.entries[entry_idx].is_read_only() {
            style.fg(Color::Grey)
        } else {
            style
        };
        let name_str = self.entries[entry_idx].name.as_str();
        let name_len = name_str.unicode_len();
        let style = if name_len > 0 && name_str.get_char(0) == '.' {
            style.dim()
        } else {
            style
        };
        proof {
            assert(style == spec_entry_style(*old(self), entry_idx as int));
        }
        let pw = self.panel_file_name.width;
        let name = if name_len > pw {
            let keep = sat_sub(pw, 3, 0);
            let mut t = String::from_str(name_str.substring_char(0, keep));
            t.append("...");
            t
        } else {
            String::from_str(name_str)
        };
        proof {
            assert(name@ =~= spec_entry_name(
                old(self).entries@[entry_idx as int].name@,
                old(self).panel_file_name.width as int,
            ));
        }
        let _ = self.panel_file_name.draw_text(&mut self.vterm, name.as_str(), 0, line_idx, style);
        let _ = self.panel_file_last_modified.draw_text(
            &mut self.vterm,
            date,
            0,
            line_idx,
            Style::new().dim(),
        );
        let size = self.entries[entry_idx].pretty_size();
        let _ = self.panel_file_size.draw_text(
            &mut self.vterm,
            size.as_str(),
            0,
            line_idx,
            Style::new().dim(),
        );
        let mut permissions = String::new();
        push_char(&mut permissions, if self.entries[entry_idx].is_dir() { 'd' } else { '-' });
        push_char(&mut permissions, ' ');
        push_char(&mut permissions, if (mode_bits >> 0) & 0o1 > 0 { 'r' } else { '-' });
        push_char(&mut permissions, if (mode_bits >> 0) & 0o2 > 0 { 'w' } else { '-' });
        push_char(&mut permissions, if (mode_bits >> 0) & 0o4 > 0 { 'x' } else { '-' });
        push_char(&mut permissions, if (mode_bits >> 1) & 0o1 > 0 { 'r' } else { '-' });
        push_char(&mut permissions, if (mode_bits >> 1) & 0o2 > 0 { 'w' } else { '-' });
        push_char(&mut permissions, if (mode_bits >> 1) & 0o4 > 0 { 'x' } else { '-' });
        push_char(&mut permissions, if (mode_bits >> 2) & 0o1 > 0 { 'r' } else { '-' });
        push_char(&mut permissions, if (mode_bits >> 2) & 0o2 > 0 { 'w' } else { '-' });
        push_char(&mut permissions, if (mode_bits >> 2) & 0o4 > 0 { 'x' } else { '-' });
        proof {
            assert(permissions@ =~= spec_permissions(
                old(self).entries@[entry_idx as int].is_dir,
                old(self).entries@[entry_idx as int].permission_bits,
            ));
        }
        let _ = self.panel_file_permissions.draw_text(
            &mut self.vterm,
            permissions.as_str(),
            0,
            line_idx,
            Style::new().dim(),
        );
        proof {
            assert(self.vterm.vterminal@ == spec_entry_row(
                *old(self),
                old(self).vterm.vterminal@,
                entry_idx as int,
                line_idx as int,
                date@,
            ));
        }
    }

    /// Draws one whole frame into the virtual terminal: the header with
    /// path, entry count and mode, the visible slice of the entries with
    /// their overflow ellipsis rows, the status line, and in Command mode
    /// the prompt. The drawn frame equals `spec_frame` for some sequence of
    /// date labels, one per visible row (the labels come from the
    /// time-zone-dependent date formatting, so only their placement and
    /// clipping are fixed). On a terminal below the minimum size nothing is
    /// drawn.
    pub fn render(&mut self) -> (r: RenderStatus)
        requires
            old(self).wf(),
        ensures
            final(self).wf(),
            r is TooSmall <==> (old(self).vterm.width < MIN_RENDER_WIDTH || old(
                self,
            ).vterm.height < MIN_RENDER_HEIGHT),
            r is TooSmall ==> *final(self) == *old(self),
            final(self).vterm.width == old(self).vterm.width,
            final(self).vterm.height == old(self).vterm.height,
            final(self).vterm.vterminal_last == old(self).vterm.vterminal_last,
            *final(self) == (Dune { vterm: final(self).vterm, ..*old(self) }),
            !(r is TooSmall) ==> ({
                let start = old(self).entries_scrolling_window.spec_visible_start();
                let end = old(self).entries_scrolling_window.spec_visible_end();
                exists|labels: Seq<Seq<char>>|
                    labels.len() == end - start && final(self).vterm.vterminal@
                        == #[trigger] spec_frame(*old(self), labels)
            }),
    {
        if self.vterm.width < MIN_RENDER_WIDTH || self.vterm.height < MIN_RENDER_HEIGHT {
            return RenderStatus::TooSmall;
        }
        if let Mode::Command = self.mode {
            let _ = self.panel_prompt.draw_text(
                &mut self.vterm,
                self.prompt.as_str(),
                0,
                0,
                Style::new(),
            );
        }
        let (text, style): (String, Style) = match &self.state {
            StateMsg::Error(msg) => {
                let mut t = String::from_str("ERROR: ");
                t.append(msg.as_str());
                t.append(".");
                (t, Style::new().bg(Color::DarkRed).fg(Color::White).bold())
            },
            StateMsg::Okay => (String::new(), Style::new().bg(Color::White).fg(Color::Black)),
            StateMsg::Info(msg) => (
                msg.clone(),
                Style::new().bg(Color::White).fg(Color::Black).bold(),
            ),
        };
        proof {
            assert(text@ =~= spec_status_text(old(self).state));
            assert(style == spec_status_style(old(self).state));
        }
        let _ = self.panel_state.fill(&mut self.vterm, ' ', style);
        let _ = self.panel_state.draw_text(&mut self.vterm, text.as_str(), 0, 0, style);
        let hstyle = Style::new().bg(Color::Grey);
        let _ = self.panel_header.fill(&mut self.vterm, ' ', hstyle);
        let mut htext = String::from_str(self.curr_dir.path_str());
        htext.append(": (total ");
        push_decimal(&mut htext, self.entries.len() as u64);
        htext.append(")");
        proof {
            assert(htext@ =~= spec_header_text(*old(self)));
        }
        let _ = self.panel_header.draw_text(
            &mut self.vterm,
            htext.as_str(),
            0,
            0,
            hstyle.bold().fg(Color::Black),
        );
        let w = self.vterm.width;
        match self.mode {
            Mode::Command => {
                let _ = self.panel_header.draw_text(
                    &mut self.vterm,
                    "Command Mode",
                    sat_sub(w, 13, 0),
                    0,
                    hstyle.bold().fg(Color::Black),
                );
            },
            Mode::Explorer => {
                let _ = self.panel_header.draw_text(
                    &mut self.vterm,
                    "Explorer Mode",
                    sat_sub(w, 14, 0),
                    0,
                    hstyle.bold().fg(Color::Black),
                );
            },
        }
        proof {
            assert(self.vterm.vterminal@ == spec_frame_base(*old(self)));
        }
        let ghost base = self.vterm.vterminal@;
        let rng = self.entries_scrolling_window.visible();
        let ghost start0 = rng.start as int;
        let ghost end0 = rng.end as int;
        proof {
            assert(rng.start <= rng.end);
            assert(rng.end <= self.entries@.len());
        }
        let mut entry_idx = rng.start;
        let mut line_idx: usize = 0;
        let ghost mut labels: Seq<Seq<char>> = Seq::empty();
        while entry_idx < rng.end
            invariant
                self.wf(),
                rng.end <= self.entries@.len(),
                start0 == rng.start as int,
                end0 == rng.end as int,
                rng.start <= entry_idx <= rng.end,
                entry_idx - rng.start == line_idx,
                labels.len() == line_idx,
                self.vterm.width == old(self).vterm.width,
                self.vterm.height == old(self).vterm.height,
                self.vterm.vterminal_last == old(self).vterm.vterminal_last,
                *self == (Dune { vterm: self.vterm, ..*old(self) }),
                self.vterm.vterminal@ == spec_entry_rows(
                    *old(self),
                    base,
                    start0,
                    end0,
                    line_idx as int,
                    labels,
                ),
            decreases rng.end - entry_idx,
        {
            let ghost prev = self.vterm.vterminal@;
            let ghost mut row_label: Seq<char> = Seq::empty();
            if line_idx == 0 && entry_idx > 0 {
                let _ = self.panel_file_name.draw_text(
                    &mut self.vterm,
                    "...",
                    3,
                    line_idx,
                    Style::new(),
                );
            } else if self.panel_file_name.height > 0 && line_idx == self.panel_file_name.height
                - 1 && self.entries.len() > rng.end {
                let _ = self.panel_file_name.draw_text(
                    &mut self.vterm,
                    "...",
                    3,
                    line_idx,
                    Style::new(),
                );
            } else {
                let date = modified_label(self.entries[entry_idx].last_modified());
                let ghost before = *self;
                self.render_entry(entry_idx, line_idx, date.as_str());
                proof {
                    lemma_entry_row_fields(
                        before,
                        *old(self),
                        prev,
                        entry_idx as int,
                        line_idx as int,
                        date@,
                    );
                    row_label = date@;
                }
            }
            proof {
                assert(self.vterm.vterminal@ == spec_row(
                    *old(self),
                    prev,
                    entry_idx as int,
                    line_idx as int,
                    end0,
                    row_label,
                ));
                lemma_entry_rows_push(*old(self), base, start0, end0, line_idx as int, labels, row_label);
                labels = labels.push(row_label);
                assert(self.vterm.vterminal@ == spec_entry_rows(
                    *old(self),
                    base,
                    start0,
                    end0,
                    line_idx + 1,
                    labels,
                ));
            }
            entry_idx += 1;
            line_idx += 1;
        }
        proof {
            assert(line_idx as int == end0 - start0);
            assert(self.vterm.vterminal@ == spec_frame(*old(self), labels));
            assert(exists|ls: Seq<Seq<char>>|
                ls.len() == end0 - start0 && self.vterm.vterminal@ == #[trigger] spec_frame(
                    *old(self),
                    ls,
                ));
        }
        RenderStatus::Drawn
    }

    /// Clears the status line back to its quiet state.
    pub fn clear_state(&mut self)
        ensures
            final(self).state is Okay,
            *final(self) == (Dune { state: StateMsg::Okay, ..*old(self) }),
    {
        self.state = StateMsg::Okay;
    }

    /// Records the result of a command the caller ran for the Execute
    /// outcome: the status line shows the command, its exit code and its
    /// output, as an error when the command failed.
    pub fn command_finished(
        &mut self,
        pretty_command: &str,
        exit_code: i32,
        success: bool,
        output: &str,
    )
        ensures
            success ==> (final(self).state matches StateMsg::Info(m) && m@ == spec_command_msg(
                pretty_command@,
                exit_code as int,
                output@,
            )),
            !success ==> (final(self).state matches StateMsg::Error(m) && m@ == spec_command_msg(
                pretty_command@,
                exit_code as int,
                output@,
            )),
            *final(self) == (Dune { state: final(self).state, ..*old(self) }),
    {
        let mut m = String::from_str(pretty_command);
        m.append(": exit ");
        push_decimal_i32(&mut m, exit_code);
        m.append(": ");
        m.append(output);
        proof {
            assert(m@ =~= spec_command_msg(pretty_command@, exit_code as int, output@));
        }
        if success {
            self.state = StateMsg::Info(m);
        } else {
            self.state = StateMsg::Error(m);
        }
    }

    /// Records that launching the selected file failed.
    pub fn report_open_error(&mut self, name: &str, err_msg: &str)
        ensures
            final(self).state matches StateMsg::Error(m) && m@ == spec_open_error_msg(
                name@,
                err_msg@,
            ),
            *final(self) == (Dune { state: final(self).state, ..*old(self) }),
    {
        let mut m = String::from_str("Tried to open `");
        m.append(name);
        m.append("`, but failed: ");
        m.append(err_msg);
        proof {
            assert(m@ =~= spec_open_error_msg(name@, err_msg@));
        }
        self.state = StateMsg::Error(m);
    }

    /// Records that entering the selected directory failed.
    pub fn report_enter_error(&mut self, name: &str, err_msg: &str)
        ensures
            final(self).state matches StateMsg::Error(m) && m@ == spec_enter_error_msg(
                name@,
                err_msg@,
            ),
            *final(self) == (Dune { state: final(self).state, ..*old(self) }),
    {
        let mut m = String::from_str("Tried to enter `");
        m.append(name);
        m.append("`, but failed because ");
        m.append(err_msg);
        proof {
            assert(m@ =~= spec_enter_error_msg(name@, err_msg@));
        }
        self.state = StateMsg::Error(m);
    }

    /// Records that re-listing the current directory failed.
    pub fn report_refresh_error(&mut self, err_msg: &str)
        ensures
            final(self).state matches StateMsg::Error(m) && m@ == err_msg@,
            *final(self) == (Dune { state: final(self).state, ..*old(self) }),
    {
        self.state = StateMsg::Error(String::from_str(err_msg));
    }
}

} // verus!
