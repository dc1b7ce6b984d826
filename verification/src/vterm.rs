//! A virtual terminal: two grids of styled characters ("current" and
//! "previous" frame) plus the diff between them. Drawing queues cells into
//! the current grid; a flush hands back exactly the writes for cells that
//! changed since the previous frame, so redraw cost follows the number of
//! changed cells, not the grid size. `Panel` maps a rectangular sub-region's
//! local coordinates onto the shared grid and clips text to its width.

use vstd::arithmetic::div_mod::lemma_fundamental_div_mod_converse;
use vstd::prelude::*;

verus! {

/// Colours a cell style can pick; the binary maps them onto the real
/// terminal's palette.
#[derive(Clone, Copy, Debug, PartialEq, Eq, Structural)]
pub enum Color {
    Default,
    Black,
    White,
    Grey,
    Red,
    DarkRed,
    Green,
    DarkGreen,
    Cyan,
}

/// Display attributes of one cell. The grid never interprets a style; it
/// only compares styles when diffing frames.
#[derive(Clone, Copy, Debug, PartialEq, Eq, Structural)]
pub struct Style {
    pub bold: bool,
    pub dim: bool,
    pub reverse: bool,
    pub fg: Color,
    pub bg: Color,
}

impl Style {
    /// No attributes, default colours.
    pub open spec fn spec_new() -> Style {
        Style { bold: false, dim: false, reverse: false, fg: Color::Default, bg: Color::Default }
    }

    pub fn new() -> (r: Style)
        ensures
            r == Style::spec_new(),
    {
        Style { bold: false, dim: false, reverse: false, fg: Color::Default, bg: Color::Default }
    }

    pub fn bold(self) -> (r: Style)
        ensures
            r == (Style { bold: true, ..self }),
    {
        Style { bold: true, ..self }
    }

    pub fn dim(self) -> (r: Style)
        ensures
            r == (Style { dim: true, ..self }),
    {
        Style { dim: true, ..self }
    }

    pub fn reverse(self) -> (r: Style)
        ensures
            r == (Style { reverse: true, ..self }),
    {
        Style { reverse: true, ..self }
    }

    pub fn fg(self, color: Color) -> (r: Style)
        ensures
            r == (Style { fg: color, ..self }),
    {
        Style { fg: color, ..self }
    }

    pub fn bg(self, color: Color) -> (r: Style)
        ensures
            r == (Style { bg: color, ..self }),
    {
        Style { bg: color, ..self }
    }
}

/// One character plus its display style at a grid position.
#[derive(Clone, Copy, Debug, PartialEq, Eq, Structural)]
pub struct Cell {
    pub ch: char,
    pub style: Style,
}

impl Cell {
    /// The blank cell every grid starts from: a space with no attributes.
    pub open spec fn spec_blank() -> Cell {
        Cell { ch: ' ', style: Style::spec_new() }
    }

    pub fn new() -> (r: Cell)
        ensures
            r == Cell::spec_blank(),
    {
        Cell { ch: ' ', style: Style::new() }
    }
}

/// Drawing outside the grid or a panel is reported, never a crash.
#[derive(Clone, Copy, Debug, PartialEq, Eq, Structural)]
pub enum DrawError {
    OutOfBounds,
}

/// One positioned, styled character write emitted by a flush.
#[derive(Clone, Copy, Debug, PartialEq, Eq, Structural)]
pub struct CellWrite {
    pub x: usize,
    pub y: usize,
    pub cell: Cell,
}

/// Converts a dimension (size, coordinate, ...) from usize to the terminal's
/// length type (u16), clamping at its maximum.
pub fn dim_to_terminal(dim: usize) -> (r: u16)
    ensures
        r == if dim <= u16::MAX { dim as int } else { u16::MAX as int },
{
    if dim <= u16::MAX as usize {
        dim as u16
    } else {
        u16::MAX
    }
}

/// An all-blank grid of `n` cells.
pub open spec fn spec_blank_grid(n: int) -> Seq<Cell> {
    Seq::new(n as nat, |i: int| Cell::spec_blank())
}

/// The cell holding `ch` drawn with `style`.
pub open spec fn spec_cell(ch: char, style: Style) -> Cell {
    Cell { ch: ch, style: style }
}

/// `grid` with `chars` written left-to-right starting at `(x, y)` on a grid
/// `w` cells wide.
pub open spec fn spec_write_run(
    grid: Seq<Cell>,
    chars: Seq<char>,
    x: int,
    y: int,
    w: int,
    style: Style,
) -> Seq<Cell> {
    Seq::new(
        grid.len(),
        |i: int|
            if x + y * w <= i < x + y * w + chars.len() {
                spec_cell(chars[i - (x + y * w)], style)
            } else {
                grid[i]
            },
    )
}

/// `grid` with the rectangle of width `w` and height `h` at `(x, y)` set to
/// `cell`, on a grid `gw` cells wide.
pub open spec fn spec_fill_rect(
    grid: Seq<Cell>,
    x: int,
    y: int,
    w: int,
    h: int,
    gw: int,
    cell: Cell,
) -> Seq<Cell> {
    Seq::new(
        grid.len(),
        |i: int|
            if x <= i % gw < x + w && y <= i / gw < y + h {
                cell
            } else {
                grid[i]
            },
    )
}

/// The writes a flush of grid prefix `[0, n)` emits: one per index where the
/// current frame differs from the previous one, in index order.
pub open spec fn spec_diff_prefix(cur: Seq<Cell>, last: Seq<Cell>, w: int, n: int) -> Seq<
    CellWrite,
>
    decreases n,
{
    if n <= 0 {
        Seq::empty()
    } else {
        let rest = spec_diff_prefix(cur, last, w, n - 1);
        if cur[n - 1] != last[n - 1] {
            rest.push(CellWrite { x: ((n - 1) % w) as usize, y: ((n - 1) / w) as usize, cell: cur[n - 1] })
        } else {
            rest
        }
    }
}

/// The writes a full flush emits.
pub open spec fn spec_diff_writes(cur: Seq<Cell>, last: Seq<Cell>, w: int) -> Seq<CellWrite> {
    spec_diff_prefix(cur, last, w, cur.len() as int)
}

/// How many cells of the prefix `[0, n)` are not blank.
pub open spec fn spec_nonblank_count(cur: Seq<Cell>, n: int) -> int
    decreases n,
{
    if n <= 0 {
        0
    } else {
        spec_nonblank_count(cur, n - 1) + if cur[n - 1] != Cell::spec_blank() {
            1int
        } else {
            0int
        }
    }
}

/// A cell position inside the grid maps to an index inside the grid's cell
/// vector.
proof fn lemma_grid_index(x: int, y: int, w: int, h: int)
    requires
        0 <= x < w,
        0 <= y < h,
    ensures
        0 <= x + y * w < w * h,
{
    assert(x + y * w < w * h) by (nonlinear_arith)
        requires
            0 <= x < w,
            0 <= y < h,
    ;
    assert(0 <= y * w) by (nonlinear_arith)
        requires
            0 <= y,
            0 < w,
    ;
}

/// A row base column `x <= w` still stays within one grid's worth of cells.
proof fn lemma_grid_base(x: int, y: int, w: int, h: int)
    requires
        0 <= x <= w,
        0 <= y < h,
    ensures
        0 <= x + y * w <= w * h,
{
    assert(x + y * w <= w * h) by (nonlinear_arith)
        requires
            0 <= x <= w,
            0 <= y < h,
    ;
    assert(0 <= y * w) by (nonlinear_arith)
        requires
            0 <= y,
            0 <= w,
    ;
}

/// Owns the two frame grids. `vterminal` is the frame being drawn,
/// `vterminal_last` the frame already on screen.
#[derive(Debug)]
pub struct VTerm {
    pub vterminal_last: Vec<Cell>,
    pub vterminal: Vec<Cell>,
    pub width: usize,
    pub height: usize,
}

impl VTerm {
    /// Both grids always hold exactly `width * height` cells.
    pub open spec fn wf(self) -> bool {
        &&& self.width * self.height <= usize::MAX
        &&& self.vterminal@.len() == self.width * self.height
        &&& self.vterminal_last@.len() == self.width * self.height
    }

    /// A fresh, all-blank virtual terminal of the given dimensions.
    pub fn new(width: usize, height: usize) -> (r: VTerm)
        requires
            width * height <= usize::MAX,
        ensures
            r.wf(),
            r.width == width,
            r.height == height,
            r.vterminal@ == spec_blank_grid(width * height),
            r.vterminal_last@ == spec_blank_grid(width * height),
    {
        VTerm {
            vterminal_last: Self::new_empty_vterminal(width, height),
            vterminal: Self::new_empty_vterminal(width, height),
            width,
            height,
        }
    }

    pub fn size(&self) -> (r: (usize, usize))
        ensures
            r.0 == self.width,
            r.1 == self.height,
    {
        (self.width, self.height)
    }

    /// Queues a character into the current frame. Out-of-bounds positions
    /// are reported and leave the grid untouched.
    pub fn queue_char(&mut self, ch: char, x: usize, y: usize, style: Style) -> (r: Result<
        (),
        DrawError,
    >)
        requires
            old(self).wf(),
        ensures
            final(self).wf(),
            final(self).width == old(self).width,
            final(self).height == old(self).height,
            final(self).vterminal_last == old(self).vterminal_last,
            r is Ok <==> x < old(self).width && y < old(self).height,
            r is Ok ==> final(self).vterminal@ == old(self).vterminal@.update(
                x + y * old(self).width,
                (Cell { ch: ch, style: style }),
            ),
            r is Err ==> *final(self) == *old(self),
    {
        if x >= self.width || y >= self.height {
            return Err(DrawError::OutOfBounds);
        }
        proof {
            lemma_grid_index(x as int, y as int, self.width as int, self.height as int);
        }
        let i = x + y * self.width;
        self.vterminal.set(i, Cell { ch, style });
        Ok(())
    }

    /// Queues a string into the current frame, left to right from `(x, y)`,
    /// never wrapping. Reports out of bounds when the row is below the grid
    /// or the run would cross the grid's right edge, leaving the grid
    /// untouched.
    pub fn queue_text(&mut self, text: &str, x: usize, y: usize, style: Style) -> (r: Result<
        (),
        DrawError,
    >)
        requires
            old(self).wf(),
        ensures
            final(self).wf(),
            final(self).width == old(self).width,
            final(self).height == old(self).height,
            final(self).vterminal_last == old(self).vterminal_last,
            r is Ok <==> y < old(self).height && x + text@.len() <= old(self).width,
            r is Ok ==> final(self).vterminal@ == spec_write_run(
                old(self).vterminal@,
                text@,
                x as int,
                y as int,
                old(self).width as int,
                style,
            ),
            r is Err ==> *final(self) == *old(self),
    {
        let n = text.unicode_len();
        if y >= self.height || x > self.width || n > self.width - x {
            return Err(DrawError::OutOfBounds);
        }
        proof {
            lemma_grid_base(x + n, y as int, self.width as int, self.height as int);
        }
        let ghost orig = self.vterminal@;
        let ghost start = x + y * self.width;
        let base = x + y * self.width;
        let mut i: usize = 0;
        while i < n
            invariant
                i <= n,
                n == text@.len(),
                x + n <= self.width,
                y < self.height,
                base == start,
                start == x + y * self.width,
                start + n <= self.width * self.height,
                self.wf(),
                self.width == old(self).width,
                self.height == old(self).height,
                self.vterminal_last == old(self).vterminal_last,
                orig == old(self).vterminal@,
                self.vterminal@.len() == orig.len(),
                forall|j: int|
                    0 <= j < orig.len() ==> (#[trigger] self.vterminal@[j]) == if start <= j
                        < start + i {
                        (Cell { ch: text@[j - start], style: style })
                    } else {
                        orig[j]
                    },
            decreases n - i,
        {
            let c = text.get_char(i);
            self.vterminal.set(base + i, Cell { ch: c, style });
            i += 1;
        }
        proof {
            assert(self.vterminal@ =~= spec_write_run(
                orig,
                text@,
                x as int,
                y as int,
                self.width as int,
                style,
            ));
        }
        Ok(())
    }

    /// Empties both frames to blank at the current dimensions, so the next
    /// flush redraws every cell that is drawn non-blank.
    pub fn queue_empty(&mut self)
        requires
            old(self).width * old(self).height <= usize::MAX,
        ensures
            final(self).wf(),
            final(self).width == old(self).width,
            final(self).height == old(self).height,
            final(self).vterminal@ == spec_blank_grid(old(self).width * old(self).height),
            final(self).vterminal_last@ == spec_blank_grid(old(self).width * old(self).height),
    {
        self.vterminal_last = Self::new_empty_vterminal(self.width, self.height);
        self.vterminal = Self::new_empty_vterminal(self.width, self.height);
    }

    /// Adopts new dimensions and empties both frames.
    pub fn resize(&mut self, width: usize, height: usize)
        requires
            width * height <= usize::MAX,
        ensures
            final(self).wf(),
            final(self).width == width,
            final(self).height == height,
            final(self).vterminal@ == spec_blank_grid(width * height),
            final(self).vterminal_last@ == spec_blank_grid(width * height),
    {
        self.width = width;
        self.height = height;
        self.queue_empty();
    }

    /// Computes the writes that bring the screen from the previous frame to
    /// the current one: exactly the cells whose contents changed, in grid
    /// order. The current frame becomes the previous one, and a blank
    /// current frame is started.
    pub fn flush(&mut self) -> (writes: Vec<CellWrite>)
        requires
            old(self).wf(),
        ensures
            final(self).wf(),
            final(self).width == old(self).width,
            final(self).height == old(self).height,
            writes@ == spec_diff_writes(
                old(self).vterminal@,
                old(self).vterminal_last@,
                old(self).width as int,
            ),
            final(self).vterminal_last@ == old(self).vterminal@,
            final(self).vterminal@ == spec_blank_grid(old(self).width * old(self).height),
    {
        let ghost cur = self.vterminal@;
        let ghost last = self.vterminal_last@;
        let n = self.vterminal.len();
        let mut writes: Vec<CellWrite> = Vec::new();
        let mut i: usize = 0;
        while i < n
            invariant
                i <= n,
                n == cur.len(),
                self.wf(),
                self.vterminal@ == cur,
                self.vterminal_last@ == last,
                cur.len() == self.width * self.height,
                last.len() == cur.len(),
                writes@ == spec_diff_prefix(cur, last, self.width as int, i as int),
            decreases n - i,
        {
            if self.vterminal[i] != self.vterminal_last[i] {
                writes.push(
                    CellWrite { x: i % self.width, y: i / self.width, cell: self.vterminal[i] },
                );
            }
            i += 1;
        }
        core::mem::swap(&mut self.vterminal_last, &mut self.vterminal);
        self.vterminal = Self::new_empty_vterminal(self.width, self.height);
        writes
    }

    fn new_empty_vterminal(width: usize, height: usize) -> (r: Vec<Cell>)
        requires
            width * height <= usize::MAX,
        ensures
            r@ == spec_blank_grid(width * height),
    {
        let n = width * height;
        let mut v: Vec<Cell> = Vec::new();
        let mut i: usize = 0;
        while i < n
            invariant
                i <= n,
                v@.len() == i,
                forall|j: int| 0 <= j < i ==> v@[j] == Cell::spec_blank(),
            decreases n - i,
        {
            v.push(Cell::new());
            i += 1;
        }
        proof {
            assert(v@ =~= spec_blank_grid(width * height));
        }
        v
    }
}

/// Flushing a frame identical to the previous one emits no writes at all.
pub proof fn lemma_identical_frames_no_writes(cur: Seq<Cell>, last: Seq<Cell>, w: int)
    requires
        cur =~= last,
    ensures
        spec_diff_writes(cur, last, w).len() == 0,
{
    lemma_diff_prefix_identical(cur, last, w, cur.len() as int);
}

proof fn lemma_diff_prefix_identical(cur: Seq<Cell>, last: Seq<Cell>, w: int, n: int)
    requires
        forall|j: int| 0 <= j < n ==> cur[j] == last[j],
    ensures
        spec_diff_prefix(cur, last, w, n).len() == 0,
    decreases n,
{
    if n > 0 {
        lemma_diff_prefix_identical(cur, last, w, n - 1);
    }
}

/// Right after `queue_empty` the previous frame is all blank, so the next
/// flush emits exactly one write per non-blank cell of the current frame.
pub proof fn lemma_full_redraw(cur: Seq<Cell>, last: Seq<Cell>, w: int)
    requires
        last =~= spec_blank_grid(cur.len() as int),
    ensures
        spec_diff_writes(cur, last, w).len() == spec_nonblank_count(cur, cur.len() as int),
{
    lemma_diff_prefix_blank(cur, last, w, cur.len() as int);
}

proof fn lemma_diff_prefix_blank(cur: Seq<Cell>, last: Seq<Cell>, w: int, n: int)
    requires
        n <= cur.len(),
        forall|j: int| 0 <= j < n ==> last[j] == Cell::spec_blank(),
    ensures
        spec_diff_prefix(cur, last, w, n).len() == spec_nonblank_count(cur, n),
    decreases n,
{
    if n > 0 {
        lemma_diff_prefix_blank(cur, last, w, n - 1);
    }
}

/// A rectangular sub-region of the virtual terminal. Panel-local
/// coordinates are translated by `(x, y)`; drawn text is clipped to the
/// panel's width. A panel never owns the terminal: each draw call borrows
/// it.
#[derive(Clone, Copy, Debug, PartialEq, Eq, Structural)]
pub struct Panel {
    pub x: usize,
    pub y: usize,
    pub width: usize,
    pub height: usize,
}

impl Panel {
    pub fn new() -> (r: Panel)
        ensures
            r == (Panel { x: 0, y: 0, width: 0, height: 0 }),
    {
        Panel { x: 0, y: 0, width: 0, height: 0 }
    }

    /// Repositions and resizes the panel; grid contents are untouched.
    pub fn update_size(&mut self, x: usize, y: usize, width: usize, height: usize)
        ensures
            *final(self) == (Panel { x, y, width, height }),
    {
        self.x = x;
        self.y = y;
        self.width = width;
        self.height = height;
    }

    /// How many characters of a run of `len` starting at panel column `x`
    /// survive clipping to the panel's width.
    pub open spec fn spec_clipped_len(self, len: int, x: int) -> int {
        if len <= self.width - x {
            len
        } else {
            self.width - x
        }
    }

    /// What `draw_text` leaves in a grid of `vt_w` by `vt_h` cells: the
    /// clipped run written at the translated position when everything is in
    /// bounds, the grid untouched otherwise.
    pub open spec fn spec_draw_text(
        self,
        grid: Seq<Cell>,
        vt_w: int,
        vt_h: int,
        chars: Seq<char>,
        x: int,
        y: int,
        style: Style,
    ) -> Seq<Cell> {
        let keep = self.spec_clipped_len(chars.len() as int, x);
        if x <= self.width && y <= self.height && self.y + y < vt_h && self.x + x + keep <= vt_w {
            spec_write_run(grid, chars.take(keep), self.x + x, self.y + y, vt_w, style)
        } else {
            grid
        }
    }

    /// What `fill` leaves in a grid of `vt_w` by `vt_h` cells: the panel's
    /// rectangle set to `cell` when it lies within the grid, the grid
    /// untouched otherwise.
    pub open spec fn spec_fill(self, grid: Seq<Cell>, vt_w: int, vt_h: int, cell: Cell) -> Seq<
        Cell,
    > {
        if self.x + self.width <= vt_w && self.y + self.height <= vt_h {
            spec_fill_rect(grid, self.x as int, self.y as int, self.width as int, self.height as int, vt_w, cell)
        } else {
            grid
        }
    }

    /// Draws `text` at panel-local `(x, y)`, clipped to the panel's width
    /// (silent truncation; any ellipsis is the caller's business), and
    /// forwarded to the grid with the panel's origin added. Reports out of
    /// bounds--leaving the grid untouched--when the local position lies
    /// outside the panel or the clipped run leaves the grid.
    pub fn draw_text(&self, vterm: &mut VTerm, text: &str, x: usize, y: usize, style: Style) -> (r:
        Result<(), DrawError>)
        requires
            old(vterm).wf(),
        ensures
            final(vterm).wf(),
            final(vterm).width == old(vterm).width,
            final(vterm).height == old(vterm).height,
            final(vterm).vterminal_last == old(vterm).vterminal_last,
            r is Ok <==> x <= self.width && y <= self.height && self.y + y < old(vterm).height
                && self.x + x + self.spec_clipped_len(text@.len() as int, x as int) <= old(
                vterm,
            ).width,
            r is Ok ==> final(vterm).vterminal@ == spec_write_run(
                old(vterm).vterminal@,
                text@.take(self.spec_clipped_len(text@.len() as int, x as int)),
                self.x + x,
                self.y + y,
                old(vterm).width as int,
                style,
            ),
            r is Err ==> *final(vterm) == *old(vterm),
            final(vterm).vterminal@ == self.spec_draw_text(
                old(vterm).vterminal@,
                old(vterm).width as int,
                old(vterm).height as int,
                text@,
                x as int,
                y as int,
                style,
            ),
    {
        if x > self.width || y > self.height {
            return Err(DrawError::OutOfBounds);
        }
        let n = text.unicode_len();
        let avail = self.width - x;
        let keep = if n <= avail {
            n
        } else {
            avail
        };
        let clipped = text.substring_char(0, keep);
        if self.x > usize::MAX - x || self.y > usize::MAX - y {
            return Err(DrawError::OutOfBounds);
        }
        proof {
            assert(clipped@ =~= text@.take(keep as int));
        }
        vterm.queue_text(clipped, self.x + x, self.y + y, style)
    }

    /// Fills the panel's whole rectangle with one styled character. Reports
    /// out of bounds--leaving the grid untouched--when the rectangle does
    /// not lie within the grid.
    pub fn fill(&self, vterm: &mut VTerm, ch: char, style: Style) -> (r: Result<(), DrawError>)
        requires
            old(vterm).wf(),
        ensures
            final(vterm).wf(),
            final(vterm).width == old(vterm).width,
            final(vterm).height == old(vterm).height,
            final(vterm).vterminal_last == old(vterm).vterminal_last,
            r is Ok <==> self.x + self.width <= old(vterm).width && self.y + self.height <= old(
                vterm,
            ).height,
            r is Ok ==> final(vterm).vterminal@ == spec_fill_rect(
                old(vterm).vterminal@,
                self.x as int,
                self.y as int,
                self.width as int,
                self.height as int,
                old(vterm).width as int,
                (Cell { ch: ch, style: style }),
            ),
            r is Err ==> *final(vterm) == *old(vterm),
            final(vterm).vterminal@ == self.spec_fill(
                old(vterm).vterminal@,
                old(vterm).width as int,
                old(vterm).height as int,
                (Cell { ch, style }),
            ),
    {
        if self.x > vterm.width || self.width > vterm.width - self.x || self.y > vterm.height
            || self.height > vterm.height - self.y {
            return Err(DrawError::OutOfBounds);
        }
        let ghost orig = vterm.vterminal@;
        let ghost gw = vterm.width as int;
        let mut row: usize = 0;
        while row < self.height
            invariant
                row <= self.height,
                self.x + self.width <= vterm.width,
                self.y + self.height <= vterm.height,
                vterm.wf(),
                vterm.width == old(vterm).width,
                vterm.height == old(vterm).height,
                vterm.vterminal_last == old(vterm).vterminal_last,
                gw == vterm.width as int,
                vterm.vterminal@.len() == orig.len(),
                forall|j: int|
                    0 <= j < orig.len() ==> (#[trigger] vterm.vterminal@[j]) == if self.x <= j % gw
                        < self.x + self.width && self.y <= j / gw < self.y + row {
                        (Cell { ch: ch, style: style })
                    } else {
                        orig[j]
                    },
            decreases self.height - row,
        {
            let mut col: usize = 0;
            while col < self.width
                invariant
                    row < self.height,
                    col <= self.width,
                    self.x + self.width <= vterm.width,
                    self.y + self.height <= vterm.height,
                    vterm.wf(),
                    vterm.width == old(vterm).width,
                    vterm.height == old(vterm).height,
                    vterm.vterminal_last == old(vterm).vterminal_last,
                    gw == vterm.width as int,
                    vterm.vterminal@.len() == orig.len(),
                    forall|j: int|
                        0 <= j < orig.len() ==> (#[trigger] vterm.vterminal@[j]) == if (self.x <= j
                            % gw < self.x + self.width && self.y <= j / gw < self.y + row) || (self.y
                            + row == j / gw && self.x <= j % gw < self.x + col) {
                            (Cell { ch: ch, style: style })
                        } else {
                            orig[j]
                        },
                decreases self.width - col,
            {
                let cx = self.x + col;
                let cy = self.y + row;
                proof {
                    lemma_grid_index(cx as int, cy as int, vterm.width as int, vterm.height as int);
                }
                let idx = cx + cy * vterm.width;
                vterm.vterminal.set(idx, Cell { ch, style });
                proof {
                    lemma_fundamental_div_mod_converse(idx as int, gw, cy as int, cx as int);
                    assert forall|j: int|
                        0 <= j < orig.len() && j != idx implies !(#[trigger] (j % gw) == cx && j
                        / gw == cy) by {
                        if j % gw == cx && j / gw == cy {
                            vstd::arithmetic::div_mod::lemma_fundamental_div_mod(j, gw);
                            assert(gw * cy == cy * gw) by (nonlinear_arith);
                            assert(false);
                        }
                    }
                }
                col += 1;
            }
            row += 1;
        }
        proof {
            assert(vterm.vterminal@ =~= spec_fill_rect(
                orig,
                self.x as int,
                self.y as int,
                self.width as int,
                self.height as int,
                gw,
                (Cell { ch: ch, style: style }),
            ));
        }
        Ok(())
    }

    /// Fills the panel with blank cells.
    pub fn clear(&self, vterm: &mut VTerm) -> (r: Result<(), DrawError>)
        requires
            old(vterm).wf(),
        ensures
            final(vterm).wf(),
            final(vterm).width == old(vterm).width,
            final(vterm).height == old(vterm).height,
            final(vterm).vterminal_last == old(vterm).vterminal_last,
            r is Ok <==> self.x + self.width <= old(vterm).width && self.y + self.height <= old(
                vterm,
            ).height,
            r is Ok ==> final(vterm).vterminal@ == spec_fill_rect(
                old(vterm).vterminal@,
                self.x as int,
                self.y as int,
                self.width as int,
                self.height as int,
                old(vterm).width as int,
                Cell::spec_blank(),
            ),
            r is Err ==> *final(vterm) == *old(vterm),
            final(vterm).vterminal@ == self.spec_fill(
                old(vterm).vterminal@,
                old(vterm).width as int,
                old(vterm).height as int,
                Cell::spec_blank(),
            ),
    {
        self.fill(vterm, ' ', Style::new())
    }
}

} // verus!









