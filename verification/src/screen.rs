//! The screen as a mathematical value, and what each mutation makes of it.
//!
//! `Screen` is the model that the contracts of the executable screen speak
//! of: the grid, the scrollback, the cursor with its deferred wrap, and the
//! damage that has not been sent yet.
use vstd::prelude::*;
use crate::cell::{Cell, DEFAULT_BG, DEFAULT_FG};
use crate::le::i16_le;
use crate::region::Region;

verus! {

/// Most rows that the scrollback keeps.
pub const HISTORY_CAP: usize = 10000;

/// `v` brought into `0..n`.
pub open spec fn clamp(v: int, n: int) -> int {
    if v < 0 {
        0
    } else if v >= n {
        n - 1
    } else {
        v
    }
}

/// The scrollback after `row` has left the top of the grid: the newest row
/// comes first, and the oldest rows beyond the cap are dropped.
pub open spec fn push_history(history: Seq<Seq<Cell>>, row: Seq<Cell>) -> Seq<Seq<Cell>> {
    let all = seq![row] + history;
    if all.len() > HISTORY_CAP {
        all.subrange(0, HISTORY_CAP as int)
    } else {
        all
    }
}

/// The wire bytes of a run of cells, one after the other.
pub open spec fn cells_le_bytes(cells: Seq<Cell>) -> Seq<u8>
    decreases cells.len(),
{
    if cells.len() == 0 {
        Seq::empty()
    } else {
        cells_le_bytes(cells.drop_last()) + cells.last().le_bytes()
    }
}

/// The state of the screen.
pub struct Screen {
    /// The live grid: `sy` rows of `sx` cells.
    pub buffer: Seq<Seq<Cell>>,
    /// Rows that scrolled off the top, newest first.
    pub history: Seq<Seq<Cell>>,
    /// How many rows of the scrollback are scrolled into view.
    pub histcur: nat,
    /// The cell that erasing leaves, and whose style printing uses.
    pub ecell: Cell,
    /// Whether reverse video is switched on.
    pub reversed: bool,
    /// Number of columns.
    pub sx: int,
    /// Number of rows.
    pub sy: int,
    /// What has changed since the last flush.
    pub damage: Region,
    /// Column of the cursor.
    pub cx: int,
    /// Row of the cursor.
    pub cy: int,
    /// Deferred wrap: the last column was written and the cursor stayed.
    pub eol: bool,
}

impl Screen {
    /// The region of the whole grid.
    pub open spec fn sizebox(self) -> Region {
        Region::spec_sizebox(self.sx as i16, self.sy as i16)
    }

    /// A row of empty cells in the current style.
    pub open spec fn blank_row(self) -> Seq<Cell> {
        Seq::new(self.sx as nat, |x: int| self.ecell)
    }

    /// The one-cell region under the cursor.
    pub open spec fn cursor_box(self) -> Region {
        Region {
            x0: self.cx as i16,
            y0: self.cy as i16,
            x1: (self.cx + 1) as i16,
            y1: (self.cy + 1) as i16,
        }
    }

    /// The cells `b..e` of row `y`.
    pub open spec fn span(self, y: int, b: int, e: int) -> Region {
        Region { x0: b as i16, y0: y as i16, x1: e as i16, y1: (y + 1) as i16 }
    }

    /// The rows `b..e`, whole.
    pub open spec fn band(self, b: int, e: int) -> Region {
        Region { x0: 0, y0: b as i16, x1: self.sx as i16, y1: e as i16 }
    }

    /// What holds of the screen between mutations: the grid has `sy` rows
    /// of `sx` cells, the cursor is on it, the scrollback is within its cap
    /// and the view within the scrollback, the damage lies on the grid, and
    /// a deferred wrap finds the cursor in the last column, or in the one
    /// before it after a wide character.
    pub open spec fn wf(self) -> bool {
        &&& 1 <= self.sx <= i16::MAX
        &&& 1 <= self.sy <= i16::MAX
        &&& self.buffer.len() == self.sy
        &&& forall|y: int| 0 <= y < self.sy ==> (#[trigger] self.buffer[y]).len() == self.sx
        &&& 0 <= self.cx < self.sx
        &&& 0 <= self.cy < self.sy
        &&& self.history.len() <= HISTORY_CAP
        &&& self.histcur <= self.history.len()
        &&& (self.damage.spec_is_empty() || self.damage.within(self.sizebox()))
        &&& (self.eol ==> self.sx - 2 <= self.cx)
    }

    /// The screen as it is made: 80 columns, 24 rows, all empty.
    pub open spec fn initial() -> Screen {
        Screen {
            buffer: Seq::new(24, |y: int| Seq::new(80, |x: int| Cell::empty())),
            history: Seq::empty(),
            histcur: 0,
            ecell: Cell::empty(),
            reversed: false,
            sx: 80,
            sy: 24,
            damage: Region::empty(),
            cx: 0,
            cy: 0,
            eol: false,
        }
    }

    /// What is printed from now on has the foreground `color`.
    pub open spec fn fg_color(self, color: u32) -> Screen {
        Screen { ecell: Cell { fg: color, ..self.ecell }, ..self }
    }

    /// What is printed from now on has the background `color`.
    pub open spec fn bg_color(self, color: u32) -> Screen {
        Screen { ecell: Cell { bg: color, ..self.ecell }, ..self }
    }

    /// Reverse video is switched on or off.
    pub open spec fn reverse_color(self, reversed: bool) -> Screen {
        Screen { reversed, ..self }
    }

    /// The decoration bits of `mask` are set where `on` holds, and cleared
    /// where it does not.
    pub open spec fn set_decoration(self, mask: u32, on: bool) -> Screen {
        Screen {
            ecell: Cell {
                decoration: if on {
                    self.ecell.decoration | mask
                } else {
                    self.ecell.decoration & !mask
                },
                ..self.ecell
            },
            ..self
        }
    }

    /// The style goes back to the default: default colours, no
    /// decoration, no reverse video.
    pub open spec fn reset_style(self) -> Screen {
        Screen {
            ecell: Cell { fg: DEFAULT_FG, bg: DEFAULT_BG, decoration: 0, ..self.ecell },
            reversed: false,
            ..self
        }
    }

    /// The whole grid becomes damage.
    pub open spec fn damage_all(self) -> Screen {
        Screen { damage: self.sizebox(), ..self }
    }

    /// The damage grows by the part of `r` that lies on the grid.
    pub open spec fn include_damage(self, r: Region) -> Screen {
        if r.spec_is_empty() {
            self
        } else {
            Screen { damage: self.damage.spec_union(r.spec_intersect(self.sizebox())), ..self }
        }
    }

    /// The cursor is brought back onto the grid.
    pub open spec fn limit_cursor(self) -> Screen {
        Screen { cx: clamp(self.cx, self.sx), cy: clamp(self.cy, self.sy), ..self }
    }

    /// A cursor move: `ty` 0 sets the column, 1 the row, 2 adds to the
    /// column, 3 adds to the row. The deferred wrap ends, and the cursor
    /// stays on the grid.
    pub open spec fn loc(self, ty: u8, pos: int) -> Screen {
        Screen {
            eol: false,
            cx: if ty == 0 {
                pos
            } else if ty == 2 {
                self.cx + pos
            } else {
                self.cx
            },
            cy: if ty == 1 {
                pos
            } else if ty == 3 {
                self.cy + pos
            } else {
                self.cy
            },
            ..self
        }.limit_cursor()
    }

    /// The grid moves by one row. Down: the top row goes to the scrollback
    /// and an empty row comes in at the bottom. Up: an empty row comes in at
    /// the top and the bottom row is lost.
    pub open spec fn scroll(self, down: bool) -> Screen {
        if down {
            Screen {
                damage: self.sizebox(),
                buffer: self.buffer.subrange(1, self.buffer.len() as int).push(self.blank_row()),
                history: push_history(self.history, self.buffer[0]),
                ..self
            }
        } else {
            Screen {
                damage: self.sizebox(),
                buffer: seq![self.blank_row()] + self.buffer.subrange(
                    0,
                    self.buffer.len() - 1,
                ),
                ..self
            }
        }
    }

    /// The cursor goes to the start of the next row; on the last row the
    /// grid scrolls instead.
    pub open spec fn newline(self) -> Screen {
        (if self.cy == self.sy - 1 {
            self.scroll(true)
        } else {
            self.loc(3, 1)
        }).loc(0, 0)
    }

    /// The cell under the cursor takes the code point `unic` in the current
    /// style, and becomes damage.
    pub open spec fn write_cell(self, unic: u32) -> Screen {
        Screen {
            buffer: self.buffer.update(
                self.cy,
                self.buffer[self.cy].update(self.cx, self.ecell.spec_with_unic(unic)),
            ),
            ..self
        }.include_damage(self.cursor_box())
    }

    /// The screen after printing a character of one column, or of two where
    /// `wide` holds. A pending wrap is made first, and a wide character that
    /// would not fit in the row goes to the next one. The character takes
    /// the cell under the cursor; the second cell of a wide character is
    /// left as it was. Where the character ends in the last column the
    /// cursor stays and the wrap is deferred, else the cursor moves on.
    pub open spec fn print(self, unic: u32, wide: bool) -> Screen {
        let w: int = if wide { 2 } else { 1 };
        let s1 = if self.eol { Screen { eol: false, ..self }.newline() } else { self };
        let s2 = if wide && s1.cx == s1.sx - 1 { s1.newline() } else { s1 };
        let s3 = s2.write_cell(unic);
        if s2.cx == s2.sx - w {
            Screen { eol: true, ..s3 }
        } else {
            s3.loc(2, w)
        }
    }

    /// The cells `b..e` of row `y` become empty cells in the current style.
    pub open spec fn fill_row(self, y: int, b: int, e: int) -> Screen {
        Screen {
            buffer: self.buffer.update(
                y,
                Seq::new(
                    self.buffer[y].len(),
                    |x: int| if b <= x < e { self.ecell } else { self.buffer[y][x] },
                ),
            ),
            ..self
        }
    }

    /// The rows `b..e` become empty rows in the current style.
    pub open spec fn fill_rows(self, b: int, e: int) -> Screen {
        Screen {
            buffer: Seq::new(
                self.buffer.len(),
                |y: int| if b <= y < e { self.blank_row() } else { self.buffer[y] },
            ),
            ..self
        }
    }

    /// First and one past the last column that erasing in the line clears:
    /// mode 0 from the cursor on, mode 1 up to the cursor, any other mode
    /// the whole line.
    pub open spec fn line_span(self, mode: u16) -> (int, int) {
        if mode == 0 {
            (self.cx, self.sx)
        } else if mode == 1 {
            (0, self.cx + 1)
        } else {
            (0, self.sx)
        }
    }

    /// First and one past the last row that erasing in the display clears
    /// whole: mode 0 the rows below the cursor, mode 1 those above, any
    /// other mode all.
    pub open spec fn display_span(self, mode: u16) -> (int, int) {
        if mode == 0 {
            (self.cy + 1, self.sy)
        } else if mode == 1 {
            (0, self.cy)
        } else {
            (0, self.sy)
        }
    }

    /// Part of the cursor's row becomes empty, and damage: with `mode` 0 from
    /// the cursor on, with 1 up to the cursor, else the whole row.
    pub open spec fn erase_line(self, mode: u16) -> Screen {
        let (b, e) = self.line_span(mode);
        self.fill_row(self.cy, b, e).include_damage(self.span(self.cy, b, e))
    }

    /// Part of the grid becomes empty, and damage: with `mode` 0 from the
    /// cursor to the end, with 1 from the start up to the cursor, else all of
    /// it.
    pub open spec fn erase_display(self, mode: u16) -> Screen {
        let s1 = if mode == 0 || mode == 1 { self.erase_line(mode) } else { self };
        let (b, e) = self.display_span(mode);
        s1.fill_rows(b, e).include_damage(self.band(b, e))
    }

    /// The column of the next tab stop after the cursor.
    pub open spec fn tab_target(self) -> int {
        (self.cx / 8 + 1) * 8
    }

    /// The cursor goes to the next tab stop and the cells on the way are
    /// cleared; where that stop is off the grid nothing happens.
    pub open spec fn tab(self) -> Screen {
        let target = self.tab_target();
        if target >= self.sx {
            self
        } else {
            self.fill_row(self.cy, self.cx, target).include_damage(
                self.span(self.cy, self.cx, target),
            ).loc(0, target)
        }
    }

    /// One past the last column that erasing `n` cells at the cursor clears.
    pub open spec fn ech_end(self, n: int) -> int {
        if n <= 0 {
            self.cx
        } else if self.cx + n > self.sx {
            self.sx
        } else {
            self.cx + n
        }
    }

    /// `n` cells from the cursor on are cleared; the cursor stays.
    pub open spec fn ech(self, n: int) -> Screen {
        let e = self.ech_end(n);
        self.fill_row(self.cy, self.cx, e).include_damage(self.span(self.cy, self.cx, e))
    }

    /// The view moves by half a screen: up into the scrollback, or down
    /// towards the live grid.
    pub open spec fn scroll_history_page(self, down: bool) -> Screen {
        let dy = self.sy / 2;
        Screen {
            histcur: if down {
                if self.histcur >= dy {
                    (self.histcur - dy) as nat
                } else {
                    0
                }
            } else if self.histcur + dy > self.history.len() {
                self.history.len()
            } else {
                (self.histcur + dy) as nat
            },
            damage: self.sizebox(),
            ..self
        }
    }

    /// Every cell of the grid becomes empty.
    pub open spec fn clear(self) -> Screen {
        Screen { damage: self.sizebox(), ..self.fill_rows(0, self.sy) }
    }

    /// The grid takes `w` columns and `h` rows. What lay in the top left
    /// stays; new cells are empty. The deferred wrap survives only where the
    /// width stays.
    pub open spec fn resize(self, w: int, h: int) -> Screen {
        Screen {
            buffer: Seq::new(
                h as nat,
                |y: int|
                    Seq::new(
                        w as nat,
                        |x: int|
                            if y < self.sy && x < self.sx {
                                self.buffer[y][x]
                            } else {
                                self.ecell
                            },
                    ),
            ),
            sx: w,
            sy: h,
            cx: clamp(self.cx, w),
            cy: clamp(self.cy, h),
            eol: self.eol && w == self.sx,
            damage: Region::spec_sizebox(w as i16, h as i16),
            ..self
        }
    }

    /// The cell shown in column `x` of row `y` of the view: the first
    /// `histcur` rows come from the scrollback, the rest from the grid.
    pub open spec fn cell_at(self, x: int, y: int) -> Cell {
        if y < self.histcur {
            let row = self.history[self.histcur - y - 1];
            if x < row.len() {
                row[x]
            } else {
                Cell::empty()
            }
        } else {
            self.buffer[y - self.histcur][x]
        }
    }

    /// The cells of `a` in row `y` of the view, left to right.
    pub open spec fn row_cells(self, a: Region, y: int) -> Seq<Cell> {
        Seq::new((a.x1 - a.x0) as nat, |i: int| self.cell_at(a.x0 + i, y))
    }

    /// The cells of the first `rows` rows of `a`, row by row.
    pub open spec fn area_cells(self, a: Region, rows: int) -> Seq<Cell>
        decreases rows,
    {
        if rows <= 0 {
            Seq::empty()
        } else {
            self.area_cells(a, rows - 1) + self.row_cells(a, a.y0 + rows - 1)
        }
    }

    /// The area command for the part of `area` on the grid: tag 2, the
    /// region, then its cells row by row. Nothing where no part is on the
    /// grid.
    pub open spec fn area_bytes(self, area: Region) -> Seq<u8> {
        let a = area.spec_intersect(self.sizebox());
        if a.spec_is_empty() {
            Seq::empty()
        } else {
            seq![2u8] + a.le_bytes() + cells_le_bytes(self.area_cells(a, a.y1 - a.y0))
        }
    }

    /// The cursor command: tag 0, column, row.
    pub open spec fn cursor_bytes(self) -> Seq<u8> {
        seq![0u8] + i16_le(self.cx as i16) + i16_le(self.cy as i16)
    }

    /// What a flush sends: the damaged area, then the cursor.
    pub open spec fn damage_bytes(self) -> Seq<u8> {
        self.area_bytes(self.damage) + self.cursor_bytes()
    }

    /// The screen after a flush: no damage is left.
    pub open spec fn flushed(self) -> Screen {
        Screen { damage: Region::empty(), ..self }
    }

    /// The screen after a reset: cleared, cursor at the origin, flushed.
    pub open spec fn reset(self) -> Screen {
        self.clear().loc(0, 0).loc(1, 0).damage_all().flushed()
    }
}

/// Whether `w` columns and `h` rows are a size that a screen can take.
pub open spec fn valid_size(w: int, h: int) -> bool {
    1 <= w <= i16::MAX && 1 <= h <= i16::MAX
}

/// Adding damage keeps the screen well formed, and changes the damage alone.
pub proof fn lemma_include_damage_wf(s: Screen, r: Region)
    requires
        s.wf(),
    ensures
        s.include_damage(r).wf(),
        s.include_damage(r) == (Screen { damage: s.include_damage(r).damage, ..s }),
{
}

/// A cursor move of any kind leaves the cursor on the grid.
pub proof fn lemma_loc_wf(s: Screen, ty: u8, pos: int)
    requires
        s.wf(),
    ensures
        s.loc(ty, pos).wf(),
{
}

/// Scrolling keeps the grid's shape and the scrollback within its cap.
pub proof fn lemma_scroll_wf(s: Screen, down: bool)
    requires
        s.wf(),
    ensures
        s.scroll(down).wf(),
{
}

/// A new line keeps the screen well formed, with or without a scroll.
pub proof fn lemma_newline_wf(s: Screen)
    requires
        s.wf(),
    ensures
        s.newline().wf(),
{
    lemma_scroll_wf(s, true);
    lemma_loc_wf(s, 3, 1);
    if s.cy == s.sy - 1 {
        lemma_loc_wf(s.scroll(true), 0, 0);
    } else {
        lemma_loc_wf(s.loc(3, 1), 0, 0);
    }
}

/// Writing the cell under the cursor keeps the screen well formed and
/// leaves cursor, width and deferred wrap as they are.
pub proof fn lemma_write_cell_wf(s: Screen, unic: u32)
    requires
        s.wf(),
    ensures
        s.write_cell(unic).wf(),
        s.write_cell(unic).cx == s.cx,
        s.write_cell(unic).cy == s.cy,
        s.write_cell(unic).sx == s.sx,
        s.write_cell(unic).eol == s.eol,
{
}

/// Printing keeps the screen well formed, whatever the character's width.
pub proof fn lemma_print_wf(s: Screen, unic: u32, wide: bool)
    requires
        s.wf(),
    ensures
        s.print(unic, wide).wf(),
{
    let s0 = Screen { eol: false, ..s };
    lemma_newline_wf(s0);
    let s1 = if s.eol { s0.newline() } else { s };
    lemma_newline_wf(s1);
    let s2 = if wide && s1.cx == s1.sx - 1 { s1.newline() } else { s1 };
    lemma_write_cell_wf(s2, unic);
    let s3 = s2.write_cell(unic);
    lemma_loc_wf(s3, 2, if wide { 2 } else { 1 });
}

/// Clearing part of a row keeps the screen well formed.
pub proof fn lemma_fill_row_wf(s: Screen, y: int, b: int, e: int)
    requires
        s.wf(),
        0 <= y < s.sy,
    ensures
        s.fill_row(y, b, e).wf(),
{
}

/// Clearing whole rows keeps the screen well formed.
pub proof fn lemma_fill_rows_wf(s: Screen, b: int, e: int)
    requires
        s.wf(),
    ensures
        s.fill_rows(b, e).wf(),
{
}

/// Erasing in the line keeps the screen well formed, in every mode.
pub proof fn lemma_erase_line_wf(s: Screen, mode: u16)
    requires
        s.wf(),
    ensures
        s.erase_line(mode).wf(),
{
    let (b, e) = s.line_span(mode);
    lemma_fill_row_wf(s, s.cy, b, e);
    lemma_include_damage_wf(s.fill_row(s.cy, b, e), s.span(s.cy, b, e));
}

/// Erasing in the display keeps the screen well formed, in every mode.
pub proof fn lemma_erase_display_wf(s: Screen, mode: u16)
    requires
        s.wf(),
    ensures
        s.erase_display(mode).wf(),
{
    lemma_erase_line_wf(s, mode);
    let s1 = if mode == 0 || mode == 1 { s.erase_line(mode) } else { s };
    let (b, e) = s.display_span(mode);
    lemma_fill_rows_wf(s1, b, e);
    lemma_include_damage_wf(s1.fill_rows(b, e), s.band(b, e));
}

/// A tab keeps the screen well formed.
pub proof fn lemma_tab_wf(s: Screen)
    requires
        s.wf(),
    ensures
        s.tab().wf(),
{
    let target = s.tab_target();
    if target < s.sx {
        lemma_fill_row_wf(s, s.cy, s.cx, target);
        let s1 = s.fill_row(s.cy, s.cx, target);
        lemma_include_damage_wf(s1, s.span(s.cy, s.cx, target));
        lemma_loc_wf(s1.include_damage(s.span(s.cy, s.cx, target)), 0, target);
    }
}

/// Erasing characters keeps the screen well formed, for every count.
pub proof fn lemma_ech_wf(s: Screen, n: int)
    requires
        s.wf(),
    ensures
        s.ech(n).wf(),
{
    let e = s.ech_end(n);
    lemma_fill_row_wf(s, s.cy, s.cx, e);
    lemma_include_damage_wf(s.fill_row(s.cy, s.cx, e), s.span(s.cy, s.cx, e));
}

/// Paging through the scrollback keeps the view within it.
pub proof fn lemma_scroll_history_page_wf(s: Screen, down: bool)
    requires
        s.wf(),
    ensures
        s.scroll_history_page(down).wf(),
{
}

/// Clearing the grid keeps the screen well formed.
pub proof fn lemma_clear_wf(s: Screen)
    requires
        s.wf(),
    ensures
        s.clear().wf(),
{
}

/// A resize to a valid size gives a well-formed screen of that size.
pub proof fn lemma_resize_wf(s: Screen, w: int, h: int)
    requires
        s.wf(),
        valid_size(w, h),
    ensures
        s.resize(w, h).wf(),
        s.resize(w, h).sx == w,
        s.resize(w, h).sy == h,
{
}

/// A reset keeps the screen well formed.
pub proof fn lemma_reset_wf(s: Screen)
    requires
        s.wf(),
    ensures
        s.reset().wf(),
{
    lemma_clear_wf(s);
    lemma_loc_wf(s.clear(), 0, 0);
    lemma_loc_wf(s.clear().loc(0, 0), 1, 0);
}

/// A change of style touches neither the grid nor the cursor.
pub proof fn lemma_style_wf(s: Screen, color: u32, mask: u32, on: bool)
    requires
        s.wf(),
    ensures
        s.fg_color(color).wf(),
        s.bg_color(color).wf(),
        s.reverse_color(on).wf(),
        s.set_decoration(mask, on).wf(),
        s.reset_style().wf(),
{
}

/// One change of the screen.
pub enum Mutation {
    /// Printing a code point, over two columns where the flag holds.
    Print(u32, bool),
    /// A new line.
    Newline,
    /// A scroll by one row, down or up.
    Scroll(bool),
    /// A cursor move of the kind `0..=3` by or to a position.
    Loc(u8, int),
    /// A tab.
    Tab,
    /// Erasing so many characters.
    Ech(int),
    /// Erasing in the line, in a mode.
    EraseLine(u16),
    /// Erasing in the display, in a mode.
    EraseDisplay(u16),
    /// Paging through the scrollback, down or up.
    ScrollHistoryPage(bool),
    /// Clearing the grid.
    Clear,
    /// A reset.
    Reset,
    /// A resize to so many columns and rows.
    Resize(int, int),
    /// Adding a region to the damage.
    IncludeDamage(Region),
    /// Damaging the whole grid.
    DamageAll,
    /// A flush of the damage.
    Flush,
    /// Setting the foreground colour.
    FgColor(u32),
    /// Setting the background colour.
    BgColor(u32),
    /// Switching reverse video.
    ReverseColor(bool),
    /// Setting or clearing decoration bits.
    SetDecoration(u32, bool),
}

impl Mutation {
    /// Whether the change can be asked for: a resize needs a size that a
    /// screen can take.
    pub open spec fn allowed(self) -> bool {
        match self {
            Mutation::Resize(w, h) => valid_size(w, h),
            _ => true,
        }
    }
}

impl Screen {
    /// The screen after one change.
    pub open spec fn apply(self, m: Mutation) -> Screen {
        match m {
            Mutation::Print(unic, wide) => self.print(unic, wide),
            Mutation::Newline => self.newline(),
            Mutation::Scroll(down) => self.scroll(down),
            Mutation::Loc(ty, pos) => self.loc(ty, pos),
            Mutation::Tab => self.tab(),
            Mutation::Ech(n) => self.ech(n),
            Mutation::EraseLine(mode) => self.erase_line(mode),
            Mutation::EraseDisplay(mode) => self.erase_display(mode),
            Mutation::ScrollHistoryPage(down) => self.scroll_history_page(down),
            Mutation::Clear => self.clear(),
            Mutation::Reset => self.reset(),
            Mutation::Resize(w, h) => self.resize(w, h),
            Mutation::IncludeDamage(r) => self.include_damage(r),
            Mutation::DamageAll => self.damage_all(),
            Mutation::Flush => self.flushed(),
            Mutation::FgColor(color) => self.fg_color(color),
            Mutation::BgColor(color) => self.bg_color(color),
            Mutation::ReverseColor(on) => self.reverse_color(on),
            Mutation::SetDecoration(mask, on) => self.set_decoration(mask, on),
        }
    }

    /// The screen after a run of changes, made in order.
    pub open spec fn apply_all(self, ms: Seq<Mutation>) -> Screen
        decreases ms.len(),
    {
        if ms.len() == 0 {
            self
        } else {
            self.apply_all(ms.drop_last()).apply(ms.last())
        }
    }
}

/// The screen is well formed as it is made.
pub proof fn lemma_initial_wf()
    ensures
        Screen::initial().wf(),
{
}

/// Every change keeps the screen well formed: the grid keeps its shape,
/// the cursor stays on it, and the scrollback stays within its cap.
pub proof fn lemma_apply_wf(s: Screen, m: Mutation)
    requires
        s.wf(),
        m.allowed(),
    ensures
        s.apply(m).wf(),
{
    match m {
        Mutation::Print(unic, wide) => lemma_print_wf(s, unic, wide),
        Mutation::Newline => lemma_newline_wf(s),
        Mutation::Scroll(down) => lemma_scroll_wf(s, down),
        Mutation::Loc(ty, pos) => lemma_loc_wf(s, ty, pos),
        Mutation::Tab => lemma_tab_wf(s),
        Mutation::Ech(n) => lemma_ech_wf(s, n),
        Mutation::EraseLine(mode) => lemma_erase_line_wf(s, mode),
        Mutation::EraseDisplay(mode) => lemma_erase_display_wf(s, mode),
        Mutation::ScrollHistoryPage(down) => lemma_scroll_history_page_wf(s, down),
        Mutation::Clear => lemma_clear_wf(s),
        Mutation::Reset => lemma_reset_wf(s),
        Mutation::Resize(w, h) => lemma_resize_wf(s, w, h),
        Mutation::IncludeDamage(r) => lemma_include_damage_wf(s, r),
        Mutation::DamageAll => {},
        Mutation::Flush => {},
        Mutation::FgColor(color) => {},
        Mutation::BgColor(color) => {},
        Mutation::ReverseColor(on) => {},
        Mutation::SetDecoration(mask, on) => {},
    }
}

/// After every run of changes, from a well-formed screen on, the screen is
/// well formed: it has as many rows as its height and each row as many
/// cells as its width, the cursor is on the grid, and the scrollback holds
/// no more than its cap.
pub proof fn lemma_apply_all_wf(s: Screen, ms: Seq<Mutation>)
    requires
        s.wf(),
        forall|i: int| 0 <= i < ms.len() ==> (#[trigger] ms[i]).allowed(),
    ensures
        ({
            let t = s.apply_all(ms);
            &&& t.wf()
            &&& t.buffer.len() == t.sy
            &&& forall|y: int| 0 <= y < t.sy ==> (#[trigger] t.buffer[y]).len() == t.sx
            &&& 0 <= t.cx < t.sx
            &&& 0 <= t.cy < t.sy
            &&& t.history.len() <= 10000
        }),
    decreases ms.len(),
{
    if ms.len() > 0 {
        lemma_apply_all_wf(s, ms.drop_last());
        lemma_apply_wf(s.apply_all(ms.drop_last()), ms.last());
    }
}

/// Setting decoration bits sets exactly the bits of the mask, clearing
/// them clears exactly those, and both leave the other bits alone.
pub proof fn lemma_decoration_bits(d: u32, mask: u32)
    ensures
        (d | mask) & mask == mask,
        (d & !mask) & mask == 0,
        (d | mask) & !mask == d & !mask,
        (d & !mask) & !mask == d & !mask,
{
    assert((d | mask) & mask == mask) by (bit_vector);
    assert((d & !mask) & mask == 0) by (bit_vector);
    assert((d | mask) & !mask == d & !mask) by (bit_vector);
    assert((d & !mask) & !mask == d & !mask) by (bit_vector);
}

/// Adding the same damage twice is adding it once.
pub proof fn lemma_include_damage_idempotent(s: Screen, r: Region)
    ensures
        s.include_damage(r).include_damage(r) == s.include_damage(r),
{
}

/// Deferred wrap. A narrow character printed in the last column stays
/// under the cursor, which does not move, and the wrap is put off. The next
/// narrow character goes to the start of the next row, or of the last row
/// after a scroll, and leaves the cursor in column 1.
pub proof fn lemma_deferred_wrap(s: Screen, first: u32, second: u32)
    requires
        s.wf(),
        s.sx >= 2,
        s.cx == s.sx - 1,
        !s.eol,
    ensures
        ({
            let s1 = s.print(first, false);
            let s2 = s1.print(second, false);
            let row = if s.cy == s.sy - 1 { s.cy } else { s.cy + 1 };
            &&& s1.cx == s.sx - 1
            &&& s1.cy == s.cy
            &&& s1.eol
            &&& s1.buffer[s.cy][s.cx] == s.ecell.spec_with_unic(first)
            &&& s2.cx == 1
            &&& s2.cy == row
            &&& !s2.eol
            &&& s2.buffer[row][0] == s.ecell.spec_with_unic(second)
            &&& s.cy == s.sy - 1 ==> s2.history == push_history(s.history, s1.buffer[0])
            &&& s.cy < s.sy - 1 ==> s2.history == s.history
        }),
{
    let s1 = s.print(first, false);
    lemma_print_wf(s, first, false);
    lemma_newline_wf(Screen { eol: false, ..s1 });
}

/// A wide character in the last column does not fit: the cursor goes to
/// the next line first, and the character is printed there.
pub proof fn lemma_wide_wraps_first(s: Screen, unic: u32)
    requires
        s.wf(),
        s.cx == s.sx - 1,
        !(s.eol && s.sx == 1),
    ensures
        ({
            let t = s.newline();
            &&& t.cx == 0
            &&& t.cy == if s.cy == s.sy - 1 { s.cy } else { s.cy + 1 }
            &&& s.print(unic, true) == if s.sx == 2 {
                Screen { eol: true, ..t.write_cell(unic) }
            } else {
                t.write_cell(unic).loc(2, 2)
            }
        }),
{
    lemma_newline_wf(s);
    lemma_newline_wf(Screen { eol: false, ..s });
}

/// A tab whose stop is off the grid changes nothing.
pub proof fn lemma_tab_at_margin(s: Screen)
    requires
        s.tab_target() >= s.sx,
    ensures
        s.tab() == s,
{
}

} // verus!
