//! The executable screen: a grid of styled cells with scrollback, cursor
//! and damage, and the commands that show it on the display server.
use std::collections::VecDeque;
use vstd::prelude::*;
use crate::cell::Cell;
use crate::le::push_i16_le;
use crate::msg::{decode, DecodeError, ServerMsg};
use crate::region::Region;
use crate::screen::{cells_le_bytes, valid_size, Screen, HISTORY_CAP};
use crate::screen::{
    lemma_clear_wf, lemma_ech_wf, lemma_erase_display_wf, lemma_erase_line_wf,
    lemma_fill_row_wf, lemma_fill_rows_wf, lemma_loc_wf, lemma_print_wf, lemma_resize_wf,
    lemma_scroll_history_page_wf, lemma_scroll_wf, lemma_tab_wf, lemma_write_cell_wf,
};

verus! {

/// The number of columns that the crate `unicode_width` gives a character,
/// `None` for a control character.
pub uninterp spec fn char_width(ch: char) -> Option<usize>;

/// Calls `unicode_width::UnicodeWidthChar::width`, which looks the
/// character up in fixed tables: the result depends on the character
/// alone. A printable ASCII character has the width 1; a control
/// character, below U+0020 or from U+007F up to U+009F, has none.
#[verifier::external_body]
fn width_of_char(ch: char) -> (w: Option<usize>)
    ensures
        w == char_width(ch),
        0x20 <= (ch as u32) < 0x7F ==> w == Some(1usize),
        (ch as u32) < 0x20 || 0x7F <= (ch as u32) < 0xA0 ==> w is None,
{
    unicode_width::UnicodeWidthChar::width(ch)
}

/// A character is wide when it takes two columns or more; one without a
/// width counts as wide.
pub open spec fn wide_of_width(w: Option<usize>) -> bool {
    match w {
        Some(x) => x >= 2,
        None => true,
    }
}

/// Whether `ch` is printed over two columns.
pub open spec fn is_wide(ch: char) -> bool {
    wide_of_width(char_width(ch))
}

/// Whether `ch` is an ASCII control character.
pub open spec fn is_ascii_control(ch: char) -> bool {
    ch as u32 <= 0x1F || ch as u32 == 0x7F
}

/// From the width of a character to whether it is wide, and the number of
/// columns that printing it takes.
pub fn wide_from_width(w: Option<usize>) -> (r: (bool, i16))
    ensures
        r.0 == wide_of_width(w),
        r.1 == if wide_of_width(w) { 2i16 } else { 1i16 },
{
    let wide = match w {
        Some(x) => x >= 2,
        None => true,
    };
    if wide {
        (true, 2)
    } else {
        (false, 1)
    }
}

/// Whether `ch` is wide, and the number of columns that printing it takes.
/// A printable ASCII character is not wide.
pub fn wide_test(ch: char) -> (r: (bool, i16))
    ensures
        r.0 == is_wide(ch),
        r.1 == if is_wide(ch) { 2i16 } else { 1i16 },
        0x20 <= (ch as u32) < 0x7F ==> !is_wide(ch),
{
    wide_from_width(width_of_char(ch))
}

/// The rows of a grid as sequences of cells.
pub closed spec fn rows_view(rows: Seq<Vec<Cell>>) -> Seq<Seq<Cell>> {
    Seq::new(rows.len(), |y: int| rows[y]@)
}

/// The screen: what the child process has drawn, and what of it the
/// display server has not been told yet.
pub struct WriteHalf {
    history: VecDeque<Vec<Cell>>,
    histcur: usize,
    buffer: Vec<Vec<Cell>>,
    ecell: Cell,
    reversed: bool,
    size: [i16; 2],
    damage: Region,
    cursor: [i16; 2],
    eol: bool,
}

impl View for WriteHalf {
    type V = Screen;

    closed spec fn view(&self) -> Screen {
        Screen {
            buffer: rows_view(self.buffer@),
            history: rows_view(self.history@),
            histcur: self.histcur as nat,
            ecell: self.ecell,
            reversed: self.reversed,
            sx: self.size[0] as int,
            sy: self.size[1] as int,
            damage: self.damage,
            cx: self.cursor[0] as int,
            cy: self.cursor[1] as int,
            eol: self.eol,
        }
    }
}

/// A row of `n` copies of `cell`.
fn filled_row(cell: Cell, n: usize) -> (row: Vec<Cell>)
    ensures
        row@ == Seq::new(n as nat, |x: int| cell),
{
    let mut row: Vec<Cell> = Vec::new();
    let mut i: usize = 0;
    while i < n
        invariant
            i <= n,
            row@ == Seq::new(i as nat, |x: int| cell),
        decreases n - i,
    {
        row.push(cell);
        i += 1;
    }
    row
}

impl WriteHalf {
    /// Whether the screen is in a state that the mutations keep.
    pub open spec fn wf(&self) -> bool {
        self@.wf()
    }

    /// An empty screen of 80 columns and 24 rows.
    pub fn new() -> (wh: WriteHalf)
        ensures
            wh@ == Screen::initial(),
            wh.wf(),
    {
        let mut buffer: Vec<Vec<Cell>> = Vec::new();
        let mut y: usize = 0;
        while y < 24
            invariant
                y <= 24,
                buffer@.len() == y,
                forall|k: int| 0 <= k < y ==> (#[trigger] buffer@[k])@ == Seq::new(80, |x: int| Cell::empty()),
            decreases 24 - y,
        {
            buffer.push(filled_row(Cell::default(), 80));
            y += 1;
        }
        let wh = WriteHalf {
            history: VecDeque::new(),
            histcur: 0,
            buffer,
            ecell: Cell::default(),
            reversed: false,
            size: [80, 24],
            damage: Region::default(),
            cursor: [0, 0],
            eol: false,
        };
        assert(wh@.buffer =~= Screen::initial().buffer);
        assert(wh@.history =~= Screen::initial().history);
        wh
    }

    /// Sets the foreground colour of what is printed from now on.
    pub fn fg_color(&mut self, color: u32)
        ensures
            final(self)@ == old(self)@.fg_color(color),
            old(self).wf() ==> final(self).wf(),
    {
        self.ecell.fg = color;
    }

    /// Sets the background colour of what is printed from now on.
    pub fn bg_color(&mut self, color: u32)
        ensures
            final(self)@ == old(self)@.bg_color(color),
            old(self).wf() ==> final(self).wf(),
    {
        self.ecell.bg = color;
    }

    /// Switches reverse video on or off.
    pub fn reverse_color(&mut self, reversed: bool)
        ensures
            final(self)@ == old(self)@.reverse_color(reversed),
            old(self).wf() ==> final(self).wf(),
    {
        self.reversed = reversed;
    }

    /// Sets the decoration bits of `mask` where `on` holds, and clears them
    /// where it does not.
    pub fn set_decoration(&mut self, mask: u32, on: bool)
        ensures
            final(self)@ == old(self)@.set_decoration(mask, on),
            old(self).wf() ==> final(self).wf(),
    {
        if on {
            self.ecell.decoration = self.ecell.decoration | mask;
        } else {
            self.ecell.decoration = self.ecell.decoration & !mask;
        }
    }

    /// Marks the whole grid as damaged.
    pub fn damage_all(&mut self)
        ensures
            final(self)@ == old(self)@.damage_all(),
            old(self).wf() ==> final(self).wf(),
    {
        self.damage = Region::sizebox(self.size);
    }

    /// Adds to the damage the part of `damage` that lies on the grid.
    pub fn include_damage(&mut self, damage: Region)
        ensures
            final(self)@ == old(self)@.include_damage(damage),
            old(self).wf() ==> final(self).wf(),
    {
        if damage.is_empty() {
            return ;
        }
        let clipped = damage.intersect(&Region::sizebox(self.size));
        self.damage = self.damage.union(&clipped);
    }

    /// Brings the cursor back onto the grid; tells whether it had left it.
    fn limit_cursor(&mut self) -> (moved: bool)
        requires
            valid_size(old(self)@.sx, old(self)@.sy),
        ensures
            final(self)@ == old(self)@.limit_cursor(),
            moved == (old(self)@.limit_cursor() != old(self)@),
    {
        let mut result = false;
        if self.cursor[0] < 0 {
            self.cursor[0] = 0;
            result = true;
        }
        if self.cursor[1] < 0 {
            self.cursor[1] = 0;
            result = true;
        }
        if self.cursor[0] >= self.size[0] {
            self.cursor[0] = self.size[0] - 1;
            result = true;
        }
        if self.cursor[1] >= self.size[1] {
            self.cursor[1] = self.size[1] - 1;
            result = true;
        }
        result
    }

    /// Moves the cursor: `ty` 0 sets the column to `pos`, 1 sets the row,
    /// 2 adds `pos` to the column, 3 adds it to the row. The cursor stops
    /// at the edges of the grid.
    pub fn loc(&mut self, ty: u8, pos: i16)
        requires
            old(self).wf(),
            ty <= 3,
        ensures
            final(self)@ == old(self)@.loc(ty, pos as int),
            final(self).wf(),
    {
        proof {
            lemma_loc_wf(self@, ty, pos as int);
        }
        self.eol = false;
        if ty == 0 {
            self.cursor[0] = pos;
        } else if ty == 1 {
            self.cursor[1] = pos;
        } else if ty == 2 {
            self.cursor[0] = saturate(self.cursor[0] as i32 + pos as i32);
        } else {
            self.cursor[1] = saturate(self.cursor[1] as i32 + pos as i32);
        }
        self.limit_cursor();
    }

    /// Scrolls the grid by one row. Down: the top row goes to the
    /// scrollback and an empty row comes in at the bottom. Up: an empty row
    /// comes in at the top and the bottom row is lost.
    pub fn scroll(&mut self, down: bool)
        requires
            old(self).wf(),
        ensures
            final(self)@ == old(self)@.scroll(down),
            final(self).wf(),
    {
        proof {
            lemma_scroll_wf(self@, down);
        }
        self.damage_all();
        let row = filled_row(self.ecell, self.size[0] as usize);
        if down {
            self.buffer.push(row);
            let top = self.buffer.remove(0);
            self.history.push_front(top);
            if self.history.len() > HISTORY_CAP {
                self.history.truncate(HISTORY_CAP);
            }
            assert(self@.buffer =~= old(self)@.scroll(down).buffer);
            assert(self@.history =~= old(self)@.scroll(down).history);
        } else {
            self.buffer.insert(0, row);
            self.buffer.pop();
            assert(self@.buffer =~= old(self)@.scroll(down).buffer);
        }
    }

    /// Moves the cursor to the start of the next row, scrolling on the last.
    pub fn newline(&mut self)
        requires
            old(self).wf(),
        ensures
            final(self)@ == old(self)@.newline(),
            final(self).wf(),
    {
        if self.cursor[1] == self.size[1] - 1 {
            self.scroll(true);
        } else {
            self.loc(3, 1);
        }
        self.loc(0, 0);
    }

    /// Prints `ch` at the cursor over one column, or over two where `wide`
    /// holds, wrapping first where a deferred wrap is pending or a wide
    /// character would not fit. The second cell of a wide character is left
    /// as it was.
    pub fn put_wide(&mut self, ch: char, wide: bool)
        requires
            old(self).wf(),
        ensures
            final(self)@ == old(self)@.print(ch as u32, wide),
            final(self).wf(),
    {
        proof {
            lemma_print_wf(self@, ch as u32, wide);
        }
        let width: i16 = if wide { 2 } else { 1 };
        if self.eol {
            self.eol = false;
            self.newline();
        }
        if self.cursor[0] == self.size[0] - 1 && wide {
            self.newline();
        }
        let ghost s2 = self@;
        let new_eol = self.cursor[0] == self.size[0] - width;
        let cx = self.cursor[0] as usize;
        let cy = self.cursor[1] as usize;
        let unic = ch as u32;
        self.buffer[cy][cx] = self.ecell.with_unic(unic);
        assert(self@.buffer =~= s2.buffer.update(
            s2.cy,
            s2.buffer[s2.cy].update(s2.cx, s2.ecell.spec_with_unic(unic)),
        ));
        self.include_damage(
            Region::new(
                [self.cursor[0], self.cursor[1], self.cursor[0] + 1, self.cursor[1] + 1],
            ),
        );
        proof {
            lemma_write_cell_wf(s2, unic);
        }
        if !new_eol {
            self.loc(2, width);
        } else {
            self.eol = true;
        }
    }

    /// Prints `ch` at the cursor and moves on; at the last column the
    /// cursor stays, and the wrap is deferred to the next character.
    pub fn put(&mut self, ch: char)
        requires
            old(self).wf(),
            !is_ascii_control(ch),
        ensures
            final(self)@ == old(self)@.print(ch as u32, is_wide(ch)),
            0x20 <= (ch as u32) < 0x7F ==> !is_wide(ch),
            final(self).wf(),
    {
        let (wide, _width) = wide_test(ch);
        self.put_wide(ch, wide);
    }

    /// Clears the cells `b..e` of row `y`.
    fn fill_row(&mut self, y: usize, b: usize, e: usize)
        requires
            old(self).wf(),
            y < old(self)@.sy,
            b <= e <= old(self)@.sx,
        ensures
            final(self)@ == old(self)@.fill_row(y as int, b as int, e as int),
            final(self).wf(),
    {
        proof {
            lemma_fill_row_wf(self@, y as int, b as int, e as int);
        }
        let ghost row0 = self.buffer@[y as int]@;
        let mut col = b;
        while col < e
            invariant
                b <= col <= e,
                e <= row0.len(),
                y < self.buffer@.len(),
                self.buffer@.len() == old(self).buffer@.len(),
                forall|k: int| 0 <= k < self.buffer@.len() && k != y ==> self.buffer@[k] == old(self).buffer@[k],
                row0 == old(self).buffer@[y as int]@,
                self.buffer@[y as int]@ == Seq::new(
                    row0.len(),
                    |x: int| if b <= x < col { self.ecell } else { row0[x] },
                ),
                self.history == old(self).history,
                self.histcur == old(self).histcur,
                self.ecell == old(self).ecell,
                self.reversed == old(self).reversed,
                self.size == old(self).size,
                self.damage == old(self).damage,
                self.cursor == old(self).cursor,
                self.eol == old(self).eol,
            decreases e - col,
        {
            self.buffer[y][col] = self.ecell;
            col += 1;
        }
        assert(self@.buffer =~= old(self)@.fill_row(y as int, b as int, e as int).buffer);
    }

    /// Replaces the rows `b..e` by empty rows.
    fn fill_rows(&mut self, b: usize, e: usize)
        requires
            old(self).wf(),
            b <= e <= old(self)@.sy,
        ensures
            final(self)@ == old(self)@.fill_rows(b as int, e as int),
            final(self).wf(),
    {
        proof {
            lemma_fill_rows_wf(self@, b as int, e as int);
        }
        let ghost blank = self@.blank_row();
        let mut row = b;
        while row < e
            invariant
                b <= row <= e,
                e <= self.buffer@.len(),
                self.buffer@.len() == old(self).buffer@.len(),
                blank == old(self)@.blank_row(),
                forall|k: int|
                    0 <= k < self.buffer@.len() ==> (#[trigger] self.buffer@[k])@ == if b <= k
                        < row {
                        blank
                    } else {
                        old(self).buffer@[k]@
                    },
                self.history == old(self).history,
                self.histcur == old(self).histcur,
                self.ecell == old(self).ecell,
                self.reversed == old(self).reversed,
                self.size == old(self).size,
                self.damage == old(self).damage,
                self.cursor == old(self).cursor,
                self.eol == old(self).eol,
                0 <= self.size[0],
            decreases e - row,
        {
            self.buffer[row] = filled_row(self.ecell, self.size[0] as usize);
            row += 1;
        }
        assert(self@.buffer =~= old(self)@.fill_rows(b as int, e as int).buffer);
    }

    /// Erases in the row of the cursor: with `mode` 0 from the cursor to
    /// the end of the row, with 1 from its start up to the cursor, with any
    /// other value the whole row.
    pub fn erase_line(&mut self, mode: u16)
        requires
            old(self).wf(),
        ensures
            final(self)@ == old(self)@.erase_line(mode),
            final(self).wf(),
    {
        proof {
            lemma_erase_line_wf(self@, mode);
        }
        let (begin, end): (i16, i16) = if mode == 0 {
            (self.cursor[0], self.size[0])
        } else if mode == 1 {
            (0, self.cursor[0] + 1)
        } else {
            (0, self.size[0])
        };
        self.fill_row(self.cursor[1] as usize, begin as usize, end as usize);
        self.include_damage(Region::new([begin, self.cursor[1], end, self.cursor[1] + 1]));
    }

    /// Erases in the display: with `mode` 0 from the cursor to the end of
    /// the screen, with 1 from its start up to the cursor, with any other
    /// value the whole screen.
    pub fn erase_display(&mut self, mode: u16)
        requires
            old(self).wf(),
        ensures
            final(self)@ == old(self)@.erase_display(mode),
            final(self).wf(),
    {
        proof {
            lemma_erase_display_wf(self@, mode);
        }
        let (begin, end): (i16, i16) = if mode == 0 {
            self.erase_line(0);
            (self.cursor[1] + 1, self.size[1])
        } else if mode == 1 {
            self.erase_line(1);
            (0, self.cursor[1])
        } else {
            (0, self.size[1])
        };
        self.fill_rows(begin as usize, end as usize);
        self.include_damage(Region::new([0, begin, self.size[0], end]));
    }

    /// Moves the cursor to the next tab stop, a multiple of eight columns,
    /// clearing the cells on the way; does nothing where that stop is off
    /// the grid.
    pub fn tab(&mut self)
        requires
            old(self).wf(),
        ensures
            final(self)@ == old(self)@.tab(),
            final(self).wf(),
    {
        proof {
            lemma_tab_wf(self@);
        }
        let cx = self.cursor[0] as usize;
        let target = (cx / 8 + 1) * 8;
        if target >= self.size[0] as usize {
            return ;
        }
        self.fill_row(self.cursor[1] as usize, cx, target);
        let target = target as i16;
        self.include_damage(Region::new([self.cursor[0], self.cursor[1], target, self.cursor[1] + 1]));
        self.loc(0, target);
    }

    /// Erases `n` cells from the cursor on, as far as the row goes; the
    /// cursor stays.
    pub fn ech(&mut self, n: i16)
        requires
            old(self).wf(),
        ensures
            final(self)@ == old(self)@.ech(n as int),
            final(self).wf(),
    {
        proof {
            lemma_ech_wf(self@, n as int);
        }
        let cx = self.cursor[0];
        let end: i16 = if n <= 0 {
            cx
        } else if cx as i32 + n as i32 > self.size[0] as i32 {
            self.size[0]
        } else {
            cx + n
        };
        self.fill_row(self.cursor[1] as usize, cx as usize, end as usize);
        self.include_damage(Region::new([cx, self.cursor[1], end, self.cursor[1] + 1]));
    }

    /// Moves the view by half a screen through the scrollback: down
    /// towards the live grid, or up away from it.
    pub fn scroll_history_page(&mut self, down: bool)
        requires
            old(self).wf(),
        ensures
            final(self)@ == old(self)@.scroll_history_page(down),
            final(self).wf(),
    {
        proof {
            lemma_scroll_history_page_wf(self@, down);
        }
        let dy = self.size[1] as usize / 2;
        if down {
            self.histcur = if self.histcur >= dy { self.histcur - dy } else { 0 };
        } else {
            let hlen = self.history.len();
            self.histcur = if hlen - self.histcur < dy { hlen } else { self.histcur + dy };
        }
        self.damage_all();
    }

    /// Empties every cell of the grid.
    pub fn clear(&mut self)
        requires
            old(self).wf(),
        ensures
            final(self)@ == old(self)@.clear(),
            final(self).wf(),
    {
        proof {
            lemma_clear_wf(self@);
        }
        self.fill_rows(0, self.size[1] as usize);
        self.damage_all();
    }

    /// Gives the grid `new_size[0]` columns and `new_size[1]` rows. What
    /// lay in the top left stays, new cells are empty, the cursor stays on
    /// the grid, and the whole grid becomes damage.
    pub fn resize(&mut self, new_size: [i16; 2])
        requires
            old(self).wf(),
            valid_size(new_size[0] as int, new_size[1] as int),
        ensures
            final(self)@ == old(self)@.resize(new_size[0] as int, new_size[1] as int),
            final(self).wf(),
    {
        proof {
            lemma_resize_wf(self@, new_size[0] as int, new_size[1] as int);
        }
        let w = new_size[0] as usize;
        let h = new_size[1] as usize;
        let old_w = self.size[0] as usize;
        let old_h = self.size[1] as usize;
        let ghost want = old(self)@.resize(new_size[0] as int, new_size[1] as int).buffer;
        let mut grid: Vec<Vec<Cell>> = Vec::new();
        let mut y: usize = 0;
        while y < h
            invariant
                y <= h,
                h == new_size[1],
                w == new_size[0],
                self == old(self),
                self.wf(),
                old_w == self@.sx,
                old_h == self@.sy,
                want == old(self)@.resize(new_size[0] as int, new_size[1] as int).buffer,
                grid@.len() == y,
                forall|k: int| 0 <= k < y ==> (#[trigger] grid@[k])@ == want[k],
            decreases h - y,
        {
            let mut row: Vec<Cell> = Vec::new();
            let mut x: usize = 0;
            while x < w
                invariant
                    x <= w,
                    y < h,
                    h == new_size[1],
                    w == new_size[0],
                    self == old(self),
                    self.wf(),
                    old_w == self@.sx,
                    old_h == self@.sy,
                    want == old(self)@.resize(new_size[0] as int, new_size[1] as int).buffer,
                    row@.len() == x,
                    forall|j: int| 0 <= j < x ==> row@[j] == want[y as int][j],
                decreases w - x,
            {
                let cell = if y < old_h && x < old_w {
                    assert(self@.buffer[y as int].len() == self@.sx);
                    self.buffer[y][x]
                } else {
                    self.ecell
                };
                row.push(cell);
                x += 1;
            }
            grid.push(row);
            y += 1;
        }
        let keep_eol = self.eol && new_size[0] == self.size[0];
        self.buffer = grid;
        self.size = new_size;
        self.eol = keep_eol;
        self.limit_cursor();
        self.damage = Region::sizebox(new_size);
        assert(self@.buffer =~= want);
    }

    /// The cell that the view shows in column `x` of row `y`: the first
    /// rows come from the scrollback where the view is scrolled back.
    fn shown_cell(&self, x: usize, y: usize) -> (cell: Cell)
        requires
            self.wf(),
            x < self@.sx,
            y < self@.sy,
        ensures
            cell == self@.cell_at(x as int, y as int),
    {
        if y < self.histcur {
            let yy = self.histcur - y - 1;
            let row = &self.history[yy];
            if x < row.len() {
                row[x]
            } else {
                Cell::default()
            }
        } else {
            let yy = y - self.histcur;
            assert(self@.buffer[yy as int].len() == self@.sx);
            self.buffer[yy][x]
        }
    }

    /// The area command that shows `area`, as far as it lies on the grid:
    /// tag 2, the region, and its cells row by row. Empty where no part of
    /// `area` is on the grid.
    pub fn send_area(&self, area: Region) -> (out: Vec<u8>)
        requires
            self.wf(),
        ensures
            out@ == self@.area_bytes(area),
    {
        let mut out: Vec<u8> = Vec::new();
        let area = area.intersect(&Region::sizebox(self.size));
        if area.is_empty() {
            return out;
        }
        out.push(2);
        area.write_le_bytes(&mut out);
        let ghost header = out@;
        let ghost mut cells: Seq<Cell> = Seq::empty();
        let mut y = area.y0;
        while y < area.y1
            invariant
                self.wf(),
                area.within(self@.sizebox()),
                !area.spec_is_empty(),
                area.y0 <= y <= area.y1,
                cells == self@.area_cells(area, y - area.y0),
                out@ == header + cells_le_bytes(cells),
            decreases area.y1 - y,
        {
            let ghost before = cells;
            let mut x = area.x0;
            while x < area.x1
                invariant
                    self.wf(),
                    area.within(self@.sizebox()),
                    area.y0 <= y < area.y1,
                    area.x0 <= x <= area.x1,
                    cells == before + self@.row_cells(area, y as int).take(x - area.x0),
                    out@ == header + cells_le_bytes(cells),
                decreases area.x1 - x,
            {
                let cell = self.shown_cell(x as usize, y as usize);
                let ghost prev = cells;
                cell.write_le_bytes(&mut out);
                proof {
                    cells = cells.push(cell);
                    assert(cells.drop_last() =~= prev);
                }
                x += 1;
            }
            y += 1;
        }
        out
    }

    /// The cursor command: tag 0, then column and row.
    pub fn send_cursor(&self) -> (out: Vec<u8>)
        requires
            self.wf(),
        ensures
            out@ == self@.cursor_bytes(),
    {
        let mut out: Vec<u8> = Vec::new();
        out.push(0);
        push_i16_le(&mut out, self.cursor[0]);
        push_i16_le(&mut out, self.cursor[1]);
        out
    }

    /// The commands of a flush: the damaged area and the cursor. No damage
    /// is left after it.
    pub fn send_damage(&mut self) -> (out: Vec<u8>)
        requires
            old(self).wf(),
        ensures
            out@ == old(self)@.damage_bytes(),
            final(self)@ == old(self)@.flushed(),
            final(self).wf(),
    {
        let mut out = self.send_area(self.damage);
        let mut cursor = self.send_cursor();
        out.append(&mut cursor);
        self.damage = Region::default();
        out
    }

    /// The commands that draw the whole screen anew.
    pub fn refresh(&mut self) -> (out: Vec<u8>)
        requires
            old(self).wf(),
        ensures
            out@ == old(self)@.damage_all().damage_bytes(),
            final(self)@ == old(self)@.flushed(),
            final(self).wf(),
    {
        self.damage_all();
        self.send_damage()
    }

    /// Clears the screen, puts the cursor at the origin, and gives the
    /// commands that draw the result.
    pub fn reset(&mut self) -> (out: Vec<u8>)
        requires
            old(self).wf(),
        ensures
            out@ == old(self)@.clear().loc(0, 0).loc(1, 0).damage_all().damage_bytes(),
            final(self)@ == old(self)@.reset(),
            final(self).wf(),
    {
        self.clear();
        self.loc(0, 0);
        self.loc(1, 0);
        self.refresh()
    }

    /// Columns and rows of the grid.
    pub fn size(&self) -> (size: [i16; 2])
        ensures
            size[0] == self@.sx,
            size[1] == self@.sy,
    {
        self.size
    }

    /// Column and row of the cursor.
    pub fn cursor(&self) -> (cursor: [i16; 2])
        ensures
            cursor[0] == self@.cx,
            cursor[1] == self@.cy,
    {
        self.cursor
    }

    /// Whether a wrap is deferred to the next character.
    pub fn eol(&self) -> (eol: bool)
        ensures
            eol == self@.eol,
    {
        self.eol
    }

    /// The cell in the current style that erasing leaves.
    pub fn ecell(&self) -> (cell: Cell)
        ensures
            cell == self@.ecell,
    {
        self.ecell
    }

    /// Whether reverse video is switched on.
    pub fn reversed(&self) -> (reversed: bool)
        ensures
            reversed == self@.reversed,
    {
        self.reversed
    }

    /// What has changed since the last flush.
    pub fn damage(&self) -> (damage: Region)
        ensures
            damage == self@.damage,
    {
        self.damage
    }

    /// How many rows of the scrollback are scrolled into view.
    pub fn histcur(&self) -> (n: usize)
        ensures
            n == self@.histcur,
    {
        self.histcur
    }

    /// How many rows the scrollback holds.
    pub fn history_len(&self) -> (n: usize)
        ensures
            n == self@.history.len(),
    {
        self.history.len()
    }

    /// The cell in column `x` of row `y` of the live grid, `None` off the
    /// grid.
    pub fn cell(&self, x: usize, y: usize) -> (cell: Option<Cell>)
        requires
            self.wf(),
        ensures
            cell == if x < self@.sx && y < self@.sy {
                Some(self@.buffer[y as int][x as int])
            } else {
                None
            },
    {
        if y < self.buffer.len() && x < self.size[0] as usize {
            assert(self@.buffer[y as int].len() == self@.sx);
            Some(self.buffer[y][x])
        } else {
            None
        }
    }
}

/// The messages of the display server that wait to be taken.
pub struct ReadHalf {
    event_queue: VecDeque<ServerMsg>,
}

impl View for ReadHalf {
    type V = Seq<ServerMsg>;

    closed spec fn view(&self) -> Seq<ServerMsg> {
        self.event_queue@
    }
}

impl ReadHalf {
    /// A queue without messages.
    pub fn new() -> (rh: ReadHalf)
        ensures
            rh@ == Seq::<ServerMsg>::empty(),
    {
        ReadHalf { event_queue: VecDeque::new() }
    }

    /// Takes the oldest message that waits. `None` tells that none does,
    /// and that the connection has to be read.
    pub fn poll_event(&mut self) -> (msg: Option<ServerMsg>)
        ensures
            old(self)@.len() == 0 ==> msg is None && final(self)@ == old(self)@,
            old(self)@.len() > 0 ==> msg == Some(old(self)@[0]) && final(self)@ == old(
                self,
            )@.skip(1),
    {
        let msg = self.event_queue.pop_front();
        msg
    }

    /// Takes in the bytes of one read of the connection, and gives the
    /// oldest message that waits then. Bytes that are no sequence of
    /// records are dropped whole, and the reason is returned.
    pub fn try_feed(&mut self, buf: &[u8]) -> (r: Result<Option<ServerMsg>, DecodeError>)
        ensures
            match decode(buf@) {
                Ok(msgs) => {
                    let all = old(self)@ + msgs;
                    if all.len() == 0 {
                        r == Ok::<Option<ServerMsg>, DecodeError>(None) && final(self)@ == all
                    } else {
                        r == Ok::<Option<ServerMsg>, DecodeError>(Some(all[0])) && final(self)@
                            == all.skip(1)
                    }
                },
                Err(e) => r == Err::<Option<ServerMsg>, DecodeError>(e) && final(self)@ == old(
                    self,
                )@,
            },
    {
        let mut offset: usize = 0;
        assert(buf@.skip(0) =~= buf@);
        let msgs = match ServerMsg::from_buf(buf, &mut offset) {
            Ok(msgs) => msgs,
            Err(e) => {
                return Err(e);
            },
        };
        let mut i: usize = 0;
        while i < msgs.len()
            invariant
                i <= msgs.len(),
                self@ == old(self)@ + msgs@.take(i as int),
            decreases msgs.len() - i,
        {
            self.event_queue.push_back(msgs[i]);
            i += 1;
        }
        assert(msgs@.take(i as int) =~= msgs@);
        Ok(self.poll_event())
    }

    /// Takes in the bytes of one read of the connection, and gives the
    /// oldest message that waits then. Bytes that are no sequence of
    /// records are dropped whole.
    pub fn feed(&mut self, buf: &[u8]) -> (msg: Option<ServerMsg>)
        ensures
            match decode(buf@) {
                Ok(msgs) => {
                    let all = old(self)@ + msgs;
                    if all.len() == 0 {
                        msg is None && final(self)@ == all
                    } else {
                        msg == Some(all[0]) && final(self)@ == all.skip(1)
                    }
                },
                Err(_) => msg is None && final(self)@ == old(self)@,
            },
    {
        match self.try_feed(buf) {
            Ok(msg) => msg,
            Err(_) => None,
        }
    }
}

/// Both halves of the connection to the display server.
pub struct Client {
    pub wh: WriteHalf,
    pub rh: ReadHalf,
}

impl Default for Client {
    /// An empty screen and an empty queue.
    fn default() -> (client: Client)
        ensures
            client.wh@ == Screen::initial(),
            client.wh.wf(),
            client.rh@ == Seq::<ServerMsg>::empty(),
    {
        Client { wh: WriteHalf::new(), rh: ReadHalf::new() }
    }
}

impl Client {
    /// The two halves, the reading one first.
    pub fn unwrap(self) -> (halves: (ReadHalf, WriteHalf))
        ensures
            halves.0 == self.rh,
            halves.1 == self.wh,
    {
        (self.rh, self.wh)
    }
}

/// `v` brought into the range of `i16`.
fn saturate(v: i32) -> (r: i16)
    ensures
        r == if v > i16::MAX { i16::MAX as int } else if v < i16::MIN { i16::MIN as int } else { v as int },
{
    if v > 32767 {
        32767
    } else if v < -32768 {
        -32768
    } else {
        v as i16
    }
}

} // verus!
