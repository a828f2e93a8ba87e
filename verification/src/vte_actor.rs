//! The VT interpreter: from the actions of the byte decoder to mutations
//! of the screen.
use vstd::prelude::*;
use crate::cell::{DEFAULT_BG, DEFAULT_FG, UNDERLINE};
use crate::client::{is_ascii_control, is_wide, WriteHalf};
use crate::color_table::{builtin_palette, ColorTable};
use crate::decoder::{copy_params, views, Action, VtAction};
use crate::screen::Screen;
use crate::screen::{
    lemma_ech_wf, lemma_erase_display_wf, lemma_erase_line_wf, lemma_loc_wf,
    lemma_newline_wf, lemma_print_wf, lemma_scroll_wf, lemma_tab_wf,
};

verus! {

/// The screen after the graphic-rendition codes of `p` from index `i` on.
///
/// 0 resets the style; 1 (bold) changes nothing; 4 and 24 set and clear the
/// underline; 7 and 27 switch reverse video on and off; 30..=37 and 90..=97
/// choose the foreground among the first sixteen colours, 40..=47 and
/// 100..=107 the background; 38 and 48 take `5` and a palette index from
/// the next two codes (an index over 255 counts modulo 256); 39 and 49 go
/// back to the default colours. Any other code, and a 38 or 48 that is not
/// followed by `5` and an index, ends the sequence there.
pub open spec fn sgr_from(s: Screen, palette: Seq<u32>, p: Seq<u16>, i: int) -> Screen
    decreases p.len() - i,
{
    if i < 0 || i >= p.len() {
        s
    } else {
        let c = p[i];
        if c == 0 {
            sgr_from(s.reset_style(), palette, p, i + 1)
        } else if c == 1 {
            sgr_from(s, palette, p, i + 1)
        } else if c == 4 {
            sgr_from(s.set_decoration(UNDERLINE, true), palette, p, i + 1)
        } else if c == 7 {
            sgr_from(s.reverse_color(true), palette, p, i + 1)
        } else if c == 24 {
            sgr_from(s.set_decoration(UNDERLINE, false), palette, p, i + 1)
        } else if c == 27 {
            sgr_from(s.reverse_color(false), palette, p, i + 1)
        } else if 30 <= c <= 37 {
            sgr_from(s.fg_color(palette[c - 30]), palette, p, i + 1)
        } else if c == 38 {
            if i + 2 < p.len() && p[i + 1] == 5 {
                sgr_from(s.fg_color(palette[(p[i + 2] % 256) as int]), palette, p, i + 3)
            } else {
                s
            }
        } else if c == 39 {
            sgr_from(s.fg_color(DEFAULT_FG), palette, p, i + 1)
        } else if 40 <= c <= 47 {
            sgr_from(s.bg_color(palette[c - 40]), palette, p, i + 1)
        } else if c == 48 {
            if i + 2 < p.len() && p[i + 1] == 5 {
                sgr_from(s.bg_color(palette[(p[i + 2] % 256) as int]), palette, p, i + 3)
            } else {
                s
            }
        } else if c == 49 {
            sgr_from(s.bg_color(DEFAULT_BG), palette, p, i + 1)
        } else if 90 <= c <= 97 {
            sgr_from(s.fg_color(palette[c - 82]), palette, p, i + 1)
        } else if 100 <= c <= 107 {
            sgr_from(s.bg_color(palette[c - 92]), palette, p, i + 1)
        } else {
            s
        }
    }
}

/// The screen after a whole graphic-rendition sequence.
pub open spec fn sgr(s: Screen, palette: Seq<u32>, p: Seq<u16>) -> Screen {
    sgr_from(s, palette, p, 0)
}

/// Graphic rendition changes the style alone: a well-formed screen stays so.
pub proof fn lemma_sgr_wf(s: Screen, palette: Seq<u32>, p: Seq<u16>, i: int)
    requires
        s.wf(),
    ensures
        sgr_from(s, palette, p, i).wf(),
    decreases p.len() - i,
{
    if 0 <= i < p.len() {
        let c = p[i];
        if c == 0 {
            lemma_sgr_wf(s.reset_style(), palette, p, i + 1);
        } else if c == 1 {
            lemma_sgr_wf(s, palette, p, i + 1);
        } else if c == 4 {
            lemma_sgr_wf(s.set_decoration(UNDERLINE, true), palette, p, i + 1);
        } else if c == 7 {
            lemma_sgr_wf(s.reverse_color(true), palette, p, i + 1);
        } else if c == 24 {
            lemma_sgr_wf(s.set_decoration(UNDERLINE, false), palette, p, i + 1);
        } else if c == 27 {
            lemma_sgr_wf(s.reverse_color(false), palette, p, i + 1);
        } else if 30 <= c <= 37 {
            lemma_sgr_wf(s.fg_color(palette[c - 30]), palette, p, i + 1);
        } else if c == 38 {
            if i + 2 < p.len() && p[i + 1] == 5 {
                lemma_sgr_wf(s.fg_color(palette[(p[i + 2] % 256) as int]), palette, p, i + 3);
            }
        } else if c == 39 {
            lemma_sgr_wf(s.fg_color(DEFAULT_FG), palette, p, i + 1);
        } else if 40 <= c <= 47 {
            lemma_sgr_wf(s.bg_color(palette[c - 40]), palette, p, i + 1);
        } else if c == 48 {
            if i + 2 < p.len() && p[i + 1] == 5 {
                lemma_sgr_wf(s.bg_color(palette[(p[i + 2] % 256) as int]), palette, p, i + 3);
            }
        } else if c == 49 {
            lemma_sgr_wf(s.bg_color(DEFAULT_BG), palette, p, i + 1);
        } else if 90 <= c <= 97 {
            lemma_sgr_wf(s.fg_color(palette[c - 82]), palette, p, i + 1);
        } else if 100 <= c <= 107 {
            lemma_sgr_wf(s.bg_color(palette[c - 92]), palette, p, i + 1);
        }
    }
}

/// Parameter `i` of a control sequence where 0 means 1: a count, or a
/// position counted from 1. A parameter that is missing is 1.
pub open spec fn gv(p: Seq<u16>, i: int) -> int {
    if 0 <= i < p.len() && p[i] >= 1 {
        p[i] as int
    } else {
        1
    }
}

/// Parameter `i` of a control sequence, 0 where it is missing.
pub open spec fn gv0(p: Seq<u16>, i: int) -> u16 {
    if 0 <= i < p.len() {
        p[i]
    } else {
        0
    }
}

/// The screen after the control sequence with the parameters `p` and the
/// final character `action`.
///
/// `A`, `B`, `C`, `D` move the cursor up, down, right, left by the first
/// parameter; `H` and `f` put it in the row of the first and the column of
/// the second parameter, both counted from 1; `J` and `K` erase in the
/// display and in the line; `X` erases characters; `m` sets the graphic
/// rendition. Every other sequence leaves the screen as it is.
pub open spec fn csi(s: Screen, palette: Seq<u32>, p: Seq<u16>, action: char) -> Screen {
    if action == 'm' {
        sgr(s, palette, p)
    } else if action == 'A' {
        s.loc(3, -gv(p, 0))
    } else if action == 'B' {
        s.loc(3, gv(p, 0))
    } else if action == 'C' {
        s.loc(2, gv(p, 0))
    } else if action == 'D' {
        s.loc(2, -gv(p, 0))
    } else if action == 'J' {
        s.erase_display(gv0(p, 0))
    } else if action == 'K' {
        s.erase_line(gv0(p, 0))
    } else if action == 'H' || action == 'f' {
        s.loc(0, gv(p, 1) - 1).loc(1, gv(p, 0) - 1)
    } else if action == 'X' {
        s.ech(gv(p, 0))
    } else {
        s
    }
}

/// The screen after the control character `b`: line feed, carriage
/// return, backspace and tab act; every other one is ignored.
pub open spec fn execute(s: Screen, b: u8) -> Screen {
    if b == 0x0A {
        s.newline()
    } else if b == 0x08 {
        s.loc(2, -1)
    } else if b == 0x0D {
        s.loc(0, 0)
    } else if b == 0x09 {
        s.tab()
    } else {
        s
    }
}

/// The screen after the escape sequence that ends in `byte`: `M` moves the
/// grid down by one row; every other one is ignored.
pub open spec fn esc_dispatch(s: Screen, byte: u8) -> Screen {
    if byte == 0x4D {
        s.scroll(false)
    } else {
        s
    }
}

/// The screen after the decoder has asked to print `c`. An ASCII control
/// character is not printed.
pub open spec fn print(s: Screen, c: char) -> Screen {
    if is_ascii_control(c) {
        s
    } else {
        s.print(c as u32, is_wide(c))
    }
}

/// Every control sequence keeps the screen well formed.
pub proof fn lemma_csi_wf(s: Screen, palette: Seq<u32>, p: Seq<u16>, action: char)
    requires
        s.wf(),
    ensures
        csi(s, palette, p, action).wf(),
{
    lemma_sgr_wf(s, palette, p, 0);
    lemma_loc_wf(s, 3, -gv(p, 0));
    lemma_loc_wf(s, 3, gv(p, 0));
    lemma_loc_wf(s, 2, gv(p, 0));
    lemma_loc_wf(s, 2, -gv(p, 0));
    lemma_erase_display_wf(s, gv0(p, 0));
    lemma_erase_line_wf(s, gv0(p, 0));
    lemma_loc_wf(s, 0, gv(p, 1) - 1);
    lemma_loc_wf(s.loc(0, gv(p, 1) - 1), 1, gv(p, 0) - 1);
    lemma_ech_wf(s, gv(p, 0));
}

/// Every control character keeps the screen well formed.
pub proof fn lemma_execute_wf(s: Screen, b: u8)
    requires
        s.wf(),
    ensures
        execute(s, b).wf(),
{
    lemma_newline_wf(s);
    lemma_loc_wf(s, 2, -1);
    lemma_loc_wf(s, 0, 0);
    lemma_tab_wf(s);
}

/// Every escape sequence keeps the screen well formed.
pub proof fn lemma_esc_dispatch_wf(s: Screen, byte: u8)
    requires
        s.wf(),
    ensures
        esc_dispatch(s, byte).wf(),
{
    lemma_scroll_wf(s, false);
}

/// Printing any character keeps the screen well formed.
pub proof fn lemma_print_char_wf(s: Screen, c: char)
    requires
        s.wf(),
    ensures
        print(s, c).wf(),
{
    lemma_print_wf(s, c as u32, is_wide(c));
}

/// A parameter as a distance on the grid: what does not fit is more than
/// any grid is wide or high.
fn distance(n: u16) -> (d: i16)
    ensures
        d == if n > i16::MAX { i16::MAX as int } else { n as int },
{
    if n > 32767 {
        32767
    } else {
        n as i16
    }
}

/// Parameter `idx`, where 0 and a missing parameter mean 1.
fn param_or_one(simple: &Vec<u16>, idx: usize) -> (v: u16)
    ensures
        v == gv(simple@, idx as int),
{
    if idx < simple.len() && simple[idx] >= 1 {
        simple[idx]
    } else {
        1
    }
}

/// Parameter `idx`, where a missing parameter means 0.
fn param_or_zero(simple: &Vec<u16>, idx: usize) -> (v: u16)
    ensures
        v == gv0(simple@, idx as int),
{
    if idx < simple.len() {
        simple[idx]
    } else {
        0
    }
}

/// Whether the graphic-rendition codes of `p` from index `i` on are all
/// known, so that the sequence is read to its end.
pub open spec fn sgr_known(p: Seq<u16>, i: int) -> bool
    decreases p.len() - i,
{
    if i < 0 || i >= p.len() {
        true
    } else {
        let c = p[i];
        if c == 38 || c == 48 {
            if i + 2 < p.len() && p[i + 1] == 5 {
                sgr_known(p, i + 3)
            } else {
                false
            }
        } else if c == 0 || c == 1 || c == 4 || c == 7 || c == 24 || c == 27 || c == 39 || c
            == 49 || (30 <= c <= 37) || (40 <= c <= 47) || (90 <= c <= 97) || (100 <= c
            <= 107) {
            sgr_known(p, i + 1)
        } else {
            false
        }
    }
}

/// Whether the control sequence is one that is carried out, or one that is
/// left aside on purpose: setting or resetting mode 1 or 2004.
pub open spec fn csi_known(p: Seq<u16>, action: char) -> bool {
    if action == 'm' {
        sgr_known(p, 0)
    } else if action == 'h' || action == 'l' {
        p.len() == 0 || p[0] == 2004 || p[0] == 1
    } else {
        action == 'A' || action == 'B' || action == 'C' || action == 'D' || action == 'J'
            || action == 'K' || action == 'H' || action == 'f' || action == 'X'
    }
}

/// Whether the control character is one that acts, or the null character.
pub open spec fn execute_known(b: u8) -> bool {
    b == 0x0A || b == 0x08 || b == 0x0D || b == 0x09 || b == 0x00
}

/// Whether the escape sequence is the reverse index, or one of the two
/// keypad modes, which are left aside on purpose.
pub open spec fn esc_known(byte: u8) -> bool {
    byte == 0x4D || byte == 0x3D || byte == 0x3E
}

/// Whether the action is known to the interpreter. One that is not
/// changes nothing, or ends a graphic rendition early, and is worth a line
/// in a log.
pub open spec fn known(a: Action) -> bool {
    match a {
        Action::Print(c) => !is_ascii_control(c),
        Action::Execute(b) => execute_known(b),
        Action::Csi { params, interm, action } => csi_known(params, action),
        Action::Esc { interm, byte } => esc_known(byte),
    }
}

/// The actions of a run that are not known to the interpreter, in order.
pub open spec fn unknown_of(actions: Seq<Action>) -> Seq<Action>
    decreases actions.len(),
{
    if actions.len() == 0 {
        Seq::empty()
    } else if known(actions.last()) {
        unknown_of(actions.drop_last())
    } else {
        unknown_of(actions.drop_last()).push(actions.last())
    }
}

/// The screen after one action of the byte decoder.
pub open spec fn perform(s: Screen, palette: Seq<u32>, a: Action) -> Screen {
    match a {
        Action::Print(c) => print(s, c),
        Action::Execute(b) => execute(s, b),
        Action::Csi { params, interm, action } => csi(s, palette, params, action),
        Action::Esc { interm, byte } => esc_dispatch(s, byte),
    }
}

/// The screen after a run of actions, carried out in order.
pub open spec fn perform_all(s: Screen, palette: Seq<u32>, actions: Seq<Action>) -> Screen
    decreases actions.len(),
{
    if actions.len() == 0 {
        s
    } else {
        perform(perform_all(s, palette, actions.drop_last()), palette, actions.last())
    }
}

/// Whatever the decoder reports, the screen stays well formed.
pub proof fn lemma_perform_wf(s: Screen, palette: Seq<u32>, a: Action)
    requires
        s.wf(),
    ensures
        perform(s, palette, a).wf(),
{
    match a {
        Action::Print(c) => lemma_print_char_wf(s, c),
        Action::Execute(b) => lemma_execute_wf(s, b),
        Action::Csi { params, interm, action } => lemma_csi_wf(s, palette, params, action),
        Action::Esc { interm, byte } => lemma_esc_dispatch_wf(s, byte),
    }
}

/// Whatever run of actions the decoder reports, the screen stays well
/// formed.
pub proof fn lemma_perform_all_wf(s: Screen, palette: Seq<u32>, actions: Seq<Action>)
    requires
        s.wf(),
    ensures
        perform_all(s, palette, actions).wf(),
    decreases actions.len(),
{
    if actions.len() > 0 {
        lemma_perform_all_wf(s, palette, actions.drop_last());
        lemma_perform_wf(perform_all(s, palette, actions.drop_last()), palette, actions.last());
    }
}

/// Carrying out one run of actions and then another is carrying out both
/// in a row.
pub proof fn lemma_perform_all_concat(
    s: Screen,
    palette: Seq<u32>,
    first: Seq<Action>,
    second: Seq<Action>,
)
    ensures
        perform_all(perform_all(s, palette, first), palette, second) == perform_all(
            s,
            palette,
            first + second,
        ),
    decreases second.len(),
{
    if second.len() > 0 {
        lemma_perform_all_concat(s, palette, first, second.drop_last());
        assert((first + second).drop_last() =~= first + second.drop_last());
    }
}

/// The unknown actions of two runs in a row are those of the first and
/// then those of the second.
pub proof fn lemma_unknown_of_concat(first: Seq<Action>, second: Seq<Action>)
    ensures
        unknown_of(first + second) == unknown_of(first) + unknown_of(second),
    decreases second.len(),
{
    if second.len() > 0 {
        lemma_unknown_of_concat(first, second.drop_last());
        assert((first + second).drop_last() =~= first + second.drop_last());
    }
}

/// The screen together with the palette that colour codes refer to.
pub struct VteActor {
    pub wh: WriteHalf,
    pub color_table: ColorTable,
}

impl VteActor {
    /// An interpreter that draws on `wh`, with the built-in palette.
    pub fn new(wh: WriteHalf) -> (va: VteActor)
        ensures
            va.wh == wh,
            va.color_table@ == builtin_palette(),
    {
        VteActor { wh, color_table: ColorTable::default() }
    }

    /// Applies a graphic-rendition sequence (CSI `m`) to the style of the
    /// screen. Tells whether the sequence was read to its end: it is not
    /// where a code in it is not known.
    pub fn set_sgr(&mut self, simple: Vec<u16>) -> (done: bool)
        ensures
            final(self).wh@ == sgr(old(self).wh@, old(self).color_table@, simple@),
            done == sgr_known(simple@, 0),
            final(self).color_table == old(self).color_table,
            old(self).wh.wf() ==> final(self).wh.wf(),
    {
        let n = simple.len();
        let mut i: usize = 0;
        let mut more = true;
        while more && i < n
            invariant
                n == simple@.len(),
                i <= n,
                self.color_table == old(self).color_table,
                more ==> sgr(old(self).wh@, old(self).color_table@, simple@) == sgr_from(
                    self.wh@,
                    self.color_table@,
                    simple@,
                    i as int,
                ),
                !more ==> sgr(old(self).wh@, old(self).color_table@, simple@) == self.wh@,
                more ==> sgr_known(simple@, 0) == sgr_known(simple@, i as int),
                !more ==> !sgr_known(simple@, 0),
            decreases (if more { 1int } else { 0int }), n - i,
        {
            let arg = simple[i];
            if arg == 0 {
                let ghost before = self.wh@;
                self.wh.fg_color(DEFAULT_FG);
                self.wh.bg_color(DEFAULT_BG);
                self.wh.reverse_color(false);
                self.wh.set_decoration(u32::MAX, false);
                assert(self.wh@ == before.reset_style()) by {
                    let d = before.ecell.decoration;
                    assert(d & !0xFFFF_FFFFu32 == 0) by (bit_vector);
                }
                i += 1;
            } else if arg == 1 {
                i += 1;
            } else if arg == 4 {
                self.wh.set_decoration(UNDERLINE, true);
                i += 1;
            } else if arg == 7 {
                self.wh.reverse_color(true);
                i += 1;
            } else if arg == 24 {
                self.wh.set_decoration(UNDERLINE, false);
                i += 1;
            } else if arg == 27 {
                self.wh.reverse_color(false);
                i += 1;
            } else if 30 <= arg && arg <= 37 {
                let c = self.color_table.rgb_from_256color((arg - 30) as u8);
                self.wh.fg_color(c);
                i += 1;
            } else if arg == 38 {
                if n - i > 2 && simple[i + 1] == 5 {
                    let c = self.color_table.rgb_from_256color((simple[i + 2] % 256) as u8);
                    self.wh.fg_color(c);
                    i += 3;
                } else {
                    more = false;
                }
            } else if arg == 39 {
                self.wh.fg_color(DEFAULT_FG);
                i += 1;
            } else if 40 <= arg && arg <= 47 {
                let c = self.color_table.rgb_from_256color((arg - 40) as u8);
                self.wh.bg_color(c);
                i += 1;
            } else if arg == 48 {
                if n - i > 2 && simple[i + 1] == 5 {
                    let c = self.color_table.rgb_from_256color((simple[i + 2] % 256) as u8);
                    self.wh.bg_color(c);
                    i += 3;
                } else {
                    more = false;
                }
            } else if arg == 49 {
                self.wh.bg_color(DEFAULT_BG);
                i += 1;
            } else if 90 <= arg && arg <= 97 {
                let c = self.color_table.rgb_from_256color((arg - 82) as u8);
                self.wh.fg_color(c);
                i += 1;
            } else if 100 <= arg && arg <= 107 {
                let c = self.color_table.rgb_from_256color((arg - 92) as u8);
                self.wh.bg_color(c);
                i += 1;
            } else {
                more = false;
            }
        }
        proof {
            if old(self).wh.wf() {
                lemma_sgr_wf(old(self).wh@, old(self).color_table@, simple@, 0);
            }
        }
        more
    }

    /// Carries out a control sequence: `simple` holds its parameters,
    /// `action` its final character. Intermediate bytes do not change what
    /// a sequence means here. Tells whether the sequence is a known one.
    pub fn csi_easy(&mut self, simple: Vec<u16>, interm: &[u8], action: char) -> (done: bool)
        requires
            old(self).wh.wf(),
        ensures
            final(self).wh@ == csi(old(self).wh@, old(self).color_table@, simple@, action),
            done == csi_known(simple@, action),
            final(self).color_table == old(self).color_table,
            final(self).wh.wf(),
    {
        proof {
            lemma_csi_wf(self.wh@, self.color_table@, simple@, action);
        }
        if action == 'm' {
            return self.set_sgr(simple);
        } else if action == 'h' || action == 'l' {
            return simple.len() == 0 || simple[0] == 2004 || simple[0] == 1;
        } else if action == 'A' {
            self.wh.loc(3, -distance(param_or_one(&simple, 0)));
        } else if action == 'B' {
            self.wh.loc(3, distance(param_or_one(&simple, 0)));
        } else if action == 'C' {
            self.wh.loc(2, distance(param_or_one(&simple, 0)));
        } else if action == 'D' {
            self.wh.loc(2, -distance(param_or_one(&simple, 0)));
        } else if action == 'J' {
            self.wh.erase_display(param_or_zero(&simple, 0));
        } else if action == 'K' {
            self.wh.erase_line(param_or_zero(&simple, 0));
        } else if action == 'H' || action == 'f' {
            let row = distance(param_or_one(&simple, 0));
            let col = distance(param_or_one(&simple, 1));
            self.wh.loc(0, col - 1);
            self.wh.loc(1, row - 1);
        } else if action == 'X' {
            self.wh.ech(distance(param_or_one(&simple, 0)));
        } else {
            return false;
        }
        true
    }

    /// Prints `c` on the screen; an ASCII control character is left out.
    /// Tells whether the character was printed.
    pub fn print(&mut self, c: char) -> (done: bool)
        requires
            old(self).wh.wf(),
        ensures
            final(self).wh@ == print(old(self).wh@, c),
            done == !is_ascii_control(c),
            0x20 <= (c as u32) < 0x7F ==> !is_wide(c),
            final(self).color_table == old(self).color_table,
            final(self).wh.wf(),
    {
        let code = c as u32;
        if code <= 0x1F || code == 0x7F {
            return false;
        }
        self.wh.put(c);
        true
    }

    /// Carries out the control character `b`. Tells whether it is a known
    /// one.
    pub fn execute(&mut self, b: u8) -> (done: bool)
        requires
            old(self).wh.wf(),
        ensures
            final(self).wh@ == execute(old(self).wh@, b),
            done == execute_known(b),
            final(self).color_table == old(self).color_table,
            final(self).wh.wf(),
    {
        if b == 0x0A {
            self.wh.newline();
        } else if b == 0x08 {
            self.wh.loc(2, -1);
        } else if b == 0x0D {
            self.wh.loc(0, 0);
        } else if b == 0x09 {
            self.wh.tab();
        } else {
            return b == 0x00;
        }
        true
    }

    /// Carries out the escape sequence that ends in `byte`. Tells whether
    /// it is a known one.
    pub fn esc_dispatch(&mut self, interm: &[u8], byte: u8) -> (done: bool)
        requires
            old(self).wh.wf(),
        ensures
            final(self).wh@ == esc_dispatch(old(self).wh@, byte),
            done == esc_known(byte),
            final(self).color_table == old(self).color_table,
            final(self).wh.wf(),
    {
        if byte == 0x4D {
            self.wh.scroll(false);
            return true;
        }
        byte == 0x3D || byte == 0x3E
    }

    /// Carries out one action of the byte decoder. Tells whether the
    /// action is a known one.
    pub fn perform(&mut self, action: &VtAction) -> (done: bool)
        requires
            old(self).wh.wf(),
        ensures
            final(self).wh@ == perform(old(self).wh@, old(self).color_table@, action@),
            done == known(action@),
            final(self).color_table == old(self).color_table,
            final(self).wh.wf(),
    {
        match action {
            VtAction::Print(c) => self.print(*c),
            VtAction::Execute(b) => self.execute(*b),
            VtAction::Csi { params, interm, action } => self.csi_easy(
                copy_params(params),
                interm.as_slice(),
                *action,
            ),
            VtAction::Esc { interm, byte } => self.esc_dispatch(interm.as_slice(), *byte),
        }
    }

    /// Carries out a run of actions in order. Returns copies of those
    /// that are not known, for the caller to log.
    pub fn perform_all(&mut self, actions: &Vec<VtAction>) -> (unknown: Vec<VtAction>)
        requires
            old(self).wh.wf(),
        ensures
            final(self).wh@ == perform_all(
                old(self).wh@,
                old(self).color_table@,
                views(actions@),
            ),
            views(unknown@) == unknown_of(views(actions@)),
            final(self).color_table == old(self).color_table,
            final(self).wh.wf(),
    {
        let mut unknown: Vec<VtAction> = Vec::new();
        let mut i: usize = 0;
        while i < actions.len()
            invariant
                i <= actions.len(),
                self.wh.wf(),
                self.color_table == old(self).color_table,
                self.wh@ == perform_all(
                    old(self).wh@,
                    old(self).color_table@,
                    views(actions@).take(i as int),
                ),
                views(unknown@) == unknown_of(views(actions@).take(i as int)),
            decreases actions.len() - i,
        {
            let done = self.perform(&actions[i]);
            if !done {
                unknown.push(actions[i].duplicate());
            }
            i += 1;
            assert(views(actions@).take(i as int).drop_last() =~= views(actions@).take(i - 1));
        }
        assert(views(actions@).take(i as int) =~= views(actions@));
        unknown
    }
}

} // verus!
