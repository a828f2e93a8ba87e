//! The 256-colour palette: from a palette index to a 32-bit RGBA value.
use vstd::prelude::*;
use vstd::string::StringSliceAdditionalSpecFns;

verus! {

/// Number of entries of the palette.
pub const PALETTE_LEN: usize = 256;

/// Value of every entry that the palette text does not give: opaque black.
pub const OPAQUE_BLACK: u32 = 0x0000_00FF;

/// The built-in palette text: one colour per line, six hex digits each,
/// red first.
pub const PALETTE_TEXT: &'static str = "\
000000\n\
800000\n\
008000\n\
808000\n\
000080\n\
800080\n\
008080\n\
c0c0c0\n\
808080\n\
ff0000\n\
00ff00\n\
ffff00\n\
0000ff\n\
ff00ff\n\
00ffff\n\
ffffff\n\
000000\n\
00005f\n\
000087\n\
0000af\n\
0000d7\n\
0000ff\n\
005f00\n\
005f5f\n\
005f87\n\
005faf\n\
005fd7\n\
005fff\n\
008700\n\
00875f\n\
008787\n\
0087af\n\
0087d7\n\
0087ff\n\
00af00\n\
00af5f\n\
00af87\n\
00afaf\n\
00afd7\n\
00afff\n\
00d700\n\
00d75f\n\
00d787\n\
00d7af\n\
00d7d7\n\
00d7ff\n\
00ff00\n\
00ff5f\n\
00ff87\n\
00ffaf\n\
00ffd7\n\
00ffff\n\
5f0000\n\
5f005f\n\
5f0087\n\
5f00af\n\
5f00d7\n\
5f00ff\n\
5f5f00\n\
5f5f5f\n\
5f5f87\n\
5f5faf\n\
5f5fd7\n\
5f5fff\n\
5f8700\n\
5f875f\n\
5f8787\n\
5f87af\n\
5f87d7\n\
5f87ff\n\
5faf00\n\
5faf5f\n\
5faf87\n\
5fafaf\n\
5fafd7\n\
5fafff\n\
5fd700\n\
5fd75f\n\
5fd787\n\
5fd7af\n\
5fd7d7\n\
5fd7ff\n\
5fff00\n\
5fff5f\n\
5fff87\n\
5fffaf\n\
5fffd7\n\
5fffff\n\
870000\n\
87005f\n\
870087\n\
8700af\n\
8700d7\n\
8700ff\n\
875f00\n\
875f5f\n\
875f87\n\
875faf\n\
875fd7\n\
875fff\n\
878700\n\
87875f\n\
878787\n\
8787af\n\
8787d7\n\
8787ff\n\
87af00\n\
87af5f\n\
87af87\n\
87afaf\n\
87afd7\n\
87afff\n\
87d700\n\
87d75f\n\
87d787\n\
87d7af\n\
87d7d7\n\
87d7ff\n\
87ff00\n\
87ff5f\n\
87ff87\n\
87ffaf\n\
87ffd7\n\
87ffff\n\
af0000\n\
af005f\n\
af0087\n\
af00af\n\
af00d7\n\
af00ff\n\
af5f00\n\
af5f5f\n\
af5f87\n\
af5faf\n\
af5fd7\n\
af5fff\n\
af8700\n\
af875f\n\
af8787\n\
af87af\n\
af87d7\n\
af87ff\n\
afaf00\n\
afaf5f\n\
afaf87\n\
afafaf\n\
afafd7\n\
afafff\n\
afd700\n\
afd75f\n\
afd787\n\
afd7af\n\
afd7d7\n\
afd7ff\n\
afff00\n\
afff5f\n\
afff87\n\
afffaf\n\
afffd7\n\
afffff\n\
d70000\n\
d7005f\n\
d70087\n\
d700af\n\
d700d7\n\
d700ff\n\
d75f00\n\
d75f5f\n\
d75f87\n\
d75faf\n\
d75fd7\n\
d75fff\n\
d78700\n\
d7875f\n\
d78787\n\
d787af\n\
d787d7\n\
d787ff\n\
d7af00\n\
d7af5f\n\
d7af87\n\
d7afaf\n\
d7afd7\n\
d7afff\n\
d7d700\n\
d7d75f\n\
d7d787\n\
d7d7af\n\
d7d7d7\n\
d7d7ff\n\
d7ff00\n\
d7ff5f\n\
d7ff87\n\
d7ffaf\n\
d7ffd7\n\
d7ffff\n\
ff0000\n\
ff005f\n\
ff0087\n\
ff00af\n\
ff00d7\n\
ff00ff\n\
ff5f00\n\
ff5f5f\n\
ff5f87\n\
ff5faf\n\
ff5fd7\n\
ff5fff\n\
ff8700\n\
ff875f\n\
ff8787\n\
ff87af\n\
ff87d7\n\
ff87ff\n\
ffaf00\n\
ffaf5f\n\
ffaf87\n\
ffafaf\n\
ffafd7\n\
ffafff\n\
ffd700\n\
ffd75f\n\
ffd787\n\
ffd7af\n\
ffd7d7\n\
ffd7ff\n\
ffff00\n\
ffff5f\n\
ffff87\n\
ffffaf\n\
ffffd7\n\
ffffff\n\
080808\n\
121212\n\
1c1c1c\n\
262626\n\
303030\n\
3a3a3a\n\
444444\n\
4e4e4e\n\
585858\n\
626262\n\
6c6c6c\n\
767676\n\
808080\n\
8a8a8a\n\
949494\n\
9e9e9e\n\
a8a8a8\n\
b2b2b2\n\
bcbcbc\n\
c6c6c6\n\
d0d0d0\n\
dadada\n\
e4e4e4\n\
eeeeee\n\
";

/// Whether `b` is the ASCII code of a hexadecimal digit.
pub open spec fn is_hex_digit(b: u8) -> bool {
    (0x30 <= b <= 0x39) || (0x61 <= b <= 0x66) || (0x41 <= b <= 0x46)
}

/// The number that the hexadecimal digit `b` stands for.
pub open spec fn hex_value(b: u8) -> int
    recommends
        is_hex_digit(b),
{
    if 0x61 <= b <= 0x66 {
        b - 0x61 + 10
    } else if 0x41 <= b <= 0x46 {
        b - 0x41 + 10
    } else {
        b - 0x30
    }
}

/// The number that two hexadecimal digits stand for, `b1` the higher one.
pub open spec fn hex_pair(b1: u8, b2: u8) -> int {
    hex_value(b1) * 16 + hex_value(b2)
}

/// The RGBA value of an opaque colour: red in the highest byte, then green,
/// then blue, and 255 in the lowest.
pub open spec fn rgba(r: int, g: int, b: int) -> u32
    recommends
        0 <= r < 256,
        0 <= g < 256,
        0 <= b < 256,
{
    (r * 16777216 + g * 65536 + b * 256 + 255) as u32
}

/// The value of one hexadecimal digit.
pub fn byte2num(b: u8) -> (r: u32)
    requires
        is_hex_digit(b),
    ensures
        r == hex_value(b),
        r < 16,
{
    let result: u8 = if 0x61 <= b && b <= 0x66 {
        b - 0x61 + 10
    } else if 0x41 <= b && b <= 0x46 {
        b - 0x41 + 10
    } else {
        b - 0x30
    };
    result as u32
}

/// The value of two hexadecimal digits, the first one the higher.
pub fn byte2hex(b1: u8, b2: u8) -> (r: u32)
    requires
        is_hex_digit(b1),
        is_hex_digit(b2),
    ensures
        r == hex_pair(b1, b2),
        r < 256,
{
    byte2num(b2) + byte2num(b1) * 16
}

/// The RGBA value holds red from bit 24 on, green from bit 16, blue from
/// bit 8, and all ones below.
pub proof fn lemma_rgba_packed(r: u32, g: u32, b: u32)
    requires
        r < 256,
        g < 256,
        b < 256,
    ensures
        rgba(r as int, g as int, b as int) == (r << 24) | (g << 16) | (b << 8) | 0xFF,
{
    assert(r * 16777216 + g * 65536 + b * 256 + 255 == (r << 24) | (g << 16) | (b << 8) | 0xFF)
        by (bit_vector)
        requires
            r < 256,
            g < 256,
            b < 256,
    ;
}

/// The opaque colour with the components `r`, `g` and `b`.
pub fn pack_rgb(r: u32, g: u32, b: u32) -> (c: u32)
    requires
        r < 256,
        g < 256,
        b < 256,
    ensures
        c == rgba(r as int, g as int, b as int),
{
    r * 16777216 + g * 65536 + b * 256 + 255
}

/// Whether `b` is ASCII white space.
pub open spec fn is_blank(b: u8) -> bool {
    b == 0x20 || (0x09 <= b <= 0x0D)
}

/// Length of the line of `s` that starts at `from`, its line feed not counted.
pub open spec fn line_len(s: Seq<u8>, from: int) -> nat
    decreases s.len() - from,
{
    if from < 0 || from >= s.len() || s[from] == 0x0A {
        0
    } else {
        1 + line_len(s, from + 1)
    }
}

/// Whether `s` holds nothing but white space from `lo` up to `hi`.
pub open spec fn all_blank(s: Seq<u8>, lo: int, hi: int) -> bool {
    forall|i: int| lo <= i < hi ==> is_blank(#[trigger] s[i])
}

/// Whether the line `lo..hi` of `s` starts with six hexadecimal digits.
pub open spec fn is_entry(s: Seq<u8>, lo: int, hi: int) -> bool {
    hi - lo >= 6 && forall|k: int| 0 <= k < 6 ==> is_hex_digit(#[trigger] s[lo + k])
}

/// The colour that the six digits at `lo` stand for.
pub open spec fn entry_color(s: Seq<u8>, lo: int) -> u32 {
    rgba(
        hex_pair(s[lo], s[lo + 1]),
        hex_pair(s[lo + 2], s[lo + 3]),
        hex_pair(s[lo + 4], s[lo + 5]),
    )
}

/// The colours that the lines of `s` from `pos` on give, in order. A line
/// of white space gives none. The first line that is neither blank nor an
/// entry ends the list.
pub open spec fn entries_from(s: Seq<u8>, pos: int) -> Seq<u32>
    decreases s.len() - pos,
{
    if pos < 0 || pos >= s.len() {
        Seq::empty()
    } else {
        let end = pos + line_len(s, pos);
        let rest = if end < s.len() { entries_from(s, end + 1) } else { Seq::empty() };
        if all_blank(s, pos, end) {
            rest
        } else if is_entry(s, pos, end) {
            seq![entry_color(s, pos)] + rest
        } else {
            Seq::empty()
        }
    }
}

/// The value that entry `n` always has, whatever the text says: five
/// entries are brightened for dark backgrounds.
pub open spec fn fixed_entry(n: int) -> Option<u32> {
    if n == 0 {
        Some(0x303030FFu32)
    } else if n == 4 {
        Some(0x3030C0FFu32)
    } else if n == 7 {
        Some(0xA0A0A0FFu32)
    } else if n == 8 {
        Some(0x707070FFu32)
    } else if n == 15 {
        Some(0xE0E0E0FFu32)
    } else {
        None
    }
}

/// The palette that a text gives: its first 256 entries, opaque black where
/// it has fewer, and the five fixed entries.
pub open spec fn palette_of(text: Seq<u8>) -> Seq<u32> {
    let given = entries_from(text, 0);
    Seq::new(
        256,
        |n: int|
            match fixed_entry(n) {
                Some(c) => c,
                None => if n < given.len() { given[n] } else { OPAQUE_BLACK },
            },
    )
}

/// The palette of the built-in text.
pub open spec fn builtin_palette() -> Seq<u32> {
    palette_of(PALETTE_TEXT.spec_bytes())
}

/// A line without line feed in `from..upto` is as long as that stretch and
/// what follows it.
proof fn lemma_line_len_step(s: Seq<u8>, from: int, upto: int)
    requires
        0 <= from <= upto <= s.len(),
        forall|i: int| from <= i < upto ==> s[i] != 0x0A,
    ensures
        line_len(s, from) == (upto - from) + line_len(s, upto),
    decreases upto - from,
{
    if from < upto {
        lemma_line_len_step(s, from + 1, upto);
    }
}

/// A palette of exactly 256 colours.
pub struct ColorTable {
    data: Vec<u32>,
}

impl View for ColorTable {
    type V = Seq<u32>;

    closed spec fn view(&self) -> Seq<u32> {
        self.data@
    }
}

impl ColorTable {
    #[verifier::type_invariant]
    spec fn full(self) -> bool {
        self.data@.len() == 256
    }

    /// Reads a palette from text: one entry per line that is not blank.
    pub fn from_text(text: &[u8]) -> (t: ColorTable)
        ensures
            t@ == palette_of(text@),
    {
        let mut given: Vec<u32> = Vec::new();
        let mut pos: usize = 0;
        let mut good = true;
        while good && pos < text.len()
            invariant
                pos <= text.len(),
                good ==> entries_from(text@, 0) == given@ + entries_from(text@, pos as int),
                !good ==> entries_from(text@, 0) == given@,
            decreases (if good { 1int } else { 0int }), text.len() - pos,
        {
            let mut end: usize = pos;
            let mut blank = true;
            while end < text.len() && text[end] != 0x0A
                invariant
                    pos <= end <= text.len(),
                    forall|i: int| pos <= i < end ==> text@[i] != 0x0A,
                    blank == all_blank(text@, pos as int, end as int),
                decreases text.len() - end,
            {
                let b = text[end];
                if !(b == 0x20 || (0x09 <= b && b <= 0x0D)) {
                    blank = false;
                }
                end += 1;
            }
            proof {
                lemma_line_len_step(text@, pos as int, end as int);
            }
            if !blank {
                if end - pos >= 6 && hex6(text, pos) {
                    assert(is_hex_digit(text@[pos + 0]) && is_hex_digit(text@[pos + 1]));
                    let r = byte2hex(text[pos], text[pos + 1]);
                    let g = byte2hex(text[pos + 2], text[pos + 3]);
                    let b = byte2hex(text[pos + 4], text[pos + 5]);
                    given.push(pack_rgb(r, g, b));
                } else {
                    good = false;
                }
            }
            if end < text.len() {
                pos = end + 1;
            } else {
                pos = end;
            }
        }
        let mut data: Vec<u32> = Vec::new();
        let mut n: usize = 0;
        while n < 256
            invariant
                n <= 256,
                data@.len() == n,
                given@ == entries_from(text@, 0),
                forall|i: int| 0 <= i < n ==> data@[i] == palette_of(text@)[i],
            decreases 256 - n,
        {
            let c = if n == 0 {
                0x303030FF
            } else if n == 4 {
                0x3030C0FF
            } else if n == 7 {
                0xA0A0A0FF
            } else if n == 8 {
                0x707070FF
            } else if n == 15 {
                0xE0E0E0FF
            } else if n < given.len() {
                given[n]
            } else {
                OPAQUE_BLACK
            };
            data.push(c);
            n += 1;
        }
        ColorTable { data }
    }

    /// The RGBA value of the palette entry `color`.
    pub fn rgb_from_256color(&self, color: u8) -> (c: u32)
        ensures
            self@.len() == 256,
            c == self@[color as int],
    {
        proof {
            use_type_invariant(self);
        }
        self.data[color as usize]
    }
}

/// Whether the six bytes of `text` from `pos` on are hexadecimal digits.
fn hex6(text: &[u8], pos: usize) -> (ok: bool)
    requires
        pos + 6 <= text.len(),
    ensures
        ok == (forall|k: int| 0 <= k < 6 ==> is_hex_digit(#[trigger] text@[pos + k])),
{
    let mut k: usize = 0;
    while k < 6
        invariant
            k <= 6,
            pos + 6 <= text.len(),
            forall|j: int| 0 <= j < k ==> is_hex_digit(#[trigger] text@[pos + j]),
        decreases 6 - k,
    {
        let b = text[pos + k];
        if !((0x30 <= b && b <= 0x39) || (0x61 <= b && b <= 0x66) || (0x41 <= b && b <= 0x46)) {
            return false;
        }
        k += 1;
    }
    true
}

impl Default for ColorTable {
    /// The palette of the built-in text.
    fn default() -> (t: ColorTable)
        ensures
            t@ == builtin_palette(),
    {
        ColorTable::from_text(PALETTE_TEXT.as_bytes())
    }
}

} // verus!
