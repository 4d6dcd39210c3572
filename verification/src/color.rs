//! Colour values shared by every platform picker: the picker result, the luminance rule
//! that chooses black or white text, and the `#RRGGBB` formatting.

use vstd::prelude::*;
use crate::text::{push_char, push_str};

verus! {

/// An opaque 8-bit RGB colour.
pub type Rgb = (u8, u8, u8);

/// Result returned by the colour picker: the selected foreground and background colours
/// and whether continue mode was on when the picker closed.
#[derive(Clone, Copy, Debug)]
pub struct ColorPickerResult {
    /// Foreground colour, if one was picked.
    pub foreground: Option<(u8, u8, u8)>,
    /// Background colour, if one was picked.
    pub background: Option<(u8, u8, u8)>,
    /// Whether continue mode was enabled.
    pub continue_mode: bool,
}

impl Default for ColorPickerResult {
    fn default() -> (r: Self)
        ensures
            r.foreground is None,
            r.background is None,
            !r.continue_mode,
    {
        ColorPickerResult { foreground: None, background: None, continue_mode: false }
    }
}

/// BT.601 luma of a colour, in thousandths of a level: `299 R + 587 G + 114 B`,
/// so that white gives 255000 and black 0.
pub open spec fn spec_luminance_milli(r: u8, g: u8, b: u8) -> int {
    299 * r + 587 * g + 114 * b
}

/// BT.601 luma `0.299 R + 0.587 G + 0.114 B`, scaled by 1000 so that it is exact.
pub fn luminance_milli(r: u8, g: u8, b: u8) -> (y: u32)
    ensures
        y == spec_luminance_milli(r, g, b),
        y <= 255000,
{
    299 * (r as u32) + 587 * (g as u32) + 114 * (b as u32)
}

/// Text drawn on top of a colour is black when the colour's luma exceeds half scale.
pub open spec fn spec_dark_text(r: u8, g: u8, b: u8) -> bool {
    spec_luminance_milli(r, g, b) > 128000
}

/// Determines whether text drawn on the colour `(r, g, b)` should be black (`true`)
/// or white (`false`): black when the BT.601 luma is above 128.
pub fn should_use_dark_text(r: u8, g: u8, b: u8) -> (dark: bool)
    ensures
        dark == spec_dark_text(r, g, b),
{
    luminance_milli(r, g, b) > 128000
}

/// The upper-case hexadecimal digit of a value in `0..16`.
pub open spec fn hex_digit(n: int) -> char
    recommends
        0 <= n < 16,
{
    if n < 10 {
        ('0' as int + n) as char
    } else {
        ('A' as int + (n - 10)) as char
    }
}

/// The two upper-case hexadecimal digits of a byte, high nibble first.
pub open spec fn hex_byte(v: u8) -> Seq<char> {
    seq![hex_digit(v as int / 16), hex_digit(v as int % 16)]
}

/// `#RRGGBB` with upper-case digits.
pub open spec fn hex_color(r: u8, g: u8, b: u8) -> Seq<char> {
    seq!['#'] + hex_byte(r) + hex_byte(g) + hex_byte(b)
}

/// `Prefix - #RRGGBB`.
pub open spec fn labeled_hex_color(prefix: Seq<char>, r: u8, g: u8, b: u8) -> Seq<char> {
    prefix + seq![' ', '-', ' '] + hex_color(r, g, b)
}

fn hex_digit_char(n: u8) -> (c: char)
    requires
        n < 16,
    ensures
        c == hex_digit(n as int),
{
    if n < 10 {
        ((48u8 + n) as char)
    } else {
        ((55u8 + n) as char)
    }
}

fn push_hex_byte(s: &mut String, v: u8)
    ensures
        final(s)@ == old(s)@ + hex_byte(v),
{
    push_char(s, hex_digit_char(v / 16));
    push_char(s, hex_digit_char(v % 16));
    assert(final(s)@ =~= old(s)@ + hex_byte(v));
}

fn push_hex_color(s: &mut String, r: u8, g: u8, b: u8)
    ensures
        final(s)@ == old(s)@ + hex_color(r, g, b),
{
    push_char(s, '#');
    push_hex_byte(s, r);
    push_hex_byte(s, g);
    push_hex_byte(s, b);
    assert(final(s)@ =~= old(s)@ + hex_color(r, g, b));
}

/// Formats an RGB colour as `#RRGGBB` (upper-case, two digits per channel).
pub fn format_hex_color(r: u8, g: u8, b: u8) -> (s: String)
    ensures
        s@ == hex_color(r, g, b),
{
    let mut s = String::new();
    push_hex_color(&mut s, r, g, b);
    assert(s@ =~= hex_color(r, g, b));
    s
}

/// Formats a colour with a label, as `Label - #RRGGBB`.
pub fn format_labeled_hex_color(prefix: &str, r: u8, g: u8, b: u8) -> (s: String)
    ensures
        s@ == labeled_hex_color(prefix@, r, g, b),
{
    let mut s = String::new();
    push_str(&mut s, prefix);
    push_char(&mut s, ' ');
    push_char(&mut s, '-');
    push_char(&mut s, ' ');
    push_hex_color(&mut s, r, g, b);
    assert(s@ =~= labeled_hex_color(prefix@, r, g, b));
    s
}

} // verus!

verus! {

/// Every formatted colour is seven characters, `#` followed by six upper-case hexadecimal
/// digits, and two colours format to the same text only if they are the same colour.
pub proof fn lemma_hex_color_injective(r1: u8, g1: u8, b1: u8, r2: u8, g2: u8, b2: u8)
    ensures
        hex_color(r1, g1, b1).len() == 7,
        hex_color(r1, g1, b1)[0] == '#',
        forall|i: int| 1 <= i < 7 ==> {
            let c = #[trigger] hex_color(r1, g1, b1)[i];
            ('0' <= c <= '9') || ('A' <= c <= 'F')
        },
        hex_color(r1, g1, b1) == hex_color(r2, g2, b2) ==> r1 == r2 && g1 == g2 && b1 == b2,
{
    let s1 = hex_color(r1, g1, b1);
    let s2 = hex_color(r2, g2, b2);
    assert(s1[1] == hex_digit(r1 as int / 16));
    assert(s1[2] == hex_digit(r1 as int % 16));
    assert(s1[3] == hex_digit(g1 as int / 16));
    assert(s1[4] == hex_digit(g1 as int % 16));
    assert(s1[5] == hex_digit(b1 as int / 16));
    assert(s1[6] == hex_digit(b1 as int % 16));
    if s1 == s2 {
        assert(s2[1] == hex_digit(r2 as int / 16));
        assert(s2[2] == hex_digit(r2 as int % 16));
        assert(s2[3] == hex_digit(g2 as int / 16));
        assert(s2[4] == hex_digit(g2 as int % 16));
        assert(s2[5] == hex_digit(b2 as int / 16));
        assert(s2[6] == hex_digit(b2 as int % 16));
        assert(r1 as int == (r1 as int / 16) * 16 + r1 as int % 16);
        assert(r2 as int == (r2 as int / 16) * 16 + r2 as int % 16);
        assert(g1 as int == (g1 as int / 16) * 16 + g1 as int % 16);
        assert(g2 as int == (g2 as int / 16) * 16 + g2 as int % 16);
        assert(b1 as int == (b1 as int / 16) * 16 + b1 as int % 16);
        assert(b2 as int == (b2 as int / 16) * 16 + b2 as int % 16);
    }
}

/// The text-colour rule is monotone: lightening any channel of a colour that already
/// takes black text keeps black text.
pub proof fn lemma_dark_text_monotone(r1: u8, g1: u8, b1: u8, r2: u8, g2: u8, b2: u8)
    requires
        r1 <= r2,
        g1 <= g2,
        b1 <= b2,
        spec_dark_text(r1, g1, b1),
    ensures
        spec_dark_text(r2, g2, b2),
{
}

} // verus!
