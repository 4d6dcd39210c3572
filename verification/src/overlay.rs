//! What the magnifier shows around the loupe: which half-rings are drawn, in which colour,
//! with which label, text colour and continue badge.

use vstd::prelude::*;
use crate::color::{Rgb, format_labeled_hex_color, labeled_hex_color, should_use_dark_text, spec_dark_text};
use crate::picker::PickerState;

verus! {

/// One half-ring of the magnifier and the text curved along it.
#[derive(Debug)]
pub struct ArcLabel {
    /// Top half (foreground) or bottom half (background).
    pub top: bool,
    /// Colour of the ring.
    pub color: Rgb,
    /// Text along the ring: `Foreground - #RRGGBB` or `Background - #RRGGBB`.
    pub text: String,
    /// Whether the text is black (otherwise white).
    pub dark_text: bool,
    /// Whether the red continue badge follows the text.
    pub badge: bool,
}

/// Label of a ring: `Foreground` for the top one, `Background` for the bottom one.
pub open spec fn ring_prefix(top: bool) -> Seq<char> {
    if top {
        "Foreground"@
    } else {
        "Background"@
    }
}

/// The expected content of a ring drawn in `color`.
pub open spec fn spec_arc(top: bool, color: Rgb, badge: bool) -> (bool, Rgb, Seq<char>, bool, bool) {
    (
        top,
        color,
        labeled_hex_color(ring_prefix(top), color.0, color.1, color.2),
        spec_dark_text(color.0, color.1, color.2),
        badge,
    )
}

/// The plain view of a ring.
pub open spec fn arc_view(a: ArcLabel) -> (bool, Rgb, Seq<char>, bool, bool) {
    (a.top, a.color, a.text@, a.dark_text, a.badge)
}

fn make_arc(top: bool, color: Rgb, badge: bool) -> (a: ArcLabel)
    ensures
        arc_view(a) == spec_arc(top, color, badge),
{
    let text = if top {
        format_labeled_hex_color("Foreground", color.0, color.1, color.2)
    } else {
        format_labeled_hex_color("Background", color.0, color.1, color.2)
    };
    ArcLabel { top, color, text, dark_text: should_use_dark_text(color.0, color.1, color.2), badge }
}

/// Rings of the X11 and macOS magnifiers: in continue mode, the ring of the colour already
/// picked in the other mode (no badge) when there is one; then the ring of the current mode
/// in the colour under the cursor, with the badge when continue mode is on.
pub open spec fn spec_rings(s: PickerState) -> Seq<(bool, Rgb, Seq<char>, bool, bool)> {
    let other = if s.fg_mode { s.bg_color } else { s.fg_color };
    let current = seq![spec_arc(s.fg_mode, s.color, s.continue_mode)];
    if s.continue_mode && other is Some {
        seq![spec_arc(!s.fg_mode, other->0, false)] + current
    } else {
        current
    }
}

/// Rings of the X11 and macOS magnifiers; see [`spec_rings`].
pub fn magnifier_rings(s: &PickerState) -> (v: Vec<ArcLabel>)
    ensures
        v@.map_values(|a: ArcLabel| arc_view(a)) == spec_rings(*s),
{
    let mut v: Vec<ArcLabel> = Vec::new();
    if s.continue_mode {
        let other = if s.fg_mode { s.bg_color } else { s.fg_color };
        if let Some(c) = other {
            v.push(make_arc(!s.fg_mode, c, false));
        }
    }
    v.push(make_arc(s.fg_mode, s.color, s.continue_mode));
    assert(v@.map_values(|a: ArcLabel| arc_view(a)) =~= spec_rings(*s));
    v
}

/// Grey shown for a ring whose colour is not picked yet.
pub open spec fn grey() -> Rgb {
    (128, 128, 128)
}

/// Rings of the Windows magnifier: the top (foreground) ring when in foreground mode or a
/// foreground colour is picked, then the bottom (background) ring likewise. The ring of
/// the current mode shows the colour under the cursor, the other one the colour picked for
/// it (grey if none); the badge goes with the current mode's ring in continue mode.
pub open spec fn spec_rings_windows(s: PickerState) -> Seq<(bool, Rgb, Seq<char>, bool, bool)> {
    let fg = if s.fg_mode { s.color } else { match s.fg_color { Some(c) => c, None => grey() } };
    let bg = if !s.fg_mode { s.color } else { match s.bg_color { Some(c) => c, None => grey() } };
    let top = if s.fg_mode || s.fg_color is Some {
        seq![spec_arc(true, fg, s.continue_mode && s.fg_mode)]
    } else {
        seq![]
    };
    let bottom = if !s.fg_mode || s.bg_color is Some {
        seq![spec_arc(false, bg, s.continue_mode && !s.fg_mode)]
    } else {
        seq![]
    };
    top + bottom
}

/// Rings of the Windows magnifier; see [`spec_rings_windows`].
pub fn magnifier_rings_windows(s: &PickerState) -> (v: Vec<ArcLabel>)
    ensures
        v@.map_values(|a: ArcLabel| arc_view(a)) == spec_rings_windows(*s),
{
    let fg = if s.fg_mode {
        s.color
    } else {
        match s.fg_color {
            Some(c) => c,
            None => (128u8, 128u8, 128u8),
        }
    };
    let bg = if !s.fg_mode {
        s.color
    } else {
        match s.bg_color {
            Some(c) => c,
            None => (128u8, 128u8, 128u8),
        }
    };
    let mut v: Vec<ArcLabel> = Vec::new();
    if s.fg_mode || s.fg_color.is_some() {
        v.push(make_arc(true, fg, s.continue_mode && s.fg_mode));
    }
    if !s.fg_mode || s.bg_color.is_some() {
        v.push(make_arc(false, bg, s.continue_mode && !s.fg_mode));
    }
    assert(v@.map_values(|a: ArcLabel| arc_view(a)) =~= spec_rings_windows(*s));
    v
}

/// On every platform the ring of the current mode is drawn, in the colour under the cursor,
/// and the continue badge appears only there, only in continue mode.
pub proof fn lemma_current_ring_shown(s: PickerState)
    ensures
        exists|k: int|
            0 <= k < spec_rings(s).len() && #[trigger] spec_rings(s)[k] == spec_arc(
                s.fg_mode,
                s.color,
                s.continue_mode,
            ),
        exists|k: int|
            0 <= k < spec_rings_windows(s).len() && #[trigger] spec_rings_windows(s)[k] == spec_arc(
                s.fg_mode,
                s.color,
                s.continue_mode,
            ),
        forall|k: int|
            0 <= k < spec_rings(s).len() && (#[trigger] spec_rings(s)[k]).4 ==> s.continue_mode
                && spec_rings(s)[k].0 == s.fg_mode,
        forall|k: int|
            0 <= k < spec_rings_windows(s).len() && (#[trigger] spec_rings_windows(s)[k]).4
                ==> s.continue_mode && spec_rings_windows(s)[k].0 == s.fg_mode,
{
    let r = spec_rings(s);
    let w = spec_rings_windows(s);
    assert(r[r.len() - 1] == spec_arc(s.fg_mode, s.color, s.continue_mode));
    if s.fg_mode {
        assert(w[0] == spec_arc(true, s.color, s.continue_mode));
    } else {
        assert(w[w.len() - 1] == spec_arc(false, s.color, s.continue_mode));
    }
}


/// Every ring's text is its label (`Foreground` on the top ring, `Background` on the
/// bottom one), ` - #`, then the ring's own colour as two upper-case hexadecimal digits per
/// channel in red, green, blue order; its text colour is black exactly when the ring's
/// colour is light. This holds of the rings of every platform.
pub proof fn lemma_ring_text_names_its_colour(s: PickerState)
    ensures
        forall|k: int| 0 <= k < spec_rings(s).len() ==> ring_text_ok(#[trigger] spec_rings(s)[k]),
        forall|k: int| 0 <= k < spec_rings_windows(s).len() ==> ring_text_ok(#[trigger] spec_rings_windows(s)[k]),
{
    let other = if s.fg_mode { s.bg_color } else { s.fg_color };
    lemma_arc_text_ok(s.fg_mode, s.color, s.continue_mode);
    if let Some(c) = other {
        lemma_arc_text_ok(!s.fg_mode, c, false);
    }
    let fg = if s.fg_mode { s.color } else { match s.fg_color { Some(c) => c, None => grey() } };
    let bg = if !s.fg_mode { s.color } else { match s.bg_color { Some(c) => c, None => grey() } };
    lemma_arc_text_ok(true, fg, s.continue_mode && s.fg_mode);
    lemma_arc_text_ok(false, bg, s.continue_mode && !s.fg_mode);
    let r = spec_rings(s);
    let w = spec_rings_windows(s);
    assert forall|k: int| 0 <= k < r.len() implies ring_text_ok(#[trigger] r[k]) by {
        if s.continue_mode && other is Some && k == 0 {
            assert(r[k] == spec_arc(!s.fg_mode, other->0, false));
        } else {
            assert(r[k] == spec_arc(s.fg_mode, s.color, s.continue_mode));
        }
    }
    assert forall|k: int| 0 <= k < w.len() implies ring_text_ok(#[trigger] w[k]) by {
        if (s.fg_mode || s.fg_color is Some) && k == 0 {
            assert(w[k] == spec_arc(true, fg, s.continue_mode && s.fg_mode));
        } else {
            assert(w[k] == spec_arc(false, bg, s.continue_mode && !s.fg_mode));
        }
    }
}

proof fn lemma_arc_text_ok(top: bool, color: Rgb, badge: bool)
    ensures
        ring_text_ok(spec_arc(top, color, badge)),
{
    reveal_strlit("Foreground");
    reveal_strlit("Background");
    let a = spec_arc(top, color, badge);
    let (r, g, b) = color;
    let label: Seq<char> = if top {
        seq!['F', 'o', 'r', 'e', 'g', 'r', 'o', 'u', 'n', 'd']
    } else {
        seq!['B', 'a', 'c', 'k', 'g', 'r', 'o', 'u', 'n', 'd']
    };
    assert(ring_prefix(top) =~= label);
    assert(a.2 =~= label + seq![' ', '-', ' ', '#']
        + seq![crate::color::hex_digit(r as int / 16), crate::color::hex_digit(r as int % 16)]
        + seq![crate::color::hex_digit(g as int / 16), crate::color::hex_digit(g as int % 16)]
        + seq![crate::color::hex_digit(b as int / 16), crate::color::hex_digit(b as int % 16)]);
}

/// The text of a ring `(top, colour, text, dark text, badge)` spells its label and colour,
/// and its text colour follows the luminance rule on that colour.
pub open spec fn ring_text_ok(a: (bool, Rgb, Seq<char>, bool, bool)) -> bool {
    let (r, g, b) = a.1;
    let label: Seq<char> = if a.0 {
        seq!['F', 'o', 'r', 'e', 'g', 'r', 'o', 'u', 'n', 'd']
    } else {
        seq!['B', 'a', 'c', 'k', 'g', 'r', 'o', 'u', 'n', 'd']
    };
    &&& a.2 == label + seq![' ', '-', ' ', '#']
        + seq![crate::color::hex_digit(r as int / 16), crate::color::hex_digit(r as int % 16)]
        + seq![crate::color::hex_digit(g as int / 16), crate::color::hex_digit(g as int % 16)]
        + seq![crate::color::hex_digit(b as int / 16), crate::color::hex_digit(b as int % 16)]
    &&& a.3 == (299 * r + 587 * g + 114 * b > 128000)
}

} // verus!
