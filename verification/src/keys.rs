//! What each platform's key codes mean to the picker, and the X11 lookups that turn server
//! replies into what the picker needs (key symbols, pixel size, channel masks).

use vstd::prelude::*;
use crate::picker::PickerKey;

verus! {

/// X11 key symbol of Escape.
pub const XK_ESCAPE: u32 = 0xff1b;
/// X11 key symbol of Return.
pub const XK_RETURN: u32 = 0xff0d;
/// X11 key symbol of keypad Enter.
pub const XK_KP_ENTER: u32 = 0xff8d;
/// X11 key symbol of Space.
pub const XK_SPACE: u32 = 0x0020;
/// X11 key symbol of the left arrow.
pub const XK_LEFT: u32 = 0xff51;
/// X11 key symbol of the up arrow.
pub const XK_UP: u32 = 0xff52;
/// X11 key symbol of the right arrow.
pub const XK_RIGHT: u32 = 0xff53;
/// X11 key symbol of the down arrow.
pub const XK_DOWN: u32 = 0xff54;
/// X11 key symbol of `c`.
pub const XK_C: u32 = 0x0063;
/// X11 key symbol of `i`.
pub const XK_I: u32 = 0x0069;
/// X11 key symbol of `o`.
pub const XK_O: u32 = 0x006f;

/// The picker key an X11 key symbol stands for.
pub open spec fn spec_key_from_keysym(keysym: u32) -> PickerKey {
    if keysym == XK_ESCAPE {
        PickerKey::Escape
    } else if keysym == XK_RETURN || keysym == XK_KP_ENTER || keysym == XK_SPACE {
        PickerKey::Enter
    } else if keysym == XK_C {
        PickerKey::ToggleContinue
    } else if keysym == XK_I {
        PickerKey::ZoomIn
    } else if keysym == XK_O {
        PickerKey::ZoomOut
    } else if keysym == XK_LEFT {
        PickerKey::Left
    } else if keysym == XK_RIGHT {
        PickerKey::Right
    } else if keysym == XK_UP {
        PickerKey::Up
    } else if keysym == XK_DOWN {
        PickerKey::Down
    } else {
        PickerKey::Other
    }
}

/// The picker key an X11 key symbol stands for.
pub fn key_from_keysym(keysym: u32) -> (k: PickerKey)
    ensures
        k == spec_key_from_keysym(keysym),
{
    if keysym == XK_ESCAPE {
        PickerKey::Escape
    } else if keysym == XK_RETURN || keysym == XK_KP_ENTER || keysym == XK_SPACE {
        PickerKey::Enter
    } else if keysym == XK_C {
        PickerKey::ToggleContinue
    } else if keysym == XK_I {
        PickerKey::ZoomIn
    } else if keysym == XK_O {
        PickerKey::ZoomOut
    } else if keysym == XK_LEFT {
        PickerKey::Left
    } else if keysym == XK_RIGHT {
        PickerKey::Right
    } else if keysym == XK_UP {
        PickerKey::Up
    } else if keysym == XK_DOWN {
        PickerKey::Down
    } else {
        PickerKey::Other
    }
}

/// The picker key a Windows virtual-key code stands for (Escape, Return, Space, `C`, `I`,
/// `O` and the arrows).
pub open spec fn spec_key_from_virtual_key(vk: u16) -> PickerKey {
    if vk == 0x1b {
        PickerKey::Escape
    } else if vk == 0x0d || vk == 0x20 {
        PickerKey::Enter
    } else if vk == 0x43 {
        PickerKey::ToggleContinue
    } else if vk == 0x49 {
        PickerKey::ZoomIn
    } else if vk == 0x4f {
        PickerKey::ZoomOut
    } else if vk == 0x25 {
        PickerKey::Left
    } else if vk == 0x27 {
        PickerKey::Right
    } else if vk == 0x26 {
        PickerKey::Up
    } else if vk == 0x28 {
        PickerKey::Down
    } else {
        PickerKey::Other
    }
}

/// The picker key a Windows virtual-key code stands for.
pub fn key_from_virtual_key(vk: u16) -> (k: PickerKey)
    ensures
        k == spec_key_from_virtual_key(vk),
{
    if vk == 0x1b {
        PickerKey::Escape
    } else if vk == 0x0d || vk == 0x20 {
        PickerKey::Enter
    } else if vk == 0x43 {
        PickerKey::ToggleContinue
    } else if vk == 0x49 {
        PickerKey::ZoomIn
    } else if vk == 0x4f {
        PickerKey::ZoomOut
    } else if vk == 0x25 {
        PickerKey::Left
    } else if vk == 0x27 {
        PickerKey::Right
    } else if vk == 0x26 {
        PickerKey::Up
    } else if vk == 0x28 {
        PickerKey::Down
    } else {
        PickerKey::Other
    }
}

/// The picker key a macOS key code stands for: Escape 53, Return 36, `C` 8, `I` 34,
/// `O` 31, arrows 123 (left), 124 (right), 125 (down) and 126 (up).
pub open spec fn spec_key_from_mac_keycode(code: u16) -> PickerKey {
    if code == 53 {
        PickerKey::Escape
    } else if code == 36 {
        PickerKey::Enter
    } else if code == 8 {
        PickerKey::ToggleContinue
    } else if code == 34 {
        PickerKey::ZoomIn
    } else if code == 31 {
        PickerKey::ZoomOut
    } else if code == 123 {
        PickerKey::Left
    } else if code == 124 {
        PickerKey::Right
    } else if code == 125 {
        PickerKey::Down
    } else if code == 126 {
        PickerKey::Up
    } else {
        PickerKey::Other
    }
}

/// The picker key a macOS key code stands for.
pub fn key_from_mac_keycode(code: u16) -> (k: PickerKey)
    ensures
        k == spec_key_from_mac_keycode(code),
{
    if code == 53 {
        PickerKey::Escape
    } else if code == 36 {
        PickerKey::Enter
    } else if code == 8 {
        PickerKey::ToggleContinue
    } else if code == 34 {
        PickerKey::ZoomIn
    } else if code == 31 {
        PickerKey::ZoomOut
    } else if code == 123 {
        PickerKey::Left
    } else if code == 124 {
        PickerKey::Right
    } else if code == 125 {
        PickerKey::Down
    } else if code == 126 {
        PickerKey::Up
    } else {
        PickerKey::Other
    }
}

/// The first key symbol of a key code in the server's keyboard mapping (`per` symbols per
/// code from `min_keycode` on), or 0 when the code is below `min_keycode` or past the table.
pub open spec fn spec_keysym_for(detail: u8, min_keycode: u8, keysyms: Seq<u32>, per: int) -> u32 {
    if detail < min_keycode {
        0
    } else {
        let idx = (detail - min_keycode) * per;
        if 0 <= idx < keysyms.len() {
            keysyms[idx]
        } else {
            0
        }
    }
}

/// The first key symbol of key code `detail`; see [`spec_keysym_for`].
pub fn keysym_for(detail: u8, min_keycode: u8, keysyms: &Vec<u32>, per: u8) -> (k: u32)
    ensures
        k == spec_keysym_for(detail, min_keycode, keysyms@, per as int),
{
    if detail < min_keycode {
        return 0;
    }
    assert(((detail - min_keycode) as int) * (per as int) <= 255 * 255) by (nonlinear_arith)
        requires 0 <= detail - min_keycode <= 255, 0 <= per <= 255;
    let idx = ((detail - min_keycode) as usize) * (per as usize);
    if idx < keysyms.len() {
        keysyms[idx]
    } else {
        0
    }
}

/// A pixmap format the X server supports: a depth and the bits each pixel takes.
#[derive(Clone, Copy, Debug)]
pub struct PixmapFormat {
    /// Depth.
    pub depth: u8,
    /// Bits per pixel.
    pub bits_per_pixel: u8,
}

/// Bytes per pixel for `depth`: from the first format of that depth, 4 when there is none.
pub open spec fn spec_bytes_per_pixel(formats: Seq<PixmapFormat>, depth: u8) -> int
    decreases formats.len(),
{
    if formats.len() == 0 {
        4
    } else if formats[0].depth == depth {
        formats[0].bits_per_pixel as int / 8
    } else {
        spec_bytes_per_pixel(formats.drop_first(), depth)
    }
}

/// Bytes per pixel the server uses for images of `depth`; see [`spec_bytes_per_pixel`].
pub fn bytes_per_pixel(formats: &Vec<PixmapFormat>, depth: u8) -> (n: usize)
    ensures
        n == spec_bytes_per_pixel(formats@, depth),
{
    let mut i: usize = 0;
    assert(formats@.subrange(0, formats@.len() as int) =~= formats@);
    while i < formats.len()
        invariant
            i <= formats@.len(),
            spec_bytes_per_pixel(formats@.subrange(i as int, formats@.len() as int), depth)
                == spec_bytes_per_pixel(formats@, depth),
        decreases formats.len() - i,
    {
        let f = formats[i];
        let ghost rest = formats@.subrange(i as int, formats@.len() as int);
        assert(rest[0] == f);
        if f.depth == depth {
            return (f.bits_per_pixel / 8) as usize;
        }
        assert(rest.drop_first() =~= formats@.subrange(i + 1, formats@.len() as int));
        i = i + 1;
    }
    assert(formats@.subrange(i as int, formats@.len() as int) =~= Seq::<PixmapFormat>::empty());
    4
}

/// A visual of the X screen and its red, green and blue masks.
#[derive(Clone, Copy, Debug)]
pub struct VisualMasks {
    /// Visual id.
    pub visual_id: u32,
    /// Red mask.
    pub red_mask: u32,
    /// Green mask.
    pub green_mask: u32,
    /// Blue mask.
    pub blue_mask: u32,
}

/// Masks of the first visual with id `visual_id`, in the order the screen lists them.
pub open spec fn spec_find_visual_masks(visuals: Seq<VisualMasks>, visual_id: u32) -> Option<(u32, u32, u32)>
    decreases visuals.len(),
{
    if visuals.len() == 0 {
        None
    } else if visuals[0].visual_id == visual_id {
        Some((visuals[0].red_mask, visuals[0].green_mask, visuals[0].blue_mask))
    } else {
        spec_find_visual_masks(visuals.drop_first(), visual_id)
    }
}

/// Finds the (red, green, blue) masks of the visual `visual_id`.
pub fn find_visual_masks(visuals: &Vec<VisualMasks>, visual_id: u32) -> (r: Option<(u32, u32, u32)>)
    ensures
        r == spec_find_visual_masks(visuals@, visual_id),
{
    let mut i: usize = 0;
    assert(visuals@.subrange(0, visuals@.len() as int) =~= visuals@);
    while i < visuals.len()
        invariant
            i <= visuals@.len(),
            spec_find_visual_masks(visuals@.subrange(i as int, visuals@.len() as int), visual_id)
                == spec_find_visual_masks(visuals@, visual_id),
        decreases visuals.len() - i,
    {
        let v = visuals[i];
        let ghost rest = visuals@.subrange(i as int, visuals@.len() as int);
        assert(rest[0] == v);
        if v.visual_id == visual_id {
            return Some((v.red_mask, v.green_mask, v.blue_mask));
        }
        assert(rest.drop_first() =~= visuals@.subrange(i + 1, visuals@.len() as int));
        i = i + 1;
    }
    assert(visuals@.subrange(i as int, visuals@.len() as int) =~= Seq::<VisualMasks>::empty());
    None
}

} // verus!

verus! {

/// The low 16 bits of `v` read as a signed 16-bit number.
pub open spec fn spec_signed_low_word(v: u64) -> int {
    let low = v as int % 65536;
    if low >= 32768 {
        low - 65536
    } else {
        low
    }
}

/// The low 16 bits of a Windows message parameter as a signed number (the X of a mouse
/// position).
pub fn signed_low_word(v: u64) -> (r: i32)
    ensures
        r == spec_signed_low_word(v),
{
    let low = (v % 65536) as i32;
    if low >= 32768 {
        low - 65536
    } else {
        low
    }
}

/// Bits 16 to 31 of a Windows message parameter as a signed number (the Y of a mouse
/// position, or a wheel delta).
pub fn signed_high_word(v: u64) -> (r: i32)
    ensures
        r == spec_signed_low_word(v / 65536),
{
    signed_low_word(v / 65536)
}


/// The keysym of a key code is read in that code's own row of the server's table: row
/// `detail - min_keycode`, `per` symbols wide, first column. Codes below `min_keycode`, and
/// rows past the end of the table, give 0. Two codes share a row only when they are equal
/// (for a non-zero width).
pub proof fn lemma_keysym_row(detail: u8, min_keycode: u8, keysyms: Seq<u32>, per: int)
    ensures
        detail < min_keycode ==> spec_keysym_for(detail, min_keycode, keysyms, per) == 0,
        detail >= min_keycode && 0 <= (detail - min_keycode) * per < keysyms.len()
            ==> spec_keysym_for(detail, min_keycode, keysyms, per) == keysyms[(detail - min_keycode) * per],
        detail >= min_keycode && per >= 0 && (detail - min_keycode) * per >= keysyms.len()
            ==> spec_keysym_for(detail, min_keycode, keysyms, per) == 0,
{
}

/// A table written row by row (`rows[k]` the symbols of key code `min_keycode + k`, each
/// row `per` symbols wide) gives each code the first symbol of its own row.
pub proof fn lemma_keysym_from_rows(rows: Seq<Seq<u32>>, min_keycode: u8, k: int, per: int)
    requires
        per > 0,
        0 <= k < rows.len(),
        min_keycode + k <= 255,
        forall|j: int| 0 <= j < rows.len() ==> (#[trigger] rows[j]).len() == per,
    ensures
        spec_keysym_for((min_keycode + k) as u8, min_keycode, rows.flatten(), per) == rows[k][0],
{
    lemma_flatten_index(rows, k, per);
    let d = (min_keycode + k) as u8;
    assert(d == min_keycode + k);
    assert(0 <= k * per < rows.len() * per) by (nonlinear_arith)
        requires 0 <= k < rows.len(), per > 0;
    assert((d - min_keycode) * per == k * per);
}

proof fn lemma_flatten_index(rows: Seq<Seq<u32>>, k: int, per: int)
    requires
        per > 0,
        0 <= k < rows.len(),
        forall|j: int| 0 <= j < rows.len() ==> (#[trigger] rows[j]).len() == per,
    ensures
        rows.flatten().len() == rows.len() * per,
        rows.flatten()[k * per] == rows[k][0],
    decreases rows.len(),
{
    lemma_flatten_len(rows, per);
    let rest = rows.drop_first();
    assert forall|j: int| 0 <= j < rest.len() implies (#[trigger] rest[j]).len() == per by {
        assert(rest[j] == rows[j + 1]);
    }
    assert(rows.flatten() == rows.first() + rest.flatten());
    if k > 0 {
        lemma_flatten_index(rest, k - 1, per);
        assert(rest[k - 1] == rows[k]);
        assert(k * per == per + (k - 1) * per) by (nonlinear_arith);
        assert(0 <= (k - 1) * per < rest.len() * per) by (nonlinear_arith)
            requires 1 <= k, k - 1 < rest.len(), per > 0;
        assert(rows.flatten()[k * per] == rest.flatten()[(k - 1) * per]);
    } else {
        assert(rows.first().len() == per);
        assert(rows.flatten()[0] == rows.first()[0]);
    }
}

proof fn lemma_flatten_len(rows: Seq<Seq<u32>>, per: int)
    requires
        forall|j: int| 0 <= j < rows.len() ==> (#[trigger] rows[j]).len() == per,
    ensures
        rows.flatten().len() == rows.len() * per,
    decreases rows.len(),
{
    if rows.len() > 0 {
        let rest = rows.drop_first();
        assert forall|j: int| 0 <= j < rest.len() implies (#[trigger] rest[j]).len() == per by {
            assert(rest[j] == rows[j + 1]);
        }
        lemma_flatten_len(rest, per);
        assert(rows.first().len() == per);
        assert(rows.len() * per == per + rest.len() * per) by (nonlinear_arith)
            requires rows.len() == rest.len() + 1;
    }
}

} // verus!
