//! Screen rectangles used to redraw only what changed: the magnifier's bounding box,
//! intersections and differences of boxes, and the split of an image upload into bands
//! of whole rows.

use vstd::prelude::*;
use crate::picker::CAPTURED_PIXELS_MAX;

verus! {

/// A rectangle in screen pixels: top-left corner, width and height.
#[derive(Clone, Copy, Debug, PartialEq, Eq, Structural)]
pub struct Rect {
    /// Left edge.
    pub x: i32,
    /// Top edge.
    pub y: i32,
    /// Width.
    pub w: i32,
    /// Height.
    pub h: i32,
}

impl Rect {
    /// Non-negative size, and right and bottom edges within the `i32` range.
    pub open spec fn wf(self) -> bool {
        &&& self.w >= 0
        &&& self.h >= 0
        &&& self.x + self.w <= i32::MAX
        &&& self.y + self.h <= i32::MAX
    }

    /// The pixel `(px, py)` lies in the rectangle.
    pub open spec fn contains(self, px: int, py: int) -> bool {
        self.x <= px < self.x + self.w && self.y <= py < self.y + self.h
    }
}

/// Overlap of two rectangles, `None` when it is empty.
pub open spec fn spec_intersect(a: Rect, b: Rect) -> Option<Rect> {
    let x = if a.x >= b.x { a.x } else { b.x };
    let y = if a.y >= b.y { a.y } else { b.y };
    let ar = a.x + a.w;
    let br = b.x + b.w;
    let ab = a.y + a.h;
    let bb = b.y + b.h;
    let x2 = if ar <= br { ar } else { br };
    let y2 = if ab <= bb { ab } else { bb };
    if x2 > x && y2 > y {
        Some(Rect { x, y, w: (x2 - x) as i32, h: (y2 - y) as i32 })
    } else {
        None
    }
}

/// Overlap of two rectangles, `None` when it is empty.
pub fn intersect(a: Rect, b: Rect) -> (r: Option<Rect>)
    requires
        a.wf(),
        b.wf(),
    ensures
        r == spec_intersect(a, b),
        r matches Some(i) ==> i.wf(),
        forall|px: int, py: int|
            (r matches Some(i) && i.contains(px, py)) <==> (a.contains(px, py) && b.contains(
                px,
                py,
            )),
{
    let x = if a.x >= b.x { a.x } else { b.x };
    let y = if a.y >= b.y { a.y } else { b.y };
    let ar = a.x + a.w;
    let br = b.x + b.w;
    let ab = a.y + a.h;
    let bb = b.y + b.h;
    let x2 = if ar <= br { ar } else { br };
    let y2 = if ab <= bb { ab } else { bb };
    if x2 > x && y2 > y {
        Some(Rect { x, y, w: x2 - x, h: y2 - y })
    } else {
        None
    }
}

/// The pieces of `a` outside `b`: `a` itself when they do not overlap; otherwise up to four
/// rectangles, the full-width bands above and below the overlap, then the parts left and
/// right of it at the overlap's height.
pub open spec fn spec_subtract(a: Rect, b: Rect) -> Seq<Rect> {
    match spec_intersect(a, b) {
        None => seq![a],
        Some(i) => {
            let top = if i.y > a.y {
                seq![Rect { x: a.x, y: a.y, w: a.w, h: (i.y - a.y) as i32 }]
            } else {
                seq![]
            };
            let a_bottom = a.y + a.h;
            let i_bottom = i.y + i.h;
            let bottom = if a_bottom > i_bottom {
                seq![Rect { x: a.x, y: i_bottom as i32, w: a.w, h: (a_bottom - i_bottom) as i32 }]
            } else {
                seq![]
            };
            let left = if i.x > a.x {
                seq![Rect { x: a.x, y: i.y, w: (i.x - a.x) as i32, h: i.h }]
            } else {
                seq![]
            };
            let a_right = a.x + a.w;
            let i_right = i.x + i.w;
            let right = if a_right > i_right {
                seq![Rect { x: i_right as i32, y: i.y, w: (a_right - i_right) as i32, h: i.h }]
            } else {
                seq![]
            };
            top + bottom + left + right
        },
    }
}

/// The parts of `a` not covered by `b`; see [`spec_subtract`].
pub fn subtract(a: Rect, b: Rect) -> (out: Vec<Rect>)
    requires
        a.wf(),
        b.wf(),
    ensures
        out@ == spec_subtract(a, b),
{
    let i = match intersect(a, b) {
        None => {
            let v = vec![a];
            assert(v@ =~= seq![a]);
            return v;
        },
        Some(i) => i,
    };
    let mut out: Vec<Rect> = Vec::new();
    if i.y > a.y {
        out.push(Rect { x: a.x, y: a.y, w: a.w, h: i.y - a.y });
    }
    let a_bottom = a.y + a.h;
    let i_bottom = i.y + i.h;
    if a_bottom > i_bottom {
        out.push(Rect { x: a.x, y: i_bottom, w: a.w, h: a_bottom - i_bottom });
    }
    if i.x > a.x {
        out.push(Rect { x: a.x, y: i.y, w: i.x - a.x, h: i.h });
    }
    let a_right = a.x + a.w;
    let i_right = i.x + i.w;
    if a_right > i_right {
        out.push(Rect { x: i_right, y: i.y, w: a_right - i_right, h: i.h });
    }
    assert(out@ =~= spec_subtract(a, b));
    out
}

/// The pieces of `a` outside `b` are at most four well-formed rectangles that never
/// overlap one another or `b`, and together they hold exactly the pixels of `a` outside
/// `b`: erasing them and drawing `b` repaints all of `a` once.
pub proof fn lemma_subtract_partition(a: Rect, b: Rect)
    requires
        a.wf(),
        b.wf(),
    ensures
        spec_subtract(a, b).len() <= 4,
        forall|k: int| 0 <= k < spec_subtract(a, b).len() ==> (#[trigger] spec_subtract(a, b)[k]).wf(),
        forall|px: int, py: int|
            (a.contains(px, py) && !b.contains(px, py)) <==> exists|k: int|
                0 <= k < spec_subtract(a, b).len() && #[trigger] spec_subtract(a, b)[k].contains(
                    px,
                    py,
                ),
        forall|k1: int, k2: int, px: int, py: int|
            0 <= k1 < k2 < spec_subtract(a, b).len() && #[trigger] spec_subtract(a, b)[k1].contains(
                px,
                py,
            ) ==> !#[trigger] spec_subtract(a, b)[k2].contains(px, py),
{
    let s = spec_subtract(a, b);
    match spec_intersect(a, b) {
        None => {
            assert(s =~= seq![a]);
            assert forall|px: int, py: int|
                (a.contains(px, py) && !b.contains(px, py)) <==> exists|k: int|
                    0 <= k < s.len() && #[trigger] s[k].contains(px, py) by {
                if a.contains(px, py) && !b.contains(px, py) {
                    assert(s[0].contains(px, py));
                }
            }
        },
        Some(i) => {
            assert forall|px: int, py: int|
                (a.contains(px, py) && !b.contains(px, py)) <==> exists|k: int|
                    0 <= k < s.len() && #[trigger] s[k].contains(px, py) by {
                if a.contains(px, py) && !b.contains(px, py) {
                    let k = choose_piece(a, b, i, px, py);
                    assert(s[k].contains(px, py));
                }
            }
        },
    }
}

/// The index of the piece of `spec_subtract(a, b)` that holds a pixel of `a` outside `b`.
proof fn choose_piece(a: Rect, b: Rect, i: Rect, px: int, py: int) -> (k: int)
    requires
        a.wf(),
        b.wf(),
        spec_intersect(a, b) == Some(i),
        a.contains(px, py),
        !b.contains(px, py),
    ensures
        0 <= k < spec_subtract(a, b).len(),
        spec_subtract(a, b)[k].contains(px, py),
{
    let s = spec_subtract(a, b);
    let nt: int = if i.y > a.y { 1 } else { 0 };
    let nb: int = if a.y + a.h > i.y + i.h { 1 } else { 0 };
    let nl: int = if i.x > a.x { 1 } else { 0 };
    if py < i.y {
        0
    } else if py >= i.y + i.h {
        nt
    } else if px < i.x {
        nt + nb
    } else {
        nt + nb + nl
    }
}

/// Box covering the magnifier drawn around `(cx, cy)`, `half` pixels each way, cut to the
/// `screen_w` × `screen_h` screen.
pub open spec fn spec_magnifier_rect(cx: int, cy: int, half: int, screen_w: int, screen_h: int) -> Rect {
    let x = if cx - half > 0 { cx - half } else { 0 };
    let y = if cy - half > 0 { cy - half } else { 0 };
    let x2 = if cx + half < screen_w { cx + half } else { screen_w };
    let y2 = if cy + half < screen_h { cy + half } else { screen_h };
    Rect {
        x: x as i32,
        y: y as i32,
        w: (if x2 - x > 0 { x2 - x } else { 0 }) as i32,
        h: (if y2 - y > 0 { y2 - y } else { 0 }) as i32,
    }
}

/// Box covering the magnifier drawn around `(cx, cy)`, `half` pixels each way, cut to the
/// screen.
pub fn magnifier_rect(cx: i32, cy: i32, half: i32, screen_w: i32, screen_h: i32) -> (r: Rect)
    requires
        half >= 0,
        screen_w >= 0,
        screen_h >= 0,
        i32::MIN <= cx - half,
        cx + half <= i32::MAX,
        i32::MIN <= cy - half,
        cy + half <= i32::MAX,
    ensures
        r == spec_magnifier_rect(cx as int, cy as int, half as int, screen_w as int, screen_h as int),
        r.wf(),
        0 <= r.x,
        0 <= r.y,
        r.x + r.w <= screen_w || r.w == 0,
        r.y + r.h <= screen_h || r.h == 0,
{
    let x = if cx - half > 0 { cx - half } else { 0 };
    let y = if cy - half > 0 { cy - half } else { 0 };
    let x2 = if cx + half < screen_w { cx + half } else { screen_w };
    let y2 = if cy + half < screen_h { cy + half } else { screen_h };
    let w = if x2 > x { x2 - x } else { 0 };
    let h = if y2 > y { y2 - y } else { 0 };
    Rect { x, y, w, h }
}

/// Rows sent per request when an image of rows of `row_bytes` bytes is sent in requests of
/// at most `max_request_bytes` bytes, 64 of them kept for the request header; at least one.
pub open spec fn spec_rows_per_request(row_bytes: int, max_request_bytes: int) -> int {
    let room = if max_request_bytes > 64 { max_request_bytes - 64 } else { 0 };
    let per_row = if row_bytes > 1 { row_bytes } else { 1 };
    let rows = room / per_row;
    if rows > 1 { rows } else { 1 }
}

/// Splits `height` rows into consecutive bands `(first row, row count)` of
/// [`spec_rows_per_request`] rows each, the last one possibly shorter.
pub fn row_bands(height: i32, row_bytes: usize, max_request_bytes: usize) -> (bands: Vec<(i32, i32)>)
    ensures
        bands@.len() > 0 ==> bands@[0].0 == 0,
        height <= 0 ==> bands@.len() == 0,
        height > 0 ==> bands@.len() > 0 && bands@.last().0 + bands@.last().1 == height,
        forall|k: int|
            0 <= k < bands@.len() ==> {
                let b = #[trigger] bands@[k];
                &&& 1 <= b.1 <= spec_rows_per_request(row_bytes as int, max_request_bytes as int)
                &&& (k + 1 < bands@.len() ==> b.1 == spec_rows_per_request(
                    row_bytes as int,
                    max_request_bytes as int,
                ) && bands@[k + 1].0 == b.0 + b.1)
            },
{
    let room = if max_request_bytes > 64 { max_request_bytes - 64 } else { 0 };
    let per_row = if row_bytes > 1 { row_bytes } else { 1 };
    let rows = room / per_row;
    let max_rows: usize = if rows > 1 { rows } else { 1 };
    let ghost m = spec_rows_per_request(row_bytes as int, max_request_bytes as int);
    assert(max_rows == m);
    let mut bands: Vec<(i32, i32)> = Vec::new();
    let mut row: i32 = 0;
    while row < height
        invariant
            max_rows == m,
            m >= 1,
            0 <= row,
            height > 0 ==> row <= height,
            height <= 0 ==> bands@.len() == 0,
            bands@.len() == 0 ==> row == 0,
            bands@.len() > 0 ==> bands@[0].0 == 0 && bands@.last().0 + bands@.last().1 == row,
            forall|k: int|
                0 <= k < bands@.len() ==> {
                    let b = #[trigger] bands@[k];
                    &&& 1 <= b.1 <= m
                    &&& (k + 1 < bands@.len() ==> b.1 == m && bands@[k + 1].0 == b.0 + b.1)
                },
            forall|k: int|
                0 <= k < bands@.len() && (#[trigger] bands@[k]).1 < m ==> bands@[k].0 + bands@[k].1
                    == row && row == height,
        decreases height - row,
    {
        let left = (height - row) as usize;
        let band_h: i32 = if left < max_rows { left as i32 } else { max_rows as i32 };
        let ghost before = bands@;
        bands.push((row, band_h));
        proof {
            assert forall|k: int| 0 <= k < bands@.len() implies {
                let b = #[trigger] bands@[k];
                &&& 1 <= b.1 <= m
                &&& (k + 1 < bands@.len() ==> b.1 == m && bands@[k + 1].0 == b.0 + b.1)
            } by {
                if k + 1 < bands@.len() {
                    assert(bands@[k] == before[k]);
                }
            }
            assert forall|k: int|
                0 <= k < bands@.len() && (#[trigger] bands@[k]).1 < m implies bands@[k].0
                + bands@[k].1 == row + band_h && row + band_h == height by {
                if k + 1 < bands@.len() {
                    assert(bands@[k] == before[k]);
                }
            }
        }
        row = row + band_h;
    }
    bands
}

} // verus!

verus! {

/// Half the side of the box the X11 magnifier needs around the cursor: half the zoomed
/// pixels (`captured` × `zoom`), rounded up, plus the ring's `border`, two text heights
/// (`font_size`) and 6 pixels of margin for the curved text; `i32::MAX` when larger.
pub open spec fn spec_magnifier_half(captured: u32, zoom: u32, border: u32, font_size: u32) -> int {
    let v = (captured as int * zoom as int + 1) / 2 + border + 2 * font_size + 6;
    if v > i32::MAX { i32::MAX as int } else { v }
}

/// Half the side of the magnifier box; see [`spec_magnifier_half`].
pub fn magnifier_half(captured: u32, zoom: u32, border: u32, font_size: u32) -> (h: i32)
    ensures
        h == spec_magnifier_half(captured, zoom, border, font_size),
        h >= 0,
{
    proof {
        assert(captured as int * zoom as int <= 0xFFFF_FFFF * 0xFFFF_FFFF) by (nonlinear_arith)
            requires captured <= 0xFFFF_FFFFu32, zoom <= 0xFFFF_FFFFu32;
    }
    let v: u64 = ((captured as u64) * (zoom as u64) + 1) / 2 + border as u64 + 2 * (font_size as u64) + 6;
    if v > i32::MAX as u64 {
        i32::MAX
    } else {
        v as i32
    }
}

/// Side of the working buffer the X11 overlay draws the magnifier in: the box at the
/// largest captured-pixel count ([`CAPTURED_PIXELS_MAX`]) and the largest zoom
/// `zoom_max`, plus 2 pixels.
pub open spec fn spec_work_buffer_size(zoom_max: u32, border: u32, font_size: u32) -> int {
    spec_magnifier_half(CAPTURED_PIXELS_MAX, zoom_max, border, font_size) * 2 + 2
}

/// Side of the magnifier's working buffer; see [`spec_work_buffer_size`]. The size must
/// fit an `i32`.
pub fn work_buffer_size(zoom_max: u32, border: u32, font_size: u32) -> (s: i32)
    requires
        spec_work_buffer_size(zoom_max, border, font_size) <= i32::MAX,
    ensures
        s == spec_work_buffer_size(zoom_max, border, font_size),
{
    magnifier_half(CAPTURED_PIXELS_MAX, zoom_max, border, font_size) * 2 + 2
}

/// The working buffer always holds the magnifier: for any captured-pixel count up to
/// [`CAPTURED_PIXELS_MAX`] and any zoom up to `zoom_max`, the magnifier box around any
/// cursor, cut to any screen, is no wider and no taller than the buffer.
pub proof fn lemma_magnifier_fits_work_buffer(
    captured: u32,
    zoom: u32,
    zoom_max: u32,
    border: u32,
    font_size: u32,
    cx: int,
    cy: int,
    screen_w: int,
    screen_h: int,
)
    requires
        captured <= CAPTURED_PIXELS_MAX,
        zoom <= zoom_max,
    ensures
        ({
            let r = spec_magnifier_rect(
                cx,
                cy,
                spec_magnifier_half(captured, zoom, border, font_size),
                screen_w,
                screen_h,
            );
            &&& r.w <= spec_work_buffer_size(zoom_max, border, font_size)
            &&& r.h <= spec_work_buffer_size(zoom_max, border, font_size)
        }),
{
    assert(captured as int * zoom as int <= 21 * zoom_max as int) by (nonlinear_arith)
        requires captured <= 21, zoom <= zoom_max;
}

/// Overlay windows to redraw after the cursor moved from the screen at index `old` to the
/// one at `new` (`None`: on no screen): that screen alone when it did not change, else the
/// old one then the new one, those that exist.
pub open spec fn spec_screens_to_refresh(old: Option<usize>, new: Option<usize>) -> Seq<usize> {
    let one = |o: Option<usize>| match o {
        Some(i) => seq![i],
        None => Seq::<usize>::empty(),
    };
    if old == new {
        one(new)
    } else {
        one(old) + one(new)
    }
}

/// Overlay windows to redraw after a cursor move; see [`spec_screens_to_refresh`].
pub fn screens_to_refresh(old: Option<usize>, new: Option<usize>) -> (v: Vec<usize>)
    ensures
        v@ == spec_screens_to_refresh(old, new),
{
    let mut v: Vec<usize> = Vec::new();
    let same = match (old, new) {
        (Some(a), Some(b)) => a == b,
        (None, None) => true,
        _ => false,
    };
    if !same {
        if let Some(i) = old {
            v.push(i);
        }
    }
    if let Some(i) = new {
        v.push(i);
    }
    assert(v@ =~= spec_screens_to_refresh(old, new));
    v
}

} // verus!
